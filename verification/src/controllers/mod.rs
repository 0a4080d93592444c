//! What the pages show.

pub mod admin_users;
pub mod dashboard;

use vstd::prelude::*;

use crate::bootstrap::shared_user;
use crate::controllers::admin_users::admin_row;
use crate::controllers::dashboard::{dashboard, user_info};
use crate::models::profile::first_profile;
use crate::models::user::{UserColumn, UserRow};

verus! {

/// A page to show: the component that renders it, and the component's data.
#[derive(Debug, PartialEq, Eq)]
pub struct Page<P> {
    pub component: &'static str,
    pub props: P,
}

/// No page depends on a hidden column: two accounts that agree in every other column are
/// shown alike, on the dashboard, in the data that every page is given, and in the
/// administrators' list.
pub proof fn law_pages_reveal_no_hidden_column(
    a: UserRow,
    b: UserRow,
    roles: Seq<Seq<char>>,
    created_at: Seq<char>,
)
    requires
        forall|column: UserColumn| !column.hidden() ==> #[trigger] a.agrees(b, column),
    ensures
        dashboard(a) == dashboard(b),
        shared_user(Some(a)) == shared_user(Some(b)),
        admin_row(a, roles, created_at) == admin_row(b, roles, created_at),
{
    assert(a.agrees(b, UserColumn::Id));
    assert(a.agrees(b, UserColumn::Name));
    assert(a.agrees(b, UserColumn::Email));
    assert(a.agrees(b, UserColumn::EmailVerifiedAt));
}

/// An account goes by one name, and its address counts as verified or not, alike
/// everywhere: on the dashboard, in the data that every page is given, in the
/// administrators' list, and on the profile that it starts with.
pub proof fn law_pages_agree_about_an_account(
    user: UserRow,
    roles: Seq<Seq<char>>,
    created_at: Seq<char>,
)
    ensures
        shared_user(Some(user)) == Some(dashboard(user).user),
        admin_row(user, roles, created_at).name == dashboard(user).user.name,
        admin_row(user, roles, created_at).email == dashboard(user).user.email,
        admin_row(user, roles, created_at).id == dashboard(user).user.id,
        admin_row(user, roles, created_at).verified == dashboard(user).email_verified,
        first_profile(user).display_name == user_info(user).name,
{
}

/// Every page shows an account by its own name, whatever it is, or as "Account" if it has none,
/// with its own id and address, and as verified exactly if it has a verification time.
pub proof fn law_pages_show_the_columns(
    user: UserRow,
    roles: Seq<Seq<char>>,
    created_at: Seq<char>,
)
    ensures
        user.name matches Some(name) ==> {
            &&& dashboard(user).user.name == name
            &&& shared_user(Some(user)) matches Some(shared) && shared.name == name
            &&& admin_row(user, roles, created_at).name == name
            &&& first_profile(user).display_name == name
        },
        user.name is None ==> {
            &&& dashboard(user).user.name == "Account"@
            &&& shared_user(Some(user)) matches Some(shared) && shared.name == "Account"@
            &&& admin_row(user, roles, created_at).name == "Account"@
            &&& first_profile(user).display_name == "Account"@
        },
        dashboard(user).user.id == user.id,
        dashboard(user).user.email == user.email,
        shared_user(Some(user)) matches Some(shared) && shared.id == user.id && shared.email
            == user.email,
        shared_user(None) is None,
        admin_row(user, roles, created_at).id == user.id,
        admin_row(user, roles, created_at).email == user.email,
        admin_row(user, roles, created_at).roles == roles,
        admin_row(user, roles, created_at).created_at == created_at,
        dashboard(user).email_verified <==> user.email_verified_at is Some,
        admin_row(user, roles, created_at).verified <==> user.email_verified_at is Some,
{
}

} // verus!
