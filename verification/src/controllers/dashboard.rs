//! The dashboard: the page that a signed-in account lands on.

use vstd::prelude::*;

use crate::controllers::Page;
use crate::models::user::{User, UserRow};

verus! {

/// The component that renders the dashboard.
pub const COMPONENT: &'static str = "Dashboard";

/// What a page knows of the signed-in account.
#[derive(Debug, PartialEq, Eq)]
pub struct UserInfo {
    pub id: i64,
    pub name: String,
    pub email: String,
}

/// The dashboard's data.
#[derive(Debug, PartialEq, Eq)]
pub struct DashboardProps {
    pub user: UserInfo,
    pub cards: Vec<DashboardCard>,
    pub actions: Vec<DashboardAction>,
    pub account: AccountStatus,
}

/// A card that reports the state of one area.
#[derive(Debug, PartialEq, Eq)]
pub struct DashboardCard {
    pub title: String,
    pub value: String,
    pub helper: String,
    pub icon: String,
}

/// A link to something that the account can do.
#[derive(Debug, PartialEq, Eq)]
pub struct DashboardAction {
    pub title: String,
    pub body: String,
    pub href: String,
    pub icon: String,
}

/// The state of the signed-in account.
#[derive(Debug, PartialEq, Eq)]
pub struct AccountStatus {
    pub email_verified: bool,
}

/// Why there is no dashboard to show.
#[derive(Debug, PartialEq, Eq)]
pub enum DashboardError<E> {
    /// Nobody is signed in.
    Unauthorized,
    /// The signed-in account could not be read.
    Lookup(E),
}

/// The content of a [`UserInfo`].
pub ghost struct UserInfoView {
    pub id: i64,
    pub name: Seq<char>,
    pub email: Seq<char>,
}

/// The content of a [`DashboardCard`].
pub ghost struct CardView {
    pub title: Seq<char>,
    pub value: Seq<char>,
    pub helper: Seq<char>,
    pub icon: Seq<char>,
}

/// The content of a [`DashboardAction`].
pub ghost struct ActionView {
    pub title: Seq<char>,
    pub body: Seq<char>,
    pub href: Seq<char>,
    pub icon: Seq<char>,
}

/// The content of a [`DashboardProps`].
pub ghost struct DashboardView {
    pub user: UserInfoView,
    pub cards: Seq<CardView>,
    pub actions: Seq<ActionView>,
    pub email_verified: bool,
}

impl View for UserInfo {
    type V = UserInfoView;

    open spec fn view(&self) -> UserInfoView {
        UserInfoView { id: self.id, name: self.name@, email: self.email@ }
    }
}

impl DeepView for UserInfo {
    type V = UserInfoView;

    open spec fn deep_view(&self) -> UserInfoView {
        self@
    }
}

impl DeepView for DashboardCard {
    type V = CardView;

    open spec fn deep_view(&self) -> CardView {
        CardView {
            title: self.title@,
            value: self.value@,
            helper: self.helper@,
            icon: self.icon@,
        }
    }
}

impl DeepView for DashboardAction {
    type V = ActionView;

    open spec fn deep_view(&self) -> ActionView {
        ActionView {
            title: self.title@,
            body: self.body@,
            href: self.href@,
            icon: self.icon@,
        }
    }
}

impl View for DashboardProps {
    type V = DashboardView;

    open spec fn view(&self) -> DashboardView {
        DashboardView {
            user: self.user@,
            cards: self.cards.deep_view(),
            actions: self.actions.deep_view(),
            email_verified: self.account.email_verified,
        }
    }
}

/// What pages show of an account.
pub open spec fn user_info(user: UserRow) -> UserInfoView {
    UserInfoView { id: user.id, name: user.display_name(), email: user.email }
}

/// The cards of every dashboard.
pub open spec fn dashboard_cards() -> Seq<CardView> {
    seq![
        CardView {
            title: "Starter kit"@,
            value: "Ready"@,
            helper: "Landing, auth, profile, and static assets are wired."@,
            icon: "mdi-rocket-launch-outline"@,
        },
        CardView {
            title: "Auth flows"@,
            value: "Verified"@,
            helper: "Email verification, password reset, and profile updates are active."@,
            icon: "mdi-shield-check-outline"@,
        },
        CardView {
            title: "Content engine"@,
            value: "Planned"@,
            helper: "Docs and articles are next in the kit roadmap."@,
            icon: "mdi-file-document-edit-outline"@,
        },
    ]
}

/// The actions of every dashboard.
pub open spec fn dashboard_actions() -> Seq<ActionView> {
    seq![
        ActionView {
            title: "Manage profile"@,
            body: "Update your account details, password, and verification status."@,
            href: "/profile"@,
            icon: "mdi-account-cog-outline"@,
        },
        ActionView {
            title: "Review landing page"@,
            body: "Check the public kit homepage and starter-kit messaging."@,
            href: "/"@,
            icon: "mdi-home-search-outline"@,
        },
    ]
}

/// The dashboard of an account.
pub open spec fn dashboard(user: UserRow) -> DashboardView {
    DashboardView {
        user: user_info(user),
        cards: dashboard_cards(),
        actions: dashboard_actions(),
        email_verified: user.email_verified(),
    }
}

impl UserInfo {
    /// What pages show of `user`.
    pub fn of(user: User) -> (info: UserInfo)
        ensures
            info@ == user_info(user@),
            info.id == user.id,
            info.name@ == (match user.name {
                Some(name) => name@,
                None => "Account"@,
            }),
            info.email@ == user.email@,
    {
        UserInfo { id: user.id, name: user.display_name(), email: user.email }
    }
}

fn cards() -> (cards: Vec<DashboardCard>)
    ensures
        cards.deep_view() == dashboard_cards(),
{
    let cards = vec![
        DashboardCard {
            title: "Starter kit".to_owned(),
            value: "Ready".to_owned(),
            helper: "Landing, auth, profile, and static assets are wired.".to_owned(),
            icon: "mdi-rocket-launch-outline".to_owned(),
        },
        DashboardCard {
            title: "Auth flows".to_owned(),
            value: "Verified".to_owned(),
            helper: "Email verification, password reset, and profile updates are active."
                .to_owned(),
            icon: "mdi-shield-check-outline".to_owned(),
        },
        DashboardCard {
            title: "Content engine".to_owned(),
            value: "Planned".to_owned(),
            helper: "Docs and articles are next in the kit roadmap.".to_owned(),
            icon: "mdi-file-document-edit-outline".to_owned(),
        },
    ];
    assert(cards.deep_view() =~= dashboard_cards());
    cards
}

fn actions() -> (actions: Vec<DashboardAction>)
    ensures
        actions.deep_view() == dashboard_actions(),
{
    let actions = vec![
        DashboardAction {
            title: "Manage profile".to_owned(),
            body: "Update your account details, password, and verification status.".to_owned(),
            href: "/profile".to_owned(),
            icon: "mdi-account-cog-outline".to_owned(),
        },
        DashboardAction {
            title: "Review landing page".to_owned(),
            body: "Check the public kit homepage and starter-kit messaging.".to_owned(),
            href: "/".to_owned(),
            icon: "mdi-home-search-outline".to_owned(),
        },
    ];
    assert(actions.deep_view() =~= dashboard_actions());
    actions
}

/// The dashboard of the signed-in account, which `user` is the reply about. Nobody
/// signed in is an error of its own; a failure to find out is passed on.
pub fn index<E>(user: Result<Option<User>, E>) -> (shown: Result<
    Page<DashboardProps>,
    DashboardError<E>,
>)
    ensures
        match user {
            Ok(Some(account)) => shown matches Ok(page) && page.component@ == "Dashboard"@
                && page.props@ == dashboard(account@) && page.props.account.email_verified
                == (account.email_verified_at is Some),
            Ok(None) => shown == Err::<Page<DashboardProps>, DashboardError<E>>(
                DashboardError::Unauthorized,
            ),
            Err(error) => shown == Err::<Page<DashboardProps>, DashboardError<E>>(
                DashboardError::Lookup(error),
            ),
        },
{
    match user {
        Ok(Some(account)) => {
            let email_verified = account.is_email_verified();
            let props = DashboardProps {
                user: UserInfo::of(account),
                cards: cards(),
                actions: actions(),
                account: AccountStatus { email_verified },
            };
            Ok(Page { component: COMPONENT, props })
        },
        Ok(None) => Err(DashboardError::Unauthorized),
        Err(error) => Err(DashboardError::Lookup(error)),
    }
}

/// What pages show of an account is its id, its address and its name as they stand, or
/// "Account" for a missing name.
pub proof fn law_user_info_is_taken_from_the_account(info: UserInfo, user: User)
    requires
        info@ == user_info(user@),
    ensures
        info.id == user.id,
        info.email@ == user.email@,
        user.name matches Some(name) ==> info.name@ == name@,
        user.name is None ==> info.name@ == "Account"@,
{
}

/// The dashboard of an account shows that account, and its address as verified exactly if it
/// has a verification time, whatever time it is.
pub proof fn law_dashboard_shows_the_account(props: DashboardProps, user: User)
    requires
        props@ == dashboard(user@),
    ensures
        props.user.id == user.id,
        props.user.email@ == user.email@,
        user.name matches Some(name) ==> props.user.name@ == name@,
        user.name is None ==> props.user.name@ == "Account"@,
        props.account.email_verified <==> user.email_verified_at is Some,
{
}

/// Whether `card` holds these texts.
pub open spec fn card_reads(
    card: DashboardCard,
    title: Seq<char>,
    value: Seq<char>,
    helper: Seq<char>,
    icon: Seq<char>,
) -> bool {
    card.title@ == title && card.value@ == value && card.helper@ == helper && card.icon@ == icon
}

/// Whether `action` holds these texts.
pub open spec fn action_reads(
    action: DashboardAction,
    title: Seq<char>,
    body: Seq<char>,
    href: Seq<char>,
    icon: Seq<char>,
) -> bool {
    action.title@ == title && action.body@ == body && action.href@ == href && action.icon@ == icon
}

/// Every dashboard, whoever's it is, has the same three cards and the same two actions.
pub proof fn law_every_dashboard_has_the_same_cards_and_actions(props: DashboardProps, user: User)
    requires
        props@ == dashboard(user@),
    ensures
        props.cards@.len() == 3,
        card_reads(
            props.cards@[0],
            "Starter kit"@,
            "Ready"@,
            "Landing, auth, profile, and static assets are wired."@,
            "mdi-rocket-launch-outline"@,
        ),
        card_reads(
            props.cards@[1],
            "Auth flows"@,
            "Verified"@,
            "Email verification, password reset, and profile updates are active."@,
            "mdi-shield-check-outline"@,
        ),
        card_reads(
            props.cards@[2],
            "Content engine"@,
            "Planned"@,
            "Docs and articles are next in the kit roadmap."@,
            "mdi-file-document-edit-outline"@,
        ),
        props.actions@.len() == 2,
        action_reads(
            props.actions@[0],
            "Manage profile"@,
            "Update your account details, password, and verification status."@,
            "/profile"@,
            "mdi-account-cog-outline"@,
        ),
        action_reads(
            props.actions@[1],
            "Review landing page"@,
            "Check the public kit homepage and starter-kit messaging."@,
            "/"@,
            "mdi-home-search-outline"@,
        ),
{
    assert(props.cards.deep_view().len() == 3);
    assert(props.cards.deep_view()[0] == props.cards@[0].deep_view());
    assert(props.cards.deep_view()[1] == props.cards@[1].deep_view());
    assert(props.cards.deep_view()[2] == props.cards@[2].deep_view());
    assert(props.actions.deep_view().len() == 2);
    assert(props.actions.deep_view()[0] == props.actions@[0].deep_view());
    assert(props.actions.deep_view()[1] == props.actions@[1].deep_view());
}

} // verus!
