//! The administrators' list of accounts.

use vstd::prelude::*;

use crate::controllers::Page;
use crate::datetime::rfc3339;
use crate::models::user::{User, UserColumn, UserRow};

verus! {

/// The component that renders the list.
pub const COMPONENT: &'static str = "admin/users/Index";

/// The roles that the list reports, in the order in which it reports them.
pub const ROLES: [&'static str; 5] = ["admin", "moderator", "author", "contributor", "member"];

/// One account of the list.
#[derive(Debug, PartialEq, Eq)]
pub struct AdminUserRow {
    pub id: i64,
    pub name: String,
    pub email: String,
    pub verified: bool,
    pub roles: Vec<String>,
    pub created_at: String,
}

/// The list's data.
#[derive(Debug, PartialEq, Eq)]
pub struct AdminUsersIndexProps {
    pub users: Vec<AdminUserRow>,
}

/// The content of an [`AdminUserRow`].
pub ghost struct AdminUserRowView {
    pub id: i64,
    pub name: Seq<char>,
    pub email: Seq<char>,
    pub verified: bool,
    pub roles: Seq<Seq<char>>,
    pub created_at: Seq<char>,
}

impl DeepView for AdminUserRow {
    type V = AdminUserRowView;

    open spec fn deep_view(&self) -> AdminUserRowView {
        AdminUserRowView {
            id: self.id,
            name: self.name@,
            email: self.email@,
            verified: self.verified,
            roles: self.roles.deep_view(),
            created_at: self.created_at@,
        }
    }
}

/// The name of the role at `index`.
pub open spec fn role_name(index: int) -> Seq<char> {
    ROLES@[index]@
}

/// The names of the roles that are held, where `held` answers for the roles in their
/// order.
pub open spec fn roles_held(held: Seq<bool>) -> Seq<Seq<char>>
    decreases held.len(),
{
    if held.len() == 0 {
        Seq::empty()
    } else if held.last() {
        roles_held(held.drop_last()).push(role_name(held.len() - 1))
    } else {
        roles_held(held.drop_last())
    }
}

/// The row of an account with these roles and this text for its creation time.
pub open spec fn admin_row(
    user: UserRow,
    roles: Seq<Seq<char>>,
    created_at: Seq<char>,
) -> AdminUserRowView {
    AdminUserRowView {
        id: user.id,
        name: user.display_name(),
        email: user.email,
        verified: user.email_verified(),
        roles,
        created_at,
    }
}

/// The answers about the account at `index`: one for each role.
pub open spec fn answers_for(answers: Seq<bool>, index: int) -> Seq<bool> {
    answers.subrange(5 * index, 5 * (index + 1))
}

/// The row of the account at `index`, given the answers about all accounts in turn.
pub open spec fn listed_row(users: Seq<User>, answers: Seq<bool>, index: int) -> AdminUserRowView {
    let user = users[index]@;
    admin_row(
        user,
        roles_held(answers_for(answers, index)),
        rfc3339(user.created_at.seconds, user.created_at.nanos),
    )
}

/// The first `count` rows of the list.
pub open spec fn listed_rows(users: Seq<User>, answers: Seq<bool>, count: nat) -> Seq<
    AdminUserRowView,
> {
    Seq::new(count, |index: int| listed_row(users, answers, index))
}

impl AdminUserRow {
    /// The row of `user`, with the roles they hold and the text of their creation time.
    pub fn new(user: &User, roles: Vec<String>, created_at: String) -> (row: AdminUserRow)
        ensures
            row.deep_view() == admin_row(user@, roles.deep_view(), created_at@),
            row.id == user.id,
            row.name@ == (match user.name {
                Some(name) => name@,
                None => "Account"@,
            }),
            row.email@ == user.email@,
            row.verified == (user.email_verified_at is Some),
            row.roles == roles,
            row.created_at == created_at,
    {
        AdminUserRow {
            id: user.id,
            name: user.display_name(),
            email: user.email.clone(),
            verified: user.is_email_verified(),
            roles,
            created_at,
        }
    }
}

/// What comes next on the way to the list.
pub enum UsersStep<E> {
    /// Ask whether an account holds a role, and report through [`RoleSurvey::answer`].
    Ask(RoleSurvey),
    /// The list is complete.
    Render(Page<AdminUsersIndexProps>),
    /// The list cannot be had.
    Fail(E),
}

/// Where the list stands when `answers` have been given about `users`: at the next
/// question, or complete when every account has been asked about for every role.
pub open spec fn stands_at<E>(step: UsersStep<E>, users: Seq<User>, answers: Seq<bool>) -> bool {
    if answers.len() == 5 * users.len() {
        step matches UsersStep::Render(page) && page.component@ == "admin/users/Index"@
            && page.props.users.deep_view() == listed_rows(users, answers, users.len())
    } else {
        step matches UsersStep::Ask(survey) && survey.users() == users && survey.answers()
            == answers
    }
}

/// The round of questions about who holds which role: account by account, and for each
/// account role by role.
pub struct RoleSurvey {
    users: Vec<User>,
    rows: Vec<AdminUserRow>,
    roles: Vec<String>,
    asked: usize,
    answers: Ghost<Seq<bool>>,
}

impl RoleSurvey {
    /// The accounts that are asked about.
    pub closed spec fn users(self) -> Seq<User> {
        self.users@
    }

    /// The answers so far.
    pub closed spec fn answers(self) -> Seq<bool> {
        self.answers@
    }

    #[verifier::type_invariant]
    spec fn well_formed(self) -> bool {
        let done = 5 * self.rows@.len();
        &&& self.rows@.len() < self.users@.len()
        &&& self.asked < 5
        &&& self.answers@.len() == done + self.asked
        &&& self.rows.deep_view() == listed_rows(self.users@, self.answers@, self.rows@.len())
        &&& self.roles.deep_view() == roles_held(self.answers@.skip(done as int))
    }

    /// The position, among the accounts, of the one that is asked about next.
    pub fn user_index(&self) -> (index: usize)
        ensures
            index < self.users().len(),
            index == self.answers().len() / 5,
    {
        proof {
            use_type_invariant(self);
        }
        self.rows.len()
    }

    /// The role that is asked about next.
    pub fn role(&self) -> (role: &'static str)
        ensures
            role@ == role_name((self.answers().len() % 5) as int),
    {
        proof {
            use_type_invariant(self);
        }
        ROLES[self.asked]
    }

    /// Takes the answer to the question, and goes on to the next. A failed question
    /// ends the round.
    pub fn answer<E>(self, reply: Result<bool, E>) -> (step: UsersStep<E>)
        ensures
            match reply {
                Ok(held) => stands_at(step, self.users(), self.answers().push(held)),
                Err(error) => step == UsersStep::Fail(error),
            },
    {
        proof {
            use_type_invariant(&self);
        }
        let held = match reply {
            Ok(held) => held,
            Err(error) => {
                return UsersStep::Fail(error);
            },
        };
        let ghost before = self.answers@;
        let ghost after = before.push(held);
        let RoleSurvey { users, mut rows, mut roles, asked, answers: _ } = self;
        let ghost done = 5 * rows@.len();
        assert(after.skip(done as int).drop_last() == before.skip(done as int));
        if held {
            let ghost listed = roles.deep_view();
            roles.push(ROLES[asked].to_owned());
            assert(roles.deep_view() == listed.push(role_name(asked as int)));
        }
        assert(roles.deep_view() == roles_held(after.skip(done as int)));
        assert forall|index: int| 0 <= index < rows@.len() implies answers_for(before, index)
            == answers_for(after, index) by {}
        assert(listed_rows(users@, before, rows@.len()) == listed_rows(users@, after, rows@.len()));
        let asked: usize = asked + 1;
        if asked < ROLES.len() {
            return UsersStep::Ask(RoleSurvey { users, rows, roles, asked, answers: Ghost(after) });
        }
        let user = &users[rows.len()];
        let ghost listed = rows.deep_view();
        assert(after.skip(done as int) == answers_for(after, rows@.len() as int));
        rows.push(AdminUserRow::new(user, roles, user.created_at.to_rfc3339()));
        assert(rows.deep_view() == listed.push(listed_row(users@, after, rows@.len() - 1)));
        assert(rows.deep_view() == listed_rows(users@, after, rows@.len()));
        if rows.len() < users.len() {
            let roles: Vec<String> = Vec::new();
            assert(roles.deep_view() == roles_held(Seq::<bool>::empty()));
            assert(after.skip(after.len() as int) == Seq::<bool>::empty());
            UsersStep::Ask(RoleSurvey { users, rows, roles, asked: 0, answers: Ghost(after) })
        } else {
            let props = AdminUsersIndexProps { users: rows };
            UsersStep::Render(Page { component: COMPONENT, props })
        }
    }
}

/// Which end of an order comes first.
#[derive(Clone, Copy, Debug, PartialEq, Eq, Structural)]
pub enum Direction {
    Ascending,
    Descending,
}

impl Direction {
    /// Whether accounts with these ids are read in this direction, by id.
    pub open spec fn arranges(self, ids: Seq<i64>) -> bool {
        match self {
            Direction::Ascending => forall|a: int, b: int|
                0 <= a < b < ids.len() ==> ids[a] <= ids[b],
            Direction::Descending => forall|a: int, b: int|
                0 <= a < b < ids.len() ==> ids[a] >= ids[b],
        }
    }
}

/// The direction in which the accounts are to be read.
pub fn listing_direction() -> (direction: Direction)
    ensures
        direction == Direction::Ascending,
{
    Direction::Ascending
}

/// The column by which the accounts are to be read in order.
pub fn listing_order() -> (column: UserColumn)
    ensures
        column == UserColumn::Id,
{
    UserColumn::Id
}

/// Begins the list with the accounts that were read. A failure to read them is passed on.
pub fn index<E>(users: Result<Vec<User>, E>) -> (step: UsersStep<E>)
    ensures
        match users {
            Ok(users) => stands_at(step, users@, Seq::empty()),
            Err(error) => step == UsersStep::Fail(error),
        },
{
    match users {
        Ok(users) => {
            let rows: Vec<AdminUserRow> = Vec::new();
            let ghost none = Seq::<bool>::empty();
            assert(rows.deep_view() == listed_rows(users@, none, 0));
            if users.len() == 0 {
                let props = AdminUsersIndexProps { users: rows };
                UsersStep::Render(Page { component: COMPONENT, props })
            } else {
                let roles: Vec<String> = Vec::new();
                assert(roles.deep_view() == roles_held(none.skip(0)));
                UsersStep::Ask(RoleSurvey { users, rows, roles, asked: 0, answers: Ghost(none) })
            }
        },
        Err(error) => UsersStep::Fail(error),
    }
}

/// The positions of the roles that are held.
pub open spec fn held_positions(held: Seq<bool>) -> Seq<int>
    decreases held.len(),
{
    if held.len() == 0 {
        Seq::empty()
    } else if held.last() {
        held_positions(held.drop_last()).push(held.len() - 1)
    } else {
        held_positions(held.drop_last())
    }
}

proof fn lemma_held_positions(held: Seq<bool>)
    ensures
        roles_held(held) == held_positions(held).map_values(|index: int| role_name(index)),
        forall|at: int|
            0 <= at < held_positions(held).len() ==> 0 <= #[trigger] held_positions(held)[at]
                < held.len() && held[held_positions(held)[at]],
        forall|a: int, b: int|
            0 <= a < b < held_positions(held).len() ==> held_positions(held)[a]
                < held_positions(held)[b],
        forall|index: int|
            0 <= index < held.len() && held[index] ==> #[trigger] held_positions(held).contains(
                index,
            ),
    decreases held.len(),
{
    if held.len() > 0 {
        let shorter = held.drop_last();
        lemma_held_positions(shorter);
        let names = |index: int| role_name(index);
        assert(roles_held(held) == held_positions(held).map_values(names));
        assert forall|index: int| 0 <= index < held.len() && held[index] implies #[trigger]
        held_positions(held).contains(index) by {
            if index < held.len() - 1 {
                assert(shorter[index]);
                assert(held_positions(shorter).contains(index));
                let at = choose|at: int|
                    0 <= at < held_positions(shorter).len() && held_positions(shorter)[at] == index;
                assert(held_positions(held)[at] == index);
            } else {
                assert(held_positions(held).last() == index);
            }
        }
    }
}

proof fn lemma_role_names_distinct(a: int, b: int)
    requires
        0 <= a < 5,
        0 <= b < 5,
        role_name(a) == role_name(b),
    ensures
        a == b,
{
    reveal_strlit("admin");
    reveal_strlit("moderator");
    reveal_strlit("author");
    reveal_strlit("contributor");
    reveal_strlit("member");
    assert(role_name(0) == "admin"@);
    assert(role_name(1) == "moderator"@);
    assert(role_name(2) == "author"@);
    assert(role_name(3) == "contributor"@);
    assert(role_name(4) == "member"@);
    assert(role_name(2)[0] != role_name(4)[0]);
    assert(role_name(a).len() == role_name(b).len());
}

/// Whether `first` stands before `second` in the list of roles.
pub open spec fn role_precedes(first: Seq<char>, second: Seq<char>) -> bool {
    exists|i: int, j: int|
        0 <= i < j < 5 && first == #[trigger] role_name(i) && second == #[trigger] role_name(j)
}

/// Whether `name` is the name of a role that is held.
pub open spec fn names_held_role(held: Seq<bool>, name: Seq<char>) -> bool {
    exists|index: int| 0 <= index < held.len() && held[index] && name == #[trigger] role_name(index)
}

/// A row names exactly the roles that the account holds: each of them once, in the order
/// of the list of roles, and no other.
pub proof fn law_row_names_the_held_roles(held: Seq<bool>)
    requires
        held.len() == 5,
    ensures
        forall|index: int|
            0 <= index < 5 ==> (#[trigger] roles_held(held).contains(role_name(index)) <==> held[index]),
        forall|at: int|
            0 <= at < roles_held(held).len() ==> names_held_role(
                held,
                #[trigger] roles_held(held)[at],
            ),
        roles_held(held).no_duplicates(),
        forall|a: int, b: int|
            0 <= a < b < roles_held(held).len() ==> role_precedes(
                roles_held(held)[a],
                roles_held(held)[b],
            ),
{
    lemma_held_positions(held);
    let positions = held_positions(held);
    let roles = roles_held(held);
    assert forall|index: int| 0 <= index < 5 implies (#[trigger] roles.contains(role_name(index))
        <==> held[index]) by {
        if held[index] {
            assert(positions.contains(index));
            let at = choose|at: int| 0 <= at < positions.len() && positions[at] == index;
            assert(roles[at] == role_name(index));
        }
        if roles.contains(role_name(index)) {
            let at = choose|at: int| 0 <= at < roles.len() && roles[at] == role_name(index);
            assert(roles[at] == role_name(positions[at]));
            lemma_role_names_distinct(positions[at], index);
        }
    }
    assert forall|at: int| 0 <= at < roles.len() implies names_held_role(
        held,
        #[trigger] roles[at],
    ) by {
        assert(roles[at] == role_name(positions[at]));
    }
    assert forall|a: int, b: int| 0 <= a < b < roles.len() implies roles[a] != roles[b] by {
        if roles[a] == roles[b] {
            lemma_role_names_distinct(positions[a], positions[b]);
        }
    }
    assert forall|a: int, b: int| 0 <= a < b < roles.len() implies role_precedes(
        roles[a],
        roles[b],
    ) by {
        assert(roles[a] == role_name(positions[a]));
        assert(roles[b] == role_name(positions[b]));
    }
}

/// The ids of accounts, in their order.
pub open spec fn account_ids(users: Seq<User>) -> Seq<i64> {
    users.map_values(|user: User| user.id)
}

/// The ids of rows, in their order.
pub open spec fn row_ids(rows: Seq<AdminUserRowView>) -> Seq<i64> {
    rows.map_values(|row: AdminUserRowView| row.id)
}

/// The list has one row for each account, in the order in which the accounts were read:
/// read by ascending id, they are listed by ascending id.
pub proof fn law_list_follows_the_accounts(users: Seq<User>, answers: Seq<bool>)
    requires
        answers.len() == 5 * users.len(),
    ensures
        ({
            let rows = listed_rows(users, answers, users.len());
            &&& rows.len() == users.len()
            &&& forall|at: int| 0 <= at < rows.len() ==> #[trigger] rows[at].id == users[at].id
            &&& forall|direction: Direction| #[trigger]
                direction.arranges(account_ids(users)) ==> direction.arranges(row_ids(rows))
        }),
{
    assert(account_ids(users) =~= row_ids(listed_rows(users, answers, users.len())));
}

/// The answer to a question counts for the account and the role that were asked about,
/// and for nothing else: the row of the account at `index` names the role at `role`
/// exactly if the answer at `5 * index + role` was yes.
pub proof fn law_answer_reaches_its_row(
    users: Seq<User>,
    answers: Seq<bool>,
    index: int,
    role: int,
)
    requires
        answers.len() == 5 * users.len(),
        0 <= index < users.len(),
        0 <= role < 5,
    ensures
        listed_rows(users, answers, users.len())[index].roles.contains(role_name(role))
            <==> answers[5 * index + role],
{
    law_row_names_the_held_roles(answers_for(answers, index));
    assert(answers_for(answers, index)[role] == answers[5 * index + role]);
}

/// The roles by their names.
pub proof fn law_names_of_the_roles()
    ensures
        role_name(0) == "admin"@,
        role_name(1) == "moderator"@,
        role_name(2) == "author"@,
        role_name(3) == "contributor"@,
        role_name(4) == "member"@,
{
}

/// A list of one name where it is held, and of none where it is not.
pub open spec fn where_held(held: bool, name: Seq<char>) -> Seq<Seq<char>> {
    if held {
        seq![name]
    } else {
        Seq::empty()
    }
}

proof fn lemma_roles_held_in_order(held: Seq<bool>)
    requires
        held.len() == 5,
    ensures
        roles_held(held) == where_held(held[0], "admin"@) + where_held(held[1], "moderator"@)
            + where_held(held[2], "author"@) + where_held(held[3], "contributor"@) + where_held(
            held[4],
            "member"@,
        ),
{
    law_names_of_the_roles();
    let four = held.drop_last();
    let three = four.drop_last();
    let two = three.drop_last();
    let one = two.drop_last();
    let none = one.drop_last();
    assert(roles_held(none) == Seq::<Seq<char>>::empty());
    assert(roles_held(one) =~= where_held(held[0], "admin"@));
    assert(roles_held(two) =~= roles_held(one) + where_held(held[1], "moderator"@));
    assert(roles_held(three) =~= roles_held(two) + where_held(held[2], "author"@));
    assert(roles_held(four) =~= roles_held(three) + where_held(held[3], "contributor"@));
    assert(roles_held(held) =~= roles_held(four) + where_held(held[4], "member"@));
}

/// Whether `row` shows the account `user`: its id and address, its name or "Account", whether
/// it has a verification time, and the text of its creation time.
pub open spec fn row_shows(row: AdminUserRow, user: User) -> bool {
    &&& row.id == user.id
    &&& row.email@ == user.email@
    &&& user.name matches Some(name) ==> row.name@ == name@
    &&& user.name is None ==> row.name@ == "Account"@
    &&& row.verified <==> user.email_verified_at is Some
    &&& row.created_at@ == rfc3339(user.created_at@.seconds, user.created_at@.nanos)
}

/// A finished list is the page of the list, and has for each account, in their order, one row
/// that shows that account with the time it was created, and that names the roles for which
/// the answers about that account were yes.
pub proof fn law_finished_list_shows_every_account<E>(
    step: UsersStep<E>,
    users: Seq<User>,
    answers: Seq<bool>,
)
    requires
        stands_at(step, users, answers),
        answers.len() == 5 * users.len(),
    ensures
        step matches UsersStep::Render(page) && {
            &&& page.component@ == "admin/users/Index"@
            &&& page.props.users@.len() == users.len()
            &&& forall|index: int|
                0 <= index < users.len() ==> row_shows(
                    #[trigger] page.props.users@[index],
                    users[index],
                )
            &&& forall|index: int|
                0 <= index < users.len() ==> (#[trigger] page.props.users@[index]).roles.deep_view()
                    == where_held(answers[5 * index], "admin"@) + where_held(
                    answers[5 * index + 1],
                    "moderator"@,
                ) + where_held(answers[5 * index + 2], "author"@) + where_held(
                    answers[5 * index + 3],
                    "contributor"@,
                ) + where_held(answers[5 * index + 4], "member"@)
        },
{
    let rows = step->Render_0.props.users;
    assert(rows.deep_view().len() == users.len());
    assert forall|index: int| 0 <= index < users.len() implies row_shows(
        #[trigger] rows@[index],
        users[index],
    ) by {
        assert(rows.deep_view()[index] == rows@[index].deep_view());
    }
    assert forall|index: int| 0 <= index < users.len() implies (
    #[trigger] rows@[index]).roles.deep_view() == where_held(answers[5 * index], "admin"@)
        + where_held(answers[5 * index + 1], "moderator"@) + where_held(
        answers[5 * index + 2],
        "author"@,
    ) + where_held(answers[5 * index + 3], "contributor"@) + where_held(
        answers[5 * index + 4],
        "member"@,
    ) by {
        assert(rows.deep_view()[index] == rows@[index].deep_view());
        lemma_roles_held_in_order(answers_for(answers, index));
    }
}

/// As long as a question is open, the round goes on about the same accounts, with every answer
/// that was given and no other.
pub proof fn law_unfinished_list_keeps_its_answers<E>(
    step: UsersStep<E>,
    users: Seq<User>,
    answers: Seq<bool>,
)
    requires
        stands_at(step, users, answers),
        answers.len() < 5 * users.len(),
    ensures
        step matches UsersStep::Ask(survey) && survey.users() == users && survey.answers()
            == answers,
{
}

/// When an account was last modified, how it signs in and the like make no difference to the
/// list: accounts that agree in what a row shows are listed alike.
pub proof fn law_list_depends_on_nothing_else(a: Seq<User>, b: Seq<User>, answers: Seq<bool>)
    requires
        a.len() == b.len(),
        forall|index: int|
            0 <= index < a.len() ==> {
                &&& (#[trigger] a[index]).id == b[index].id
                &&& a[index].name.deep_view() == b[index].name.deep_view()
                &&& a[index].email@ == b[index].email@
                &&& a[index].email_verified_at is Some <==> b[index].email_verified_at is Some
                &&& a[index].created_at@ == b[index].created_at@
            },
    ensures
        listed_rows(a, answers, a.len()) == listed_rows(b, answers, b.len()),
{
    assert forall|index: int| 0 <= index < a.len() implies listed_row(a, answers, index)
        == listed_row(b, answers, index) by {
        assert(a[index].id == b[index].id);
    }
    assert(listed_rows(a, answers, a.len()) =~= listed_rows(b, answers, b.len()));
}

} // verus!
