//! The profile model: the public page of an account.

use vstd::prelude::*;
use vstd::string::StringExecFns;

use crate::datetime::{Instant, UtcDateTime};
use crate::models::user::{User, UserRow};
use crate::models::Guard;
use crate::text::{decimal, law_decimal_reads_back, lemma_decimal_injective, reads_as, to_decimal};

verus! {

/// The longest display name that a profile can store.
pub const DISPLAY_NAME_MAX_LENGTH: usize = 120;

/// The columns of the profiles table.
#[derive(Clone, Copy, Debug, PartialEq, Eq, Structural)]
pub enum ProfileColumn {
    Id,
    UserId,
    Handle,
    DisplayName,
    Bio,
    AvatarUrl,
    WebsiteUrl,
    GithubUrl,
    Location,
    Timezone,
    CreatedAt,
    UpdatedAt,
}

impl ProfileColumn {
    /// The columns that mass assignment may set. The owner is not among them.
    pub open spec fn fillable(self) -> bool {
        ||| self is Handle
        ||| self is DisplayName
        ||| self is Bio
        ||| self is AvatarUrl
        ||| self is WebsiteUrl
        ||| self is GithubUrl
        ||| self is Location
        ||| self is Timezone
    }

    /// The name of the column in the database.
    pub open spec fn name(self) -> Seq<char> {
        match self {
            ProfileColumn::Id => "id"@,
            ProfileColumn::UserId => "user_id"@,
            ProfileColumn::Handle => "handle"@,
            ProfileColumn::DisplayName => "display_name"@,
            ProfileColumn::Bio => "bio"@,
            ProfileColumn::AvatarUrl => "avatar_url"@,
            ProfileColumn::WebsiteUrl => "website_url"@,
            ProfileColumn::GithubUrl => "github_url"@,
            ProfileColumn::Location => "location"@,
            ProfileColumn::Timezone => "timezone"@,
            ProfileColumn::CreatedAt => "created_at"@,
            ProfileColumn::UpdatedAt => "updated_at"@,
        }
    }

    /// The name of the column in the database.
    pub fn as_str(&self) -> (name: &'static str)
        ensures
            name@ == self.name(),
    {
        match self {
            ProfileColumn::Id => "id",
            ProfileColumn::UserId => "user_id",
            ProfileColumn::Handle => "handle",
            ProfileColumn::DisplayName => "display_name",
            ProfileColumn::Bio => "bio",
            ProfileColumn::AvatarUrl => "avatar_url",
            ProfileColumn::WebsiteUrl => "website_url",
            ProfileColumn::GithubUrl => "github_url",
            ProfileColumn::Location => "location",
            ProfileColumn::Timezone => "timezone",
            ProfileColumn::CreatedAt => "created_at",
            ProfileColumn::UpdatedAt => "updated_at",
        }
    }

    /// Whether mass assignment may set the column.
    pub fn is_fillable(&self) -> (fillable: bool)
        ensures
            fillable == self.fillable(),
    {
        match self {
            ProfileColumn::Id | ProfileColumn::UserId | ProfileColumn::CreatedAt
            | ProfileColumn::UpdatedAt => false,
            _ => true,
        }
    }
}

/// A profile.
#[derive(Clone, Debug, PartialEq, Eq)]
pub struct Profile {
    pub id: i64,
    pub user_id: i64,
    pub handle: String,
    pub display_name: String,
    pub bio: Option<String>,
    pub avatar_url: Option<String>,
    pub website_url: Option<String>,
    pub github_url: Option<String>,
    pub location: Option<String>,
    pub timezone: Option<String>,
    pub created_at: UtcDateTime,
    pub updated_at: UtcDateTime,
}

/// The values of a profile's columns.
pub ghost struct ProfileRow {
    pub id: i64,
    pub user_id: i64,
    pub handle: Seq<char>,
    pub display_name: Seq<char>,
    pub bio: Option<Seq<char>>,
    pub avatar_url: Option<Seq<char>>,
    pub website_url: Option<Seq<char>>,
    pub github_url: Option<Seq<char>>,
    pub location: Option<Seq<char>>,
    pub timezone: Option<Seq<char>>,
    pub created_at: Instant,
    pub updated_at: Instant,
}

impl View for Profile {
    type V = ProfileRow;

    open spec fn view(&self) -> ProfileRow {
        ProfileRow {
            id: self.id,
            user_id: self.user_id,
            handle: self.handle@,
            display_name: self.display_name@,
            bio: self.bio.deep_view(),
            avatar_url: self.avatar_url.deep_view(),
            website_url: self.website_url.deep_view(),
            github_url: self.github_url.deep_view(),
            location: self.location.deep_view(),
            timezone: self.timezone.deep_view(),
            created_at: self.created_at@,
            updated_at: self.updated_at@,
        }
    }
}

/// The first profile that a lookup asks for.
#[derive(Debug, PartialEq, Eq)]
pub enum ProfileLookup {
    /// The profile under this handle.
    Handle(String),
    /// The profile of this account.
    UserId(i64),
}

/// What a lookup asks for.
pub ghost enum ProfileKey {
    Handle(Seq<char>),
    UserId(i64),
}

impl View for ProfileLookup {
    type V = ProfileKey;

    open spec fn view(&self) -> ProfileKey {
        match self {
            ProfileLookup::Handle(handle) => ProfileKey::Handle(handle@),
            ProfileLookup::UserId(id) => ProfileKey::UserId(*id),
        }
    }
}

impl ProfileKey {
    /// Whether the lookup asks for `row`.
    pub open spec fn selects(self, row: ProfileRow) -> bool {
        match self {
            ProfileKey::Handle(handle) => row.handle == handle,
            ProfileKey::UserId(id) => row.user_id == id,
        }
    }
}

impl ProfileLookup {
    /// The column that the lookup compares.
    pub fn column(&self) -> (column: ProfileColumn)
        ensures
            column == (match self@ {
                ProfileKey::Handle(_) => ProfileColumn::Handle,
                ProfileKey::UserId(_) => ProfileColumn::UserId,
            }),
            self is Handle ==> column is Handle,
            self is UserId ==> column is UserId,
    {
        match self {
            ProfileLookup::Handle(_) => ProfileColumn::Handle,
            ProfileLookup::UserId(_) => ProfileColumn::UserId,
        }
    }
}

/// A profile to be added.
#[derive(Debug, PartialEq, Eq)]
pub struct NewProfile {
    pub user_id: i64,
    pub handle: String,
    pub display_name: String,
}

/// The columns of a profile to be added.
pub ghost struct NewProfileRow {
    pub user_id: i64,
    pub handle: Seq<char>,
    pub display_name: Seq<char>,
}

impl View for NewProfile {
    type V = NewProfileRow;

    open spec fn view(&self) -> NewProfileRow {
        NewProfileRow {
            user_id: self.user_id,
            handle: self.handle@,
            display_name: self.display_name@,
        }
    }
}

impl NewProfileRow {
    /// Whether `row` holds what is to be added.
    pub open spec fn holds_in(self, row: ProfileRow) -> bool {
        &&& row.user_id == self.user_id
        &&& row.handle == self.handle
        &&& row.display_name == self.display_name
    }
}

impl NewProfile {
    /// The columns that the write names.
    pub open spec fn columns() -> Set<ProfileColumn> {
        set![ProfileColumn::UserId, ProfileColumn::Handle, ProfileColumn::DisplayName]
    }

    /// How the write passes the mass-assignment guard: guarded exactly if every
    /// column that it names is fillable, which the owner is not.
    pub fn guard(&self) -> (guard: Guard)
        ensures
            guard is Fillable <==> (forall|column: ProfileColumn|
                #[trigger] NewProfile::columns().contains(column) ==> column.fillable()),
            guard is Unguarded,
    {
        assert(NewProfile::columns().contains(ProfileColumn::UserId));
        Guard::Unguarded
    }
}

/// The handle that account `id` has until its owner picks one.
pub open spec fn generated_handle(id: i64) -> Seq<char> {
    "user-"@ + decimal(id as int)
}

/// The profile that an account starts with.
pub open spec fn first_profile(user: UserRow) -> NewProfileRow {
    NewProfileRow {
        user_id: user.id,
        handle: generated_handle(user.id),
        display_name: user.display_name(),
    }
}

fn default_handle(user: &User) -> (handle: String)
    ensures
        handle@ == generated_handle(user.id),
{
    let mut handle = "user-".to_owned();
    handle.append(to_decimal(user.id).as_str());
    handle
}

impl Profile {
    /// The lookup of a profile by its slug, which is its handle.
    pub fn find_by_slug(slug: &str) -> (lookup: ProfileLookup)
        ensures
            lookup@ == ProfileKey::Handle(slug@),
            lookup matches ProfileLookup::Handle(wanted) && wanted@ == slug@,
            forall|row: ProfileRow| #[trigger] lookup@.selects(row) <==> row.handle == slug@,
    {
        Self::find_by_handle(slug)
    }

    /// The lookup of a profile by its handle.
    pub fn find_by_handle(handle: &str) -> (lookup: ProfileLookup)
        ensures
            lookup@ == ProfileKey::Handle(handle@),
            lookup matches ProfileLookup::Handle(wanted) && wanted@ == handle@,
            forall|row: ProfileRow| #[trigger] lookup@.selects(row) <==> row.handle == handle@,
    {
        ProfileLookup::Handle(handle.to_owned())
    }

    /// The lookup of an account's profile.
    pub fn find_by_user_id(user_id: i64) -> (lookup: ProfileLookup)
        ensures
            lookup@ == ProfileKey::UserId(user_id),
            lookup == ProfileLookup::UserId(user_id),
            forall|row: ProfileRow| #[trigger] lookup@.selects(row) <==> row.user_id == user_id,
    {
        ProfileLookup::UserId(user_id)
    }

    /// Begins to find the profile of `user`, or to give them one.
    pub fn ensure_for_user(user: &User) -> (ensure: EnsureProfile)
        ensures
            ensure.first@ == first_profile(user@),
            ensure.first.user_id == user.id,
            ensure.first.display_name@ == (match user.name {
                Some(name) => name@,
                None => "Account"@,
            }),
            is_generated_handle(ensure.first.handle@, user.id),
    {
        proof {
            law_first_profile_is_made_from_the_account(user@);
        }
        EnsureProfile {
            first: NewProfile {
                user_id: user.id,
                handle: default_handle(user),
                display_name: user.display_name(),
            },
        }
    }
}

/// What comes next on the way to an account's profile.
pub enum EnsureStep<E> {
    /// There is no profile: add one, and report through [`InsertProfile::inserted`].
    Insert(InsertProfile),
    /// The profile could not be added: look once more, and report through
    /// [`RecheckProfile::found`].
    Recheck(RecheckProfile<E>),
    /// The profile, or why there is none.
    Done(Result<Profile, E>),
}

/// The search for an account's profile.
pub struct EnsureProfile {
    /// The profile to add, if the account has none.
    pub first: NewProfile,
}

impl EnsureProfile {
    /// What follows from the reply to the lookup.
    pub open spec fn after_lookup<E>(self, reply: Result<Option<Profile>, E>) -> EnsureStep<E> {
        match reply {
            Ok(Some(profile)) => EnsureStep::Done(Ok(profile)),
            Ok(None) => EnsureStep::Insert(InsertProfile { row: self.first }),
            Err(error) => EnsureStep::Done(Err(error)),
        }
    }

    /// The lookup to begin with.
    pub fn lookup(&self) -> (lookup: ProfileLookup)
        ensures
            lookup@ == ProfileKey::UserId(self.first.user_id),
            lookup == ProfileLookup::UserId(self.first.user_id),
            forall|row: ProfileRow| #[trigger]
                lookup@.selects(row) <==> row.user_id == self.first.user_id,
    {
        Profile::find_by_user_id(self.first.user_id)
    }

    /// Takes the reply to the lookup.
    pub fn found<E>(self, reply: Result<Option<Profile>, E>) -> (step: EnsureStep<E>)
        ensures
            step == self.after_lookup(reply),
    {
        match reply {
            Ok(Some(profile)) => EnsureStep::Done(Ok(profile)),
            Ok(None) => EnsureStep::Insert(InsertProfile { row: self.first }),
            Err(error) => EnsureStep::Done(Err(error)),
        }
    }
}

/// The addition of an account's first profile.
pub struct InsertProfile {
    /// The profile to add.
    pub row: NewProfile,
}

impl InsertProfile {
    /// What follows from the reply to the insertion.
    pub open spec fn after_insert<E>(self, reply: Result<Profile, E>) -> EnsureStep<E> {
        match reply {
            Ok(profile) => EnsureStep::Done(Ok(profile)),
            Err(error) => EnsureStep::Recheck(RecheckProfile { user_id: self.row.user_id, error }),
        }
    }

    /// Takes the reply to the insertion.
    pub fn inserted<E>(self, reply: Result<Profile, E>) -> (step: EnsureStep<E>)
        ensures
            step == self.after_insert(reply),
    {
        match reply {
            Ok(profile) => EnsureStep::Done(Ok(profile)),
            Err(error) => EnsureStep::Recheck(RecheckProfile { user_id: self.row.user_id, error }),
        }
    }
}

/// The second look after a failed insertion: another request may have added the profile.
pub struct RecheckProfile<E> {
    /// The account.
    pub user_id: i64,
    /// Why the insertion failed.
    pub error: E,
}

impl<E> RecheckProfile<E> {
    /// What follows from the reply to the second lookup.
    pub open spec fn after_recheck(self, reply: Result<Option<Profile>, E>) -> Result<Profile, E> {
        match reply {
            Ok(Some(profile)) => Ok(profile),
            _ => Err(self.error),
        }
    }

    /// The lookup to make.
    pub fn lookup(&self) -> (lookup: ProfileLookup)
        ensures
            lookup@ == ProfileKey::UserId(self.user_id),
            lookup == ProfileLookup::UserId(self.user_id),
            forall|row: ProfileRow| #[trigger]
                lookup@.selects(row) <==> row.user_id == self.user_id,
    {
        Profile::find_by_user_id(self.user_id)
    }

    /// Takes the reply to the second lookup. Where it finds nothing, or fails, the
    /// error of the insertion stands.
    pub fn found(self, reply: Result<Option<Profile>, E>) -> (outcome: Result<Profile, E>)
        ensures
            outcome == self.after_recheck(reply),
    {
        match reply {
            Ok(Some(profile)) => Ok(profile),
            Ok(None) => Err(self.error),
            Err(_) => Err(self.error),
        }
    }
}

/// How the search ends, for each reply that it may get. A reply that is never asked
/// for does not count.
pub open spec fn ensured<E>(
    search: EnsureProfile,
    lookup: Result<Option<Profile>, E>,
    insertion: Result<Profile, E>,
    recheck: Result<Option<Profile>, E>,
) -> Result<Profile, E> {
    match search.after_lookup(lookup) {
        EnsureStep::Done(outcome) => outcome,
        EnsureStep::Insert(insert) => match insert.after_insert(insertion) {
            EnsureStep::Done(outcome) => outcome,
            EnsureStep::Recheck(again) => again.after_recheck(recheck),
            EnsureStep::Insert(_) => arbitrary(),
        },
        EnsureStep::Recheck(_) => arbitrary(),
    }
}

/// A profile that is already there is returned, and nothing is added.
pub proof fn law_existing_profile_is_kept<E>(search: EnsureProfile, profile: Profile)
    ensures
        search.after_lookup::<E>(Ok(Some(profile))) == EnsureStep::<E>::Done(Ok(profile)),
{
}

/// The search ends well exactly if the first lookup finds a profile, or finds none and
/// then the insertion or the second lookup yields one. An error is that of the first
/// lookup or that of the insertion, never that of the second lookup.
pub proof fn law_ensure_outcome<E>(
    search: EnsureProfile,
    lookup: Result<Option<Profile>, E>,
    insertion: Result<Profile, E>,
    recheck: Result<Option<Profile>, E>,
)
    ensures
        ensured(search, lookup, insertion, recheck) == (match (lookup, insertion, recheck) {
            (Err(error), _, _) => Err(error),
            (Ok(Some(profile)), _, _) => Ok(profile),
            (Ok(None), Ok(profile), _) => Ok(profile),
            (Ok(None), Err(_), Ok(Some(profile))) => Ok(profile),
            (Ok(None), Err(error), _) => Err(error),
        }),
{
}

/// Whoever's profile is asked for, that account's profile comes back, provided that the
/// database answers a lookup with a row that it asks for and an insertion with the row
/// that it added.
pub proof fn law_ensured_profile_belongs_to_the_user<E>(
    user: UserRow,
    search: EnsureProfile,
    lookup: Result<Option<Profile>, E>,
    insertion: Result<Profile, E>,
    recheck: Result<Option<Profile>, E>,
)
    requires
        search.first@ == first_profile(user),
        lookup matches Ok(Some(profile)) ==> ProfileKey::UserId(user.id).selects(profile@),
        insertion matches Ok(profile) ==> first_profile(user).holds_in(profile@),
        recheck matches Ok(Some(profile)) ==> ProfileKey::UserId(user.id).selects(profile@),
    ensures
        ensured(search, lookup, insertion, recheck) matches Ok(profile) ==> profile@.user_id
            == user.id,
{
}

/// An account without a profile is given one that goes by the account's name, under the
/// handle made from its id, provided that the database answers the insertion with the row
/// that it added.
pub proof fn law_new_profile_carries_the_account_name<E>(
    user: UserRow,
    search: EnsureProfile,
    added: Profile,
    recheck: Result<Option<Profile>, E>,
)
    requires
        search.first@ == first_profile(user),
        first_profile(user).holds_in(added@),
    ensures
        ensured(search, Ok(None), Ok(added), recheck) == Ok::<Profile, E>(added),
        added@.user_id == user.id,
        added@.display_name == user.display_name(),
        added@.handle == generated_handle(user.id),
{
}

/// No two accounts are given the same handle.
pub proof fn law_generated_handles_are_distinct(a: i64, b: i64)
    requires
        generated_handle(a) == generated_handle(b),
    ensures
        a == b,
{
    let prefix = "user-"@;
    assert(generated_handle(a).skip(prefix.len() as int) == decimal(a as int));
    assert(generated_handle(b).skip(prefix.len() as int) == decimal(b as int));
    lemma_decimal_injective(a as int, b as int);
}

/// Whatever columns a request names, those that the fillable set lets through do not
/// include the owner of the profile.
pub proof fn law_owner_cannot_be_mass_assigned(requested: Set<ProfileColumn>)
    ensures
        !requested.filter(|column: ProfileColumn| column.fillable()).contains(
            ProfileColumn::UserId,
        ),
        !requested.filter(|column: ProfileColumn| column.fillable()).contains(ProfileColumn::Id),
{
}

/// Whether `handle` is "user-" followed by the number `id`.
pub open spec fn is_generated_handle(handle: Seq<char>, id: i64) -> bool {
    &&& handle.len() > 5
    &&& handle.subrange(0, 5) == seq!['u', 's', 'e', 'r', '-']
    &&& reads_as(handle.skip(5), id as int)
}

/// The profile that an account starts with belongs to that account, goes by the account's name
/// as it stands, or by "Account" if it has none, and has a handle that spells the account's id.
pub proof fn law_first_profile_is_made_from_the_account(user: UserRow)
    ensures
        first_profile(user).user_id == user.id,
        user.name matches Some(name) ==> first_profile(user).display_name == name,
        user.name is None ==> first_profile(user).display_name == "Account"@,
        is_generated_handle(first_profile(user).handle, user.id),
        is_generated_handle(generated_handle(user.id), user.id),
{
    reveal_strlit("user-");
    law_decimal_reads_back(user.id as int);
    let handle = generated_handle(user.id);
    assert(handle.subrange(0, 5) =~= seq!['u', 's', 'e', 'r', '-']);
    assert(handle.skip(5) =~= decimal(user.id as int));
}

/// The row of a profile holds, column by column, what the profile holds; so does the row of a
/// profile to be added.
pub proof fn law_row_is_the_profile(profile: Profile, new: NewProfile)
    ensures
        profile@.id == profile.id,
        profile@.user_id == profile.user_id,
        profile@.handle == profile.handle@,
        profile@.display_name == profile.display_name@,
        profile@.bio == profile.bio.deep_view(),
        profile@.avatar_url == profile.avatar_url.deep_view(),
        profile@.website_url == profile.website_url.deep_view(),
        profile@.github_url == profile.github_url.deep_view(),
        profile@.location == profile.location.deep_view(),
        profile@.timezone == profile.timezone.deep_view(),
        profile@.created_at == profile.created_at@,
        profile@.updated_at == profile.updated_at@,
        new@.user_id == new.user_id,
        new@.handle == new.handle@,
        new@.display_name == new.display_name@,
{
}

/// A lookup asks for exactly the rows with its handle, or with its owner.
pub proof fn law_lookup_selects_its_key(handle: String, user_id: i64, row: ProfileRow)
    ensures
        ProfileLookup::Handle(handle)@.selects(row) <==> row.handle == handle@,
        ProfileLookup::UserId(user_id)@.selects(row) <==> row.user_id == user_id,
{
}

/// A row holds a profile that was added exactly if it has its owner, handle and display name.
pub proof fn law_added_profile_is_held(new: NewProfile, row: ProfileRow)
    ensures
        new@.holds_in(row) <==> row.user_id == new.user_id && row.handle == new.handle@
            && row.display_name == new.display_name@,
{
}

/// A profile is added with its owner, its handle and its display name, which needs a trusted
/// writer because of the owner.
pub proof fn law_columns_of_a_new_profile(column: ProfileColumn)
    ensures
        NewProfile::columns().contains(column) <==> column is UserId || column is Handle
            || column is DisplayName,
        NewProfile::columns().contains(ProfileColumn::UserId) && !ProfileColumn::UserId.fillable(),
{
}

/// Mass assignment may set what the owner of a profile edits, and nothing else.
pub proof fn law_fillable_profile_columns()
    ensures
        ProfileColumn::Handle.fillable(),
        ProfileColumn::DisplayName.fillable(),
        ProfileColumn::Bio.fillable(),
        ProfileColumn::AvatarUrl.fillable(),
        ProfileColumn::WebsiteUrl.fillable(),
        ProfileColumn::GithubUrl.fillable(),
        ProfileColumn::Location.fillable(),
        ProfileColumn::Timezone.fillable(),
        !ProfileColumn::Id.fillable(),
        !ProfileColumn::UserId.fillable(),
        !ProfileColumn::CreatedAt.fillable(),
        !ProfileColumn::UpdatedAt.fillable(),
{
}

/// Each column goes by its own name in the database.
pub proof fn law_profile_column_names()
    ensures
        ProfileColumn::Id.name() == "id"@,
        ProfileColumn::UserId.name() == "user_id"@,
        ProfileColumn::Handle.name() == "handle"@,
        ProfileColumn::DisplayName.name() == "display_name"@,
        ProfileColumn::Bio.name() == "bio"@,
        ProfileColumn::AvatarUrl.name() == "avatar_url"@,
        ProfileColumn::WebsiteUrl.name() == "website_url"@,
        ProfileColumn::GithubUrl.name() == "github_url"@,
        ProfileColumn::Location.name() == "location"@,
        ProfileColumn::Timezone.name() == "timezone"@,
        ProfileColumn::CreatedAt.name() == "created_at"@,
        ProfileColumn::UpdatedAt.name() == "updated_at"@,
{
}

/// A search adds a profile exactly if the lookup found none, and adds the one it was begun
/// with; after a failed insertion it looks again for the same account, keeping the error; and
/// what the second look finds is returned, else that error.
pub proof fn law_each_step_of_the_search<E>(
    search: EnsureProfile,
    insert: InsertProfile,
    again: RecheckProfile<E>,
    lookup: Result<Option<Profile>, E>,
    insertion: Result<Profile, E>,
)
    ensures
        search.after_lookup(lookup) is Insert <==> (lookup matches Ok(found) && found is None),
        search.after_lookup(lookup) matches EnsureStep::Insert(next) ==> next.row == search.first,
        lookup matches Ok(Some(profile)) ==> search.after_lookup(lookup) == EnsureStep::<E>::Done(
            Ok(profile),
        ),
        lookup matches Err(error) ==> search.after_lookup(lookup) == EnsureStep::<E>::Done(
            Err(error),
        ),
        insertion matches Ok(profile) ==> insert.after_insert(insertion) == EnsureStep::<E>::Done(
            Ok(profile),
        ),
        insertion matches Err(error) ==> (insert.after_insert(insertion) matches EnsureStep::Recheck(
            next,
        ) && next.user_id == insert.row.user_id && next.error == error),
        lookup matches Ok(Some(profile)) ==> again.after_recheck(lookup) == Ok::<Profile, E>(
            profile,
        ),
        !(lookup matches Ok(Some(_))) ==> again.after_recheck(lookup) == Err::<Profile, E>(
            again.error,
        ),
{
}

} // verus!
