//! The account model: who can sign in, and what is known of them.

use vstd::prelude::*;

use crate::datetime::{Instant, OffsetDateTime, Stored, UtcDateTime};
use crate::models::Guard;
use crate::text::{decimal, lemma_decimal_injective, reads_as, to_decimal};

verus! {

/// The name shown for an account that has none.
pub const UNNAMED: &'static str = "Account";

/// Stores a UTC date-time with an explicit offset.
pub struct NativeUtcDateTime;

impl NativeUtcDateTime {
    /// The value to store: the same instant at offset zero.
    pub fn to_storage(value: &UtcDateTime) -> (stored: OffsetDateTime)
        ensures
            stored@ == storage_form(value@),
            stored@.instant == value@,
            stored@.offset == 0,
    {
        value.fixed_offset()
    }

    /// The value read back: the stored instant in UTC, whatever its offset.
    pub fn from_storage(stored: &OffsetDateTime) -> (value: UtcDateTime)
        ensures
            value@ == runtime_form(stored@),
            value@ == stored@.instant,
    {
        stored.to_utc()
    }
}

/// Stores a UTC date-time that may be missing.
pub struct OptionalNativeUtcDateTime;

impl OptionalNativeUtcDateTime {
    /// The value to store: nothing for nothing, else the same instant at offset zero.
    pub fn to_storage(value: &Option<UtcDateTime>) -> (stored: Option<OffsetDateTime>)
        ensures
            stored.deep_view() == optional_storage_form(value.deep_view()),
            value is None ==> stored is None,
            value matches Some(at) ==> (stored matches Some(written) && written@ == (Stored {
                instant: at@,
                offset: 0,
            })),
    {
        match value {
            Some(at) => Some(at.fixed_offset()),
            None => None,
        }
    }

    /// The value read back: nothing for nothing, else the stored instant in UTC.
    pub fn from_storage(stored: &Option<OffsetDateTime>) -> (value: Option<UtcDateTime>)
        ensures
            value.deep_view() == optional_runtime_form(stored.deep_view()),
            stored is None ==> value is None,
            stored matches Some(at) ==> (value matches Some(read) && read@ == at@.instant),
    {
        match stored {
            Some(at) => Some(at.to_utc()),
            None => None,
        }
    }
}

/// An instant as it is stored.
pub open spec fn storage_form(value: Instant) -> Stored {
    Stored { instant: value, offset: 0 }
}

/// A stored date-time as it is read back.
pub open spec fn runtime_form(stored: Stored) -> Instant {
    stored.instant
}

/// An instant that may be missing, as it is stored.
pub open spec fn optional_storage_form(value: Option<Instant>) -> Option<Stored> {
    match value {
        Some(at) => Some(storage_form(at)),
        None => None,
    }
}

/// A stored date-time that may be missing, as it is read back.
pub open spec fn optional_runtime_form(stored: Option<Stored>) -> Option<Instant> {
    match stored {
        Some(at) => Some(runtime_form(at)),
        None => None,
    }
}

/// What is stored is read back unchanged.
pub proof fn law_storage_round_trip(value: Instant, optional: Option<Instant>)
    ensures
        runtime_form(storage_form(value)) == value,
        optional_runtime_form(optional_storage_form(optional)) == optional,
{
}

/// Storing again what was read keeps the instant and drops the offset; a value that
/// was stored at offset zero does not change.
pub proof fn law_storage_normalises(stored: Stored, optional: Option<Stored>)
    ensures
        storage_form(runtime_form(stored)).instant == stored.instant,
        storage_form(runtime_form(stored)).offset == 0,
        storage_form(runtime_form(stored)) == stored <==> stored.offset == 0,
        optional_storage_form(optional_runtime_form(optional)) == optional <==> (optional matches Some(
            at,
        ) ==> at.offset == 0),
{
}

/// The columns of the accounts table.
#[derive(Clone, Copy, Debug, PartialEq, Eq, Structural)]
pub enum UserColumn {
    Id,
    Name,
    Email,
    PasswordHash,
    RememberToken,
    EmailVerifiedAt,
    LockedAt,
    AuthEpoch,
    SessionVersion,
    CreatedAt,
    UpdatedAt,
}

impl UserColumn {
    /// The columns that mass assignment may set.
    pub open spec fn fillable(self) -> bool {
        self is Name || self is Email || self is PasswordHash
    }

    /// The columns that never leave the application.
    pub open spec fn hidden(self) -> bool {
        ||| self is PasswordHash
        ||| self is RememberToken
        ||| self is LockedAt
        ||| self is AuthEpoch
        ||| self is SessionVersion
    }

    /// The columns that say whether and how the account can sign in.
    pub open spec fn authentication_state(self) -> bool {
        self.hidden()
    }

    /// The name of the column in the database.
    pub open spec fn name(self) -> Seq<char> {
        match self {
            UserColumn::Id => "id"@,
            UserColumn::Name => "name"@,
            UserColumn::Email => "email"@,
            UserColumn::PasswordHash => "password_hash"@,
            UserColumn::RememberToken => "remember_token"@,
            UserColumn::EmailVerifiedAt => "email_verified_at"@,
            UserColumn::LockedAt => "locked_at"@,
            UserColumn::AuthEpoch => "auth_epoch"@,
            UserColumn::SessionVersion => "session_version"@,
            UserColumn::CreatedAt => "created_at"@,
            UserColumn::UpdatedAt => "updated_at"@,
        }
    }

    /// The name of the column in the database.
    pub fn as_str(&self) -> (name: &'static str)
        ensures
            name@ == self.name(),
    {
        match self {
            UserColumn::Id => "id",
            UserColumn::Name => "name",
            UserColumn::Email => "email",
            UserColumn::PasswordHash => "password_hash",
            UserColumn::RememberToken => "remember_token",
            UserColumn::EmailVerifiedAt => "email_verified_at",
            UserColumn::LockedAt => "locked_at",
            UserColumn::AuthEpoch => "auth_epoch",
            UserColumn::SessionVersion => "session_version",
            UserColumn::CreatedAt => "created_at",
            UserColumn::UpdatedAt => "updated_at",
        }
    }

    /// Whether mass assignment may set the column.
    pub fn is_fillable(&self) -> (fillable: bool)
        ensures
            fillable == self.fillable(),
    {
        match self {
            UserColumn::Name | UserColumn::Email | UserColumn::PasswordHash => true,
            _ => false,
        }
    }

    /// Whether the column is left out of everything that is serialised.
    pub fn is_hidden(&self) -> (hidden: bool)
        ensures
            hidden == self.hidden(),
    {
        match self {
            UserColumn::PasswordHash | UserColumn::RememberToken | UserColumn::LockedAt
            | UserColumn::AuthEpoch | UserColumn::SessionVersion => true,
            _ => false,
        }
    }
}

/// An account.
#[derive(Clone, Debug, PartialEq, Eq)]
pub struct User {
    pub id: i64,
    pub name: Option<String>,
    pub email: String,
    pub password_hash: Option<String>,
    pub remember_token: Option<String>,
    pub email_verified_at: Option<UtcDateTime>,
    pub locked_at: Option<UtcDateTime>,
    pub auth_epoch: i64,
    pub session_version: i64,
    pub created_at: UtcDateTime,
    pub updated_at: UtcDateTime,
}

/// The values of an account's columns.
pub ghost struct UserRow {
    pub id: i64,
    pub name: Option<Seq<char>>,
    pub email: Seq<char>,
    pub password_hash: Option<Seq<char>>,
    pub remember_token: Option<Seq<char>>,
    pub email_verified_at: Option<Instant>,
    pub locked_at: Option<Instant>,
    pub auth_epoch: i64,
    pub session_version: i64,
    pub created_at: Instant,
    pub updated_at: Instant,
}

impl View for User {
    type V = UserRow;

    open spec fn view(&self) -> UserRow {
        UserRow {
            id: self.id,
            name: self.name.deep_view(),
            email: self.email@,
            password_hash: self.password_hash.deep_view(),
            remember_token: self.remember_token.deep_view(),
            email_verified_at: self.email_verified_at.deep_view(),
            locked_at: self.locked_at.deep_view(),
            auth_epoch: self.auth_epoch,
            session_version: self.session_version,
            created_at: self.created_at@,
            updated_at: self.updated_at@,
        }
    }
}

impl DeepView for User {
    type V = UserRow;

    open spec fn deep_view(&self) -> UserRow {
        self@
    }
}

/// `text`, unless it is missing or empty.
pub open spec fn non_empty(text: Option<Seq<char>>) -> Option<Seq<char>> {
    match text {
        Some(chars) if chars.len() > 0 => Some(chars),
        _ => None,
    }
}

impl UserRow {
    /// The name that pages show.
    pub open spec fn display_name(self) -> Seq<char> {
        match self.name {
            Some(name) => name,
            None => UNNAMED@,
        }
    }

    /// The stored hash that a password is held against.
    pub open spec fn auth_password(self) -> Option<Seq<char>> {
        non_empty(self.password_hash)
    }

    /// Whether a password opens the account, where `matches` says which passwords go
    /// with which hashes.
    pub open spec fn opens(
        self,
        password: Seq<char>,
        matches: spec_fn(Seq<char>, Seq<char>) -> bool,
    ) -> bool {
        match self.auth_password() {
            Some(hash) => matches(password, hash),
            None => false,
        }
    }

    /// Whether the account's address is verified.
    pub open spec fn email_verified(self) -> bool {
        self.email_verified_at is Some
    }

    /// Whether this row and `other` hold the same value in `column`.
    pub open spec fn agrees(self, other: UserRow, column: UserColumn) -> bool {
        match column {
            UserColumn::Id => self.id == other.id,
            UserColumn::Name => self.name == other.name,
            UserColumn::Email => self.email == other.email,
            UserColumn::PasswordHash => self.password_hash == other.password_hash,
            UserColumn::RememberToken => self.remember_token == other.remember_token,
            UserColumn::EmailVerifiedAt => self.email_verified_at == other.email_verified_at,
            UserColumn::LockedAt => self.locked_at == other.locked_at,
            UserColumn::AuthEpoch => self.auth_epoch == other.auth_epoch,
            UserColumn::SessionVersion => self.session_version == other.session_version,
            UserColumn::CreatedAt => self.created_at == other.created_at,
            UserColumn::UpdatedAt => self.updated_at == other.updated_at,
        }
    }
}

/// The first account that a lookup asks for.
#[derive(Debug, PartialEq, Eq)]
pub enum UserLookup {
    /// The account with this address.
    Email(String),
}

impl UserLookup {
    /// Whether the lookup asks for `row`.
    pub open spec fn selects(self, row: UserRow) -> bool {
        match self {
            UserLookup::Email(email) => row.email == email@,
        }
    }

    /// The column that the lookup compares.
    pub fn column(&self) -> (column: UserColumn)
        ensures
            column == UserColumn::Email,
    {
        UserColumn::Email
    }
}

/// A change to the accounts table.
#[derive(Debug, PartialEq, Eq)]
pub enum UserWrite {
    /// A new account.
    Insert { name: Option<String>, email: String, password_hash: Option<String> },
    /// The columns of account `id` that its owner edits on the profile page.
    UpdateProfile {
        id: i64,
        name: Option<String>,
        email: String,
        email_verified_at: Option<UtcDateTime>,
    },
    /// The password hash of account `id`.
    UpdatePasswordHash { id: i64, password_hash: Option<String> },
    /// The remember token of account `id`.
    UpdateRememberToken { id: i64, remember_token: Option<String> },
}

impl UserWrite {
    /// The columns that the write names.
    pub open spec fn columns(self) -> Set<UserColumn> {
        match self {
            UserWrite::Insert { .. } => set![
                UserColumn::Name,
                UserColumn::Email,
                UserColumn::PasswordHash,
            ],
            UserWrite::UpdateProfile { .. } => set![
                UserColumn::Name,
                UserColumn::Email,
                UserColumn::EmailVerifiedAt,
            ],
            UserWrite::UpdatePasswordHash { .. } => set![UserColumn::PasswordHash],
            UserWrite::UpdateRememberToken { .. } => set![UserColumn::RememberToken],
        }
    }

    /// Whether `row` holds what the write says, in the columns that it names.
    pub open spec fn holds_in(self, row: UserRow) -> bool {
        match self {
            UserWrite::Insert { name, email, password_hash } => {
                &&& row.name == name.deep_view()
                &&& row.email == email@
                &&& row.password_hash == password_hash.deep_view()
            },
            UserWrite::UpdateProfile { id, name, email, email_verified_at } => {
                &&& row.id == id
                &&& row.name == name.deep_view()
                &&& row.email == email@
                &&& row.email_verified_at == email_verified_at.deep_view()
            },
            UserWrite::UpdatePasswordHash { id, password_hash } => {
                &&& row.id == id
                &&& row.password_hash == password_hash.deep_view()
            },
            UserWrite::UpdateRememberToken { id, remember_token } => {
                &&& row.id == id
                &&& row.remember_token == remember_token.deep_view()
            },
        }
    }

    /// Whether a database that carries out this update may turn row `before` into
    /// row `after`: the named columns take the values of the write, the modification
    /// time is the database's own, and every other column stays as it is stored.
    pub open spec fn updates(self, before: UserRow, after: UserRow) -> bool {
        &&& self.holds_in(after)
        &&& forall|column: UserColumn|
            #![trigger before.agrees(after, column)]
            self.columns().contains(column) || column is UpdatedAt || before.agrees(after, column)
    }

    /// How the write passes the mass-assignment guard: guarded exactly if every
    /// column that it names is fillable.
    pub fn guard(&self) -> (guard: Guard)
        ensures
            guard is Fillable <==> (forall|column: UserColumn|
                #[trigger] self.columns().contains(column) ==> column.fillable()),
            guard is Fillable <==> self is Insert || self is UpdatePasswordHash,
    {
        proof {
            assert(self is UpdateProfile ==> self.columns().contains(UserColumn::EmailVerifiedAt));
            assert(self is UpdateRememberToken ==> self.columns().contains(
                UserColumn::RememberToken,
            ));
        }
        match self {
            UserWrite::Insert { .. } => Guard::Fillable,
            UserWrite::UpdatePasswordHash { .. } => Guard::Fillable,
            UserWrite::UpdateProfile { .. } => Guard::Unguarded,
            UserWrite::UpdateRememberToken { .. } => Guard::Unguarded,
        }
    }
}

/// The write by which `user` takes a new name, address and verification time.
pub open spec fn profile_write(
    user: User,
    name: String,
    email: String,
    email_verified_at: Option<UtcDateTime>,
) -> UserWrite {
    UserWrite::UpdateProfile { id: user.id, name: Some(name), email, email_verified_at }
}

/// What a password check may come to: no without asking `verify` where the account has no
/// usable hash, and otherwise what `verify` says of the password and that hash.
pub open spec fn password_outcome<E, V: FnOnce(&str, &str) -> Result<bool, E>>(
    user: UserRow,
    password: &str,
    verify: V,
    verified: Result<bool, E>,
) -> bool {
    match user.auth_password() {
        Some(stored) => exists|hash: &str|
            hash@ == stored && call_ensures(verify, (password, hash), verified),
        None => verified == Ok::<bool, E>(false),
    }
}

impl User {
    /// The lookup of an account by its address.
    pub fn find_by_email(email: &str) -> (lookup: UserLookup)
        ensures
            lookup matches UserLookup::Email(wanted) && wanted@ == email@,
            forall|row: UserRow| #[trigger] lookup.selects(row) <==> row.email == email@,
    {
        UserLookup::Email(email.to_owned())
    }

    /// Holds a password against the stored hash. `verify` compares a password with a
    /// hash; it is not asked where the account has no usable hash, which no password
    /// matches.
    pub fn verify_password<E, V>(&self, password: &str, verify: V) -> (verified: Result<bool, E>)
        where V: FnOnce(&str, &str) -> Result<bool, E>
        requires
            self@.auth_password() matches Some(stored) ==> forall|hash: &str|
                hash@ == stored ==> call_requires(verify, (password, hash)),
        ensures
            password_outcome(self@, password, verify, verified),
    {
        match self.get_auth_password() {
            Some(hash) => verify(password, hash),
            None => Ok(false),
        }
    }

    /// The write that adds an account. `hash` turns the password into the hash that
    /// is stored in its place; where it fails there is no write.
    pub fn create<E, H>(name: String, email: String, password: &str, hash: H) -> (write: Result<
        UserWrite,
        E,
    >)
        where H: FnOnce(&str) -> Result<String, E>
        requires
            call_requires(hash, (password,)),
        ensures
            write matches Ok(insert) ==> exists|hashed: String| #[trigger]
                call_ensures(hash, (password,), Ok::<String, E>(hashed)) && insert
                    == (UserWrite::Insert {
                    name: Some(name),
                    email,
                    password_hash: Some(hashed),
                }),
            write matches Err(error) ==> call_ensures(
                hash,
                (password,),
                Err::<String, E>(error),
            ),
            write matches Ok(insert) ==> forall|row: UserRow| #[trigger]
                insert.holds_in(row) ==> row.name == Some(name@) && row.email == email@,
    {
        match hash(password) {
            Ok(hashed) => Ok(
                UserWrite::Insert { name: Some(name), email, password_hash: Some(hashed) },
            ),
            Err(error) => Err(error),
        }
    }

    /// The write of the columns that the owner edits on the profile page. Of the
    /// account as it was read, only its id counts.
    pub fn update_profile(
        self,
        name: String,
        email: String,
        email_verified_at: Option<UtcDateTime>,
    ) -> (write: UserWrite)
        ensures
            write == profile_write(self, name, email, email_verified_at),
            write == (UserWrite::UpdateProfile {
                id: self.id,
                name: Some(name),
                email,
                email_verified_at,
            }),
            forall|before: UserRow, after: UserRow| #[trigger]
                write.updates(before, after) ==> before.id == self.id && after == (UserRow {
                    name: Some(name@),
                    email: email@,
                    email_verified_at: email_verified_at.deep_view(),
                    updated_at: after.updated_at,
                    ..before
                }),
    {
        proof {
            assert forall|before: UserRow, after: UserRow| #[trigger]
                profile_write(self, name, email, email_verified_at).updates(
                    before,
                    after,
                ) implies before.id == self.id && after == (UserRow {
                name: Some(name@),
                email: email@,
                email_verified_at: email_verified_at.deep_view(),
                updated_at: after.updated_at,
                ..before
            }) by {
                law_profile_update_reaches_its_own_account(
                    self,
                    name,
                    email,
                    email_verified_at,
                    before,
                    after,
                );
            }
        }
        UserWrite::UpdateProfile { id: self.id, name: Some(name), email, email_verified_at }
    }

    /// The write of a new password hash, and of nothing else.
    pub fn update_password_hash(self, hash: String) -> (write: UserWrite)
        ensures
            write == (UserWrite::UpdatePasswordHash { id: self.id, password_hash: Some(hash) }),
            forall|before: UserRow, after: UserRow| #[trigger]
                write.updates(before, after) ==> before.id == self.id && after == (UserRow {
                    password_hash: Some(hash@),
                    updated_at: after.updated_at,
                    ..before
                }),
    {
        proof {
            let write = UserWrite::UpdatePasswordHash { id: self.id, password_hash: Some(hash) };
            assert forall|before: UserRow, after: UserRow| #[trigger]
                write.updates(before, after) implies before.id == self.id && after == (UserRow {
                password_hash: Some(hash@),
                updated_at: after.updated_at,
                ..before
            }) by {
                law_password_rotation_reaches_its_own_account(self, hash, before, after);
            }
        }
        UserWrite::UpdatePasswordHash { id: self.id, password_hash: Some(hash) }
    }

    /// The write of the remember token, and of nothing else.
    pub fn update_remember_token(&self, token: Option<String>) -> (write: UserWrite)
        ensures
            write == (UserWrite::UpdateRememberToken { id: self.id, remember_token: token }),
            forall|before: UserRow, after: UserRow| #[trigger]
                write.updates(before, after) ==> before.id == self.id && after == (UserRow {
                    remember_token: token.deep_view(),
                    updated_at: after.updated_at,
                    ..before
                }),
    {
        proof {
            let write = UserWrite::UpdateRememberToken { id: self.id, remember_token: token };
            assert forall|before: UserRow, after: UserRow| #[trigger]
                write.updates(before, after) implies before.id == self.id && after == (UserRow {
                remember_token: token.deep_view(),
                updated_at: after.updated_at,
                ..before
            }) by {
                law_remember_token_reaches_its_own_account(*self, token, before, after);
            }
        }
        UserWrite::UpdateRememberToken { id: self.id, remember_token: token }
    }

    /// The identifier that a session keeps of the account: its id in decimal.
    pub fn get_auth_identifier(&self) -> (identifier: String)
        ensures
            identifier@ == decimal(self.id as int),
            reads_as(identifier@, self.id as int),
    {
        to_decimal(self.id)
    }

    /// The column that the identifier is taken from.
    pub fn auth_identifier_name(&self) -> (name: &'static str)
        ensures
            name@ == UserColumn::Id.name(),
            name@ == "id"@,
    {
        UserColumn::Id.as_str()
    }

    /// The stored hash, unless there is none or it is empty.
    pub fn get_auth_password(&self) -> (hash: Option<&str>)
        ensures
            hash.deep_view() == self@.auth_password(),
            hash is Some <==> self.password_hash is Some && self.password_hash->0@.len() > 0,
            hash matches Some(text) ==> text@ == self.password_hash->0@,
    {
        match &self.password_hash {
            Some(hash) => if hash.as_str().is_empty() {
                None
            } else {
                Some(hash.as_str())
            },
            None => None,
        }
    }

    /// The name under which roles are assigned to accounts.
    pub fn rbac_model_type(&self) -> (name: String)
        ensures
            name@ == "User"@,
    {
        "User".to_owned()
    }

    /// The account's address.
    pub fn email(&self) -> (email: &str)
        ensures
            email@ == self@.email,
            email@ == self.email@,
    {
        self.email.as_str()
    }

    /// When the address was verified.
    pub fn email_verified_at(&self) -> (at: Option<UtcDateTime>)
        ensures
            at == self.email_verified_at,
    {
        self.email_verified_at
    }

    /// Whether the address is verified: whether it has a verification time.
    pub fn is_email_verified(&self) -> (verified: bool)
        ensures
            verified == self@.email_verified(),
            verified <==> self.email_verified_at is Some,
    {
        self.email_verified_at.is_some()
    }

    /// Sets or clears the verification time.
    pub fn set_email_verified_at(&mut self, v: Option<UtcDateTime>)
        ensures
            *final(self) == (User { email_verified_at: v, ..*old(self) }),
            final(self)@ == (UserRow { email_verified_at: v.deep_view(), ..old(self)@ }),
    {
        self.email_verified_at = v;
    }

    /// The name that mail is addressed to, unless there is none or it is empty.
    pub fn name(&self) -> (name: Option<&str>)
        ensures
            name.deep_view() == non_empty(self@.name),
            name is Some <==> self.name is Some && self.name->0@.len() > 0,
            name matches Some(text) ==> text@ == self.name->0@,
    {
        match &self.name {
            Some(name) => if name.as_str().is_empty() {
                None
            } else {
                Some(name.as_str())
            },
            None => None,
        }
    }

    /// The address that a password reset is mailed to.
    pub fn email_for_reset(&self) -> (email: &str)
        ensures
            email@ == self@.email,
            email@ == self.email@,
    {
        self.email.as_str()
    }

    /// Replaces the stored hash.
    pub fn set_password_hash(&mut self, hash: &str)
        ensures
            final(self)@ == (UserRow { password_hash: Some(hash@), ..old(self)@ }),
            *final(self) == (User { password_hash: final(self).password_hash, ..*old(self) }),
            final(self).password_hash matches Some(stored) && stored@ == hash@,
    {
        self.password_hash = Some(hash.to_owned());
    }

    /// The name that pages show: the account's own, or a stand-in.
    pub fn display_name(&self) -> (name: String)
        ensures
            name@ == self@.display_name(),
            name@ == (match self.name {
                Some(own) => own@,
                None => "Account"@,
            }),
    {
        match &self.name {
            Some(name) => name.clone(),
            None => UNNAMED.to_owned(),
        }
    }
}

/// An edited profile leaves the authentication state of the stored account alone, even
/// if the account was read before that state changed: every copy of the account gives
/// the same write, and the write reaches none of those columns.
pub proof fn law_profile_update_keeps_authentication_state(
    stale: User,
    fresh: User,
    name: String,
    email: String,
    email_verified_at: Option<UtcDateTime>,
    before: UserRow,
    after: UserRow,
)
    requires
        stale.id == fresh.id,
        profile_write(stale, name, email, email_verified_at).updates(before, after),
    ensures
        profile_write(stale, name, email, email_verified_at) == profile_write(
            fresh,
            name,
            email,
            email_verified_at,
        ),
        forall|column: UserColumn| column.authentication_state() ==> #[trigger] before.agrees(
            after,
            column,
        ),
        before.auth_password() == after.auth_password(),
        after.name == Some(name@),
        after.email == email@,
        after.email_verified_at == email_verified_at.deep_view(),
{
    assert(before.agrees(after, UserColumn::PasswordHash));
}

/// An address that is changed without a verification time is unverified until it is
/// verified again.
pub proof fn law_changed_address_is_unverified(
    user: User,
    name: String,
    email: String,
    before: UserRow,
    after: UserRow,
)
    requires
        profile_write(user, name, email, None).updates(before, after),
    ensures
        after.email == email@,
        !after.email_verified(),
{
}

/// A rotated password hash, unless it is empty, is the one that passwords are held against
/// from then on, and neither the profile columns nor the rest of the authentication state move.
pub proof fn law_password_rotation_replaces_only_the_hash(
    user: User,
    hash: String,
    before: UserRow,
    after: UserRow,
)
    requires
        (UserWrite::UpdatePasswordHash { id: user.id, password_hash: Some(hash) }).updates(
            before,
            after,
        ),
    ensures
        after == (UserRow {
            password_hash: Some(hash@),
            updated_at: after.updated_at,
            ..before
        }),
        after.auth_password() == non_empty(Some(hash@)),
{
    assert(before.agrees(after, UserColumn::Id));
    assert(before.agrees(after, UserColumn::Name));
    assert(before.agrees(after, UserColumn::Email));
    assert(before.agrees(after, UserColumn::RememberToken));
    assert(before.agrees(after, UserColumn::EmailVerifiedAt));
    assert(before.agrees(after, UserColumn::LockedAt));
    assert(before.agrees(after, UserColumn::AuthEpoch));
    assert(before.agrees(after, UserColumn::SessionVersion));
    assert(before.agrees(after, UserColumn::CreatedAt));
}

/// A password check answers whether the password opens the account, provided that the
/// hasher answers whether the password and the hash go together.
pub proof fn law_password_check_is_exact<E, V: FnOnce(&str, &str) -> Result<bool, E>>(
    user: UserRow,
    password: &str,
    verify: V,
    verified: Result<bool, E>,
    matches: spec_fn(Seq<char>, Seq<char>) -> bool,
)
    requires
        password_outcome(user, password, verify, verified),
        forall|hash: &str, answer: Result<bool, E>| #[trigger]
            call_ensures(verify, (password, hash), answer) ==> answer == Ok::<bool, E>(
                matches(password@, hash@),
            ),
    ensures
        verified == Ok::<bool, E>(user.opens(password@, matches)),
{
}

/// After a rotation the account opens exactly to the passwords that go with the new hash,
/// and to none if that is empty: to the new password, and no longer to the old one.
pub proof fn law_rotation_changes_which_password_opens(
    user: User,
    hash: String,
    before: UserRow,
    after: UserRow,
    password: Seq<char>,
    matches: spec_fn(Seq<char>, Seq<char>) -> bool,
)
    requires
        (UserWrite::UpdatePasswordHash { id: user.id, password_hash: Some(hash) }).updates(
            before,
            after,
        ),
    ensures
        after.opens(password, matches) <==> hash@.len() > 0 && matches(password, hash@),
{
}

/// A new account opens exactly to the passwords that go with the hash it was added with,
/// and to none if that is empty.
pub proof fn law_new_account_opens_by_its_hash(
    name: Option<String>,
    email: String,
    hash: String,
    row: UserRow,
    password: Seq<char>,
    matches: spec_fn(Seq<char>, Seq<char>) -> bool,
)
    requires
        (UserWrite::Insert { name, email, password_hash: Some(hash) }).holds_in(row),
    ensures
        row.opens(password, matches) <==> hash@.len() > 0 && matches(password, hash@),
{
}

/// The hash that a reset stores is the one that passwords are held against from then on;
/// an empty one lets no password in.
pub proof fn law_reset_hash_is_the_one_in_use(row: UserRow, hash: Seq<char>)
    ensures
        (UserRow { password_hash: Some(hash), ..row }).auth_password() == non_empty(Some(hash)),
        hash.len() == 0 ==> (UserRow {
            password_hash: Some(hash),
            ..row
        }).auth_password() is None,
{
}

/// Setting a verification time verifies the address, and clearing it takes that back;
/// neither changes who can sign in.
pub proof fn law_verification_follows_its_time(row: UserRow, at: Option<Instant>)
    ensures
        (UserRow { email_verified_at: at, ..row }).email_verified() <==> at is Some,
        (UserRow { email_verified_at: at, ..row }).auth_password() == row.auth_password(),
{
}

/// A new account's write does not name a verification time: nothing that a registration
/// carries can verify its own address.
pub proof fn law_registration_does_not_verify(
    name: Option<String>,
    email: String,
    password_hash: Option<String>,
)
    ensures
        !(UserWrite::Insert { name, email, password_hash }).columns().contains(
            UserColumn::EmailVerifiedAt,
        ),
{
}

/// A remember token is written without touching any other column.
pub proof fn law_remember_token_replaces_only_the_token(
    user: User,
    token: Option<String>,
    before: UserRow,
    after: UserRow,
)
    requires
        (UserWrite::UpdateRememberToken { id: user.id, remember_token: token }).updates(
            before,
            after,
        ),
    ensures
        after == (UserRow {
            remember_token: token.deep_view(),
            updated_at: after.updated_at,
            ..before
        }),
{
    assert(before.agrees(after, UserColumn::Id));
    assert(before.agrees(after, UserColumn::Name));
    assert(before.agrees(after, UserColumn::Email));
    assert(before.agrees(after, UserColumn::PasswordHash));
    assert(before.agrees(after, UserColumn::EmailVerifiedAt));
    assert(before.agrees(after, UserColumn::LockedAt));
    assert(before.agrees(after, UserColumn::AuthEpoch));
    assert(before.agrees(after, UserColumn::SessionVersion));
    assert(before.agrees(after, UserColumn::CreatedAt));
}

/// Whatever columns a request names, those that the fillable set lets through can neither
/// verify an address, nor lock or unlock an account, nor touch its sessions, nor change
/// whose account it is.
pub proof fn law_mass_assignment_reaches_no_trusted_column(requested: Set<UserColumn>)
    ensures
        ({
            let assigned = requested.filter(|column: UserColumn| column.fillable());
            &&& !assigned.contains(UserColumn::Id)
            &&& !assigned.contains(UserColumn::EmailVerifiedAt)
            &&& !assigned.contains(UserColumn::RememberToken)
            &&& !assigned.contains(UserColumn::LockedAt)
            &&& !assigned.contains(UserColumn::AuthEpoch)
            &&& !assigned.contains(UserColumn::SessionVersion)
            &&& !assigned.contains(UserColumn::CreatedAt)
            &&& !assigned.contains(UserColumn::UpdatedAt)
        }),
{
}

/// A session's identifier belongs to one account.
pub proof fn law_auth_identifiers_are_distinct(a: UserRow, b: UserRow)
    requires
        decimal(a.id as int) == decimal(b.id as int),
    ensures
        a.id == b.id,
{
    lemma_decimal_injective(a.id as int, b.id as int);
}

/// The row of an account holds, column by column, what the account holds.
pub proof fn law_row_is_the_account(user: User)
    ensures
        user@.id == user.id,
        user@.name == user.name.deep_view(),
        user@.email == user.email@,
        user@.password_hash == user.password_hash.deep_view(),
        user@.remember_token == user.remember_token.deep_view(),
        user@.email_verified_at == user.email_verified_at.deep_view(),
        user@.locked_at == user.locked_at.deep_view(),
        user@.auth_epoch == user.auth_epoch,
        user@.session_version == user.session_version,
        user@.created_at == user.created_at@,
        user@.updated_at == user.updated_at@,
        user.deep_view() == user@,
{
}

/// Two rows agree in a column exactly if they hold the same value there, and rows that agree
/// in every column are the same.
pub proof fn law_agreement_is_equality(a: UserRow, b: UserRow)
    ensures
        a.agrees(b, UserColumn::Id) <==> a.id == b.id,
        a.agrees(b, UserColumn::Name) <==> a.name == b.name,
        a.agrees(b, UserColumn::Email) <==> a.email == b.email,
        a.agrees(b, UserColumn::PasswordHash) <==> a.password_hash == b.password_hash,
        a.agrees(b, UserColumn::RememberToken) <==> a.remember_token == b.remember_token,
        a.agrees(b, UserColumn::EmailVerifiedAt) <==> a.email_verified_at == b.email_verified_at,
        a.agrees(b, UserColumn::LockedAt) <==> a.locked_at == b.locked_at,
        a.agrees(b, UserColumn::AuthEpoch) <==> a.auth_epoch == b.auth_epoch,
        a.agrees(b, UserColumn::SessionVersion) <==> a.session_version == b.session_version,
        a.agrees(b, UserColumn::CreatedAt) <==> a.created_at == b.created_at,
        a.agrees(b, UserColumn::UpdatedAt) <==> a.updated_at == b.updated_at,
        (forall|column: UserColumn| #[trigger] a.agrees(b, column)) <==> a == b,
{
    if forall|column: UserColumn| #[trigger] a.agrees(b, column) {
        assert(a.agrees(b, UserColumn::Id));
        assert(a.agrees(b, UserColumn::Name));
        assert(a.agrees(b, UserColumn::Email));
        assert(a.agrees(b, UserColumn::PasswordHash));
        assert(a.agrees(b, UserColumn::RememberToken));
        assert(a.agrees(b, UserColumn::EmailVerifiedAt));
        assert(a.agrees(b, UserColumn::LockedAt));
        assert(a.agrees(b, UserColumn::AuthEpoch));
        assert(a.agrees(b, UserColumn::SessionVersion));
        assert(a.agrees(b, UserColumn::CreatedAt));
        assert(a.agrees(b, UserColumn::UpdatedAt));
    }
}

/// Storing keeps the instant and writes it at offset zero, reading keeps the instant whatever
/// the offset, and a missing time stays missing both ways.
pub proof fn law_storage_keeps_the_instant(value: Instant, stored: Stored)
    ensures
        storage_form(value).instant == value,
        storage_form(value).offset == 0,
        runtime_form(stored) == stored.instant,
        optional_storage_form(Some(value)) == Some(Stored { instant: value, offset: 0 }),
        optional_storage_form(None) is None,
        optional_runtime_form(Some(stored)) == Some(stored.instant),
        optional_runtime_form(None) is None,
{
}

/// Mass assignment may set the name, the address and the password hash, and nothing else.
pub proof fn law_fillable_account_columns()
    ensures
        UserColumn::Name.fillable(),
        UserColumn::Email.fillable(),
        UserColumn::PasswordHash.fillable(),
        !UserColumn::Id.fillable(),
        !UserColumn::RememberToken.fillable(),
        !UserColumn::EmailVerifiedAt.fillable(),
        !UserColumn::LockedAt.fillable(),
        !UserColumn::AuthEpoch.fillable(),
        !UserColumn::SessionVersion.fillable(),
        !UserColumn::CreatedAt.fillable(),
        !UserColumn::UpdatedAt.fillable(),
{
}

/// The hash, the remember token, the lockout, the epoch and the session version are hidden,
/// and make up the authentication state; nothing else does.
pub proof fn law_hidden_account_columns()
    ensures
        UserColumn::PasswordHash.hidden(),
        UserColumn::RememberToken.hidden(),
        UserColumn::LockedAt.hidden(),
        UserColumn::AuthEpoch.hidden(),
        UserColumn::SessionVersion.hidden(),
        !UserColumn::Id.hidden(),
        !UserColumn::Name.hidden(),
        !UserColumn::Email.hidden(),
        !UserColumn::EmailVerifiedAt.hidden(),
        !UserColumn::CreatedAt.hidden(),
        !UserColumn::UpdatedAt.hidden(),
        forall|column: UserColumn| #[trigger] column.authentication_state() <==> column.hidden(),
{
}

/// Each column goes by its own name in the database.
pub proof fn law_account_column_names()
    ensures
        UserColumn::Id.name() == "id"@,
        UserColumn::Name.name() == "name"@,
        UserColumn::Email.name() == "email"@,
        UserColumn::PasswordHash.name() == "password_hash"@,
        UserColumn::RememberToken.name() == "remember_token"@,
        UserColumn::EmailVerifiedAt.name() == "email_verified_at"@,
        UserColumn::LockedAt.name() == "locked_at"@,
        UserColumn::AuthEpoch.name() == "auth_epoch"@,
        UserColumn::SessionVersion.name() == "session_version"@,
        UserColumn::CreatedAt.name() == "created_at"@,
        UserColumn::UpdatedAt.name() == "updated_at"@,
{
}

/// An account that has a name is shown by that name, whatever it is; one that has none is
/// shown as "Account".
pub proof fn law_display_name_is_the_name(row: UserRow)
    ensures
        row.name matches Some(name) ==> row.display_name() == name,
        row.name is None ==> row.display_name() == "Account"@,
{
}

/// Passwords are held against the stored hash as it stands, and against none if there is none
/// or it is empty; a name for mail is taken over in the same way.
pub proof fn law_empty_text_counts_as_missing(row: UserRow, text: Seq<char>)
    ensures
        row.auth_password() == Some(text) <==> row.password_hash == Some(text) && text.len() > 0,
        row.auth_password() is None <==> (row.password_hash matches Some(hash) ==> hash.len() == 0),
        non_empty(row.name) == Some(text) <==> row.name == Some(text) && text.len() > 0,
        non_empty(row.name) is None <==> (row.name matches Some(name) ==> name.len() == 0),
{
}

/// An address is verified exactly if the account has a verification time, whatever time it is.
pub proof fn law_verified_means_a_time_is_set(row: UserRow)
    ensures
        row.email_verified() <==> row.email_verified_at is Some,
{
}

/// A password check on an account without a hash, or with an empty one, comes to no; on any
/// other account it comes to what the hasher says of exactly that password and that hash.
pub proof fn law_password_check_asks_about_the_stored_hash<
    E,
    V: FnOnce(&str, &str) -> Result<bool, E>,
>(user: User, password: &str, verify: V, verified: Result<bool, E>)
    requires
        password_outcome(user@, password, verify, verified),
    ensures
        user.password_hash is None ==> verified == Ok::<bool, E>(false),
        user.password_hash matches Some(stored) ==> {
            &&& stored@.len() == 0 ==> verified == Ok::<bool, E>(false)
            &&& stored@.len() > 0 ==> exists|hash: &str|
                hash@ == stored@ && call_ensures(verify, (password, hash), verified)
        },
{
}

/// A password opens an account exactly if the account stores a hash that is not empty and the
/// password goes with that hash.
pub proof fn law_opening_needs_the_stored_hash(
    row: UserRow,
    password: Seq<char>,
    matches: spec_fn(Seq<char>, Seq<char>) -> bool,
)
    ensures
        row.opens(password, matches) <==> (row.password_hash matches Some(hash) && hash.len() > 0
            && matches(password, hash)),
{
}

/// A lookup by address asks for exactly the rows with that address.
pub proof fn law_lookup_selects_the_address(email: String, row: UserRow)
    ensures
        UserLookup::Email(email).selects(row) <==> row.email == email@,
{
}

/// An edited profile is saved to the account that it was made from, and to no other: that
/// account's row takes the given name, address and verification time, its modification time
/// is the database's, and everything else in it stays.
pub proof fn law_profile_update_reaches_its_own_account(
    user: User,
    name: String,
    email: String,
    email_verified_at: Option<UtcDateTime>,
    before: UserRow,
    after: UserRow,
)
    ensures
        profile_write(user, name, email, email_verified_at).updates(before, after) <==> before.id
            == user.id && after == (UserRow {
            id: user.id,
            name: Some(name@),
            email: email@,
            email_verified_at: email_verified_at.deep_view(),
            updated_at: after.updated_at,
            ..before
        }),
{
    let write = profile_write(user, name, email, email_verified_at);
    if write.updates(before, after) {
        assert(before.agrees(after, UserColumn::Id));
        assert(before.agrees(after, UserColumn::PasswordHash));
        assert(before.agrees(after, UserColumn::RememberToken));
        assert(before.agrees(after, UserColumn::LockedAt));
        assert(before.agrees(after, UserColumn::AuthEpoch));
        assert(before.agrees(after, UserColumn::SessionVersion));
        assert(before.agrees(after, UserColumn::CreatedAt));
    }
}

/// A rotated hash is saved to the account that it was made for, and to no other, and nothing
/// else of that account's row is written.
pub proof fn law_password_rotation_reaches_its_own_account(
    user: User,
    hash: String,
    before: UserRow,
    after: UserRow,
)
    ensures
        (UserWrite::UpdatePasswordHash { id: user.id, password_hash: Some(hash) }).updates(
            before,
            after,
        ) <==> before.id == user.id && after == (UserRow {
            id: user.id,
            password_hash: Some(hash@),
            updated_at: after.updated_at,
            ..before
        }),
{
    let write = UserWrite::UpdatePasswordHash { id: user.id, password_hash: Some(hash) };
    if write.updates(before, after) {
        law_password_rotation_replaces_only_the_hash(user, hash, before, after);
    }
}

/// A remember token is saved to the account that it was made for, and to no other, and nothing
/// else of that account's row is written.
pub proof fn law_remember_token_reaches_its_own_account(
    user: User,
    token: Option<String>,
    before: UserRow,
    after: UserRow,
)
    ensures
        (UserWrite::UpdateRememberToken { id: user.id, remember_token: token }).updates(
            before,
            after,
        ) <==> before.id == user.id && after == (UserRow {
            id: user.id,
            remember_token: token.deep_view(),
            updated_at: after.updated_at,
            ..before
        }),
{
    let write = UserWrite::UpdateRememberToken { id: user.id, remember_token: token };
    if write.updates(before, after) {
        law_remember_token_replaces_only_the_token(user, token, before, after);
    }
}

/// A new account holds the name, the address and the hash that it was added with.
pub proof fn law_new_account_holds_what_it_was_given(
    name: Option<String>,
    email: String,
    password_hash: Option<String>,
    row: UserRow,
)
    ensures
        (UserWrite::Insert { name, email, password_hash }).holds_in(row) <==> row.name
            == name.deep_view() && row.email == email@ && row.password_hash
            == password_hash.deep_view(),
{
}

/// Each write names its own columns and no others, and only a profile update and a remember
/// token need a trusted writer.
pub proof fn law_columns_of_account_writes(write: UserWrite, column: UserColumn)
    ensures
        write is Insert ==> (write.columns().contains(column) <==> column is Name || column is Email
            || column is PasswordHash),
        write is UpdateProfile ==> (write.columns().contains(column) <==> column is Name || column is Email
            || column is EmailVerifiedAt),
        write is UpdatePasswordHash ==> (write.columns().contains(column) <==> column is PasswordHash),
        write is UpdateRememberToken ==> (write.columns().contains(column) <==> column is RememberToken),
        (forall|named: UserColumn| #[trigger] write.columns().contains(named) ==> named.fillable())
            <==> write is Insert || write is UpdatePasswordHash,
{
    assert(write is UpdateProfile ==> write.columns().contains(UserColumn::EmailVerifiedAt));
    assert(write is UpdateRememberToken ==> write.columns().contains(UserColumn::RememberToken));
}

} // verus!
