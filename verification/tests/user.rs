use pulsar::datetime::UtcDateTime;
use pulsar::models::user::{User, UserColumn, UserLookup, UserWrite};
use pulsar::models::Guard;

fn at(seconds: i64) -> UtcDateTime {
    UtcDateTime::new(seconds, 0).expect("in range")
}

fn user(id: i64, name: &str, email: &str) -> User {
    User {
        id,
        name: Some(name.to_string()),
        email: email.to_string(),
        password_hash: Some("hashed:oldpass1!".to_string()),
        remember_token: None,
        email_verified_at: None,
        locked_at: None,
        auth_epoch: 0,
        session_version: 0,
        created_at: at(1),
        updated_at: at(1),
    }
}

fn hash(password: &str) -> Result<String, String> {
    Ok(format!("hashed:{password}"))
}

fn verify(password: &str, stored: &str) -> Result<bool, String> {
    Ok(stored == format!("hashed:{password}"))
}

/// An accounts table that carries out writes column by column.
struct Accounts {
    rows: Vec<User>,
}

impl Accounts {
    fn new() -> Accounts {
        Accounts { rows: Vec::new() }
    }

    fn find(&self, lookup: UserLookup) -> Option<User> {
        let UserLookup::Email(email) = lookup;
        self.rows.iter().find(|row| row.email == email).cloned()
    }

    fn row(&mut self, wanted: i64) -> &mut User {
        self.rows.iter_mut().find(|row| row.id == wanted).expect("row exists")
    }

    fn carry_out(&mut self, write: UserWrite) -> User {
        let changed = match write {
            UserWrite::Insert { name, email, password_hash } => {
                let id = self.rows.len() as i64 + 1;
                let mut row = user(id, "", "");
                row.name = name;
                row.email = email;
                row.password_hash = password_hash;
                self.rows.push(row);
                id
            }
            UserWrite::UpdateProfile { id, name, email, email_verified_at } => {
                let row = self.row(id);
                row.name = name;
                row.email = email;
                row.email_verified_at = email_verified_at;
                id
            }
            UserWrite::UpdatePasswordHash { id, password_hash } => {
                self.row(id).password_hash = password_hash;
                id
            }
            UserWrite::UpdateRememberToken { id, remember_token } => {
                self.row(id).remember_token = remember_token;
                id
            }
        };
        self.row(changed).clone()
    }

    fn create(&mut self, name: &str, email: &str, password: &str) -> User {
        let write = User::create(name.to_string(), email.to_string(), password, hash)
            .expect("hash the password");
        self.carry_out(write)
    }
}

#[test]
fn profile_update_does_not_restore_stale_authentication_state() {
    let mut accounts = Accounts::new();
    let user = accounts.create("Stale Snapshot", "stale@pulsar.test", "oldpass1!");
    let stale = user.clone();
    let user_id = user.id;
    let replacement_hash = hash("newpass1!").expect("hash replacement");
    let write = user.update_password_hash(replacement_hash.clone());
    accounts.carry_out(write);

    accounts.row(user_id).auth_epoch = 7;

    let write = stale.update_profile(
        "Fresh Profile".to_owned(),
        "stale-updated@pulsar.test".to_owned(),
        None,
    );
    accounts.carry_out(write);

    let updated = accounts
        .find(User::find_by_email("stale-updated@pulsar.test"))
        .expect("user exists");
    assert_eq!(updated.password_hash.as_deref(), Some(replacement_hash.as_str()));
    assert_eq!(updated.auth_epoch, 7);
}

#[test]
fn email_change_clears_the_verification_time() {
    let mut accounts = Accounts::new();
    let mut user = accounts.create("Edsger", "edsger@x.com", "oldpass1!");
    assert!(!user.is_email_verified(), "a freshly created user is unverified");
    user.set_email_verified_at(Some(at(5)));
    assert!(user.is_email_verified());
    let write = user.update_profile(
        "Edsger Dijkstra".to_owned(),
        "edsger.new@x.com".to_owned(),
        None,
    );
    accounts.carry_out(write);
    assert_eq!(accounts.find(User::find_by_email("edsger@x.com")), None);
    let updated = accounts
        .find(User::find_by_email("edsger.new@x.com"))
        .expect("user exists");
    assert_eq!(updated.name.as_deref(), Some("Edsger Dijkstra"));
    assert_eq!(updated.email, "edsger.new@x.com");
    assert!(!updated.is_email_verified());
}

#[test]
fn password_rotation_is_gated_on_the_current_password() {
    let mut accounts = Accounts::new();
    let user = accounts.create("Edsger", "edsger@x.com", "oldpass1!");
    assert_eq!(user.verify_password("not-the-password", verify), Ok(false));
    assert_eq!(user.verify_password("oldpass1!", verify), Ok(true));
    let write = user.update_password_hash(hash("brandnew1!").expect("hash"));
    let after = accounts.carry_out(write);
    assert_eq!(after.verify_password("brandnew1!", verify), Ok(true));
    assert_eq!(after.verify_password("oldpass1!", verify), Ok(false));
}

#[test]
fn an_account_without_a_usable_hash_refuses_every_password() {
    let mut account = user(1, "Ada", "ada@x.com");
    for stored in [None, Some(String::new())] {
        account.password_hash = stored;
        assert_eq!(account.get_auth_password(), None);
        let answer: Result<bool, String> =
            account.verify_password("", |_, _| panic!("the hasher is not asked"));
        assert_eq!(answer, Ok(false));
    }
    account.set_password_hash("hashed:new");
    assert_eq!(account.get_auth_password(), Some("hashed:new"));
    assert_eq!(account.verify_password("new", verify), Ok(true));
    account.set_password_hash("");
    assert_eq!(account.get_auth_password(), None);
}

#[test]
fn the_hasher_gets_the_password_and_the_stored_hash() {
    let account = user(1, "Ada", "ada@x.com");
    let answer: Result<bool, String> = account.verify_password("guess", |password, stored| {
        assert_eq!((password, stored), ("guess", "hashed:oldpass1!"));
        Err("broken hash".to_string())
    });
    assert_eq!(answer, Err("broken hash".to_string()));
}

#[test]
fn creation_stores_the_hash_in_place_of_the_password() {
    let write = User::create("Grace".to_string(), "grace@pulsar.test".to_string(), "supersecret", hash)
        .expect("hash the password");
    assert_eq!(write.guard(), Guard::Fillable);
    assert_eq!(
        write,
        UserWrite::Insert {
            name: Some("Grace".to_string()),
            email: "grace@pulsar.test".to_string(),
            password_hash: Some("hashed:supersecret".to_string()),
        }
    );
    let failed = User::create("Grace".to_string(), "g@x.com".to_string(), "pw", |_| {
        Err::<String, &str>("no entropy")
    });
    assert_eq!(failed, Err("no entropy"));
}

#[test]
fn updates_name_only_their_own_columns() {
    let account = user(9, "Ada", "ada@x.com");
    let token = account.update_remember_token(Some("token".to_string()));
    assert_eq!(token.guard(), Guard::Unguarded);
    assert_eq!(
        token,
        UserWrite::UpdateRememberToken { id: 9, remember_token: Some("token".to_string()) }
    );
    let cleared = account.update_remember_token(None);
    assert_eq!(cleared, UserWrite::UpdateRememberToken { id: 9, remember_token: None });
    let profile = account.clone().update_profile("A".to_string(), "a@x.com".to_string(), Some(at(3)));
    assert_eq!(profile.guard(), Guard::Unguarded);
    assert_eq!(
        profile,
        UserWrite::UpdateProfile {
            id: 9,
            name: Some("A".to_string()),
            email: "a@x.com".to_string(),
            email_verified_at: Some(at(3)),
        }
    );
    let rotation = account.update_password_hash("h".to_string());
    assert_eq!(rotation.guard(), Guard::Fillable);
    assert_eq!(
        rotation,
        UserWrite::UpdatePasswordHash { id: 9, password_hash: Some("h".to_string()) }
    );
}

#[test]
fn a_remember_token_changes_nothing_else() {
    let mut accounts = Accounts::new();
    let before = accounts.create("Ada", "ada@x.com", "pw");
    let after = accounts.carry_out(before.update_remember_token(Some("t".to_string())));
    assert_eq!(after, User { remember_token: Some("t".to_string()), ..before });
}

#[test]
fn identifiers_are_decimal_ids() {
    assert_eq!(user(42, "Ada", "ada@x.com").get_auth_identifier(), "42");
    assert_eq!(user(-3, "Ada", "ada@x.com").get_auth_identifier(), "-3");
    assert_eq!(user(42, "Ada", "ada@x.com").auth_identifier_name(), "id");
    assert_eq!(user(42, "Ada", "ada@x.com").rbac_model_type(), "User");
}

#[test]
fn mail_goes_to_the_address_and_skips_an_empty_name() {
    let mut account = user(1, "Ada", "ada@x.com");
    assert_eq!(account.email(), "ada@x.com");
    assert_eq!(account.email_for_reset(), "ada@x.com");
    assert_eq!(account.name(), Some("Ada"));
    assert_eq!(account.display_name(), "Ada");
    account.name = Some(String::new());
    assert_eq!(account.name(), None);
    assert_eq!(account.display_name(), "");
    account.name = None;
    assert_eq!(account.name(), None);
    assert_eq!(account.display_name(), "Account");
}

#[test]
fn the_verification_time_is_read_and_cleared() {
    let mut account = user(1, "Ada", "ada@x.com");
    assert_eq!(account.email_verified_at(), None);
    account.set_email_verified_at(Some(at(77)));
    assert_eq!(account.email_verified_at(), Some(at(77)));
    assert!(account.is_email_verified());
    account.set_email_verified_at(None);
    assert!(!account.is_email_verified());
    assert_eq!(account, user(1, "Ada", "ada@x.com"));
}

#[test]
fn account_columns_are_fillable_and_hidden_as_declared() {
    let columns = [
        (UserColumn::Id, "id", false, false),
        (UserColumn::Name, "name", true, false),
        (UserColumn::Email, "email", true, false),
        (UserColumn::PasswordHash, "password_hash", true, true),
        (UserColumn::RememberToken, "remember_token", false, true),
        (UserColumn::EmailVerifiedAt, "email_verified_at", false, false),
        (UserColumn::LockedAt, "locked_at", false, true),
        (UserColumn::AuthEpoch, "auth_epoch", false, true),
        (UserColumn::SessionVersion, "session_version", false, true),
        (UserColumn::CreatedAt, "created_at", false, false),
        (UserColumn::UpdatedAt, "updated_at", false, false),
    ];
    for (column, name, fillable, hidden) in columns {
        assert_eq!(column.as_str(), name);
        assert_eq!(column.is_fillable(), fillable, "{name}");
        assert_eq!(column.is_hidden(), hidden, "{name}");
    }
}

#[test]
fn accounts_are_looked_up_by_address() {
    let lookup = User::find_by_email("ada@x.com");
    assert_eq!(lookup.column(), UserColumn::Email);
    assert_eq!(lookup, UserLookup::Email("ada@x.com".to_string()));
}
