use pulsar::datetime::UtcDateTime;
use pulsar::models::profile::{
    EnsureStep, NewProfile, Profile, ProfileColumn, ProfileLookup, DISPLAY_NAME_MAX_LENGTH,
};
use pulsar::models::user::User;
use pulsar::models::Guard;

fn at(seconds: i64) -> UtcDateTime {
    UtcDateTime::new(seconds, 0).expect("in range")
}

fn user(id: i64, name: Option<&str>) -> User {
    User {
        id,
        name: name.map(|name| name.to_string()),
        email: format!("user{id}@pulsar.test"),
        password_hash: None,
        remember_token: None,
        email_verified_at: None,
        locked_at: None,
        auth_epoch: 0,
        session_version: 0,
        created_at: at(1),
        updated_at: at(1),
    }
}

fn profile(id: i64, user_id: i64, handle: &str, display_name: &str) -> Profile {
    Profile {
        id,
        user_id,
        handle: handle.to_string(),
        display_name: display_name.to_string(),
        bio: None,
        avatar_url: None,
        website_url: None,
        github_url: None,
        location: None,
        timezone: None,
        created_at: at(1),
        updated_at: at(1),
    }
}

/// A profiles table with a required owner and unique handles.
struct Profiles {
    rows: Vec<Profile>,
    inserts: usize,
}

impl Profiles {
    fn new() -> Profiles {
        Profiles { rows: Vec::new(), inserts: 0 }
    }

    fn find(&self, lookup: ProfileLookup) -> Result<Option<Profile>, String> {
        let row = match lookup {
            ProfileLookup::Handle(handle) => self.rows.iter().find(|row| row.handle == handle),
            ProfileLookup::UserId(id) => self.rows.iter().find(|row| row.user_id == id),
        };
        Ok(row.cloned())
    }

    fn insert(&mut self, new: &NewProfile, guard: Guard) -> Result<Profile, String> {
        self.inserts += 1;
        let let_through =
            |column: ProfileColumn| guard == Guard::Unguarded || column.is_fillable();
        if !let_through(ProfileColumn::UserId) {
            return Err("NOT NULL constraint failed: profiles.user_id".to_string());
        }
        assert!(let_through(ProfileColumn::Handle) && let_through(ProfileColumn::DisplayName));
        if self.rows.iter().any(|row| row.handle == new.handle) {
            return Err("UNIQUE constraint failed: profiles.handle".to_string());
        }
        let id = self.rows.len() as i64 + 1;
        self.rows.push(profile(id, new.user_id, &new.handle, &new.display_name));
        Ok(self.rows[self.rows.len() - 1].clone())
    }

    fn ensure_for_user(&mut self, user: &User) -> Result<Profile, String> {
        let search = Profile::ensure_for_user(user);
        let reply = self.find(search.lookup());
        let mut step = search.found(reply);
        loop {
            step = match step {
                EnsureStep::Insert(insert) => {
                    let reply = self.insert(&insert.row, insert.row.guard());
                    insert.inserted(reply)
                }
                EnsureStep::Recheck(again) => {
                    let reply = self.find(again.lookup());
                    EnsureStep::Done(again.found(reply))
                }
                EnsureStep::Done(outcome) => return outcome,
            };
        }
    }
}

#[test]
fn profile_find_by_slug_uses_handle() {
    let mut profiles = Profiles::new();
    let user = user(1, Some("Slug User"));
    let profile = profiles.ensure_for_user(&user).expect("ensure profile");

    let found = profiles
        .find(Profile::find_by_slug(&profile.handle))
        .expect("lookup profile by slug")
        .expect("profile slug resolves by handle");

    assert_eq!(found.id, profile.id);
}

#[test]
fn ownership_columns_cannot_be_mass_assigned() {
    let mut profiles = Profiles::new();

    let result = profiles.insert(
        &NewProfile {
            user_id: 999,
            handle: "mass-assign-guard".to_string(),
            display_name: "Mass Assign Guard".to_string(),
        },
        Guard::Fillable,
    );

    assert!(
        result.is_err(),
        "mass-assigning the guarded user_id must not produce a persisted row: {result:?}"
    );
    assert!(
        profiles
            .find(Profile::find_by_user_id(999))
            .expect("lookup injected owner")
            .is_none(),
        "no profile may be owned by the injected user_id"
    );

    let owner = user(1, Some("Guard Owner"));
    let profile = profiles
        .ensure_for_user(&owner)
        .expect("ensure_for_user sets user_id via unguarded");
    assert_eq!(
        profile.user_id, owner.id,
        "the trusted unguarded path still sets the real owner id"
    );
}

#[test]
fn a_first_profile_has_the_generated_handle_and_the_account_name() {
    let search = Profile::ensure_for_user(&user(17, Some("Katherine Johnson")));
    assert_eq!(search.first.user_id, 17);
    assert_eq!(search.first.handle, "user-17");
    assert_eq!(search.first.display_name, "Katherine Johnson");
    assert_eq!(search.first.guard(), Guard::Unguarded);
    let unnamed = Profile::ensure_for_user(&user(-1, None));
    assert_eq!(unnamed.first.handle, "user--1");
    assert_eq!(unnamed.first.display_name, "Account");
}

#[test]
fn an_existing_profile_is_returned_without_an_insertion() {
    let mut profiles = Profiles::new();
    let owner = user(3, Some("Ada"));
    let first = profiles.ensure_for_user(&owner).expect("ensure");
    assert_eq!(profiles.inserts, 1);
    let second = profiles.ensure_for_user(&owner).expect("ensure again");
    assert_eq!(second, first);
    assert_eq!(profiles.inserts, 1);
}

#[test]
fn a_failed_first_lookup_ends_the_search() {
    let search = Profile::ensure_for_user(&user(3, Some("Ada")));
    assert_eq!(search.lookup(), ProfileLookup::UserId(3));
    match search.found(Err("connection lost")) {
        EnsureStep::Done(outcome) => assert_eq!(outcome, Err("connection lost")),
        _ => panic!("the search must end"),
    }
}

#[test]
fn the_winner_of_a_race_is_returned() {
    let search = Profile::ensure_for_user(&user(3, Some("Ada")));
    let EnsureStep::Insert(insert) = search.found(Ok::<_, &str>(None)) else {
        panic!("there is no profile yet");
    };
    let EnsureStep::Recheck(again) = insert.inserted(Err("duplicate owner")) else {
        panic!("a failed insertion is looked at again");
    };
    assert_eq!(again.lookup(), ProfileLookup::UserId(3));
    let winner = profile(8, 3, "user-3", "Ada");
    assert_eq!(again.found(Ok(Some(winner.clone()))), Ok(winner));
}

#[test]
fn the_error_of_the_insertion_stands() {
    for recheck in [Ok(None), Err("connection lost")] {
        let search = Profile::ensure_for_user(&user(3, Some("Ada")));
        let EnsureStep::Insert(insert) = search.found(Ok::<_, &str>(None)) else {
            panic!("there is no profile yet");
        };
        let EnsureStep::Recheck(again) = insert.inserted(Err("handle taken")) else {
            panic!("a failed insertion is looked at again");
        };
        assert_eq!(again.found(recheck), Err("handle taken"));
    }
}

#[test]
fn a_taken_generated_handle_fails_the_search() {
    let mut profiles = Profiles::new();
    profiles.rows.push(profile(1, 999, "user-1", "Handle Collision"));
    assert_eq!(
        profiles.ensure_for_user(&user(1, Some("Profile Failure"))),
        Err("UNIQUE constraint failed: profiles.handle".to_string())
    );
}

#[test]
fn different_accounts_get_different_handles() {
    let ids = [0, 1, -1, 10, 11, 110, i64::MAX, i64::MIN];
    for a in ids {
        for b in ids {
            let first = Profile::ensure_for_user(&user(a, None)).first.handle;
            let second = Profile::ensure_for_user(&user(b, None)).first.handle;
            assert_eq!(first == second, a == b);
        }
    }
}

#[test]
fn lookups_name_their_column() {
    assert_eq!(Profile::find_by_slug("grace"), Profile::find_by_handle("grace"));
    assert_eq!(Profile::find_by_handle("grace"), ProfileLookup::Handle("grace".to_string()));
    assert_eq!(Profile::find_by_handle("grace").column(), ProfileColumn::Handle);
    assert_eq!(Profile::find_by_user_id(4).column(), ProfileColumn::UserId);
}

#[test]
fn profile_columns_are_fillable_as_declared() {
    let columns = [
        (ProfileColumn::Id, "id", false),
        (ProfileColumn::UserId, "user_id", false),
        (ProfileColumn::Handle, "handle", true),
        (ProfileColumn::DisplayName, "display_name", true),
        (ProfileColumn::Bio, "bio", true),
        (ProfileColumn::AvatarUrl, "avatar_url", true),
        (ProfileColumn::WebsiteUrl, "website_url", true),
        (ProfileColumn::GithubUrl, "github_url", true),
        (ProfileColumn::Location, "location", true),
        (ProfileColumn::Timezone, "timezone", true),
        (ProfileColumn::CreatedAt, "created_at", false),
        (ProfileColumn::UpdatedAt, "updated_at", false),
    ];
    for (column, name, fillable) in columns {
        assert_eq!(column.as_str(), name);
        assert_eq!(column.is_fillable(), fillable, "{name}");
    }
    assert_eq!(DISPLAY_NAME_MAX_LENGTH, 120);
}
