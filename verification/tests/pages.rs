use pulsar::bootstrap::{
    register, AuthShare, Boot, BootStep, Environment, Frontend, GlobalMiddleware, InertiaSettings,
    PasskeyConfig, INERTIA_VERSION,
};
use pulsar::controllers::admin_users::{self, AdminUserRow, Direction, UsersStep, ROLES};
use pulsar::controllers::dashboard::{
    self, AccountStatus, DashboardAction, DashboardCard, DashboardError, UserInfo,
};
use pulsar::datetime::UtcDateTime;
use pulsar::models::user::{User, UserColumn};

fn at(seconds: i64) -> UtcDateTime {
    UtcDateTime::new(seconds, 0).expect("in range")
}

fn user(id: i64, name: Option<&str>, email: &str) -> User {
    User {
        id,
        name: name.map(|name| name.to_string()),
        email: email.to_string(),
        password_hash: Some("hash".to_string()),
        remember_token: None,
        email_verified_at: None,
        locked_at: None,
        auth_epoch: 0,
        session_version: 0,
        created_at: at(1_431_648_000),
        updated_at: at(1_431_648_000),
    }
}

fn info(id: i64, name: &str, email: &str) -> UserInfo {
    UserInfo { id, name: name.to_string(), email: email.to_string() }
}

fn card(title: &str, value: &str, helper: &str, icon: &str) -> DashboardCard {
    DashboardCard {
        title: title.to_string(),
        value: value.to_string(),
        helper: helper.to_string(),
        icon: icon.to_string(),
    }
}

fn action(title: &str, body: &str, href: &str, icon: &str) -> DashboardAction {
    DashboardAction {
        title: title.to_string(),
        body: body.to_string(),
        href: href.to_string(),
        icon: icon.to_string(),
    }
}

#[test]
fn the_dashboard_shows_the_account_its_cards_and_its_actions() {
    let mut account = user(5, Some("Inertia User"), "inertia@x.com");
    account.email_verified_at = Some(at(9));
    let shown = dashboard::index::<()>(Ok(Some(account))).expect("signed in");
    assert_eq!(shown.component, "Dashboard");
    let page = shown.props;
    assert_eq!(page.user, info(5, "Inertia User", "inertia@x.com"));
    assert_eq!(page.account, AccountStatus { email_verified: true });
    assert_eq!(
        page.cards,
        vec![
            card(
                "Starter kit",
                "Ready",
                "Landing, auth, profile, and static assets are wired.",
                "mdi-rocket-launch-outline",
            ),
            card(
                "Auth flows",
                "Verified",
                "Email verification, password reset, and profile updates are active.",
                "mdi-shield-check-outline",
            ),
            card(
                "Content engine",
                "Planned",
                "Docs and articles are next in the kit roadmap.",
                "mdi-file-document-edit-outline",
            ),
        ]
    );
    assert_eq!(
        page.actions,
        vec![
            action(
                "Manage profile",
                "Update your account details, password, and verification status.",
                "/profile",
                "mdi-account-cog-outline",
            ),
            action(
                "Review landing page",
                "Check the public kit homepage and starter-kit messaging.",
                "/",
                "mdi-home-search-outline",
            ),
        ]
    );
}

#[test]
fn the_dashboard_of_an_unnamed_unverified_account() {
    let page = dashboard::index::<()>(Ok(Some(user(6, None, "x@x.com")))).expect("signed in").props;
    assert_eq!(page.user, info(6, "Account", "x@x.com"));
    assert_eq!(page.account, AccountStatus { email_verified: false });
}

#[test]
fn there_is_no_dashboard_for_a_guest_or_after_a_failure() {
    assert_eq!(dashboard::index::<&str>(Ok(None)), Err(DashboardError::Unauthorized));
    assert_eq!(dashboard::index(Err("down")), Err(DashboardError::Lookup("down")));
}

#[test]
fn every_page_is_given_the_signed_in_account() {
    let shared = AuthShare.share::<&str>(Ok(Some(user(5, Some("Ada"), "ada@x.com"))));
    assert_eq!(shared.expect("shared").auth.user, Some(info(5, "Ada", "ada@x.com")));
    let unnamed = AuthShare.share::<&str>(Ok(Some(user(5, None, "ada@x.com"))));
    assert_eq!(unnamed.expect("shared").auth.user, Some(info(5, "Account", "ada@x.com")));
    let guest = AuthShare.share::<&str>(Ok(None));
    assert_eq!(guest.expect("shared").auth.user, None);
    assert_eq!(AuthShare.share(Err("down")), Err("down"));
}

fn run_list(users: Vec<User>, held: &[(usize, &str)]) -> (Vec<AdminUserRow>, Vec<(usize, String)>) {
    let mut questions = Vec::new();
    let mut step = admin_users::index::<&str>(Ok(users));
    loop {
        step = match step {
            UsersStep::Ask(survey) => {
                let question = (survey.user_index(), survey.role());
                questions.push((question.0, question.1.to_string()));
                survey.answer(Ok(held.contains(&question)))
            }
            UsersStep::Render(page) => {
                assert_eq!(page.component, "admin/users/Index");
                return (page.props.users, questions);
            }
            UsersStep::Fail(error) => panic!("{error}"),
        };
    }
}

#[test]
fn the_list_names_the_roles_of_each_account() {
    let mut second = user(2, None, "second@x.com");
    second.email_verified_at = Some(at(3));
    second.created_at = UtcDateTime::new(0, 5_000_000).expect("in range");
    let users = vec![user(1, Some("Page Admin"), "page-admin@pulsar.test"), second];
    let (rows, questions) =
        run_list(users, &[(0, "member"), (0, "admin"), (0, "author"), (1, "moderator")]);
    assert_eq!(
        rows,
        vec![
            AdminUserRow {
                id: 1,
                name: "Page Admin".to_string(),
                email: "page-admin@pulsar.test".to_string(),
                verified: false,
                roles: vec!["admin".to_string(), "author".to_string(), "member".to_string()],
                created_at: "2015-05-15T00:00:00+00:00".to_string(),
            },
            AdminUserRow {
                id: 2,
                name: "Account".to_string(),
                email: "second@x.com".to_string(),
                verified: true,
                roles: vec!["moderator".to_string()],
                created_at: "1970-01-01T00:00:00.005+00:00".to_string(),
            },
        ]
    );
    let expected: Vec<(usize, String)> = (0..2)
        .flat_map(|index| ROLES.iter().map(move |role| (index, role.to_string())))
        .collect();
    assert_eq!(questions, expected);
    assert_eq!(ROLES, ["admin", "moderator", "author", "contributor", "member"]);
}

#[test]
fn the_list_shows_an_administrator() {
    let mut admin = user(1, Some("Page Admin"), "page-admin@pulsar.test");
    admin.email_verified_at = Some(at(0));
    admin.created_at = at(0);
    let (rows, _) = run_list(vec![admin], &[(0, "admin")]);
    assert_eq!(
        rows,
        vec![AdminUserRow {
            id: 1,
            name: "Page Admin".to_string(),
            email: "page-admin@pulsar.test".to_string(),
            verified: true,
            roles: vec!["admin".to_string()],
            created_at: "1970-01-01T00:00:00+00:00".to_string(),
        }]
    );
}

#[test]
fn an_account_without_roles_is_listed_without_roles() {
    let (rows, questions) = run_list(vec![user(1, Some("Ada"), "ada@x.com")], &[]);
    assert_eq!(rows.len(), 1);
    assert!(rows[0].roles.is_empty());
    assert_eq!(questions.len(), 5);
}

#[test]
fn no_accounts_make_an_empty_list() {
    let (rows, questions) = run_list(Vec::new(), &[]);
    assert!(rows.is_empty());
    assert!(questions.is_empty());
    assert_eq!(admin_users::listing_order(), UserColumn::Id);
    assert_eq!(admin_users::listing_direction(), Direction::Ascending);
}

#[test]
fn a_failed_question_ends_the_list() {
    let UsersStep::Ask(survey) =
        admin_users::index::<&str>(Ok(vec![user(1, Some("Ada"), "ada@x.com")]))
    else {
        panic!("there is somebody to ask about");
    };
    let UsersStep::Ask(survey) = survey.answer::<&str>(Ok(true)) else {
        panic!("there is more to ask");
    };
    assert_eq!(survey.role(), "moderator");
    match survey.answer(Err("down")) {
        UsersStep::Fail(error) => assert_eq!(error, "down"),
        _ => panic!("the list must end"),
    }
    match admin_users::index(Err("unreadable")) {
        UsersStep::Fail(error) => assert_eq!(error, "unreadable"),
        _ => panic!("the list must end"),
    }
}

#[test]
fn a_row_is_made_of_the_account_its_roles_and_its_date() {
    let row = AdminUserRow::new(
        &user(1, Some("Ada"), "ada@x.com"),
        vec!["author".to_string()],
        "some date".to_string(),
    );
    assert_eq!(
        row,
        AdminUserRow {
            id: 1,
            name: "Ada".to_string(),
            email: "ada@x.com".to_string(),
            verified: false,
            roles: vec!["author".to_string()],
            created_at: "some date".to_string(),
        }
    );
}

#[test]
fn hidden_columns_do_not_show() {
    let plain = user(1, Some("Ada"), "ada@x.com");
    let mut secret = plain.clone();
    secret.password_hash = None;
    secret.remember_token = Some("token".to_string());
    secret.locked_at = Some(at(4));
    secret.auth_epoch = 8;
    secret.session_version = 9;
    assert_eq!(
        dashboard::index::<()>(Ok(Some(plain.clone()))),
        dashboard::index::<()>(Ok(Some(secret.clone())))
    );
    assert_eq!(
        AuthShare.share::<()>(Ok(Some(plain.clone()))),
        AuthShare.share::<()>(Ok(Some(secret.clone())))
    );
    assert_eq!(run_list(vec![plain], &[(0, "admin")]), run_list(vec![secret], &[(0, "admin")]));
}

#[test]
fn the_start_takes_its_steps_in_order() {
    let plan = register(None, None, Environment::Testing);
    assert_eq!(
        plan,
        vec![
            BootStep::InitDatabase,
            BootStep::BootstrapRateLimit,
            BootStep::ResolveConnection,
            BootStep::InitMagnetar(PasskeyConfig {
                rp_id: "localhost".to_string(),
                rp_origin: "http://localhost".to_string(),
            }),
            BootStep::Middleware(GlobalMiddleware::Logging),
            BootStep::Middleware(GlobalMiddleware::Session),
            BootStep::Middleware(GlobalMiddleware::Csrf),
            BootStep::Middleware(GlobalMiddleware::Include),
            BootStep::InstallAuthManager,
            BootStep::RegisterUserProvider("users"),
            BootStep::InstallInertia(InertiaSettings {
                production: false,
                version: "1.0",
                frontend: Frontend::Vue,
            }),
            BootStep::ShareAuth,
        ]
    );
}

#[test]
fn settings_of_the_environment_are_taken_over() {
    let plan = register(
        Some("pulsar.test".to_string()),
        Some("https://pulsar.test".to_string()),
        Environment::Other,
    );
    assert_eq!(
        plan[3],
        BootStep::InitMagnetar(PasskeyConfig {
            rp_id: "pulsar.test".to_string(),
            rp_origin: "https://pulsar.test".to_string(),
        })
    );
    let mut production = Vec::new();
    for environment in
        [Environment::Local, Environment::Development, Environment::Testing, Environment::Other]
    {
        match &register(None, None, environment)[10] {
            BootStep::InstallInertia(settings) => {
                assert_eq!(settings.version, INERTIA_VERSION);
                assert_eq!(settings.frontend, Frontend::Vue);
                production.push(settings.production);
            }
            other => panic!("unexpected step {other:?}"),
        }
    }
    assert_eq!(production, vec![false, false, false, true]);
}

#[test]
fn failing_steps_say_what_failed() {
    let messages: Vec<Option<&str>> = register(None, None, Environment::Local)
        .iter()
        .map(|step| step.failure())
        .collect();
    assert_eq!(
        messages,
        vec![
            Some("Failed to connect to database"),
            None,
            Some("DB not initialized"),
            Some("Failed to initialize Magnetar"),
            None,
            None,
            None,
            None,
            None,
            Some("register users provider"),
            Some("Inertia install failed - under `.production()` this fails closed when the frontend manifest has not been built"),
            None,
        ]
    );
}

fn run_start(fails: fn(&BootStep) -> bool) -> (usize, Result<(), &'static str>) {
    let mut boot = Boot::begin(register(None, None, Environment::Local));
    let mut taken = 0;
    while let Some(step) = boot.step() {
        taken += 1;
        let succeeded = !fails(step);
        boot = match boot.advance(succeeded) {
            Ok(next) => next,
            Err(message) => return (taken, Err(message)),
        };
    }
    (taken, Ok(()))
}

#[test]
fn a_successful_start_takes_every_step() {
    assert_eq!(run_start(|_| false), (12, Ok(())));
}

#[test]
fn the_start_stops_at_the_first_failing_step() {
    assert_eq!(run_start(|_| true), (1, Err("Failed to connect to database")));
    assert_eq!(
        run_start(|step| matches!(step, BootStep::RegisterUserProvider(_))),
        (10, Err("register users provider"))
    );
}

#[test]
fn the_account_is_not_shared_after_a_failed_install() {
    let (taken, outcome) = run_start(|step| matches!(step, BootStep::InstallInertia(_)));
    assert_eq!(taken, 11);
    assert!(outcome.is_err());
    assert_eq!(register(None, None, Environment::Local)[11], BootStep::ShareAuth);
}

#[test]
fn a_step_without_a_message_cannot_fail_the_start() {
    assert_eq!(BootStep::BootstrapRateLimit.conclude(false), Ok(()));
    assert_eq!(BootStep::InitDatabase.conclude(true), Ok(()));
    assert_eq!(BootStep::InitDatabase.conclude(false), Err("Failed to connect to database"));
}

#[test]
fn a_finished_start_stays_finished() {
    let boot = Boot::begin(Vec::new());
    assert_eq!(boot.step(), None);
    let boot = boot.advance(false).expect("nothing is left to fail");
    assert_eq!(boot.step(), None);
}
