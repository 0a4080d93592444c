//! How the application starts: what is set up, in which order, and with which settings.

use vstd::prelude::*;

use crate::controllers::dashboard::{user_info, UserInfo, UserInfoView};
use crate::models::user::{User, UserRow};

verus! {

/// The version of the frontend assets. A client whose cached bundle has another one is
/// made to reload. Raise it whenever new assets are shipped.
pub const INERTIA_VERSION: &'static str = "1.0";

/// Shares the signed-in account with every page, as `auth.user`. A guest shares
/// `auth.user` as null, so that pages can tell without asking whether it is there.
pub struct AuthShare;

/// What every page is given.
#[derive(Debug, PartialEq, Eq)]
pub struct SharedProps {
    pub auth: SharedAuth,
}

/// Who is signed in.
#[derive(Debug, PartialEq, Eq)]
pub struct SharedAuth {
    pub user: Option<UserInfo>,
}

/// What is shared about the signed-in account, if there is one.
pub open spec fn shared_user(user: Option<UserRow>) -> Option<UserInfoView> {
    match user {
        Some(account) => Some(user_info(account)),
        None => None,
    }
}

impl AuthShare {
    /// What every page is given, where `user` is the reply about the signed-in account.
    /// A failure to find out is passed on.
    pub fn share<E>(&self, user: Result<Option<User>, E>) -> (shared: Result<SharedProps, E>)
        ensures
            match user {
                Ok(user) => shared matches Ok(props) && props.auth.user.deep_view() == shared_user(
                    user.deep_view(),
                ) && (props.auth.user is Some <==> user is Some),
                Err(error) => shared == Err::<SharedProps, E>(error),
            },
    {
        match user {
            Ok(Some(account)) => Ok(
                SharedProps { auth: SharedAuth { user: Some(UserInfo::of(account)) } },
            ),
            Ok(None) => Ok(SharedProps { auth: SharedAuth { user: None } }),
            Err(error) => Err(error),
        }
    }
}

/// Where the application runs.
#[derive(Clone, Copy, Debug, PartialEq, Eq, Structural)]
pub enum Environment {
    Local,
    Development,
    Testing,
    /// Anywhere else: production, staging, or a name of the operator's own.
    Other,
}

/// The frontend that the pages are written for.
#[derive(Clone, Copy, Debug, PartialEq, Eq, Structural)]
pub enum Frontend {
    Vue,
}

/// The relying party that passkeys are bound to.
#[derive(Debug, PartialEq, Eq)]
pub struct PasskeyConfig {
    pub rp_id: String,
    pub rp_origin: String,
}

/// How pages are served.
#[derive(Debug, PartialEq, Eq)]
pub struct InertiaSettings {
    /// Whether built assets are required.
    pub production: bool,
    pub version: &'static str,
    pub frontend: Frontend,
}

/// The middleware that every request passes.
#[derive(Clone, Copy, Debug, PartialEq, Eq, Structural)]
pub enum GlobalMiddleware {
    Logging,
    Session,
    Csrf,
    Include,
}

/// One step of the start.
#[derive(Debug, PartialEq, Eq)]
pub enum BootStep {
    /// Connect to the database.
    InitDatabase,
    /// Set up the default rate limiter.
    BootstrapRateLimit,
    /// Take the connection for the authentication engine.
    ResolveConnection,
    /// Start the authentication engine on that connection.
    InitMagnetar(PasskeyConfig),
    /// Add a middleware after those that are there.
    Middleware(GlobalMiddleware),
    /// Register the authentication manager.
    InstallAuthManager,
    /// Register accounts under this provider name.
    RegisterUserProvider(&'static str),
    /// Set up the page protocol.
    InstallInertia(InertiaSettings),
    /// Share the signed-in account with every page.
    ShareAuth,
}

/// The content of a [`PasskeyConfig`].
pub ghost struct PasskeyView {
    pub rp_id: Seq<char>,
    pub rp_origin: Seq<char>,
}

/// The content of an [`InertiaSettings`].
pub ghost struct InertiaView {
    pub production: bool,
    pub version: Seq<char>,
    pub frontend: Frontend,
}

/// The content of a [`BootStep`].
pub ghost enum BootStepView {
    InitDatabase,
    BootstrapRateLimit,
    ResolveConnection,
    InitMagnetar(PasskeyView),
    Middleware(GlobalMiddleware),
    InstallAuthManager,
    RegisterUserProvider(Seq<char>),
    InstallInertia(InertiaView),
    ShareAuth,
}

impl View for PasskeyConfig {
    type V = PasskeyView;

    open spec fn view(&self) -> PasskeyView {
        PasskeyView { rp_id: self.rp_id@, rp_origin: self.rp_origin@ }
    }
}

impl View for InertiaSettings {
    type V = InertiaView;

    open spec fn view(&self) -> InertiaView {
        InertiaView {
            production: self.production,
            version: self.version@,
            frontend: self.frontend,
        }
    }
}

impl DeepView for BootStep {
    type V = BootStepView;

    open spec fn deep_view(&self) -> BootStepView {
        match self {
            BootStep::InitDatabase => BootStepView::InitDatabase,
            BootStep::BootstrapRateLimit => BootStepView::BootstrapRateLimit,
            BootStep::ResolveConnection => BootStepView::ResolveConnection,
            BootStep::InitMagnetar(config) => BootStepView::InitMagnetar(config@),
            BootStep::Middleware(middleware) => BootStepView::Middleware(*middleware),
            BootStep::InstallAuthManager => BootStepView::InstallAuthManager,
            BootStep::RegisterUserProvider(name) => BootStepView::RegisterUserProvider(name@),
            BootStep::InstallInertia(settings) => BootStepView::InstallInertia(settings@),
            BootStep::ShareAuth => BootStepView::ShareAuth,
        }
    }
}

/// The relying party, where each setting may be missing.
pub open spec fn passkey(rp_id: Option<Seq<char>>, rp_origin: Option<Seq<char>>) -> PasskeyView {
    PasskeyView {
        rp_id: match rp_id {
            Some(id) => id,
            None => "localhost"@,
        },
        rp_origin: match rp_origin {
            Some(origin) => origin,
            None => "http://localhost"@,
        },
    }
}

/// Whether built assets are required: everywhere but on a developer's or a test machine.
pub open spec fn needs_built_assets(environment: Environment) -> bool {
    environment is Other
}

/// How pages are served in `environment`.
pub open spec fn inertia(environment: Environment) -> InertiaView {
    InertiaView {
        production: needs_built_assets(environment),
        version: INERTIA_VERSION@,
        frontend: Frontend::Vue,
    }
}

/// The start, step by step.
pub open spec fn boot_plan(
    rp_id: Option<Seq<char>>,
    rp_origin: Option<Seq<char>>,
    environment: Environment,
) -> Seq<BootStepView> {
    seq![
        BootStepView::InitDatabase,
        BootStepView::BootstrapRateLimit,
        BootStepView::ResolveConnection,
        BootStepView::InitMagnetar(passkey(rp_id, rp_origin)),
        BootStepView::Middleware(GlobalMiddleware::Logging),
        BootStepView::Middleware(GlobalMiddleware::Session),
        BootStepView::Middleware(GlobalMiddleware::Csrf),
        BootStepView::Middleware(GlobalMiddleware::Include),
        BootStepView::InstallAuthManager,
        BootStepView::RegisterUserProvider("users"@),
        BootStepView::InstallInertia(inertia(environment)),
        BootStepView::ShareAuth,
    ]
}

/// The relying party, from settings that may be missing.
pub fn passkey_config(rp_id: Option<String>, rp_origin: Option<String>) -> (config: PasskeyConfig)
    ensures
        config@ == passkey(rp_id.deep_view(), rp_origin.deep_view()),
        config.rp_id@ == (match rp_id {
            Some(id) => id@,
            None => "localhost"@,
        }),
        config.rp_origin@ == (match rp_origin {
            Some(origin) => origin@,
            None => "http://localhost"@,
        }),
{
    PasskeyConfig {
        rp_id: match rp_id {
            Some(id) => id,
            None => "localhost".to_owned(),
        },
        rp_origin: match rp_origin {
            Some(origin) => origin,
            None => "http://localhost".to_owned(),
        },
    }
}

/// How pages are served in `environment`.
pub fn inertia_settings(environment: Environment) -> (settings: InertiaSettings)
    ensures
        settings@ == inertia(environment),
        settings.production <==> !(environment is Local || environment is Development
            || environment is Testing),
        settings.version@ == "1.0"@,
        settings.frontend == Frontend::Vue,
{
    let production = match environment {
        Environment::Local | Environment::Development | Environment::Testing => false,
        Environment::Other => true,
    };
    InertiaSettings { production, version: INERTIA_VERSION, frontend: Frontend::Vue }
}

/// What the start fails with when a step fails.
pub open spec fn failure_message(step: BootStepView) -> Option<Seq<char>> {
    match step {
        BootStepView::InitDatabase => Some("Failed to connect to database"@),
        BootStepView::ResolveConnection => Some("DB not initialized"@),
        BootStepView::InitMagnetar(_) => Some("Failed to initialize Magnetar"@),
        BootStepView::RegisterUserProvider(_) => Some("register users provider"@),
        BootStepView::InstallInertia(_) => Some(
            "Inertia install failed - under `.production()` this fails closed when the frontend manifest has not been built"@,
        ),
        _ => None,
    }
}

/// What a step that succeeded or not makes of the start: nothing, and the start goes on; or
/// the message that it fails with. A step without a message goes on.
pub open spec fn boot_failure(step: BootStepView, succeeded: bool) -> Option<Seq<char>> {
    if succeeded {
        None
    } else {
        failure_message(step)
    }
}

impl BootStep {
    /// Whether the start goes on after this step, or the message that it fails with.
    pub fn conclude(&self, succeeded: bool) -> (verdict: Result<(), &'static str>)
        ensures
            match boot_failure(self.deep_view(), succeeded) {
                Some(message) => verdict matches Err(shown) && shown@ == message,
                None => verdict is Ok,
            },
    {
        match self.failure() {
            Some(message) => if succeeded {
                Ok(())
            } else {
                Err(message)
            },
            None => Ok(()),
        }
    }

    /// What the start fails with when this step fails. A step without a message cannot fail.
    pub fn failure(&self) -> (message: Option<&'static str>)
        ensures
            message.deep_view() == failure_message(self.deep_view()),
    {
        match self {
            BootStep::InitDatabase => Some("Failed to connect to database"),
            BootStep::ResolveConnection => Some("DB not initialized"),
            BootStep::InitMagnetar(_) => Some("Failed to initialize Magnetar"),
            BootStep::RegisterUserProvider(_) => Some("register users provider"),
            BootStep::InstallInertia(_) => Some(
                "Inertia install failed - under `.production()` this fails closed when the frontend manifest has not been built",
            ),
            _ => None,
        }
    }
}

/// The start: the steps to take, in their order. `rp_id` and `rp_origin` are the
/// passkey settings of the environment, each of which may be missing.
pub fn register(
    rp_id: Option<String>,
    rp_origin: Option<String>,
    environment: Environment,
) -> (plan: Vec<BootStep>)
    ensures
        plan.deep_view() == boot_plan(rp_id.deep_view(), rp_origin.deep_view(), environment),
{
    let plan = vec![
        BootStep::InitDatabase,
        BootStep::BootstrapRateLimit,
        BootStep::ResolveConnection,
        BootStep::InitMagnetar(passkey_config(rp_id, rp_origin)),
        BootStep::Middleware(GlobalMiddleware::Logging),
        BootStep::Middleware(GlobalMiddleware::Session),
        BootStep::Middleware(GlobalMiddleware::Csrf),
        BootStep::Middleware(GlobalMiddleware::Include),
        BootStep::InstallAuthManager,
        BootStep::RegisterUserProvider("users"),
        BootStep::InstallInertia(inertia_settings(environment)),
        BootStep::ShareAuth,
    ];
    assert(plan.deep_view() =~= boot_plan(rp_id.deep_view(), rp_origin.deep_view(), environment));
    plan
}

/// A start under way: its plan, and how many of the steps are done.
pub struct Boot {
    plan: Vec<BootStep>,
    done: usize,
}

impl Boot {
    /// The steps of the start.
    pub closed spec fn plan(self) -> Seq<BootStepView> {
        self.plan.deep_view()
    }

    /// The number of steps that are done.
    pub closed spec fn done(self) -> nat {
        self.done as nat
    }

    #[verifier::type_invariant]
    spec fn well_formed(self) -> bool {
        self.done <= self.plan@.len()
    }

    /// A start at the beginning of `plan`.
    pub fn begin(plan: Vec<BootStep>) -> (boot: Boot)
        ensures
            boot.plan() == plan.deep_view(),
            boot.done() == 0,
    {
        Boot { plan, done: 0 }
    }

    /// The step to take, unless all of them are done.
    pub fn step(&self) -> (step: Option<&BootStep>)
        ensures
            self.done() < self.plan().len() ==> (step matches Some(next) && next.deep_view()
                == self.plan()[self.done() as int]),
            self.done() >= self.plan().len() ==> step is None,
    {
        proof {
            use_type_invariant(self);
        }
        if self.done < self.plan.len() {
            Some(&self.plan[self.done])
        } else {
            None
        }
    }

    /// Goes on after the step that was taken, to the next one; or gives up the start, with
    /// the message that it fails with, and no step is taken any more. Where all steps are
    /// done there is nothing to go on to.
    pub fn advance(self, succeeded: bool) -> (next: Result<Boot, &'static str>)
        ensures
            boot_advances(self, succeeded, next),
    {
        proof {
            use_type_invariant(&self);
        }
        if self.done == self.plan.len() {
            return Ok(self);
        }
        assert(self.plan.deep_view()[self.done as int] == self.plan@[self.done as int].deep_view());
        match self.plan[self.done].conclude(succeeded) {
            Ok(()) => {
                let Boot { plan, done } = self;
                Ok(Boot { plan, done: done + 1 })
            },
            Err(message) => Err(message),
        }
    }
}

/// What comes of a start whose current step succeeded or not.
pub open spec fn boot_advances(boot: Boot, succeeded: bool, next: Result<Boot, &'static str>) -> bool {
    if boot.done() < boot.plan().len() {
        match boot_failure(boot.plan()[boot.done() as int], succeeded) {
            Some(message) => next matches Err(shown) && shown@ == message,
            None => next matches Ok(later) && later.plan() == boot.plan() && later.done()
                == boot.done() + 1,
        }
    } else {
        next == Ok::<Boot, &'static str>(boot)
    }
}

/// The steps that a start takes, where `succeeded` tells of each step whether it succeeds:
/// one after another, up to and with the first that fails the start.
pub open spec fn steps_taken(plan: Seq<BootStepView>, succeeded: spec_fn(int) -> bool) -> Seq<
    BootStepView,
> {
    plan.take(taken_from(plan, succeeded, 0) as int)
}

/// The number of steps that are taken by a start that has done the first `done` steps.
pub open spec fn taken_from(
    plan: Seq<BootStepView>,
    succeeded: spec_fn(int) -> bool,
    done: nat,
) -> nat
    decreases plan.len() - done,
{
    if done >= plan.len() {
        done
    } else if boot_failure(plan[done as int], succeeded(done as int)) is Some {
        done + 1
    } else {
        taken_from(plan, succeeded, done + 1)
    }
}

proof fn lemma_taken_from(
    plan: Seq<BootStepView>,
    succeeded: spec_fn(int) -> bool,
    done: nat,
    at: int,
)
    requires
        done <= plan.len(),
        done <= at < plan.len(),
    ensures
        done <= taken_from(plan, succeeded, done) <= plan.len(),
        boot_failure(plan[at], succeeded(at)) is Some ==> taken_from(plan, succeeded, done) <= at
            + 1,
        (forall|i: int|
            done <= i < at ==> boot_failure(#[trigger] plan[i], succeeded(i)) is None)
            ==> taken_from(plan, succeeded, done) > at,
    decreases plan.len() - done,
{
    if boot_failure(plan[done as int], succeeded(done as int)) is None {
        if done < at {
            lemma_taken_from(plan, succeeded, done + 1, at);
        } else if done + 1 < plan.len() {
            lemma_taken_from(plan, succeeded, done + 1, (done + 1) as int);
        }
    }
}

/// After a step that fails the start no step is taken: what is taken ends with that step
/// or before it, and with that step if it is the first to fail.
pub proof fn law_no_step_follows_a_failed_one(
    plan: Seq<BootStepView>,
    succeeded: spec_fn(int) -> bool,
    failed: int,
)
    requires
        0 <= failed < plan.len(),
        boot_failure(plan[failed], succeeded(failed)) is Some,
    ensures
        steps_taken(plan, succeeded).len() <= failed + 1,
        (forall|i: int|
            0 <= i < failed ==> boot_failure(#[trigger] plan[i], succeeded(i)) is None)
            ==> steps_taken(plan, succeeded) == plan.take(failed + 1),
{
    lemma_taken_from(plan, succeeded, 0, failed);
}

/// A start whose steps all succeed takes every step of its plan.
pub proof fn law_successful_start_takes_every_step(
    plan: Seq<BootStepView>,
    succeeded: spec_fn(int) -> bool,
)
    requires
        forall|i: int| 0 <= i < plan.len() ==> #[trigger] succeeded(i),
    ensures
        steps_taken(plan, succeeded) == plan,
{
    if plan.len() > 0 {
        assert forall|i: int| 0 <= i <= plan.len() - 1 implies boot_failure(
            #[trigger] plan[i],
            succeeded(i),
        ) is None by {
            assert(succeeded(i));
        }
        lemma_taken_from(plan, succeeded, 0, plan.len() - 1);
    }
    assert(steps_taken(plan, succeeded) =~= plan);
}

/// The signed-in account is shared only after everything that can fail has succeeded; so
/// never after the page protocol failed to install.
pub proof fn law_account_is_shared_only_after_success(
    rp_id: Option<Seq<char>>,
    rp_origin: Option<Seq<char>>,
    environment: Environment,
    succeeded: spec_fn(int) -> bool,
)
    ensures
        ({
            let plan = boot_plan(rp_id, rp_origin, environment);
            steps_taken(plan, succeeded).contains(BootStepView::ShareAuth) <==> forall|i: int|
                0 <= i < plan.len() ==> boot_failure(#[trigger] plan[i], succeeded(i)) is None
        }),
{
    let plan = boot_plan(rp_id, rp_origin, environment);
    let taken = steps_taken(plan, succeeded);
    assert(plan.len() == 12);
    lemma_taken_from(plan, succeeded, 0, 11);
    if forall|i: int| 0 <= i < plan.len() ==> boot_failure(#[trigger] plan[i], succeeded(i)) is None {
        assert(taken[11] == BootStepView::ShareAuth);
    } else {
        let failed = choose|i: int|
            0 <= i < plan.len() && boot_failure(#[trigger] plan[i], succeeded(i)) is Some;
        assert(boot_failure(plan[11], succeeded(11)) is None);
        law_no_step_follows_a_failed_one(plan, succeeded, failed);
        assert forall|at: int| 0 <= at < taken.len() implies taken[at] != BootStepView::ShareAuth by {
            assert(taken[at] == plan[at]);
        }
    }
}

/// One advance of a start matches the steps that are taken: it gives up exactly where the
/// count ends, and otherwise leaves the rest of the count to the steps that follow.
pub proof fn law_advance_follows_the_steps_taken(
    boot: Boot,
    succeeded: spec_fn(int) -> bool,
    next: Result<Boot, &'static str>,
)
    requires
        boot.done() < boot.plan().len(),
        boot_advances(boot, succeeded(boot.done() as int), next),
    ensures
        next is Err ==> taken_from(boot.plan(), succeeded, boot.done()) == boot.done() + 1,
        next matches Ok(later) ==> taken_from(boot.plan(), succeeded, boot.done()) == taken_from(
            later.plan(),
            succeeded,
            later.done(),
        ),
{
}

/// The middleware of a plan, in the order in which requests pass it.
pub open spec fn middleware_of(plan: Seq<BootStepView>) -> Seq<GlobalMiddleware>
    decreases plan.len(),
{
    if plan.len() == 0 {
        Seq::empty()
    } else if plan.last() is Middleware {
        middleware_of(plan.drop_last()).push(plan.last()->Middleware_0)
    } else {
        middleware_of(plan.drop_last())
    }
}

/// Every request is logged first, then given its session, then held to its CSRF token,
/// and only then has its include parameters read, wherever the application runs.
pub proof fn law_middleware_order(
    rp_id: Option<Seq<char>>,
    rp_origin: Option<Seq<char>>,
    environment: Environment,
)
    ensures
        middleware_of(boot_plan(rp_id, rp_origin, environment)) == seq![
            GlobalMiddleware::Logging,
            GlobalMiddleware::Session,
            GlobalMiddleware::Csrf,
            GlobalMiddleware::Include,
        ],
{
    let plan = boot_plan(rp_id, rp_origin, environment);
    reveal_with_fuel(middleware_of, 13);
    assert(plan.drop_last().len() == 11);
    assert(middleware_of(plan) =~= seq![
        GlobalMiddleware::Logging,
        GlobalMiddleware::Session,
        GlobalMiddleware::Csrf,
        GlobalMiddleware::Include,
    ]);
}

/// The database is connected before anything else, the authentication manager is there
/// before a provider is registered with it, and the page protocol is set up before the
/// account is shared through it.
pub proof fn law_boot_dependencies(
    rp_id: Option<Seq<char>>,
    rp_origin: Option<Seq<char>>,
    environment: Environment,
    earlier: int,
    later: int,
)
    requires
        ({
            let plan = boot_plan(rp_id, rp_origin, environment);
            0 <= earlier < plan.len() && 0 <= later < plan.len() && {
                ||| plan[earlier] is InitDatabase && !(plan[later] is InitDatabase)
                ||| plan[earlier] is ResolveConnection && plan[later] is InitMagnetar
                ||| plan[earlier] is InstallAuthManager && plan[later] is RegisterUserProvider
                ||| plan[earlier] is InstallInertia && plan[later] is ShareAuth
            }
        }),
    ensures
        earlier < later,
{
}

/// The asset version and the frontend are the same wherever the application runs; only
/// whether built assets are required depends on it.
pub proof fn law_asset_version_is_fixed(a: Environment, b: Environment)
    ensures
        inertia(a).version == INERTIA_VERSION@,
        inertia(a).version == inertia(b).version,
        inertia(a).frontend == inertia(b).frontend,
        inertia(a).production <==> !(a is Local || a is Development || a is Testing),
{
}

/// Every page is given the signed-in account, by its id, its address and its name, or "Account"
/// for a missing name; and for a guest it is given nobody.
pub proof fn law_shared_account_is_the_signed_in_one(shared: SharedAuth, user: Option<User>)
    requires
        shared.user.deep_view() == shared_user(user.deep_view()),
    ensures
        shared.user is None <==> user is None,
        user matches Some(account) ==> (shared.user matches Some(info) && {
            &&& info.id == account.id
            &&& info.email@ == account.email@
            &&& account.name matches Some(name) ==> info.name@ == name@
            &&& account.name is None ==> info.name@ == "Account"@
        }),
{
}

/// A passkey setting that is there is used as it stands; one that is missing falls back to the
/// local machine.
pub proof fn law_passkey_settings(rp_id: Option<Seq<char>>, rp_origin: Option<Seq<char>>)
    ensures
        rp_id matches Some(id) ==> passkey(rp_id, rp_origin).rp_id == id,
        rp_id is None ==> passkey(rp_id, rp_origin).rp_id == "localhost"@,
        rp_origin matches Some(origin) ==> passkey(rp_id, rp_origin).rp_origin == origin,
        rp_origin is None ==> passkey(rp_id, rp_origin).rp_origin == "http://localhost"@,
{
}

/// Pages are served from built assets everywhere but on a developer's or a test machine, at
/// version 1.0, and for Vue.
pub proof fn law_page_settings(environment: Environment)
    ensures
        inertia(environment).production <==> !(environment is Local || environment is Development
            || environment is Testing),
        inertia(environment).version == "1.0"@,
        inertia(environment).frontend == Frontend::Vue,
{
}

/// Whether `step` stands at one place of `plan` and at no other.
pub open spec fn occurs_once(plan: Seq<BootStepView>, step: BootStepView) -> bool {
    exists|at: int|
        0 <= at < plan.len() && #[trigger] plan[at] == step && forall|other: int|
            0 <= other < plan.len() && #[trigger] plan[other] == step ==> other == at
}

proof fn lemma_occurs_once(plan: Seq<BootStepView>, step: BootStepView, at: int)
    requires
        0 <= at < plan.len(),
        plan[at] == step,
        forall|other: int| 0 <= other < plan.len() && #[trigger] plan[other] == step ==> other == at,
    ensures
        occurs_once(plan, step),
{
}

/// Wherever the application runs, its start takes each step exactly once, and takes no others.
pub proof fn law_every_step_is_taken_once(
    rp_id: Option<Seq<char>>,
    rp_origin: Option<Seq<char>>,
    environment: Environment,
)
    ensures
        ({
            let plan = boot_plan(rp_id, rp_origin, environment);
            &&& plan.len() == 12
            &&& occurs_once(plan, BootStepView::InitDatabase)
            &&& occurs_once(plan, BootStepView::BootstrapRateLimit)
            &&& occurs_once(plan, BootStepView::ResolveConnection)
            &&& occurs_once(plan, BootStepView::InitMagnetar(passkey(rp_id, rp_origin)))
            &&& occurs_once(plan, BootStepView::Middleware(GlobalMiddleware::Logging))
            &&& occurs_once(plan, BootStepView::Middleware(GlobalMiddleware::Session))
            &&& occurs_once(plan, BootStepView::Middleware(GlobalMiddleware::Csrf))
            &&& occurs_once(plan, BootStepView::Middleware(GlobalMiddleware::Include))
            &&& occurs_once(plan, BootStepView::InstallAuthManager)
            &&& occurs_once(plan, BootStepView::RegisterUserProvider("users"@))
            &&& occurs_once(plan, BootStepView::InstallInertia(inertia(environment)))
            &&& occurs_once(plan, BootStepView::ShareAuth)
        }),
{
    let plan = boot_plan(rp_id, rp_origin, environment);
    lemma_occurs_once(plan, BootStepView::InitDatabase, 0);
    lemma_occurs_once(plan, BootStepView::BootstrapRateLimit, 1);
    lemma_occurs_once(plan, BootStepView::ResolveConnection, 2);
    lemma_occurs_once(plan, BootStepView::InitMagnetar(passkey(rp_id, rp_origin)), 3);
    lemma_occurs_once(plan, BootStepView::Middleware(GlobalMiddleware::Logging), 4);
    lemma_occurs_once(plan, BootStepView::Middleware(GlobalMiddleware::Session), 5);
    lemma_occurs_once(plan, BootStepView::Middleware(GlobalMiddleware::Csrf), 6);
    lemma_occurs_once(plan, BootStepView::Middleware(GlobalMiddleware::Include), 7);
    lemma_occurs_once(plan, BootStepView::InstallAuthManager, 8);
    lemma_occurs_once(plan, BootStepView::RegisterUserProvider("users"@), 9);
    lemma_occurs_once(plan, BootStepView::InstallInertia(inertia(environment)), 10);
    lemma_occurs_once(plan, BootStepView::ShareAuth, 11);
}

/// Two starts differ at most in the passkey settings they were given and in the page settings
/// of where they run; step for step they do the same.
pub proof fn law_starts_differ_only_in_their_settings(
    id_a: Option<Seq<char>>,
    origin_a: Option<Seq<char>>,
    a: Environment,
    id_b: Option<Seq<char>>,
    origin_b: Option<Seq<char>>,
    b: Environment,
    at: int,
)
    requires
        0 <= at < boot_plan(id_a, origin_a, a).len(),
    ensures
        ({
            let first = boot_plan(id_a, origin_a, a);
            let second = boot_plan(id_b, origin_b, b);
            &&& first.len() == second.len()
            &&& {
                ||| first[at] == second[at]
                ||| first[at] is InitMagnetar && second[at] is InitMagnetar && (id_a, origin_a) != (
                    id_b,
                    origin_b,
                )
                ||| first[at] is InstallInertia && second[at] is InstallInertia && a != b
            }
        }),
{
}

/// The plan of a start, step by step, as the application is given it.
pub proof fn law_plan_as_carried_out(
    plan: Vec<BootStep>,
    rp_id: Option<Seq<char>>,
    rp_origin: Option<Seq<char>>,
    environment: Environment,
)
    requires
        plan.deep_view() == boot_plan(rp_id, rp_origin, environment),
    ensures
        plan@.len() == 12,
        plan@[0] is InitDatabase,
        plan@[1] is BootstrapRateLimit,
        plan@[2] is ResolveConnection,
        plan@[3] matches BootStep::InitMagnetar(config) && {
            &&& rp_id matches Some(id) ==> config.rp_id@ == id
            &&& rp_id is None ==> config.rp_id@ == "localhost"@
            &&& rp_origin matches Some(origin) ==> config.rp_origin@ == origin
            &&& rp_origin is None ==> config.rp_origin@ == "http://localhost"@
        },
        plan@[4] == BootStep::Middleware(GlobalMiddleware::Logging),
        plan@[5] == BootStep::Middleware(GlobalMiddleware::Session),
        plan@[6] == BootStep::Middleware(GlobalMiddleware::Csrf),
        plan@[7] == BootStep::Middleware(GlobalMiddleware::Include),
        plan@[8] is InstallAuthManager,
        plan@[9] matches BootStep::RegisterUserProvider(name) && name@ == "users"@,
        plan@[10] matches BootStep::InstallInertia(settings) && {
            &&& settings.version@ == "1.0"@
            &&& settings.frontend == Frontend::Vue
            &&& settings.production <==> !(environment is Local || environment is Development
                || environment is Testing)
        },
        plan@[11] is ShareAuth,
{
    assert(plan.deep_view().len() == 12);
    assert forall|at: int| 0 <= at < 12 implies (#[trigger] plan@[at]).deep_view()
        == boot_plan(rp_id, rp_origin, environment)[at] by {
        assert(plan.deep_view()[at] == plan@[at].deep_view());
    }
}

/// Which steps can fail the start, and with which message: a failed one gives it up with its
/// own message, and one that succeeded never does.
pub proof fn law_failures_of_steps(step: BootStep)
    ensures
        boot_failure(step.deep_view(), true) is None,
        step is InitDatabase ==> boot_failure(step.deep_view(), false) == Some(
            "Failed to connect to database"@,
        ),
        step is ResolveConnection ==> boot_failure(step.deep_view(), false) == Some(
            "DB not initialized"@,
        ),
        step is InitMagnetar ==> boot_failure(step.deep_view(), false) == Some(
            "Failed to initialize Magnetar"@,
        ),
        step is RegisterUserProvider ==> boot_failure(step.deep_view(), false) == Some(
            "register users provider"@,
        ),
        step is InstallInertia ==> boot_failure(step.deep_view(), false) == Some(
            "Inertia install failed - under `.production()` this fails closed when the frontend manifest has not been built"@,
        ),
        step is BootstrapRateLimit || step is Middleware || step is InstallAuthManager
            || step is ShareAuth ==> boot_failure(step.deep_view(), false) is None,
        failure_message(step.deep_view()) == boot_failure(step.deep_view(), false),
{
}

/// A start goes on, by one step of the same plan, exactly if its step did not fail it; else it
/// ends with the message of that step. Where nothing is left it stays as it is.
pub proof fn law_advance_goes_on_or_fails(
    boot: Boot,
    succeeded: bool,
    next: Result<Boot, &'static str>,
)
    requires
        boot_advances(boot, succeeded, next),
    ensures
        boot.done() < boot.plan().len() && succeeded ==> next is Ok,
        next matches Ok(later) ==> later.plan() == boot.plan(),
        boot.done() < boot.plan().len() ==> {
            &&& next is Err <==> !succeeded && failure_message(boot.plan()[boot.done() as int]) is Some
            &&& next matches Ok(later) ==> later.done() == boot.done() + 1
            &&& next matches Err(shown) ==> failure_message(boot.plan()[boot.done() as int]) == Some(
                shown@,
            )
        },
        boot.done() >= boot.plan().len() ==> next == Ok::<Boot, &'static str>(boot),
{
}

/// The content of a step is all that the step holds: steps of one kind with the same settings
/// have the same content, and no others have.
pub proof fn law_content_of_a_step(a: BootStep, b: BootStep)
    ensures
        a.deep_view() == b.deep_view() <==> (match (a, b) {
            (BootStep::InitDatabase, BootStep::InitDatabase) => true,
            (BootStep::BootstrapRateLimit, BootStep::BootstrapRateLimit) => true,
            (BootStep::ResolveConnection, BootStep::ResolveConnection) => true,
            (BootStep::InitMagnetar(x), BootStep::InitMagnetar(y)) => x.rp_id@ == y.rp_id@
                && x.rp_origin@ == y.rp_origin@,
            (BootStep::Middleware(x), BootStep::Middleware(y)) => x == y,
            (BootStep::InstallAuthManager, BootStep::InstallAuthManager) => true,
            (BootStep::RegisterUserProvider(x), BootStep::RegisterUserProvider(y)) => x@ == y@,
            (BootStep::InstallInertia(x), BootStep::InstallInertia(y)) => x.production
                == y.production && x.version@ == y.version@ && x.frontend == y.frontend,
            (BootStep::ShareAuth, BootStep::ShareAuth) => true,
            _ => false,
        }),
{
}

} // verus!
