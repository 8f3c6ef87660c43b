use app_bootstrap::context::{AppContext, Config, Handle};
use app_bootstrap::environment::Environment;
use app_bootstrap::error::BootError;
use app_bootstrap::hooks::{perform, Hooks, Initializer};
use app_bootstrap::lifecycle::{Action, BootPolicy, Event, Phase, Stage, StartMode, Target};
use app_bootstrap::orchestrator::{BootOrchestrator, BootResult};
use app_bootstrap::serve::ServeParams;
use std::sync::Mutex;

type Surface = Vec<String>;
type Boot = BootOrchestrator<Surface, String>;
type Extensions = Vec<Box<dyn Initializer<Surface, String>>>;

static JOURNAL: Mutex<Vec<String>> = Mutex::new(Vec::new());

fn note(entry: String) {
    JOURNAL.lock().unwrap().push(entry);
}

fn journal() -> Vec<String> {
    JOURNAL.lock().unwrap().clone()
}

/// An extension that notes every call and adds its name to the surface.
struct Layer {
    name: &'static str,
    fail_before_run: bool,
}

impl Initializer<Surface, String> for Layer {
    fn name(&self) -> String {
        self.name.to_string()
    }

    fn before_run(&self, _app_context: &AppContext) -> Result<(), String> {
        note(format!("before_run:{}", self.name));
        if self.fail_before_run {
            Err(format!("{} is out of quota", self.name))
        } else {
            Ok(())
        }
    }

    fn after_routes(&self, mut router: Surface, _ctx: &AppContext) -> Result<Surface, String> {
        note(format!("after_routes:{}", self.name));
        router.push(self.name.to_string());
        Ok(router)
    }
}

/// An extension that overrides nothing.
struct Quiet;

impl Initializer<Surface, String> for Quiet {
    fn name(&self) -> String {
        "quiet".to_string()
    }
}

/// A customization that overrides nothing.
struct Plain;

impl Hooks<Surface, String> for Plain {
    fn app_name() -> &'static str {
        "plain"
    }

    fn routes(_ctx: &AppContext) -> Surface {
        vec!["routes".to_string()]
    }
}

/// A customization with two extensions and callbacks of its own.
struct Layered;

impl Hooks<Surface, String> for Layered {
    fn app_version() -> String {
        "1.2.3".to_string()
    }

    fn app_name() -> &'static str {
        "layered"
    }

    fn init_logger(_config: &Config, _env: &Environment) -> Result<bool, String> {
        note("init_logger".to_string());
        Ok(true)
    }

    fn after_routes(mut router: Surface, _ctx: &AppContext) -> Result<Surface, String> {
        note("after_routes:app".to_string());
        router.push("app".to_string());
        Ok(router)
    }

    fn initializers(_ctx: &AppContext) -> Result<Extensions, String> {
        Ok(vec![
            Box::new(Layer { name: "Logger", fail_before_run: false }),
            Box::new(Quiet),
            Box::new(Layer { name: "RateLimiter", fail_before_run: false }),
        ])
    }

    fn before_run(_app_context: &AppContext) -> Result<(), String> {
        note("before_run:app".to_string());
        Ok(())
    }

    fn routes(_ctx: &AppContext) -> Surface {
        note("routes".to_string());
        vec!["routes".to_string()]
    }

    fn storage(_config: &Config, environment: &Environment) -> Result<Option<Handle>, String> {
        assert_eq!(environment, &Environment::Test);
        Ok(Some(Handle { id: 7 }))
    }
}

/// A customization whose second extension fails before the run.
struct Limited;

impl Hooks<Surface, String> for Limited {
    fn app_name() -> &'static str {
        "limited"
    }

    fn initializers(_ctx: &AppContext) -> Result<Extensions, String> {
        Ok(vec![
            Box::new(Layer { name: "Logger", fail_before_run: false }),
            Box::new(Layer { name: "RateLimiter", fail_before_run: true }),
        ])
    }

    fn before_run(_app_context: &AppContext) -> Result<(), String> {
        note("before_run:app".to_string());
        Ok(())
    }

    fn routes(_ctx: &AppContext) -> Surface {
        note("routes".to_string());
        vec!["routes".to_string()]
    }
}

/// A customization that cannot name its extensions.
struct Broken;

impl Hooks<Surface, String> for Broken {
    fn app_name() -> &'static str {
        "broken"
    }

    fn initializers(_ctx: &AppContext) -> Result<Extensions, String> {
        Err("no registry".to_string())
    }

    fn routes(_ctx: &AppContext) -> Surface {
        Vec::new()
    }

    fn mailer(_config: &Config, _environment: &Environment) -> Result<Option<Handle>, String> {
        Ok(Some(Handle { id: 5 }))
    }
}

fn config() -> Config {
    Config { server: ServeParams { port: 5150, binding: "0.0.0.0".to_string() } }
}

/// The steps that are the host's own.
fn serve_host(action: Action<Surface>) -> Option<Event<Surface, String>> {
    match action {
        Action::LoadConfig => Some(Event::loaded(Ok(config()))),
        Action::DefaultLogger => {
            note("default_logger".to_string());
            Some(Event::done(Ok(())))
        }
        Action::OpenPersistence => Some(Event::opened(Ok(Handle { id: 1 }))),
        Action::OpenTaskQueue => Some(Event::opened(Err("queue unreachable".to_string()))),
        Action::OneShot => Some(Event::done(Ok(()))),
        Action::Bind => {
            note("bind".to_string());
            Some(Event::done(Ok(())))
        }
        Action::Halt => None,
        other => panic!("not a step of the host: {:?}", other),
    }
}

fn run<H: Hooks<Surface, String>>(mode: StartMode, policy: BootPolicy) -> (Boot, Extensions) {
    let mut extensions: Extensions = Vec::new();
    let (mut boot, mut action) = Boot::new(mode, Environment::Test, policy).step(Event::Start);
    loop {
        let event = match perform::<Surface, String, H>(&boot, &mut extensions, action) {
            Ok(event) => event,
            Err(own) => match serve_host(own) {
                Some(event) => event,
                None => break,
            },
        };
        let (next, asked) = boot.step(event);
        boot = next;
        action = asked;
    }
    (boot, extensions)
}

#[test]
fn plain_customization_boots_on_defaults() {
    let (boot, extensions) = run::<Plain>(StartMode::Serve, BootPolicy::default());
    assert_eq!(boot.phase(), Phase::Ready);
    assert_eq!(extensions.len(), 0);
    assert_eq!(boot.extensions().len(), 0);
    // the default answer for logging leaves logging to the default
    assert_eq!(journal(), vec!["default_logger", "bind"]);
    let context = boot.context().unwrap().clone();
    assert_eq!(context.storage, None);
    assert_eq!(context.mailer, None);
    assert_eq!(context.db, None);
    assert_eq!(context.redis, None);
    match boot.into_result() {
        Some(Ok(BootResult::Serve { service, params })) => {
            assert_eq!(service.into_service().into_inner(), vec!["routes"]);
            assert_eq!(params.address(), "0.0.0.0:5150");
        }
        _ => panic!("the boot did not end ready to serve"),
    }
}

#[test]
fn default_callbacks_pass_through() {
    assert_eq!(Plain::app_version(), "dev");
    assert_eq!(Plain::app_name(), "plain");
    assert_eq!(Plain::init_logger(&config(), &Environment::Test), Ok(false));
    assert_eq!(Plain::storage(&config(), &Environment::Test), Ok(None));
    assert_eq!(Plain::mailer(&config(), &Environment::Test), Ok(None));
    let (boot, _) = run::<Plain>(StartMode::Task, BootPolicy::default());
    let context = boot.context().unwrap();
    assert_eq!(Plain::before_run(context), Ok(()));
    assert_eq!(Plain::after_routes(vec!["r".to_string()], context), Ok(vec!["r".to_string()]));
    assert_eq!(Plain::initializers(context).map(|list| list.len()), Ok(0));
    assert_eq!(Quiet.before_run(context), Ok(()));
    assert_eq!(Quiet.after_routes(vec!["r".to_string()], context), Ok(vec!["r".to_string()]));
}

#[test]
fn hooks_run_in_registered_order() {
    let (boot, extensions) = run::<Layered>(StartMode::Serve, BootPolicy::default());
    assert_eq!(boot.phase(), Phase::Ready);
    assert_eq!(Layered::app_version(), "1.2.3");
    assert_eq!(extensions.len(), 3);
    assert_eq!(boot.extensions(), &vec!["Logger", "quiet", "RateLimiter"]);
    assert_eq!(
        journal(),
        vec![
            "init_logger",
            "before_run:app",
            "before_run:Logger",
            "before_run:RateLimiter",
            "routes",
            "after_routes:app",
            "after_routes:Logger",
            "after_routes:RateLimiter",
            "bind",
        ]
    );
    assert_eq!(boot.context().unwrap().storage, Some(Handle { id: 7 }));
    match boot.into_result() {
        Some(Ok(BootResult::Serve { service, .. })) => {
            let surface = service.into_service().into_inner();
            assert_eq!(surface, vec!["routes", "app", "Logger", "RateLimiter"]);
        }
        _ => panic!("the boot did not end ready to serve"),
    }
}

#[test]
fn failing_rate_limiter_is_named() {
    let (boot, _) = run::<Limited>(StartMode::Serve, BootPolicy::default());
    assert_eq!(boot.phase(), Phase::Aborted);
    assert_eq!(
        journal(),
        vec!["default_logger", "before_run:app", "before_run:Logger", "before_run:RateLimiter"]
    );
    assert_eq!(
        boot.error(),
        Some(&BootError::ExtensionFailure {
            name: "RateLimiter".to_string(),
            cause: "RateLimiter is out of quota".to_string(),
        })
    );
}

#[test]
fn failing_extension_list_aborts_the_boot() {
    let (boot, extensions) = run::<Broken>(StartMode::Serve, BootPolicy::default());
    assert_eq!(extensions.len(), 0);
    assert_eq!(
        boot.error(),
        Some(&BootError::CustomizationFailure {
            stage: Stage::ListExtensions,
            cause: "no registry".to_string(),
        })
    );
}

#[test]
fn one_shot_run_with_hooks() {
    let policy = BootPolicy { persistence: true, task_queue: true, task_queue_required: false };
    let (boot, _) = run::<Layered>(StartMode::Task, policy);
    assert_eq!(boot.phase(), Phase::TaskComplete);
    assert_eq!(
        journal(),
        vec!["init_logger", "before_run:app", "before_run:Logger", "before_run:RateLimiter"]
    );
    let context = boot.context().unwrap();
    assert_eq!(context.db, Some(Handle { id: 1 }));
    assert_eq!(context.redis, None);
}

#[test]
fn perform_hands_back_the_steps_of_the_host() {
    let mut extensions: Extensions = Vec::new();
    let (boot, action) =
        Boot::new(StartMode::Serve, Environment::Test, BootPolicy::default()).step(Event::Start);
    assert_eq!(action, Action::LoadConfig);
    let back = perform::<Surface, String, Plain>(&boot, &mut extensions, action);
    assert_eq!(back.unwrap_err(), Action::LoadConfig);
    let back = perform::<Surface, String, Plain>(&boot, &mut extensions, Action::Halt);
    assert_eq!(back.unwrap_err(), Action::Halt);
}

#[test]
fn perform_refuses_a_step_that_is_not_awaited() {
    let mut extensions: Extensions = vec![Box::new(Quiet)];
    let (boot, _) =
        Boot::new(StartMode::Serve, Environment::Test, BootPolicy::default()).step(Event::Start);
    let (boot, action) = boot.step(Event::Config(config()));
    assert_eq!(action, Action::InitLogger);
    for stray in [
        Action::Storage,
        Action::ListExtensions,
        Action::BeforeRun(Target::Customization),
        Action::BeforeRun(Target::Extension(0)),
        Action::AssembleRoutes,
        Action::AfterRoutes(Target::Extension(0), vec!["kept".to_string()]),
    ] {
        let expected = format!("{:?}", stray);
        let back = perform::<Surface, String, Layered>(&boot, &mut extensions, stray);
        assert_eq!(format!("{:?}", back.unwrap_err()), expected);
    }
    assert_eq!(extensions.len(), 1);
    assert_eq!(journal().len(), 0);
    let event = perform::<Surface, String, Plain>(&boot, &mut extensions, action).unwrap();
    assert!(matches!(event, Event::Logger(false)));
}

#[test]
fn perform_refuses_an_extension_that_the_host_does_not_hold() {
    let mut extensions: Extensions = Vec::new();
    let (boot, _) =
        Boot::new(StartMode::Task, Environment::Test, BootPolicy::default()).step(Event::Start);
    let (boot, _) = boot.step(Event::Config(config()));
    let (boot, _) = boot.step(Event::Logger(true));
    let (boot, _) = boot.step(Event::Provided(None));
    let (boot, _) = boot.step(Event::Provided(None));
    let (boot, _) = boot.step(Event::Extensions(vec!["ghost".to_string()]));
    let (boot, action) = boot.step(Event::Done);
    assert_eq!(action, Action::BeforeRun(Target::Extension(0)));
    let back = perform::<Surface, String, Plain>(&boot, &mut extensions, action);
    assert_eq!(back.unwrap_err(), Action::BeforeRun(Target::Extension(0)));
    extensions.push(Box::new(Layer { name: "ghost", fail_before_run: false }));
    let event = perform::<Surface, String, Plain>(
        &boot,
        &mut extensions,
        Action::BeforeRun(Target::Extension(0)),
    );
    assert!(matches!(event, Ok(Event::Done)));
    assert_eq!(journal(), vec!["before_run:ghost"]);
}

#[test]
fn mailer_hook_fills_the_context() {
    let (boot, _) = run::<Broken>(StartMode::Serve, BootPolicy::default());
    // the boot was aborted after the context was built
    assert_eq!(boot.phase(), Phase::Aborted);
    assert_eq!(boot.context(), None);
    let mut extensions: Extensions = Vec::new();
    let (boot, _) =
        Boot::new(StartMode::Serve, Environment::Test, BootPolicy::default()).step(Event::Start);
    let (boot, _) = boot.step(Event::Config(config()));
    let (boot, _) = boot.step(Event::Logger(true));
    let (boot, action) = boot.step(Event::Provided(None));
    assert_eq!(action, Action::Mailer);
    let event = perform::<Surface, String, Broken>(&boot, &mut extensions, action).unwrap();
    let (boot, _) = boot.step(event);
    assert_eq!(boot.context().unwrap().mailer, Some(Handle { id: 5 }));
}
