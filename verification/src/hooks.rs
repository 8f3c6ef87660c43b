//! The plug points of a boot: the customization that an application
//! supplies once, and the extensions that it registers.
//!
//! Both are for applications to implement. A callback that is kept does
//! what its default does; of a callback that is overridden nothing is
//! assumed. Whatever a callback returns, [`perform`] turns it into the
//! report that the orchestrator awaits.

use crate::context::{AppContext, Config, Handle};
use crate::environment::Environment;
use crate::lifecycle::{answers, step_of, Action, BootModel, Event, Stage, Target};
use crate::orchestrator::BootOrchestrator;
use vstd::prelude::*;

verus! {

/// The callbacks that come with a default.
#[derive(Clone, Copy, Debug, PartialEq, Eq)]
pub enum Callback {
    AppVersion,
    InitLogger,
    AfterRoutes,
    Initializers,
    BeforeRun,
    Storage,
    Mailer,
}

/// An extension: a named unit that takes part in the two passes of a boot.
/// A callback that is not overridden does nothing and succeeds.
pub trait Initializer<R, E>: Sync + Send {
    /// The extension keeps the default of `callback`. An extension that
    /// overrides a callback says so here; of its callback nothing is
    /// promised.
    open spec fn keeps_default(&self, callback: Callback) -> bool {
        true
    }

    /// The name under which the extension is registered and reported.
    fn name(&self) -> String;

    /// Runs once before the application does, after the customization's
    /// own `before_run`. By default it does nothing and succeeds.
    fn before_run(&self, _app_context: &AppContext) -> (out: Result<(), E>)
        ensures
            self.keeps_default(Callback::BeforeRun) ==> out == Ok::<(), E>(()),
    {
        Ok(())
    }

    /// Runs once on the route surface, after the customization's own
    /// `after_routes`, and returns the surface to go on with. By default
    /// it returns the surface as it came.
    fn after_routes(&self, router: R, _ctx: &AppContext) -> (out: Result<R, E>)
        ensures
            self.keeps_default(Callback::AfterRoutes) ==> out == Ok::<R, E>(router),
    {
        Ok(router)
    }
}

/// The customization of an application: its identity, its routes, its
/// extensions, and the defaults it may override.
pub trait Hooks<R, E> {
    /// The customization keeps the default of `callback`. A customization
    /// that overrides a callback says so here; of its callback nothing is
    /// promised.
    open spec fn keeps_default(callback: Callback) -> bool {
        true
    }

    /// The version of the application. By default it is `dev`.
    fn app_version() -> (version: String)
        ensures
            Self::keeps_default(Callback::AppVersion) ==> version@ == "dev"@,
    {
        "dev".to_string()
    }

    /// The name of the application.
    fn app_name() -> &'static str;

    /// Sets up logging of the application's own and answers `true`, or
    /// answers `false` and leaves logging to the default. By default it
    /// answers `false`.
    fn init_logger(_config: &Config, _env: &Environment) -> (out: Result<bool, E>)
        ensures
            Self::keeps_default(Callback::InitLogger) ==> out == Ok::<bool, E>(false),
    {
        Ok(false)
    }

    /// Runs on the assembled route surface before any extension does. By
    /// default it returns the surface as it came.
    fn after_routes(router: R, _ctx: &AppContext) -> (out: Result<R, E>)
        ensures
            Self::keeps_default(Callback::AfterRoutes) ==> out == Ok::<R, E>(router),
    {
        Ok(router)
    }

    /// The extensions of the application, in the order in which they take
    /// part in each pass. By default there is none.
    fn initializers(_ctx: &AppContext) -> (out: Result<Vec<Box<dyn Initializer<R, E>>>, E>)
        ensures
            Self::keeps_default(Callback::Initializers) ==> (out matches Ok(list) && list@
                == Seq::<Box<dyn Initializer<R, E>>>::empty()),
    {
        Ok(Vec::new())
    }

    /// Runs before the application does and before any extension. By
    /// default it does nothing and succeeds.
    fn before_run(_app_context: &AppContext) -> (out: Result<(), E>)
        ensures
            Self::keeps_default(Callback::BeforeRun) ==> out == Ok::<(), E>(()),
    {
        Ok(())
    }

    /// The route surface of the application.
    fn routes(_ctx: &AppContext) -> R;

    /// The blob storage of the application, if it has one. By default it
    /// has none.
    fn storage(_config: &Config, _environment: &Environment) -> (out: Result<Option<Handle>, E>)
        ensures
            Self::keeps_default(Callback::Storage) ==> out == Ok::<Option<Handle>, E>(None),
    {
        Ok(None)
    }

    /// The mailer of the application, if it has one. By default it has
    /// none.
    fn mailer(_config: &Config, _environment: &Environment) -> (out: Result<Option<Handle>, E>)
        ensures
            Self::keeps_default(Callback::Mailer) ==> out == Ok::<Option<Handle>, E>(None),
    {
        Ok(None)
    }
}

/// The step that `action` asks for is a callback, the boot awaits its
/// outcome, and what the callback works on is at hand. `n` is the number
/// of extensions that the host holds.
pub open spec fn performable<R, E>(s: BootModel<R, E>, n: nat, action: Action<R>) -> bool {
    &&& s.stage == step_of(action)
    &&& match action {
        Action::InitLogger | Action::Storage | Action::Mailer => s.loaded() is Some,
        Action::ListExtensions
        | Action::AssembleRoutes
        | Action::BeforeRun(Target::Customization)
        | Action::AfterRoutes(Target::Customization, _) => s.shared() is Some,
        Action::BeforeRun(Target::Extension(i)) | Action::AfterRoutes(Target::Extension(i), _) =>
            s.shared() is Some && i < n,
        _ => false,
    }
}

/// The extension `x` keeps the default of `callback`.
pub open spec fn keeps<R, E, T: Initializer<R, E> + ?Sized>(x: &T, callback: Callback) -> bool {
    x.keeps_default(callback)
}

/// `out` is what the pre-run callback of the extension `x` returned on
/// `ctx`. Where the extension keeps the default, that is success.
pub open spec fn ran_before<R, E, T: Initializer<R, E> + ?Sized>(
    x: &T,
    ctx: &AppContext,
    out: Result<(), E>,
) -> bool {
    &&& call_ensures(T::before_run, (x, ctx), out)
    &&& keeps::<R, E, T>(x, Callback::BeforeRun) ==> out == Ok::<(), E>(())
}

/// `out` is what the augmentation callback of the extension `x` returned
/// on the surface `router` and on `ctx`. Where the extension keeps the
/// default, that is the surface as it was handed in.
pub open spec fn ran_after<R, E, T: Initializer<R, E> + ?Sized>(
    x: &T,
    router: R,
    ctx: &AppContext,
    out: Result<R, E>,
) -> bool {
    &&& call_ensures(T::after_routes, (x, router, ctx), out)
    &&& keeps::<R, E, T>(x, Callback::AfterRoutes) ==> out == Ok::<R, E>(router)
}

/// `name` is what the extension `x` returned as its name.
pub open spec fn named<R, E, T: Initializer<R, E> + ?Sized>(x: &T, name: String) -> bool {
    call_ensures(T::name, (x,), name)
}

/// `event` reports what the callback that `action` asks for returned: a
/// callback of the customization `H`, called on the configuration or the
/// context of the boot, or a callback of the extension at the action's
/// place in `listed`, called on the context of the boot and, in the
/// augmentation pass, on the surface that the action carries. `listed` is
/// what the host holds as extensions afterwards; where the customization
/// has just listed them, each name reported is the one that the extension
/// at its place returned.
pub open spec fn reports<R, E, H: Hooks<R, E>>(
    s: BootModel<R, E>,
    listed: Vec<Box<dyn Initializer<R, E>>>,
    action: Action<R>,
    event: Event<R, E>,
) -> bool {
    match (action, event) {
        (Action::InitLogger, Event::Logger(b)) => call_ensures(
            H::init_logger,
            (&s.loaded()->0, &s.environment),
            Ok(b),
        ),
        (Action::InitLogger, Event::Failed(c)) => call_ensures(
            H::init_logger,
            (&s.loaded()->0, &s.environment),
            Err(c),
        ),
        (Action::Storage, Event::Provided(o)) => call_ensures(
            H::storage,
            (&s.loaded()->0, &s.environment),
            Ok(o),
        ),
        (Action::Storage, Event::Failed(c)) => call_ensures(
            H::storage,
            (&s.loaded()->0, &s.environment),
            Err(c),
        ),
        (Action::Mailer, Event::Provided(o)) => call_ensures(
            H::mailer,
            (&s.loaded()->0, &s.environment),
            Ok(o),
        ),
        (Action::Mailer, Event::Failed(c)) => call_ensures(
            H::mailer,
            (&s.loaded()->0, &s.environment),
            Err(c),
        ),
        (Action::ListExtensions, Event::Extensions(names)) => call_ensures(
            H::initializers,
            (&s.shared()->0,),
            Ok(listed),
        ) && names.len() == listed.len() && forall|k: int|
            0 <= k < listed@.len() ==> named::<R, E, dyn Initializer<R, E>>(
                &*listed@[k],
                #[trigger] names@[k],
            ),
        (Action::ListExtensions, Event::Failed(c)) => call_ensures(
            H::initializers,
            (&s.shared()->0,),
            Err(c),
        ),
        (Action::BeforeRun(Target::Customization), Event::Done) => call_ensures(
            H::before_run,
            (&s.shared()->0,),
            Ok(()),
        ),
        (Action::BeforeRun(Target::Customization), Event::Failed(c)) => call_ensures(
            H::before_run,
            (&s.shared()->0,),
            Err(c),
        ),
        (Action::AssembleRoutes, Event::Surface(r)) => call_ensures(
            H::routes,
            (&s.shared()->0,),
            r,
        ),
        (Action::AfterRoutes(Target::Customization, given), Event::Surface(r)) => call_ensures(
            H::after_routes,
            (given, &s.shared()->0),
            Ok(r),
        ),
        (Action::AfterRoutes(Target::Customization, given), Event::Failed(c)) => call_ensures(
            H::after_routes,
            (given, &s.shared()->0),
            Err(c),
        ),
        (Action::BeforeRun(Target::Extension(i)), Event::Done) => i < listed@.len()
            && ran_before::<R, E, dyn Initializer<R, E>>(
            &*listed@[i as int],
            &s.shared()->0,
            Ok(()),
        ),
        (Action::BeforeRun(Target::Extension(i)), Event::Failed(c)) => i < listed@.len()
            && ran_before::<R, E, dyn Initializer<R, E>>(
            &*listed@[i as int],
            &s.shared()->0,
            Err(c),
        ),
        (Action::AfterRoutes(Target::Extension(i), given), Event::Surface(r)) => i
            < listed@.len() && ran_after::<R, E, dyn Initializer<R, E>>(
            &*listed@[i as int],
            given,
            &s.shared()->0,
            Ok(r),
        ),
        (Action::AfterRoutes(Target::Extension(i), given), Event::Failed(c)) => i
            < listed@.len() && ran_after::<R, E, dyn Initializer<R, E>>(
            &*listed@[i as int],
            given,
            &s.shared()->0,
            Err(c),
        ),
        _ => false,
    }
}

/// Runs the pre-run callback of `x` on `ctx`.
fn run_before<R, E, T: Initializer<R, E> + ?Sized>(x: &T, ctx: &AppContext) -> (out: Result<
    (),
    E,
>)
    ensures
        ran_before::<R, E, T>(x, ctx, out),
{
    x.before_run(ctx)
}

/// Runs the augmentation callback of `x` on `router` and `ctx`.
fn run_after<R, E, T: Initializer<R, E> + ?Sized>(x: &T, router: R, ctx: &AppContext) -> (out:
    Result<R, E>)
    ensures
        ran_after::<R, E, T>(x, router, ctx, out),
{
    x.after_routes(router, ctx)
}

/// Asks `x` for its name.
fn name_of<R, E, T: Initializer<R, E> + ?Sized>(x: &T) -> (name: String)
    ensures
        named::<R, E, T>(x, name),
{
    x.name()
}

/// The names of the extensions, each as the extension returned it, in
/// order.
fn names_of<R, E>(list: &Vec<Box<dyn Initializer<R, E>>>) -> (names: Vec<String>)
    ensures
        names.len() == list.len(),
        forall|k: int|
            0 <= k < list@.len() ==> named::<R, E, dyn Initializer<R, E>>(
                &*list@[k],
                #[trigger] names@[k],
            ),
{
    let mut names: Vec<String> = Vec::new();
    let mut i: usize = 0;
    while i < list.len()
        invariant
            i <= list.len(),
            names.len() == i,
            forall|k: int|
                0 <= k < i ==> named::<R, E, dyn Initializer<R, E>>(
                    &*list@[k],
                    #[trigger] names@[k],
                ),
        decreases list.len() - i,
    {
        let name = name_of::<R, E, dyn Initializer<R, E>>(&*list[i]);
        names.push(name);
        i = i + 1;
    }
    names
}

fn awaited<R>(stage: Stage, action: &Action<R>) -> (b: bool)
    ensures
        b == (stage == step_of(*action)),
{
    match (stage, action) {
        (Stage::InitLogger, Action::InitLogger) => true,
        (Stage::Storage, Action::Storage) => true,
        (Stage::Mailer, Action::Mailer) => true,
        (Stage::ListExtensions, Action::ListExtensions) => true,
        (Stage::AssembleRoutes, Action::AssembleRoutes) => true,
        (Stage::BeforeRun(Target::Customization), Action::BeforeRun(Target::Customization)) => true,
        (Stage::BeforeRun(Target::Extension(i)), Action::BeforeRun(Target::Extension(j))) => i
            == *j,
        (
            Stage::AfterRoutes(Target::Customization),
            Action::AfterRoutes(Target::Customization, _),
        ) => true,
        (
            Stage::AfterRoutes(Target::Extension(i)),
            Action::AfterRoutes(Target::Extension(j), _),
        ) => i == *j,
        (Stage::LoadConfig, Action::LoadConfig) => true,
        (Stage::DefaultLogger, Action::DefaultLogger) => true,
        (Stage::OpenPersistence, Action::OpenPersistence) => true,
        (Stage::OpenTaskQueue, Action::OpenTaskQueue) => true,
        (Stage::OneShot, Action::OneShot) => true,
        (Stage::Bind, Action::Bind) => true,
        (Stage::Aborted, Action::Halt) => true,
        _ => false,
    }
}

/// Performs the step that `action` asks for, where that step is a callback
/// of the customization `H` or of one of the `initializers`, and reports
/// what the callback returned.
///
/// The callback is invoked exactly when the boot awaits the step and what
/// the callback works on is at hand: the configuration or the context of
/// `boot`, and for an extension its place among the `initializers`.
/// Otherwise nothing is invoked and the action is handed back; so it is
/// for every step that the host performs itself.
///
/// The report is what the callback returned, be it of the customization
/// or of an extension: its result where it succeeded, its own error where
/// it failed. So the report always answers the awaited step. The
/// `initializers` are replaced by what the customization lists, each
/// reported under the name it gave itself, and stay as they are in every
/// other case.
pub fn perform<R, E, H: Hooks<R, E>>(
    boot: &BootOrchestrator<R, E>,
    initializers: &mut Vec<Box<dyn Initializer<R, E>>>,
    action: Action<R>,
) -> (out: Result<Event<R, E>, Action<R>>)
    ensures
        match out {
            Ok(event) => {
                &&& performable(boot@, old(initializers)@.len(), action)
                &&& answers(boot@.stage, event)
                &&& reports::<R, E, H>(boot@, *final(initializers), action, event)
            },
            Err(back) => back == action && !performable(boot@, old(initializers)@.len(), action),
        },
        !(action is ListExtensions && out matches Ok(Event::Extensions(_))) ==> *final(initializers)
            == *old(initializers),
{
    if !awaited(boot.stage(), &action) {
        return Err(action);
    }
    match action {
        Action::InitLogger => match boot.config() {
            Some(config) => Ok(Event::logger(H::init_logger(config, boot.environment()))),
            None => Err(Action::InitLogger),
        },
        Action::Storage => match boot.config() {
            Some(config) => Ok(Event::provided(H::storage(config, boot.environment()))),
            None => Err(Action::Storage),
        },
        Action::Mailer => match boot.config() {
            Some(config) => Ok(Event::provided(H::mailer(config, boot.environment()))),
            None => Err(Action::Mailer),
        },
        Action::ListExtensions => match boot.context() {
            Some(ctx) => match H::initializers(ctx) {
                Ok(list) => {
                    let names = names_of(&list);
                    *initializers = list;
                    Ok(Event::Extensions(names))
                },
                Err(cause) => Ok(Event::Failed(cause)),
            },
            None => Err(Action::ListExtensions),
        },
        Action::BeforeRun(Target::Customization) => match boot.context() {
            Some(ctx) => {
                let outcome = H::before_run(ctx);
                assert(outcome matches Ok(unit) ==> unit == ());
                Ok(Event::done(outcome))
            },
            None => Err(Action::BeforeRun(Target::Customization)),
        },
        Action::BeforeRun(Target::Extension(i)) => match boot.context() {
            Some(ctx) if i < initializers.len() => {
                let outcome = run_before::<R, E, dyn Initializer<R, E>>(&*initializers[i], ctx);
                assert(outcome matches Ok(unit) ==> unit == ());
                Ok(Event::done(outcome))
            },
            _ => Err(Action::BeforeRun(Target::Extension(i))),
        },
        Action::AssembleRoutes => match boot.context() {
            Some(ctx) => Ok(Event::Surface(H::routes(ctx))),
            None => Err(Action::AssembleRoutes),
        },
        Action::AfterRoutes(Target::Customization, router) => match boot.context() {
            Some(ctx) => Ok(Event::surface(H::after_routes(router, ctx))),
            None => Err(Action::AfterRoutes(Target::Customization, router)),
        },
        Action::AfterRoutes(Target::Extension(i), router) => match boot.context() {
            Some(ctx) if i < initializers.len() => Ok(
                Event::surface(
                    run_after::<R, E, dyn Initializer<R, E>>(&*initializers[i], router, ctx),
                ),
            ),
            _ => Err(Action::AfterRoutes(Target::Extension(i), router)),
        },
        other => Err(other),
    }
}

} // verus!
