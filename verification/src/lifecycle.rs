//! The boot sequence as a state machine: its stages, the steps that the
//! host performs, the outcomes that it reports, and the transition that
//! ties them together.
//!
//! The transition is a definition. The orchestrator implements it; the
//! laws are proved of it.

use crate::context::{AppContext, Capability, Config, Handle};
use crate::environment::Environment;
use crate::error::BootError;
use vstd::prelude::*;

verus! {

/// What the application is started for.
#[derive(Clone, Copy, Debug, PartialEq, Eq)]
pub enum StartMode {
    /// Serve requests until the process ends.
    Serve,
    /// Run one task and stop.
    Task,
    /// Run an interactive console and stop.
    Console,
}

/// The states of a boot. They are passed through in this order; a boot in
/// serve mode ends in `Ready`, any other in `TaskComplete`, and `Aborted`
/// is reached from every state that is not final.
#[derive(Clone, Copy, Debug, PartialEq, Eq)]
pub enum Phase {
    Uninitialized,
    ContextBuilt,
    PreRunComplete,
    RoutesAssembled,
    AugmentationComplete,
    Ready,
    TaskComplete,
    Aborted,
}

/// Whose callback a step of a pass invokes.
#[derive(Clone, Copy, Debug, PartialEq, Eq)]
pub enum Target {
    /// The customization itself. It comes first in every pass.
    Customization,
    /// The extension at this position of the registered sequence.
    Extension(usize),
}

/// The position of a boot: the step that the host has been asked to
/// perform and whose outcome is awaited, or where the boot has come to rest.
#[derive(Clone, Copy, Debug, PartialEq, Eq)]
pub enum Stage {
    /// Nothing has been asked for yet.
    Created,
    LoadConfig,
    InitLogger,
    DefaultLogger,
    OpenPersistence,
    OpenTaskQueue,
    Storage,
    Mailer,
    ListExtensions,
    BeforeRun(Target),
    AssembleRoutes,
    OneShot,
    AfterRoutes(Target),
    Bind,
    Ready,
    TaskComplete,
    Aborted,
}

/// The choices that are made for a boot before it starts.
#[derive(Clone, Copy, Debug, PartialEq, Eq)]
pub struct BootPolicy {
    /// Persistence is part of this build: the connection is opened, and a
    /// failure to open it is fatal.
    pub persistence: bool,
    /// A task queue is configured: its pool is opened.
    pub task_queue: bool,
    /// The boot cannot do without the task queue: a failure to open the
    /// pool is fatal. Otherwise the context is built without the pool.
    pub task_queue_required: bool,
}

impl Default for BootPolicy {
    /// No optional resource is opened, and none is required.
    fn default() -> (p: Self)
        ensures
            p == (BootPolicy { persistence: false, task_queue: false, task_queue_required: false }),
    {
        BootPolicy { persistence: false, task_queue: false, task_queue_required: false }
    }
}

/// What the host is asked to do next. It performs the step and reports the
/// outcome with the next call.
#[derive(Debug, PartialEq, Eq)]
pub enum Action<R> {
    /// Load the configuration of the environment.
    LoadConfig,
    /// Ask the customization to set up logging.
    InitLogger,
    /// Set up the default logging.
    DefaultLogger,
    /// Open the persistence connection.
    OpenPersistence,
    /// Open the pool of the task queue.
    OpenTaskQueue,
    /// Ask the customization for the blob storage.
    Storage,
    /// Ask the customization for the mailer.
    Mailer,
    /// Ask the customization for its extensions, in order.
    ListExtensions,
    /// Run the pre-run callback of the target on the context.
    BeforeRun(Target),
    /// Ask the customization for the route surface.
    AssembleRoutes,
    /// Hand the surface to the augmentation callback of the target.
    AfterRoutes(Target, R),
    /// Run the one task or the console that the boot was started for.
    OneShot,
    /// Bind the listener to the address of the configuration.
    Bind,
    /// Nothing is left to do.
    Halt,
}

/// What the host reports of the step it was asked to perform.
#[derive(Debug)]
pub enum Event<R, E> {
    /// The host starts the boot.
    Start,
    /// The configuration was loaded.
    Config(Config),
    /// The customization answered for logging: `true` where it has set up
    /// logging of its own.
    Logger(bool),
    /// A connection or a pool was opened.
    Opened(Handle),
    /// The customization answered for an optional resource.
    Provided(Option<Handle>),
    /// The customization named its extensions, in order.
    Extensions(Vec<String>),
    /// The route surface, as assembled or as a callback returned it.
    Surface(R),
    /// The step completed and has nothing to report.
    Done,
    /// The step failed.
    Failed(E),
}

impl<R, E> Event<R, E> {
    /// The report of a configuration load.
    pub fn loaded(outcome: Result<Config, E>) -> (event: Self)
        ensures
            event == match outcome {
                Ok(config) => Event::<R, E>::Config(config),
                Err(cause) => Event::Failed(cause),
            },
    {
        match outcome {
            Ok(config) => Event::Config(config),
            Err(cause) => Event::Failed(cause),
        }
    }

    /// The report of the customization's answer for logging.
    pub fn logger(outcome: Result<bool, E>) -> (event: Self)
        ensures
            event == match outcome {
                Ok(configured) => Event::<R, E>::Logger(configured),
                Err(cause) => Event::Failed(cause),
            },
    {
        match outcome {
            Ok(configured) => Event::Logger(configured),
            Err(cause) => Event::Failed(cause),
        }
    }

    /// The report of an attempt to open a connection or a pool.
    pub fn opened(outcome: Result<Handle, E>) -> (event: Self)
        ensures
            event == match outcome {
                Ok(handle) => Event::<R, E>::Opened(handle),
                Err(cause) => Event::Failed(cause),
            },
    {
        match outcome {
            Ok(handle) => Event::Opened(handle),
            Err(cause) => Event::Failed(cause),
        }
    }

    /// The report of the customization's answer for an optional resource.
    pub fn provided(outcome: Result<Option<Handle>, E>) -> (event: Self)
        ensures
            event == match outcome {
                Ok(handle) => Event::<R, E>::Provided(handle),
                Err(cause) => Event::Failed(cause),
            },
    {
        match outcome {
            Ok(handle) => Event::Provided(handle),
            Err(cause) => Event::Failed(cause),
        }
    }

    /// The report of a step that yields a surface: the assembly of the
    /// routes, or an augmentation callback.
    pub fn surface(outcome: Result<R, E>) -> (event: Self)
        ensures
            event == match outcome {
                Ok(surface) => Event::<R, E>::Surface(surface),
                Err(cause) => Event::Failed(cause),
            },
    {
        match outcome {
            Ok(surface) => Event::Surface(surface),
            Err(cause) => Event::Failed(cause),
        }
    }

    /// The report of a step that yields nothing: a pre-run callback, the
    /// default logging, the one-shot run, the bind.
    pub fn done(outcome: Result<(), E>) -> (event: Self)
        ensures
            event == match outcome {
                Ok(_) => Event::<R, E>::Done,
                Err(cause) => Event::Failed(cause),
            },
    {
        match outcome {
            Ok(_) => Event::Done,
            Err(cause) => Event::Failed(cause),
        }
    }
}

/// The state of a boot, as the contracts speak of it.
pub struct BootModel<R, E> {
    pub mode: StartMode,
    pub environment: Environment,
    pub policy: BootPolicy,
    pub stage: Stage,
    /// The context. Until the last resource is recorded it is a draft.
    pub context: Option<AppContext>,
    /// The names of the extensions, in their registered order.
    pub extensions: Seq<String>,
    /// The surface that came out of the augmentation pass.
    pub surface: Option<R>,
    /// Why the boot was aborted.
    pub error: Option<BootError<E>>,
}

pub open spec fn phase_of(stage: Stage) -> Phase {
    match stage {
        Stage::Created
        | Stage::LoadConfig
        | Stage::InitLogger
        | Stage::DefaultLogger
        | Stage::OpenPersistence
        | Stage::OpenTaskQueue
        | Stage::Storage
        | Stage::Mailer => Phase::Uninitialized,
        Stage::ListExtensions | Stage::BeforeRun(_) => Phase::ContextBuilt,
        Stage::AssembleRoutes | Stage::OneShot => Phase::PreRunComplete,
        Stage::AfterRoutes(_) => Phase::RoutesAssembled,
        Stage::Bind => Phase::AugmentationComplete,
        Stage::Ready => Phase::Ready,
        Stage::TaskComplete => Phase::TaskComplete,
        Stage::Aborted => Phase::Aborted,
    }
}

/// The boot has come to rest.
pub open spec fn is_final(stage: Stage) -> bool {
    stage is Ready || stage is TaskComplete || stage is Aborted
}

/// `event` is an outcome that the step pending at `stage` can have.
pub open spec fn answers<R, E>(stage: Stage, event: Event<R, E>) -> bool {
    match event {
        Event::Start => stage is Created,
        Event::Failed(_) => !(stage is Created),
        Event::Config(_) => stage is LoadConfig,
        Event::Logger(_) => stage is InitLogger,
        Event::Opened(_) => stage is OpenPersistence || stage is OpenTaskQueue,
        Event::Provided(_) => stage is Storage || stage is Mailer,
        Event::Extensions(_) => stage is ListExtensions,
        Event::Surface(_) => stage is AssembleRoutes || stage is AfterRoutes,
        Event::Done => stage is DefaultLogger || stage is BeforeRun || stage is OneShot
            || stage is Bind,
    }
}

/// The target that follows `target` in a pass over `n` extensions.
pub open spec fn next_target(target: Target, n: nat) -> Option<Target> {
    match target {
        Target::Customization => if n > 0 {
            Some(Target::Extension(0))
        } else {
            None
        },
        Target::Extension(i) => if i + 1 < n {
            Some(Target::Extension((i + 1) as usize))
        } else {
            None
        },
    }
}

/// The stage that follows the logging steps.
pub open spec fn after_logger(policy: BootPolicy) -> Stage {
    if policy.persistence {
        Stage::OpenPersistence
    } else {
        after_persistence(policy)
    }
}

/// The stage that follows the persistence step.
pub open spec fn after_persistence(policy: BootPolicy) -> Stage {
    if policy.task_queue {
        Stage::OpenTaskQueue
    } else {
        Stage::Storage
    }
}

/// The stage that follows the pre-run pass. Only a boot in serve mode
/// assembles routes.
pub open spec fn after_pre_run(mode: StartMode) -> Stage {
    match mode {
        StartMode::Serve => Stage::AssembleRoutes,
        _ => Stage::OneShot,
    }
}

impl<R, E> BootModel<R, E> {
    /// The state in which every boot begins.
    pub open spec fn initial(mode: StartMode, environment: Environment, policy: BootPolicy) -> Self {
        BootModel {
            mode,
            environment,
            policy,
            stage: Stage::Created,
            context: None,
            extensions: Seq::empty(),
            surface: None,
            error: None,
        }
    }

    /// What holds of every state that a boot passes through.
    pub open spec fn inv(self) -> bool {
        &&& self.stage is Aborted <==> self.error is Some
        &&& !(self.stage is Created || self.stage is LoadConfig || self.stage is Aborted)
            ==> self.context is Some
        &&& self.context matches Some(c) ==> c.environment == self.environment
        &&& self.stage matches Stage::BeforeRun(Target::Extension(i)) ==> i < self.extensions.len()
        &&& self.stage matches Stage::AfterRoutes(Target::Extension(i)) ==> i
            < self.extensions.len()
        &&& self.stage is Bind || self.stage is Ready ==> self.surface is Some
        &&& self.stage is AssembleRoutes || self.stage is AfterRoutes || self.stage is Bind
            || self.stage is Ready ==> self.mode is Serve
        &&& self.stage is OneShot || self.stage is TaskComplete ==> !(self.mode is Serve)
        &&& self.extensions.len() <= usize::MAX
    }

    /// A failed step may be passed over: only the pool of a task queue that
    /// the boot can do without.
    pub open spec fn tolerates_failure(self) -> bool {
        self.stage is OpenTaskQueue && !self.policy.task_queue_required
    }

    /// The error with which the boot is aborted when the step pending at
    /// this stage fails with `cause`.
    pub open spec fn failure(self, cause: E) -> BootError<E> {
        failure_at(self.stage, self.extensions, cause)
    }

    /// The configuration, once it is loaded and while the boot goes on.
    pub open spec fn loaded(self) -> Option<Config> {
        match self.context {
            Some(c) if !(self.stage is Aborted) => Some(c.config),
            _ => None,
        }
    }

    /// The context, once it is built and while the boot goes on.
    pub open spec fn shared(self) -> Option<AppContext> {
        if phase_of(self.stage) is Uninitialized || self.stage is Aborted {
            None
        } else {
            self.context
        }
    }

    /// The state, come to rest with `error`.
    pub open spec fn aborted(self, error: BootError<E>) -> Self {
        BootModel { stage: Stage::Aborted, error: Some(error), ..self }
    }

    /// The state with the payload of `event` recorded, the stage unchanged.
    pub open spec fn recorded(self, event: Event<R, E>) -> Self {
        match (self.stage, event) {
            (Stage::LoadConfig, Event::Config(config)) => BootModel {
                context: Some(AppContext::bare(self.environment, config)),
                ..self
            },
            (Stage::OpenPersistence, Event::Opened(h)) => BootModel {
                context: match self.context {
                    Some(c) => Some(AppContext { db: Some(h), ..c }),
                    None => None,
                },
                ..self
            },
            (Stage::OpenTaskQueue, Event::Opened(h)) => BootModel {
                context: match self.context {
                    Some(c) => Some(AppContext { redis: Some(h), ..c }),
                    None => None,
                },
                ..self
            },
            (Stage::Storage, Event::Provided(o)) => BootModel {
                context: match self.context {
                    Some(c) => Some(AppContext { storage: o, ..c }),
                    None => None,
                },
                ..self
            },
            (Stage::Mailer, Event::Provided(o)) => BootModel {
                context: match self.context {
                    Some(c) => Some(AppContext { mailer: o, ..c }),
                    None => None,
                },
                ..self
            },
            (Stage::ListExtensions, Event::Extensions(names)) => BootModel {
                extensions: names@,
                ..self
            },
            (Stage::AfterRoutes(t), Event::Surface(r)) => if next_target(t, self.extensions.len())
                is None {
                BootModel { surface: Some(r), ..self }
            } else {
                self
            },
            _ => self,
        }
    }

    /// The stage that follows this one when its step is done. `event` is
    /// the outcome of the step; it decides only after the logging question.
    pub open spec fn following(self, event: Event<R, E>) -> Stage {
        match self.stage {
            Stage::Created => Stage::LoadConfig,
            Stage::LoadConfig => Stage::InitLogger,
            Stage::InitLogger => if event == Event::<R, E>::Logger(true) {
                after_logger(self.policy)
            } else {
                Stage::DefaultLogger
            },
            Stage::DefaultLogger => after_logger(self.policy),
            Stage::OpenPersistence => after_persistence(self.policy),
            Stage::OpenTaskQueue => Stage::Storage,
            Stage::Storage => Stage::Mailer,
            Stage::Mailer => Stage::ListExtensions,
            Stage::ListExtensions => Stage::BeforeRun(Target::Customization),
            Stage::BeforeRun(t) => match next_target(t, self.extensions.len()) {
                Some(u) => Stage::BeforeRun(u),
                None => after_pre_run(self.mode),
            },
            Stage::AssembleRoutes => Stage::AfterRoutes(Target::Customization),
            Stage::AfterRoutes(t) => match next_target(t, self.extensions.len()) {
                Some(u) => Stage::AfterRoutes(u),
                None => Stage::Bind,
            },
            Stage::OneShot => Stage::TaskComplete,
            Stage::Bind => Stage::Ready,
            Stage::Ready => Stage::Ready,
            Stage::TaskComplete => Stage::TaskComplete,
            Stage::Aborted => Stage::Aborted,
        }
    }

    /// The state after the host has reported `event`.
    pub open spec fn next(self, event: Event<R, E>) -> Self {
        if is_final(self.stage) {
            self
        } else if !answers(self.stage, event) {
            self.aborted(BootError::OutOfSequence { stage: self.stage })
        } else {
            match event {
                Event::Failed(cause) if !self.tolerates_failure() => self.aborted(
                    self.failure(cause),
                ),
                _ => self.advanced(event),
            }
        }
    }

    /// The state after the step pending at this stage is done: the payload
    /// of `event` recorded, the stage moved on.
    pub open spec fn advanced(self, event: Event<R, E>) -> Self {
        let r = self.recorded(event);
        BootModel { stage: r.following(event), ..r }
    }

    /// What the host is asked to do after it has reported `event`.
    pub open spec fn request(self, event: Event<R, E>) -> Action<R> {
        request_at(self.next(event).stage, event)
    }
}

/// The error for a failure, with `cause`, of the step pending at `stage`.
/// A failing extension is reported under its registered name. A step that
/// belongs to no resource and to no extension (a callback of the
/// customization, the default logging, the one-shot run) is reported with
/// its stage.
pub open spec fn failure_at<E>(stage: Stage, extensions: Seq<String>, cause: E) -> BootError<E> {
    match stage {
        Stage::LoadConfig => BootError::ConfigError(cause),
        Stage::OpenPersistence => BootError::PersistenceUnavailable(cause),
        Stage::OpenTaskQueue => BootError::CapabilityUnavailable {
            capability: Capability::TaskQueue,
            cause,
        },
        Stage::Storage => BootError::CapabilityUnavailable { capability: Capability::Storage, cause },
        Stage::Mailer => BootError::CapabilityUnavailable { capability: Capability::Mailer, cause },
        Stage::BeforeRun(Target::Extension(i)) | Stage::AfterRoutes(Target::Extension(i)) =>
            BootError::ExtensionFailure { name: extensions[i as int], cause },
        Stage::Bind => BootError::BindError(cause),
        _ => BootError::CustomizationFailure { stage, cause },
    }
}

/// The action that asks for the step of `stage`, where the step works on
/// nothing that the host does not hold already.
pub open spec fn plain_request<R>(stage: Stage) -> Action<R> {
    match stage {
        Stage::LoadConfig => Action::LoadConfig,
        Stage::InitLogger => Action::InitLogger,
        Stage::DefaultLogger => Action::DefaultLogger,
        Stage::OpenPersistence => Action::OpenPersistence,
        Stage::OpenTaskQueue => Action::OpenTaskQueue,
        Stage::Storage => Action::Storage,
        Stage::Mailer => Action::Mailer,
        Stage::ListExtensions => Action::ListExtensions,
        Stage::BeforeRun(t) => Action::BeforeRun(t),
        Stage::AssembleRoutes => Action::AssembleRoutes,
        Stage::OneShot => Action::OneShot,
        Stage::Bind => Action::Bind,
        Stage::AfterRoutes(_)
        | Stage::Created
        | Stage::Ready
        | Stage::TaskComplete
        | Stage::Aborted => Action::Halt,
    }
}

/// The step that `action` asks for. It is the stage at which the boot
/// awaits the outcome.
pub open spec fn step_of<R>(action: Action<R>) -> Stage {
    match action {
        Action::LoadConfig => Stage::LoadConfig,
        Action::InitLogger => Stage::InitLogger,
        Action::DefaultLogger => Stage::DefaultLogger,
        Action::OpenPersistence => Stage::OpenPersistence,
        Action::OpenTaskQueue => Stage::OpenTaskQueue,
        Action::Storage => Stage::Storage,
        Action::Mailer => Stage::Mailer,
        Action::ListExtensions => Stage::ListExtensions,
        Action::BeforeRun(t) => Stage::BeforeRun(t),
        Action::AssembleRoutes => Stage::AssembleRoutes,
        Action::AfterRoutes(t, _) => Stage::AfterRoutes(t),
        Action::OneShot => Stage::OneShot,
        Action::Bind => Stage::Bind,
        Action::Halt => Stage::Aborted,
    }
}

/// The action that asks for the step of `stage`. The surface that an
/// augmentation step works on is the one that `event` has just brought.
pub open spec fn request_at<R, E>(stage: Stage, event: Event<R, E>) -> Action<R> {
    match (stage, event) {
        (Stage::AfterRoutes(t), Event::Surface(r)) => Action::AfterRoutes(t, r),
        _ => plain_request(stage),
    }
}

} // verus!
