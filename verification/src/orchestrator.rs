//! The boot orchestrator: the one place where the order of a boot is
//! decided.
//!
//! The host owns every effect. It hands each outcome to
//! [`BootOrchestrator::step`] and performs the action that comes back,
//! until that action is [`Action::Halt`].

use crate::context::{AppContext, Capability, Config};
use crate::environment::Environment;
use crate::error::BootError;
use crate::lifecycle::{
    after_logger, after_persistence, after_pre_run, failure_at, is_final, next_target, phase_of,
    plain_request, Action, BootModel, BootPolicy, Event, Phase, Stage, StartMode, Target,
};
use crate::serve::{Normalized, ServeParams};
use vstd::prelude::*;

verus! {

/// What a boot ends in: a surface ready to serve together with the
/// parameters of its listener, or the record of the one-shot run. Never
/// both.
#[verifier::reject_recursive_types(R)]
pub enum BootResult<R> {
    /// The listener is bound at `params`; `service` is what it serves.
    Serve { service: Normalized<R>, params: ServeParams },
    /// The one-shot run of `mode` is complete.
    Task { mode: StartMode },
}

/// The state of one boot.
#[verifier::reject_recursive_types(R)]
pub struct BootOrchestrator<R, E> {
    mode: StartMode,
    environment: Environment,
    policy: BootPolicy,
    stage: Stage,
    context: Option<AppContext>,
    extensions: Vec<String>,
    service: Option<Normalized<R>>,
    error: Option<BootError<E>>,
}

impl<R, E> View for BootOrchestrator<R, E> {
    type V = BootModel<R, E>;

    closed spec fn view(&self) -> BootModel<R, E> {
        BootModel {
            mode: self.mode,
            environment: self.environment,
            policy: self.policy,
            stage: self.stage,
            context: self.context,
            extensions: self.extensions@,
            surface: match self.service {
                Some(n) => Some(n.wrapped()),
                None => None,
            },
            error: self.error,
        }
    }
}

fn plain_action<R>(stage: Stage) -> (a: Action<R>)
    ensures
        a == plain_request::<R>(stage),
{
    match stage {
        Stage::LoadConfig => Action::LoadConfig,
        Stage::InitLogger => Action::InitLogger,
        Stage::DefaultLogger => Action::DefaultLogger,
        Stage::OpenPersistence => Action::OpenPersistence,
        Stage::OpenTaskQueue => Action::OpenTaskQueue,
        Stage::Storage => Action::Storage,
        Stage::Mailer => Action::Mailer,
        Stage::ListExtensions => Action::ListExtensions,
        Stage::BeforeRun(t) => Action::BeforeRun(t),
        Stage::AssembleRoutes => Action::AssembleRoutes,
        Stage::OneShot => Action::OneShot,
        Stage::Bind => Action::Bind,
        _ => Action::Halt,
    }
}

fn target_after(target: Target, n: usize) -> (t: Option<Target>)
    ensures
        t == next_target(target, n as nat),
{
    match target {
        Target::Customization => if n > 0 {
            Some(Target::Extension(0))
        } else {
            None
        },
        Target::Extension(i) => if i < n && i + 1 < n {
            Some(Target::Extension(i + 1))
        } else {
            None
        },
    }
}

fn stage_after_logger(policy: BootPolicy) -> (s: Stage)
    ensures
        s == after_logger(policy),
{
    if policy.persistence {
        Stage::OpenPersistence
    } else if policy.task_queue {
        Stage::OpenTaskQueue
    } else {
        Stage::Storage
    }
}

fn stage_after_persistence(policy: BootPolicy) -> (s: Stage)
    ensures
        s == after_persistence(policy),
{
    if policy.task_queue {
        Stage::OpenTaskQueue
    } else {
        Stage::Storage
    }
}

fn stage_after_pre_run(mode: StartMode) -> (s: Stage)
    ensures
        s == after_pre_run(mode),
{
    match mode {
        StartMode::Serve => Stage::AssembleRoutes,
        _ => Stage::OneShot,
    }
}

fn classify<E>(stage: Stage, extensions: &Vec<String>, cause: E) -> (e: BootError<E>)
    requires
        stage matches Stage::BeforeRun(Target::Extension(i)) ==> i < extensions.len(),
        stage matches Stage::AfterRoutes(Target::Extension(i)) ==> i < extensions.len(),
    ensures
        e == failure_at(stage, extensions@, cause),
{
    match stage {
        Stage::LoadConfig => BootError::ConfigError(cause),
        Stage::OpenPersistence => BootError::PersistenceUnavailable(cause),
        Stage::OpenTaskQueue => BootError::CapabilityUnavailable {
            capability: Capability::TaskQueue,
            cause,
        },
        Stage::Storage => BootError::CapabilityUnavailable { capability: Capability::Storage, cause },
        Stage::Mailer => BootError::CapabilityUnavailable { capability: Capability::Mailer, cause },
        Stage::BeforeRun(Target::Extension(i)) => BootError::ExtensionFailure {
            name: extensions[i].clone(),
            cause,
        },
        Stage::AfterRoutes(Target::Extension(i)) => BootError::ExtensionFailure {
            name: extensions[i].clone(),
            cause,
        },
        Stage::Bind => BootError::BindError(cause),
        _ => BootError::CustomizationFailure { stage, cause },
    }
}

impl<R, E> BootOrchestrator<R, E> {
    #[verifier::type_invariant]
    spec fn well_formed(self) -> bool {
        self@.inv()
    }

    /// A boot that has not started.
    pub fn new(mode: StartMode, environment: Environment, policy: BootPolicy) -> (o: Self)
        ensures
            o@ == BootModel::<R, E>::initial(mode, environment, policy),
            o@.inv(),
    {
        BootOrchestrator {
            mode,
            environment,
            policy,
            stage: Stage::Created,
            context: None,
            extensions: Vec::new(),
            service: None,
            error: None,
        }
    }

    /// Takes the outcome of the step that the host was asked to perform and
    /// answers with the step to perform next.
    ///
    /// The first event of a boot is [`Event::Start`]. A boot that has come
    /// to rest stays as it is and answers [`Action::Halt`]. An outcome that
    /// the pending step cannot have, and every failure but that of a task
    /// queue the boot can do without, aborts the boot.
    pub fn step(self, event: Event<R, E>) -> (out: (Self, Action<R>))
        ensures
            out.0@ == self@.next(event),
            out.1 == self@.request(event),
            self@.inv(),
            out.0@.inv(),
    {
        proof {
            use_type_invariant(&self);
        }
        let BootOrchestrator {
            mode,
            environment,
            policy,
            stage,
            context,
            extensions,
            service,
            error,
        } = self;
        let mut context = context;
        let mut extensions = extensions;
        let mut service = service;
        let mut error = error;
        let (next, action): (Stage, Action<R>) = match (stage, event) {
            (Stage::Ready, _) | (Stage::TaskComplete, _) | (Stage::Aborted, _) => (
                stage,
                Action::Halt,
            ),
            (Stage::Created, Event::Start) => (Stage::LoadConfig, Action::LoadConfig),
            (Stage::Created, _) => {
                error = Some(BootError::OutOfSequence { stage });
                (Stage::Aborted, Action::Halt)
            },
            (Stage::LoadConfig, Event::Config(config)) => {
                context = Some(
                    AppContext {
                        environment: environment.clone(),
                        db: None,
                        redis: None,
                        config,
                        mailer: None,
                        storage: None,
                    },
                );
                (Stage::InitLogger, Action::InitLogger)
            },
            (Stage::InitLogger, Event::Logger(configured)) => {
                let s = if configured {
                    stage_after_logger(policy)
                } else {
                    Stage::DefaultLogger
                };
                (s, plain_action(s))
            },
            (Stage::DefaultLogger, Event::Done) => {
                let s = stage_after_logger(policy);
                (s, plain_action(s))
            },
            (Stage::OpenPersistence, Event::Opened(h)) => {
                context = match context {
                    Some(c) => Some(AppContext { db: Some(h), ..c }),
                    None => None,
                };
                let s = stage_after_persistence(policy);
                (s, plain_action(s))
            },
            (Stage::OpenTaskQueue, Event::Opened(h)) => {
                context = match context {
                    Some(c) => Some(AppContext { redis: Some(h), ..c }),
                    None => None,
                };
                (Stage::Storage, Action::Storage)
            },
            (Stage::Storage, Event::Provided(o)) => {
                context = match context {
                    Some(c) => Some(AppContext { storage: o, ..c }),
                    None => None,
                };
                (Stage::Mailer, Action::Mailer)
            },
            (Stage::Mailer, Event::Provided(o)) => {
                context = match context {
                    Some(c) => Some(AppContext { mailer: o, ..c }),
                    None => None,
                };
                (Stage::ListExtensions, Action::ListExtensions)
            },
            (Stage::ListExtensions, Event::Extensions(names)) => {
                extensions = names;
                assert(extensions@.len() == extensions.len());
                (
                    Stage::BeforeRun(Target::Customization),
                    Action::BeforeRun(Target::Customization),
                )
            },
            (Stage::BeforeRun(t), Event::Done) => {
                let s = match target_after(t, extensions.len()) {
                    Some(u) => Stage::BeforeRun(u),
                    None => stage_after_pre_run(mode),
                };
                (s, plain_action(s))
            },
            (Stage::AssembleRoutes, Event::Surface(r)) => (
                Stage::AfterRoutes(Target::Customization),
                Action::AfterRoutes(Target::Customization, r),
            ),
            (Stage::AfterRoutes(t), Event::Surface(r)) => {
                match target_after(t, extensions.len()) {
                    Some(u) => (Stage::AfterRoutes(u), Action::AfterRoutes(u, r)),
                    None => {
                        service = Some(Normalized::wrap(r));
                        (Stage::Bind, Action::Bind)
                    },
                }
            },
            (Stage::OneShot, Event::Done) => (Stage::TaskComplete, Action::Halt),
            (Stage::Bind, Event::Done) => (Stage::Ready, Action::Halt),
            (_, Event::Failed(cause)) => {
                if matches!(stage, Stage::OpenTaskQueue) && !policy.task_queue_required {
                    (Stage::Storage, Action::Storage)
                } else {
                    error = Some(classify(stage, &extensions, cause));
                    (Stage::Aborted, Action::Halt)
                }
            },
            _ => {
                error = Some(BootError::OutOfSequence { stage });
                (Stage::Aborted, Action::Halt)
            },
        };
        (
            BootOrchestrator {
                mode,
                environment,
                policy,
                stage: next,
                context,
                extensions,
                service,
                error,
            },
            action,
        )
    }

    /// The state of the boot.
    pub fn phase(&self) -> (p: Phase)
        ensures
            p == phase_of(self@.stage),
    {
        match self.stage {
            Stage::Created
            | Stage::LoadConfig
            | Stage::InitLogger
            | Stage::DefaultLogger
            | Stage::OpenPersistence
            | Stage::OpenTaskQueue
            | Stage::Storage
            | Stage::Mailer => Phase::Uninitialized,
            Stage::ListExtensions | Stage::BeforeRun(_) => Phase::ContextBuilt,
            Stage::AssembleRoutes | Stage::OneShot => Phase::PreRunComplete,
            Stage::AfterRoutes(_) => Phase::RoutesAssembled,
            Stage::Bind => Phase::AugmentationComplete,
            Stage::Ready => Phase::Ready,
            Stage::TaskComplete => Phase::TaskComplete,
            Stage::Aborted => Phase::Aborted,
        }
    }

    /// The step whose outcome is awaited, or where the boot has come to
    /// rest.
    pub fn stage(&self) -> (s: Stage)
        ensures
            s == self@.stage,
    {
        self.stage
    }

    /// The shared context, from the moment it is built and for as long as
    /// the boot is not aborted. The host hands a copy to every callback.
    pub fn context(&self) -> (c: Option<&AppContext>)
        ensures
            c == match self@.shared() {
                Some(x) => Some(&x),
                None => None,
            },
    {
        match self.stage {
            Stage::Created
            | Stage::LoadConfig
            | Stage::InitLogger
            | Stage::DefaultLogger
            | Stage::OpenPersistence
            | Stage::OpenTaskQueue
            | Stage::Storage
            | Stage::Mailer
            | Stage::Aborted => None,
            _ => self.context.as_ref(),
        }
    }

    /// The environment that the boot was created for.
    pub fn environment(&self) -> (e: &Environment)
        ensures
            *e == self@.environment,
    {
        &self.environment
    }

    /// The configuration, from the moment it is loaded and for as long as
    /// the boot is not aborted.
    pub fn config(&self) -> (c: Option<&Config>)
        ensures
            c == match self@.loaded() {
                Some(x) => Some(&x),
                None => None,
            },
    {
        match self.stage {
            Stage::Aborted => None,
            _ => match &self.context {
                Some(context) => Some(&context.config),
                None => None,
            },
        }
    }

    /// The names of the extensions, in their registered order.
    pub fn extensions(&self) -> (names: &Vec<String>)
        ensures
            names@ == self@.extensions,
    {
        &self.extensions
    }

    /// Why the boot was aborted, if it was.
    pub fn error(&self) -> (e: Option<&BootError<E>>)
        ensures
            e == match self@.error {
                Some(x) => Some(&x),
                None => None,
            },
            e is Some <==> phase_of(self@.stage) is Aborted,
    {
        proof {
            use_type_invariant(self);
        }
        self.error.as_ref()
    }

    /// What the boot ended in, or nothing while it is still under way.
    ///
    /// A boot that is ready yields the surface for the listener, wrapped in
    /// the path normalization, with the parameters of the configuration; a
    /// completed one-shot run yields its record; an aborted boot yields its
    /// error.
    pub fn into_result(self) -> (r: Option<Result<BootResult<R>, BootError<E>>>)
        ensures
            match r {
                Some(Ok(BootResult::Serve { service, params })) => {
                    &&& self@.stage is Ready
                    &&& self@.surface == Some(service.wrapped())
                    &&& self@.context matches Some(c) && c.config.server == params
                },
                Some(Ok(BootResult::Task { mode })) => self@.stage is TaskComplete && mode
                    == self@.mode,
                Some(Err(e)) => self@.stage is Aborted && self@.error == Some(e),
                None => !is_final(self@.stage),
            },
    {
        proof {
            use_type_invariant(&self);
        }
        let BootOrchestrator { mode, stage, context, service, error, .. } = self;
        match stage {
            Stage::Ready => match (service, context) {
                (Some(service), Some(c)) => Some(
                    Ok(BootResult::Serve { service, params: c.config.server }),
                ),
                _ => None,
            },
            Stage::TaskComplete => Some(Ok(BootResult::Task { mode })),
            Stage::Aborted => match error {
                Some(e) => Some(Err(e)),
                None => None,
            },
            _ => None,
        }
    }
}

} // verus!
