//! What holds of every boot, proved of the transition that the
//! orchestrator implements.

use crate::environment::Environment;
use crate::error::BootError;
use crate::hooks::{named, reports, Hooks, Initializer};
use crate::lifecycle::{
    after_pre_run, answers, is_final, next_target, phase_of, plain_request, step_of, Action, BootModel,
    BootPolicy, Event, Phase, Stage, StartMode, Target,
};
use vstd::prelude::*;

verus! {

/// The state after the host has reported `events`, one after the other.
pub open spec fn run<R, E>(s: BootModel<R, E>, events: Seq<Event<R, E>>) -> BootModel<R, E>
    decreases events.len(),
{
    if events.len() == 0 {
        s
    } else {
        run(s, events.drop_last()).next(events.last())
    }
}

/// The actions that the host is given while it reports `events`, one for
/// each event.
pub open spec fn requests<R, E>(s: BootModel<R, E>, events: Seq<Event<R, E>>) -> Seq<Action<R>>
    decreases events.len(),
{
    if events.len() == 0 {
        Seq::empty()
    } else {
        requests(s, events.drop_last()).push(run(s, events.drop_last()).request(events.last()))
    }
}

/// The target at position `k` of a pass: the customization, then the
/// extensions in their registered order.
pub open spec fn pass_target(k: nat) -> Target {
    if k == 0 {
        Target::Customization
    } else {
        Target::Extension((k - 1) as usize)
    }
}

/// Where a stage stands in the order of a boot.
pub open spec fn rank(stage: Stage) -> nat {
    match stage {
        Stage::Created => 0,
        Stage::LoadConfig => 1,
        Stage::InitLogger => 2,
        Stage::DefaultLogger => 3,
        Stage::OpenPersistence => 4,
        Stage::OpenTaskQueue => 5,
        Stage::Storage => 6,
        Stage::Mailer => 7,
        Stage::ListExtensions => 8,
        Stage::BeforeRun(_) => 9,
        Stage::AssembleRoutes => 10,
        Stage::OneShot => 10,
        Stage::AfterRoutes(_) => 11,
        Stage::Bind => 12,
        Stage::Ready => 13,
        Stage::TaskComplete => 13,
        Stage::Aborted => 13,
    }
}

/// Where a stage stands within its pass.
pub open spec fn turn(stage: Stage) -> nat {
    match stage {
        Stage::BeforeRun(Target::Extension(i)) => (i + 1) as nat,
        Stage::AfterRoutes(Target::Extension(i)) => (i + 1) as nat,
        _ => 0,
    }
}

/// `a` comes before `b` in the order of a boot.
pub open spec fn precedes(a: Stage, b: Stage) -> bool {
    rank(a) < rank(b) || (rank(a) == rank(b) && turn(a) < turn(b))
}

/// Where a phase stands in the order of a boot.
pub open spec fn phase_rank(phase: Phase) -> nat {
    match phase {
        Phase::Uninitialized => 0,
        Phase::ContextBuilt => 1,
        Phase::PreRunComplete => 2,
        Phase::RoutesAssembled => 3,
        Phase::AugmentationComplete => 4,
        Phase::Ready => 5,
        Phase::TaskComplete => 5,
        Phase::Aborted => 5,
    }
}

/// The action sets up a part of the context.
pub open spec fn constructs<R>(action: Action<R>) -> bool {
    action is LoadConfig || action is OpenPersistence || action is OpenTaskQueue
        || action is Storage || action is Mailer
}

/// A boot begins in a state of which the invariant holds.
pub proof fn law_initial_state_is_valid<R, E>(
    mode: StartMode,
    environment: Environment,
    policy: BootPolicy,
)
    ensures
        BootModel::<R, E>::initial(mode, environment, policy).inv(),
        phase_of(BootModel::<R, E>::initial(mode, environment, policy).stage) == Phase::Uninitialized,
{
}

/// Whatever the host reports, the invariant holds of the next state.
pub proof fn law_invariant_is_kept<R, E>(s: BootModel<R, E>, event: Event<R, E>)
    requires
        s.inv(),
    ensures
        s.next(event).inv(),
{
    if let Event::Extensions(names) = event {
        assert(names@.len() == names.len());
    }
}

/// The invariant holds all along a run.
pub proof fn law_invariant_holds_along_a_run<R, E>(s: BootModel<R, E>, events: Seq<Event<R, E>>)
    requires
        s.inv(),
    ensures
        run(s, events).inv(),
    decreases events.len(),
{
    if events.len() > 0 {
        law_invariant_holds_along_a_run(s, events.drop_last());
        law_invariant_is_kept(run(s, events.drop_last()), events.last());
    }
}

/// A boot that has come to rest stays as it is: whatever is reported, the
/// state does not change and the host is asked for nothing.
pub proof fn law_rest_is_final<R, E>(s: BootModel<R, E>, event: Event<R, E>)
    requires
        is_final(s.stage),
    ensures
        s.next(event) == s,
        s.request(event) == Action::<R>::Halt,
{
}

/// Every step moves the boot forward: the next stage comes after the
/// present one, so no stage is entered twice, and the phase never goes
/// back.
pub proof fn law_steps_go_forward<R, E>(s: BootModel<R, E>, event: Event<R, E>)
    requires
        s.inv(),
        !is_final(s.stage),
    ensures
        precedes(s.stage, s.next(event).stage),
        phase_rank(phase_of(s.stage)) <= phase_rank(phase_of(s.next(event).stage)),
{
}

/// A report that answers the awaited step is never out of sequence.
pub proof fn law_answers_are_in_sequence<R, E>(s: BootModel<R, E>, event: Event<R, E>)
    requires
        s.inv(),
        !is_final(s.stage),
        answers(s.stage, event),
    ensures
        !(s.next(event).error matches Some(BootError::OutOfSequence { .. })),
        s.next(event).stage is Aborted ==> event is Failed,
{
}

/// A failure ends the boot at once. The error is the one that belongs to
/// the failed step and carries the reported cause unchanged; the host is
/// asked for nothing more.
pub proof fn law_failure_aborts<R, E>(s: BootModel<R, E>, cause: E)
    requires
        !is_final(s.stage),
        !(s.stage is Created),
        !s.tolerates_failure(),
    ensures
        s.next(Event::Failed(cause)).stage == Stage::Aborted,
        s.next(Event::Failed(cause)).error == Some(s.failure(cause)),
        s.failure(cause).cause_spec() == Some(cause),
        s.request(Event::Failed(cause)) == Action::<R>::Halt,
{
}

/// The failure of an extension's callback is reported under the name the
/// extension was registered with.
pub proof fn law_extension_failure_names_the_extension<R, E>(
    s: BootModel<R, E>,
    i: usize,
    cause: E,
)
    requires
        s.stage == Stage::BeforeRun(Target::Extension(i)) || s.stage == Stage::AfterRoutes(
            Target::Extension(i),
        ),
    ensures
        s.next(Event::Failed(cause)).error == Some(
            BootError::ExtensionFailure { name: s.extensions[i as int], cause },
        ),
{
}

/// Once a boot has come to rest, no run of further reports changes it or
/// has the host asked for anything.
pub proof fn law_nothing_follows_rest<R, E>(s: BootModel<R, E>, events: Seq<Event<R, E>>)
    requires
        is_final(s.stage),
    ensures
        run(s, events) == s,
        requests(s, events) == Seq::new(events.len(), |j: int| Action::<R>::Halt),
    decreases events.len(),
{
    if events.len() > 0 {
        law_nothing_follows_rest(s, events.drop_last());
    }
    assert(requests(s, events) =~= Seq::new(events.len(), |j: int| Action::<R>::Halt));
}

/// The reports of a pre-run pass: the extensions as the customization
/// named them, then `k` callbacks that ran to their end.
pub open spec fn pre_run_reports<R, E>(names: Vec<String>, k: nat) -> Seq<Event<R, E>> {
    seq![Event::Extensions(names)] + Seq::new(k, |j: int| Event::Done)
}

/// The pre-run pass visits the customization first and then the extensions
/// in the order in which they were registered: while the callbacks succeed,
/// the host is asked for exactly these callbacks, one after the other.
pub proof fn law_pre_run_order<R, E>(s: BootModel<R, E>, names: Vec<String>, k: nat)
    requires
        s.inv(),
        s.stage is ListExtensions,
        k <= names@.len(),
    ensures
        run(s, pre_run_reports(names, k)).stage == Stage::BeforeRun(pass_target(k)),
        run(s, pre_run_reports(names, k)).extensions == names@,
        requests(s, pre_run_reports(names, k)) == Seq::new(
            k + 1,
            |j: int| Action::<R>::BeforeRun(pass_target(j as nat)),
        ),
    decreases k,
{
    let events = pre_run_reports::<R, E>(names, k);
    let expected = Seq::new(k + 1, |j: int| Action::<R>::BeforeRun(pass_target(j as nat)));
    assert(names@.len() == names.len());
    if k == 0 {
        assert(events.drop_last() =~= Seq::empty());
        assert(run(s, events.drop_last()) == s);
        assert(requests(s, events.drop_last()) =~= Seq::empty());
        assert(events.last() == Event::<R, E>::Extensions(names));
        assert(requests(s, events) =~= expected);
    } else {
        let before = pre_run_reports::<R, E>(names, (k - 1) as nat);
        law_pre_run_order(s, names, (k - 1) as nat);
        law_invariant_holds_along_a_run(s, before);
        assert(events.drop_last() =~= before);
        assert(events.last() == Event::<R, E>::Done);
        assert(requests(s, events) =~= expected);
    }
}

/// The pre-run pass ends after the last extension. A boot in serve mode
/// goes on to assemble its routes; any other runs what it was started for.
pub proof fn law_pre_run_pass_ends<R, E>(s: BootModel<R, E>, names: Vec<String>)
    requires
        s.inv(),
        s.stage is ListExtensions,
    ensures
        run(s, pre_run_reports(names, names@.len() + 1)).stage == after_pre_run(s.mode),
        requests(s, pre_run_reports(names, names@.len() + 1)).last() == plain_request::<R>(
            after_pre_run(s.mode),
        ),
        phase_of(run(s, pre_run_reports(names, names@.len() + 1)).stage) == Phase::PreRunComplete,
{
    let n = names@.len();
    let events = pre_run_reports::<R, E>(names, n + 1);
    let before = pre_run_reports::<R, E>(names, n);
    assert(names@.len() == names.len());
    law_pre_run_order(s, names, n);
    law_run_keeps_the_mode(s, before);
    law_invariant_holds_along_a_run(s, before);
    assert(events.drop_last() =~= before);
    assert(events.last() == Event::<R, E>::Done);
    let last = run(s, before);
    assert(run(s, events) == last.next(Event::Done));
    assert(requests(s, events).last() == last.request(Event::Done));
    assert(next_target(pass_target(n), n) is None);
}

/// The mode of a boot is fixed when the boot is created.
pub proof fn law_run_keeps_the_mode<R, E>(s: BootModel<R, E>, events: Seq<Event<R, E>>)
    ensures
        run(s, events).mode == s.mode,
        run(s, events).policy == s.policy,
        run(s, events).environment == s.environment,
    decreases events.len(),
{
    if events.len() > 0 {
        law_run_keeps_the_mode(s, events.drop_last());
    }
}

/// The surface after the first `k` callbacks of the pass have each worked
/// on what the one before returned, starting from `surface`. `callback`
/// gives for each target what its augmentation callback returns.
pub open spec fn composed<R>(callback: spec_fn(Target, R) -> R, k: nat, surface: R) -> R
    decreases k,
{
    if k == 0 {
        surface
    } else {
        callback(pass_target((k - 1) as nat), composed(callback, (k - 1) as nat, surface))
    }
}

/// An augmentation pass in which every callback succeeds: the state and
/// the pending action after the routes were assembled as `surface` and the
/// first `k` callbacks have answered. The host does as it is asked: it
/// hands the surface of the action to the callback of the action's target
/// and reports what comes back.
pub open spec fn augmentation<R, E>(
    s: BootModel<R, E>,
    callback: spec_fn(Target, R) -> R,
    surface: R,
    k: nat,
) -> (BootModel<R, E>, Action<R>)
    decreases k,
{
    if k == 0 {
        (s.next(Event::Surface(surface)), s.request(Event::Surface(surface)))
    } else {
        let (state, action) = augmentation(s, callback, surface, (k - 1) as nat);
        match action {
            Action::AfterRoutes(target, handed) => (
                state.next(Event::Surface(callback(target, handed))),
                state.request(Event::Surface(callback(target, handed))),
            ),
            _ => (state, action),
        }
    }
}

/// The augmentation pass is a fold over the customization and then the
/// extensions in their registered order: each callback is handed what the
/// one before it returned, so the extension registered last wraps
/// outermost.
pub proof fn law_augmentation_order<R, E>(
    s: BootModel<R, E>,
    callback: spec_fn(Target, R) -> R,
    surface: R,
    k: nat,
)
    requires
        s.inv(),
        s.stage is AssembleRoutes,
        k <= s.extensions.len(),
    ensures
        augmentation(s, callback, surface, k).1 == Action::AfterRoutes(
            pass_target(k),
            composed(callback, k, surface),
        ),
        augmentation(s, callback, surface, k).0.stage == Stage::AfterRoutes(pass_target(k)),
        augmentation(s, callback, surface, k).0.extensions == s.extensions,
        augmentation(s, callback, surface, k).0.inv(),
    decreases k,
{
    if k == 0 {
        law_invariant_is_kept(s, Event::Surface(surface));
    } else {
        law_augmentation_order(s, callback, surface, (k - 1) as nat);
        let (state, action) = augmentation(s, callback, surface, (k - 1) as nat);
        let target = pass_target((k - 1) as nat);
        let handed = composed(callback, (k - 1) as nat, surface);
        assert(action == Action::AfterRoutes(target, handed));
        law_invariant_is_kept(state, Event::Surface(callback(target, handed)));
    }
}

/// When the last extension has answered, the surface that the boot keeps
/// for the listener is the routes with every callback applied, the
/// customization's innermost and the last extension's outermost, and the
/// host is asked to bind.
pub proof fn law_augmentation_result<R, E>(
    s: BootModel<R, E>,
    callback: spec_fn(Target, R) -> R,
    surface: R,
)
    requires
        s.inv(),
        s.stage is AssembleRoutes,
    ensures
        augmentation(s, callback, surface, s.extensions.len() + 1).0.stage == Stage::Bind,
        augmentation(s, callback, surface, s.extensions.len() + 1).0.surface == Some(
            composed(callback, s.extensions.len() + 1, surface),
        ),
        augmentation(s, callback, surface, s.extensions.len() + 1).1 == Action::<R>::Bind,
{
    law_augmentation_order(s, callback, surface, s.extensions.len());
}

/// Once the context is built no field of it is replaced: whatever is
/// reported afterwards, the context stays what it was.
pub proof fn law_context_is_fixed<R, E>(s: BootModel<R, E>, event: Event<R, E>)
    requires
        !(phase_of(s.stage) is Uninitialized),
    ensures
        s.next(event).context == s.context,
{
}

/// The constructors of the context (loading the configuration, opening a
/// connection or a pool, asking for the storage or the mailer) are asked
/// for only while the context is under construction. Once the context is
/// built none of them runs again, however often the context is copied.
pub proof fn law_constructors_precede_the_context<R, E>(s: BootModel<R, E>, event: Event<R, E>)
    ensures
        constructs(s.request(event)) ==> phase_of(s.stage) is Uninitialized && phase_of(
            s.next(event).stage,
        ) is Uninitialized,
{
}

/// An optional resource is opened only where the policy of the boot names
/// it.
pub proof fn law_optional_resources_follow_the_policy<R, E>(
    s: BootModel<R, E>,
    event: Event<R, E>,
)
    ensures
        s.request(event) is OpenPersistence ==> s.policy.persistence,
        s.request(event) is OpenTaskQueue ==> s.policy.task_queue,
{
}

/// Logging is set up once: the default is installed exactly when the
/// customization answers that it has not set up logging itself.
pub proof fn law_logging_is_set_up_once<R, E>(s: BootModel<R, E>, event: Event<R, E>)
    ensures
        s.request(event) is DefaultLogger <==> s.stage is InitLogger && event
            == Event::<R, E>::Logger(false),
{
}

/// Only a boot in serve mode assembles, augments and binds.
pub proof fn law_only_serve_mode_routes<R, E>(s: BootModel<R, E>, event: Event<R, E>)
    requires
        s.inv(),
    ensures
        s.request(event) is AssembleRoutes || s.request(event) is AfterRoutes || s.request(event)
            is Bind ==> s.mode is Serve,
        s.request(event) is OneShot ==> !(s.mode is Serve),
{
}

/// Up to the end of the pre-run pass a boot does not depend on its mode:
/// all modes build the context and run the pass in the same way.
pub proof fn law_modes_share_the_start<R, E>(
    s: BootModel<R, E>,
    event: Event<R, E>,
    other: StartMode,
)
    requires
        phase_of(s.stage) is Uninitialized || phase_of(s.stage) is ContextBuilt,
        phase_of(s.next(event).stage) is Uninitialized || phase_of(s.next(event).stage)
            is ContextBuilt || s.next(event).stage is Aborted,
    ensures
        (BootModel { mode: other, ..s }).next(event) == (BootModel { mode: other, ..s.next(event) }),
        (BootModel { mode: other, ..s }).request(event) == s.request(event),
{
}

/// A failed bind ends the boot with the bind error and asks for nothing
/// more: no callback runs again and the bind is not tried again.
pub proof fn law_bind_failure_is_final<R, E>(s: BootModel<R, E>, cause: E, events: Seq<Event<R, E>>)
    requires
        s.stage is Bind,
    ensures
        run(s.next(Event::Failed(cause)), events).stage == Stage::Aborted,
        run(s.next(Event::Failed(cause)), events).error == Some(BootError::BindError(cause)),
        requests(s.next(Event::Failed(cause)), events) == Seq::new(
            events.len(),
            |j: int| Action::<R>::Halt,
        ),
{
    law_nothing_follows_rest(s.next(Event::Failed(cause)), events);
}

/// `precedes` is transitive.
proof fn lemma_precedes_is_transitive(a: Stage, b: Stage, c: Stage)
    requires
        precedes(a, b),
        precedes(b, c),
    ensures
        precedes(a, c),
{
}

/// No stage is entered twice: while a boot is under way, every further
/// report takes it to a stage that comes after all the stages it has been
/// in. So no step, and no callback, is asked for a second time.
pub proof fn law_no_stage_twice<R, E>(
    s: BootModel<R, E>,
    events: Seq<Event<R, E>>,
    more: Seq<Event<R, E>>,
)
    requires
        s.inv(),
        more.len() > 0,
        !is_final(run(s, events + more.drop_last()).stage),
    ensures
        precedes(run(s, events).stage, run(s, events + more).stage),
    decreases more.len(),
{
    let all = events + more;
    let before = events + more.drop_last();
    assert(all.drop_last() =~= before);
    assert(all.last() == more.last());
    law_invariant_holds_along_a_run(s, before);
    law_steps_go_forward(run(s, before), more.last());
    if more.len() == 1 {
        assert(before =~= events);
    } else {
        let earlier = events + more.drop_last().drop_last();
        assert(before.drop_last() =~= earlier);
        if is_final(run(s, earlier).stage) {
            law_rest_is_final(run(s, earlier), before.last());
        }
        law_no_stage_twice(s, events, more.drop_last());
        lemma_precedes_is_transitive(
            run(s, events).stage,
            run(s, before).stage,
            run(s, all).stage,
        );
    }
}

/// Whatever the host is asked for is the step of the stage that the boot
/// has moved to.
proof fn lemma_request_is_for_the_next_stage<R, E>(s: BootModel<R, E>, event: Event<R, E>)
    ensures
        !(s.request(event) is Halt) ==> step_of(s.request(event)) == s.next(event).stage
            && !is_final(s.stage),
{
}

/// The action at position `i` of a run is the one asked for after the
/// first `i` reports.
proof fn lemma_request_at_position<R, E>(s: BootModel<R, E>, events: Seq<Event<R, E>>, i: int)
    requires
        0 <= i < events.len(),
    ensures
        requests(s, events).len() == events.len(),
        requests(s, events)[i] == run(s, events.take(i)).request(events[i]),
    decreases events.len(),
{
    let front = events.drop_last();
    lemma_requests_len(s, front);
    if i < events.len() - 1 {
        lemma_request_at_position(s, front, i);
        assert(front.take(i) =~= events.take(i));
    } else {
        assert(events.take(i) =~= front);
    }
}

proof fn lemma_requests_len<R, E>(s: BootModel<R, E>, events: Seq<Event<R, E>>)
    ensures
        requests(s, events).len() == events.len(),
    decreases events.len(),
{
    if events.len() > 0 {
        lemma_requests_len(s, events.drop_last());
    }
}

/// No step is asked for twice. Of the actions that the host is given in
/// the course of a boot, each one that is not `Halt` asks for a step that
/// comes after every step asked for before. So every constructor of the
/// context and every callback runs at most once in a boot, and a bind that
/// failed is not tried again.
pub proof fn law_no_step_twice<R, E>(
    s: BootModel<R, E>,
    events: Seq<Event<R, E>>,
    i: int,
    j: int,
)
    requires
        s.inv(),
        0 <= i < j < events.len(),
        !(requests(s, events)[i] is Halt),
        !(requests(s, events)[j] is Halt),
    ensures
        precedes(step_of(requests(s, events)[i]), step_of(requests(s, events)[j])),
        step_of(requests(s, events)[i]) != step_of(requests(s, events)[j]),
{
    lemma_request_at_position(s, events, i);
    lemma_request_at_position(s, events, j);
    let upto_i = events.take(i + 1);
    let upto_j = events.take(j + 1);
    let more = events.subrange(i + 1, j + 1);
    lemma_request_is_for_the_next_stage(run(s, events.take(i)), events[i]);
    lemma_request_is_for_the_next_stage(run(s, events.take(j)), events[j]);
    assert(upto_i.drop_last() =~= events.take(i));
    assert(upto_j.drop_last() =~= events.take(j));
    assert(upto_i + more =~= upto_j);
    assert(upto_i + more.drop_last() =~= events.take(j));
    law_no_stage_twice(s, upto_i, more);
}

/// The boot knows the extensions that the host holds: it has as many
/// names as the host has extensions, and each name is what the extension
/// at its place returned as its name.
pub open spec fn registered<R, E>(
    s: BootModel<R, E>,
    listed: Vec<Box<dyn Initializer<R, E>>>,
) -> bool {
    &&& s.extensions.len() == listed@.len()
    &&& forall|k: int|
        0 <= k < listed@.len() ==> named::<R, E, dyn Initializer<R, E>>(
            &*listed@[k],
            #[trigger] s.extensions[k],
        )
}

/// When the listing of the customization `H` is reported, the boot knows
/// the extensions that the host holds, and the pre-run pass begins.
pub proof fn law_listing_registers_the_extensions<R, E, H: Hooks<R, E>>(
    s: BootModel<R, E>,
    listed: Vec<Box<dyn Initializer<R, E>>>,
    names: Vec<String>,
)
    requires
        s.stage is ListExtensions,
        reports::<R, E, H>(s, listed, Action::ListExtensions, Event::Extensions(names)),
    ensures
        registered(s.next(Event::Extensions(names)), listed),
        s.next(Event::Extensions(names)).stage == Stage::BeforeRun(Target::Customization),
{
    assert(names@.len() == names.len());
    assert(listed@.len() == listed.len());
}

/// The names stay as they were listed: after the listing no report
/// changes them.
pub proof fn law_registration_lasts<R, E>(
    s: BootModel<R, E>,
    listed: Vec<Box<dyn Initializer<R, E>>>,
    event: Event<R, E>,
)
    requires
        registered(s, listed),
        !(s.stage is ListExtensions),
    ensures
        registered(s.next(event), listed),
        s.next(event).extensions == s.extensions,
{
}

/// The failure of an extension's callback is filed under the name that
/// this very extension gave itself, with the cause that was reported.
pub proof fn law_failed_extension_is_filed_under_its_own_name<R, E>(
    s: BootModel<R, E>,
    listed: Vec<Box<dyn Initializer<R, E>>>,
    i: usize,
    cause: E,
)
    requires
        registered(s, listed),
        i < listed@.len(),
        s.stage == Stage::BeforeRun(Target::Extension(i)) || s.stage == Stage::AfterRoutes(
            Target::Extension(i),
        ),
    ensures
        s.next(Event::Failed(cause)).error == Some(
            BootError::ExtensionFailure { name: s.extensions[i as int], cause },
        ),
        named::<R, E, dyn Initializer<R, E>>(&*listed@[i as int], s.extensions[i as int]),
{
}

} // verus!
