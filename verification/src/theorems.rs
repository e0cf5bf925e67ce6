//! What holds of the registry under registration and evaluation, proved over
//! its mathematical model.

use vstd::prelude::*;
use crate::dispatch::{Event, StepView};
use crate::error::Error;
use crate::host::Host;
use crate::registry::{Operation, Outcome, Registry};
use crate::task::{CallKind, CallView, Notification, ResolverReply, TargetReply, TaskConfig};

verus! {

/// The first identifier that a registry hands out is one.
pub proof fn theorem_first_id_is_one(config: TaskConfig)
    requires
        config.valid(),
    ensures
        Registry::empty().wf(),
        Registry::empty().register_result(config, true) == Ok::<u64, Error>(1),
{
}

/// An accepted registration returns an identifier that was not in use and
/// that is greater than every identifier handed out before.
pub proof fn theorem_id_is_fresh(registry: Registry, config: TaskConfig)
    requires
        registry.wf(),
        registry.counter < u64::MAX,
        config.valid(),
    ensures
        registry.register_result(config, true) == Ok::<u64, Error>(
            (registry.counter + 1) as u64,
        ),
        !registry.holds((registry.counter + 1) as u64),
        forall|earlier: u64| registry.holds(earlier) ==> earlier < registry.counter + 1,
        registry.register(config, true).holds((registry.counter + 1) as u64),
{
}

/// Of two accepted registrations, the later one returns the greater
/// identifier: the one that follows directly.
pub proof fn theorem_ids_increase(registry: Registry, first: TaskConfig, second: TaskConfig)
    requires
        registry.wf(),
        registry.counter + 1 < u64::MAX,
        first.valid(),
        second.valid(),
    ensures
        registry.register_result(first, true) is Ok,
        registry.register(first, true).register_result(second, true) is Ok,
        registry.register_result(first, true)->Ok_0 < registry.register(
            first,
            true,
        ).register_result(second, true)->Ok_0,
        registry.register(first, true).register_result(second, true)->Ok_0
            == registry.register_result(first, true)->Ok_0 + 1,
{
}

/// After an accepted registration the task is found under the identifier
/// returned, as it was given but with `last_run` at zero whatever the caller
/// wrote there. Every task registered before is found as before.
pub proof fn theorem_registered_task_is_found(registry: Registry, config: TaskConfig)
    requires
        registry.wf(),
        registry.counter < u64::MAX,
        config.valid(),
    ensures
        registry.register(config, true).wf(),
        registry.register(config, true).lookup((registry.counter + 1) as u64) == Some(
            config.at_creation(),
        ),
        config.at_creation().last_run == 0,
        config.at_creation().creator == config.creator,
        config.at_creation().target == config.target,
        config.at_creation().function == config.function,
        config.at_creation().args == config.args,
        config.at_creation().resolver == config.resolver,
        config.at_creation().interval == config.interval,
        config.at_creation().gas_balance == config.gas_balance,
        forall|earlier: u64|
            registry.holds(earlier) ==> registry.register(config, true).lookup(earlier)
                == registry.lookup(earlier),
{
}

/// A registration with an interval of zero, or without the creator's
/// authorization, changes neither the counter nor any record. With the
/// authorization it reports `InvalidInterval`, without it `Unauthorized`.
pub proof fn theorem_refused_registration_changes_nothing(
    registry: Registry,
    config: TaskConfig,
    authorized: bool,
)
    requires
        config.interval == 0 || !authorized,
    ensures
        registry.register(config, authorized) == registry,
        authorized ==> registry.register_result(config, authorized) == Err::<u64, Error>(
            Error::InvalidInterval,
        ),
        !authorized ==> registry.register_result(config, authorized) == Err::<u64, Error>(
            Error::Unauthorized,
        ),
{
}

/// An identifier that was never handed out has no record: zero, and every
/// identifier above the counter. In an empty registry that is every one.
pub proof fn theorem_unregistered_id_is_absent(registry: Registry, id: u64)
    requires
        id == 0 || id > registry.counter,
    ensures
        registry.lookup(id) is None,
        Registry::empty().lookup(id) is None,
{
}

/// An evaluation under an identifier that was never handed out fails with
/// `TaskNotFound`, calls nobody and changes nothing.
pub proof fn theorem_unknown_task_is_refused(registry: Registry, id: u64, host: Host)
    requires
        id == 0 || id > registry.counter,
    ensures
        registry.execute_result(id, host) == Err::<Outcome, Error>(Error::TaskNotFound),
        registry.execute(id, host) == registry,
        registry.calls(id, host) == Seq::<(CallKind, CallView)>::empty(),
{
}

/// A task without a resolver is ready at every evaluation, whatever a
/// resolver would have replied: nobody is asked and the target is invoked
/// once. Where the target returns, the evaluation fires and `last_run`
/// becomes the time of the evaluation. The task still has no resolver
/// afterwards, so the same holds of the next evaluation.
pub proof fn theorem_task_without_resolver_always_fires(registry: Registry, id: u64, host: Host)
    requires
        registry.wf(),
        registry.holds(id),
        registry.lookup(id)->Some_0.resolver is None,
    ensures
        registry.calls(id, host) == seq![
            (CallKind::Target, registry.lookup(id)->Some_0.invokes()),
        ],
        registry.execute(id, host).wf(),
        registry.execute(id, host).lookup(id) is Some,
        registry.execute(id, host).lookup(id)->Some_0.resolver is None,
        host.target == TargetReply::Returned ==> {
            &&& registry.execute_result(id, host) == Ok::<Outcome, Error>(Outcome::Fired)
            &&& registry.execute(id, host).lookup(id) == Some(
                registry.lookup(id)->Some_0.fired_at(host.now),
            )
            &&& registry.execute(id, host).lookup(id)->Some_0.last_run == host.now
        },
{
}

/// A task whose resolver replies `false`, or fails, is not fired: the
/// resolver is asked once, the target is not invoked, every record stays as
/// it was, and the evaluation still succeeds.
pub proof fn theorem_unready_task_is_left_alone(registry: Registry, id: u64, host: Host)
    requires
        registry.wf(),
        registry.holds(id),
        registry.lookup(id)->Some_0.resolver is Some,
        host.resolver != ResolverReply::Verdict(true),
    ensures
        registry.calls(id, host) == seq![
            (CallKind::Resolver, registry.lookup(id)->Some_0.asks()->Some_0),
        ],
        registry.execute_result(id, host) == Ok::<Outcome, Error>(Outcome::NotReady),
        registry.execute(id, host) == registry,
{
}

/// A task whose resolver replies `true` is ready: the resolver is asked
/// once and the target is invoked once. Where the target returns, the
/// evaluation fires and `last_run` becomes the time of the evaluation.
pub proof fn theorem_ready_task_fires(registry: Registry, id: u64, host: Host)
    requires
        registry.wf(),
        registry.holds(id),
        registry.lookup(id)->Some_0.resolver is Some,
        host.resolver == ResolverReply::Verdict(true),
    ensures
        registry.calls(id, host) == seq![
            (CallKind::Resolver, registry.lookup(id)->Some_0.asks()->Some_0),
            (CallKind::Target, registry.lookup(id)->Some_0.invokes()),
        ],
        registry.execute(id, host).wf(),
        host.target == TargetReply::Returned ==> {
            &&& registry.execute_result(id, host) == Ok::<Outcome, Error>(Outcome::Fired)
            &&& registry.execute(id, host).lookup(id) == Some(
                registry.lookup(id)->Some_0.fired_at(host.now),
            )
            &&& registry.execute(id, host).lookup(id)->Some_0.last_run == host.now
        },
{
}

/// The interval is no gate: where an evaluation fires, a second one of the
/// same task fires as well, however little time has passed since the first,
/// provided the task is ready again and the target returns again.
pub proof fn theorem_consecutive_evaluations_both_fire(
    registry: Registry,
    id: u64,
    first: Host,
    second: Host,
)
    requires
        registry.wf(),
        registry.fires(id, first),
        second.resolver == first.resolver,
        second.target == first.target,
    ensures
        registry.execute_result(id, first) == Ok::<Outcome, Error>(Outcome::Fired),
        registry.execute(id, first).execute_result(id, second) == Ok::<Outcome, Error>(
            Outcome::Fired,
        ),
        registry.calls(id, first).last() == (
            CallKind::Target,
            registry.lookup(id)->Some_0.invokes(),
        ),
        registry.execute(id, first).calls(id, second) == registry.calls(id, first),
        registry.execute(id, first).execute(id, second).lookup(id)->Some_0.last_run
            == second.now,
{
}

/// Where the target fails, the evaluation fails with `TargetFailed` and
/// every record stays as it was, `last_run` included.
pub proof fn theorem_failed_target_changes_nothing(registry: Registry, id: u64, host: Host)
    requires
        registry.wf(),
        registry.holds(id),
        registry.lookup(id)->Some_0.ready(host.resolver),
        host.target == TargetReply::Failed,
    ensures
        registry.calls(id, host).last() == (
            CallKind::Target,
            registry.lookup(id)->Some_0.invokes(),
        ),
        registry.execute_result(id, host) == Err::<Outcome, Error>(Error::TargetFailed),
        registry.execute(id, host) == registry,
{
}

/// An evaluation hands out no identifier and removes no task, and it leaves
/// every field of every record as it was but `last_run` of the task that was
/// evaluated.
pub proof fn theorem_evaluation_writes_only_last_run(
    registry: Registry,
    id: u64,
    host: Host,
    other: u64,
)
    requires
        registry.wf(),
        registry.holds(other),
    ensures
        registry.execute(id, host).counter == registry.counter,
        registry.execute(id, host).holds(other),
        other != id ==> registry.execute(id, host).lookup(other) == registry.lookup(other),
        registry.execute(id, host).lookup(other)->Some_0 == registry.lookup(
            other,
        )->Some_0.fired_at(registry.execute(id, host).lookup(other)->Some_0.last_run),
        registry.execute(id, host).lookup(other)->Some_0.interval > 0,
{
}

/// An evaluation ends after three steps at most: its beginning leads to the
/// resolver or to the target, a resolver's reply leads to the target or to
/// the end, and a target's reply leads to the end. Only a target that
/// returned changes the record, and only in `last_run`.
pub proof fn theorem_evaluation_ends(
    task: TaskConfig,
    reply: ResolverReply,
    outcome: TargetReply,
    now: u64,
)
    ensures
        task.next(Event::Started) is Ask || task.next(Event::Started) is Invoke,
        task.next(Event::Started) is Ask <==> task.resolver is Some,
        task.next(Event::ResolverReplied(reply)) is Invoke || task.next(
            Event::ResolverReplied(reply),
        ) is Leave,
        task.next(Event::ResolverReplied(reply)) is Invoke <==> reply == ResolverReply::Verdict(
            true,
        ),
        task.next(Event::TargetReplied { reply: outcome, now }) is Store || task.next(
            Event::TargetReplied { reply: outcome, now },
        ) is Abort,
        task.next(Event::TargetReplied { reply: outcome, now }) is Store <==> outcome
            == TargetReply::Returned,
        task.after(Event::Started) == task,
        task.after(Event::ResolverReplied(reply)) == task,
        task.after(Event::TargetReplied { reply: TargetReply::Failed, now }) == task,
        task.after(Event::TargetReplied { reply: TargetReply::Returned, now }) == task.fired_at(
            now,
        ),
        task.next(Event::TargetReplied { reply: TargetReply::Failed, now }) == StepView::Abort(
            Error::TargetFailed,
        ),
{
}

/// An accepted registration sends exactly one notification, which carries
/// the identifier returned and the creator. An evaluation sends none,
/// whether it fires or not.
pub proof fn theorem_only_registration_notifies(
    registry: Registry,
    config: TaskConfig,
    id: u64,
    host: Host,
)
    requires
        registry.wf(),
        registry.counter < u64::MAX,
        config.valid(),
    ensures
        registry.register(config, true).events == registry.events.push(
            Notification { task_id: (registry.counter + 1) as u64, creator: config.creator },
        ),
        registry.execute(id, host).events == registry.events,
{
}

/// Whatever happens to a registry, what was registered stays: the counter
/// never goes down, a task is still found under its identifier, every field
/// of its record but `last_run` is as it was, and the notifications that
/// went out are still the first ones in the log.
pub proof fn theorem_history_keeps_tasks(registry: Registry, history: Seq<Operation>, id: u64)
    requires
        registry.wf(),
        registry.counter + history.len() <= u64::MAX,
        registry.holds(id),
    ensures
        registry.run(history).wf(),
        registry.counter <= registry.run(history).counter <= registry.counter + history.len(),
        registry.run(history).holds(id),
        registry.run(history).lookup(id)->Some_0 == registry.lookup(id)->Some_0.fired_at(
            registry.run(history).lookup(id)->Some_0.last_run,
        ),
        registry.run(history).lookup(id)->Some_0.interval > 0,
        registry.events.is_prefix_of(registry.run(history).events),
    decreases history.len(),
{
    if history.len() > 0 {
        theorem_history_keeps_tasks(registry, history.drop_last(), id);
    }
}

/// What an evaluation of a task calls and returns is decided by the task's
/// resolver and target alone: it is the same after any run of operations as
/// before it, whenever the task fired last and however often.
pub proof fn theorem_history_does_not_gate(
    registry: Registry,
    history: Seq<Operation>,
    id: u64,
    host: Host,
)
    requires
        registry.wf(),
        registry.counter + history.len() <= u64::MAX,
        registry.holds(id),
    ensures
        registry.run(history).calls(id, host) == registry.calls(id, host),
        registry.run(history).execute_result(id, host) == registry.execute_result(id, host),
{
    theorem_history_keeps_tasks(registry, history, id);
}

/// Identifiers are never used twice: a registration that comes after
/// another, with any operations in between, returns a greater identifier.
pub proof fn theorem_later_registration_gets_greater_id(
    registry: Registry,
    first: TaskConfig,
    between: Seq<Operation>,
    second: TaskConfig,
)
    requires
        registry.wf(),
        registry.counter + between.len() + 2 <= u64::MAX,
        first.valid(),
        second.valid(),
    ensures
        registry.register_result(first, true) is Ok,
        registry.register(first, true).run(between).register_result(second, true) is Ok,
        registry.register_result(first, true)->Ok_0 < registry.register(first, true).run(
            between,
        ).register_result(second, true)->Ok_0,
{
    let id: u64 = (registry.counter + 1) as u64;
    theorem_history_keeps_tasks(registry.register(first, true), between, id);
}

} // verus!
