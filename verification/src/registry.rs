//! The task registry and the engine that evaluates and fires its tasks.

use vstd::prelude::*;
use crate::error::Error;
use crate::key::DataKey;
use crate::host::{Host, Invoker};
use crate::dispatch::{Event, Step};
use crate::task::{enroll, CallKind, CallView, Notification, TargetReply, TaskConfig};

verus! {

/// How an evaluation ended that did not fail.
#[derive(Clone, Copy, Debug, PartialEq, Eq, Structural)]
pub enum Outcome {
    /// The task was ready, its target was invoked once and returned, and the
    /// firing was recorded.
    Fired,
    /// The task was not ready: the target was not invoked and nothing changed.
    NotReady,
}

/// The registry as a mathematical value: the latest identifier handed out,
/// the records in the order of their identifiers, and the notifications that
/// went out so far.
pub struct Registry {
    /// The latest identifier handed out; zero while none was.
    pub counter: u64,
    /// The records: the task with identifier `i` stands at index `i - 1`.
    pub tasks: Seq<TaskConfig>,
    /// The notifications in the order in which they went out.
    pub events: Seq<Notification>,
}

/// One operation on the registry, with what the surroundings contribute to it.
pub enum Operation {
    /// A registration; `authorized` says whether the creator's authorization
    /// was verified.
    Register { config: TaskConfig, authorized: bool },
    /// An evaluation of one task.
    Execute { task_id: u64, host: Host },
    /// The reserved scan, which does nothing.
    Monitor,
}

impl Registry {
    /// The registry before anything was registered.
    pub open spec fn empty() -> Registry {
        Registry { counter: 0, tasks: Seq::empty(), events: Seq::empty() }
    }

    /// Identifiers are handed out from one upwards without a gap, each has
    /// its record, every record has an interval that is not zero, and one
    /// notification went out for each task, with its identifier and creator.
    pub open spec fn wf(self) -> bool {
        &&& self.tasks.len() == self.counter
        &&& self.events.len() == self.counter
        &&& forall|i: int| 0 <= i < self.tasks.len() ==> (#[trigger] self.tasks[i]).valid()
        &&& forall|i: int|
            0 <= i < self.events.len() ==> (#[trigger] self.events[i]) == self.tasks[i].notice(
                (i + 1) as u64,
            )
    }

    /// Whether a task was registered under `id`.
    pub open spec fn holds(self, id: u64) -> bool {
        1 <= id <= self.counter
    }

    /// The record of the task `id`, if one was registered.
    pub open spec fn lookup(self, id: u64) -> Option<TaskConfig> {
        if self.holds(id) {
            Some(self.tasks[id - 1])
        } else {
            None
        }
    }

    /// Whether a record is kept under `key`. The counter's record appears
    /// with the first registration.
    pub open spec fn has_record(self, key: DataKey) -> bool {
        match key {
            DataKey::Task(id) => self.holds(id),
            DataKey::Counter => self.counter > 0,
        }
    }

    /// Whether a registration of `config` is accepted.
    pub open spec fn admits(self, config: TaskConfig, authorized: bool) -> bool {
        authorized && config.valid()
    }

    /// What a registration returns: the creator's authorization is looked at
    /// first, then the interval.
    pub open spec fn register_result(self, config: TaskConfig, authorized: bool) -> Result<
        u64,
        Error,
    > {
        if !authorized {
            Err(Error::Unauthorized)
        } else if !config.valid() {
            Err(Error::InvalidInterval)
        } else {
            Ok((self.counter + 1) as u64)
        }
    }

    /// The registry after a registration: a refused one changes nothing, an
    /// accepted one takes the next identifier, stores the record under it
    /// and sends one notification.
    pub open spec fn register(self, config: TaskConfig, authorized: bool) -> Registry {
        if self.admits(config, authorized) {
            Registry {
                counter: (self.counter + 1) as u64,
                tasks: self.tasks.push(config.at_creation()),
                events: self.events.push(config.notice((self.counter + 1) as u64)),
            }
        } else {
            self
        }
    }

    /// Whether an evaluation of the task `id` fires: the task exists, it is
    /// ready, and its target returns. The interval and the time of the
    /// latest firing take no part in this.
    pub open spec fn fires(self, id: u64, host: Host) -> bool {
        &&& self.holds(id)
        &&& self.tasks[id - 1].ready(host.resolver)
        &&& host.target == TargetReply::Returned
    }

    /// The calls that an evaluation of the task `id` makes, in their order.
    /// An unknown task has nobody called. A task with a resolver has it
    /// asked once, and a ready task has its target invoked once, whether the
    /// target then returns or fails.
    pub open spec fn calls(self, id: u64, host: Host) -> Seq<(CallKind, CallView)> {
        if !self.holds(id) {
            Seq::empty()
        } else {
            let task = self.tasks[id - 1];
            let target = (CallKind::Target, task.invokes());
            match task.asks() {
                None => seq![target],
                Some(question) => if host.resolver.allows() {
                    seq![(CallKind::Resolver, question), target]
                } else {
                    seq![(CallKind::Resolver, question)]
                },
            }
        }
    }

    /// What an evaluation of the task `id` returns.
    pub open spec fn execute_result(self, id: u64, host: Host) -> Result<Outcome, Error> {
        if !self.holds(id) {
            Err(Error::TaskNotFound)
        } else if !self.tasks[id - 1].ready(host.resolver) {
            Ok(Outcome::NotReady)
        } else if host.target == TargetReply::Failed {
            Err(Error::TargetFailed)
        } else {
            Ok(Outcome::Fired)
        }
    }

    /// The registry after an evaluation of the task `id`: a firing sets the
    /// task's `last_run` to the time of the evaluation, and anything else
    /// changes nothing. No notification goes out either way.
    pub open spec fn execute(self, id: u64, host: Host) -> Registry {
        if self.fires(id, host) {
            Registry {
                counter: self.counter,
                tasks: self.tasks.update(id - 1, self.tasks[id - 1].fired_at(host.now)),
                events: self.events,
            }
        } else {
            self
        }
    }

    /// The registry after one operation.
    pub open spec fn step(self, operation: Operation) -> Registry {
        match operation {
            Operation::Register { config, authorized } => self.register(config, authorized),
            Operation::Execute { task_id, host } => self.execute(task_id, host),
            Operation::Monitor => self,
        }
    }

    /// The registry after a history of operations, the earliest first.
    pub open spec fn run(self, history: Seq<Operation>) -> Registry
        decreases history.len(),
    {
        if history.len() == 0 {
            self
        } else {
            self.run(history.drop_last()).step(history.last())
        }
    }
}

/// The registry of tasks together with the engine that works on it.
#[derive(Clone, Debug)]
pub struct SoroTaskContract {
    counter: u64,
    tasks: Vec<TaskConfig>,
    events: Vec<Notification>,
}

impl View for SoroTaskContract {
    type V = Registry;

    closed spec fn view(&self) -> Registry {
        Registry { counter: self.counter, tasks: self.tasks@, events: self.events@ }
    }
}

impl SoroTaskContract {
    /// A registry in which nothing is registered.
    pub fn new() -> (fresh: SoroTaskContract)
        ensures
            fresh@ == Registry::empty(),
            fresh@.wf(),
    {
        SoroTaskContract { counter: 0, tasks: Vec::new(), events: Vec::new() }
    }

    /// The latest identifier handed out; zero while none was.
    pub fn counter(&self) -> (counter: u64)
        ensures
            counter == self@.counter,
    {
        self.counter
    }

    /// The notifications that went out so far, the earliest first.
    pub fn notifications(&self) -> (events: &Vec<Notification>)
        ensures
            events@ == self@.events,
    {
        &self.events
    }

    /// Whether a record is kept under `key`.
    pub fn has_record(&self, key: &DataKey) -> (found: bool)
        ensures
            found == self@.has_record(*key),
    {
        match key {
            DataKey::Task(id) => 1 <= *id && *id <= self.counter,
            DataKey::Counter => self.counter > 0,
        }
    }

    /// Where the record of the task `task_id` stands, if one was registered.
    fn index_of(&self, task_id: u64) -> (index: Option<usize>)
        requires
            self@.wf(),
        ensures
            match index {
                Some(index) => self@.holds(task_id) && index == task_id - 1,
                None => !self@.holds(task_id),
            },
    {
        // The counter is the number of records, so an identifier up to it
        // fits in `usize`.
        let len: usize = self.tasks.len();
        if 1 <= task_id && task_id - 1 < len as u64 {
            Some((task_id - 1) as usize)
        } else {
            None
        }
    }

    /// Registers a task and returns its identifier.
    ///
    /// `authorized` says whether the creator's authorization was verified.
    /// Without it the registration is refused with `Unauthorized`; with an
    /// interval of zero it is refused with `InvalidInterval`. A refused
    /// registration changes nothing. An accepted one returns the identifier
    /// after the latest one, stores the configuration under it with
    /// `last_run` set to zero, and sends one notification with the identifier
    /// and the creator.
    pub fn register(&mut self, config: TaskConfig, authorized: bool) -> (result: Result<
        u64,
        Error,
    >)
        requires
            old(self)@.wf(),
            old(self)@.admits(config, authorized) ==> old(self)@.counter < u64::MAX,
        ensures
            final(self)@.wf(),
            final(self)@ == old(self)@.register(config, authorized),
            result == old(self)@.register_result(config, authorized),
    {
        match enroll(config, authorized, self.counter) {
            Err(error) => Err(error),
            Ok(registration) => {
                self.counter = registration.id;
                self.tasks.push(registration.record);
                self.events.push(registration.notification);
                Ok(registration.id)
            },
        }
    }

    /// The record of the task `task_id`, or `None` where none was registered
    /// under it. Every identifier has an answer.
    pub fn get_task(&self, task_id: u64) -> (result: Option<&TaskConfig>)
        requires
            self@.wf(),
        ensures
            match result {
                Some(task) => self@.lookup(task_id) == Some(*task),
                None => self@.lookup(task_id) is None,
            },
    {
        match self.index_of(task_id) {
            Some(index) => Some(&self.tasks[index]),
            None => None,
        }
    }

    /// Reserved for a later scan over all tasks. It changes nothing.
    pub fn monitor(&mut self)
        ensures
            *final(self) == *old(self),
    {
    }

    /// Evaluates the task `task_id` and fires it if it is ready.
    ///
    /// An unknown identifier is refused with `TaskNotFound`. A task with a
    /// resolver has it asked once, and is ready only if the reply is an
    /// explicit `true`; a task without one is always ready. A task that is
    /// not ready is left as it is and `NotReady` is returned. A ready task
    /// has its target invoked once: if the target fails, the evaluation
    /// fails with `TargetFailed` and nothing changes; if it returns,
    /// `last_run` becomes the invoker's time and `Fired` is returned.
    /// Neither the interval nor the time of the latest firing is looked at.
    pub fn execute(&mut self, task_id: u64, invoker: &mut Invoker) -> (result: Result<
        Outcome,
        Error,
    >)
        requires
            old(self)@.wf(),
        ensures
            final(self)@.wf(),
            final(self)@ == old(self)@.execute(task_id, old(invoker).host()),
            result == old(self)@.execute_result(task_id, old(invoker).host()),
            final(invoker).host() == old(invoker).host(),
            final(invoker).log() == old(invoker).log() + old(self)@.calls(
                task_id,
                old(invoker).host(),
            ),
    {
        let index: usize = match self.index_of(task_id) {
            Some(index) => index,
            None => {
                return Err(Error::TaskNotFound);
            },
        };
        let mut step: Step = self.tasks[index].advance(Event::Started);
        assert(self@.tasks =~= old(self)@.tasks);
        if let Step::Ask(question) = step {
            let reply = invoker.ask_resolver(question);
            step = self.tasks[index].advance(Event::ResolverReplied(reply));
            assert(self@.tasks =~= old(self)@.tasks);
        }
        if let Step::Invoke(call) = step {
            let reply = invoker.invoke_target(call);
            step = self.tasks[index].advance(Event::TargetReplied { reply, now: invoker.now() });
            assert(self@.tasks =~= old(self)@.execute(task_id, invoker.host()).tasks);
        }
        match step {
            Step::Store => Ok(Outcome::Fired),
            Step::Abort(error) => Err(error),
            _ => Ok(Outcome::NotReady),
        }
    }
}

} // verus!
