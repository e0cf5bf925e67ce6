//! A task's record, and the decisions that are taken on one record alone.

use vstd::prelude::*;
use crate::error::Error;

verus! {

/// One registered task: what to invoke, with what, and under which condition.
///
/// Identities and the selector are held in their text form; each argument is
/// one opaque 64-bit word that is handed on as it came.
#[derive(Clone, Debug, PartialEq, Eq)]
pub struct TaskConfig {
    /// The identity that registered the task.
    pub creator: String,
    /// The identity of the callable that is invoked when the task fires.
    pub target: String,
    /// The name of the method to invoke on the target.
    pub function: String,
    /// The arguments, in order, passed to the resolver and to the target.
    pub args: Vec<u64>,
    /// The identity of the callable that says whether the task is ready.
    /// Without one the task is always ready.
    pub resolver: Option<String>,
    /// The least number of seconds meant to lie between two firings; never
    /// zero in a registered task. It is kept with the task and takes no part
    /// in the decision to fire.
    pub interval: u64,
    /// The time of the latest successful firing; zero while there was none.
    pub last_run: u64,
    /// A budget that is carried along and never debited.
    pub gas_balance: i128,
}

/// The notification that goes out when a task was registered.
#[derive(Clone, Debug, PartialEq, Eq)]
pub struct Notification {
    /// The identifier that the task was registered under.
    pub task_id: u64,
    /// The identity that registered the task.
    pub creator: String,
}

/// What an accepted registration has stored and sent.
#[derive(Clone, Debug, PartialEq, Eq)]
pub struct Registration {
    /// The identifier handed out.
    pub id: u64,
    /// The record to store under the identifier.
    pub record: TaskConfig,
    /// The notification to send.
    pub notification: Notification,
}

/// What came back from asking a resolver.
#[derive(Clone, Copy, Debug, PartialEq, Eq, Structural)]
pub enum ResolverReply {
    /// The resolver returned this boolean.
    Verdict(bool),
    /// The call failed, trapped, or returned something that is no boolean.
    Failed,
}

/// What came back from invoking a target. A value that the target returned
/// is discarded: only whether it returned counts.
#[derive(Clone, Copy, Debug, PartialEq, Eq, Structural)]
pub enum TargetReply {
    /// The target returned.
    Returned,
    /// The target failed or aborted.
    Failed,
}

/// Which of a task's two callables a call goes to.
#[derive(Clone, Copy, Debug, PartialEq, Eq, Structural)]
pub enum CallKind {
    /// The resolver, which says whether the task is ready.
    Resolver,
    /// The target, which does the task's work.
    Target,
}

/// One call across the engine's boundary: who is called, which method, and
/// with what.
#[derive(Clone, Debug, PartialEq, Eq)]
pub struct Call {
    /// The identity of the callable.
    pub callee: String,
    /// The name of the method.
    pub function: String,
    /// The arguments, in order.
    pub args: Vec<u64>,
}

/// A call as a mathematical value.
pub struct CallView {
    /// The identity of the callable, as text.
    pub callee: Seq<char>,
    /// The name of the method.
    pub function: Seq<char>,
    /// The arguments, in order.
    pub args: Seq<u64>,
}

impl View for Call {
    type V = CallView;

    open spec fn view(&self) -> CallView {
        CallView { callee: self.callee@, function: self.function@, args: self.args@ }
    }
}

/// The name of the method that every resolver offers.
pub open spec fn resolver_method() -> Seq<char> {
    "check_condition"@
}

/// The identifier to hand out next, given the latest one handed out (zero
/// while none was).
pub fn next_id(counter: u64) -> (id: u64)
    requires
        counter < u64::MAX,
    ensures
        id == counter + 1,
{
    counter + 1
}

/// What a registration returns, given the latest identifier handed out: the
/// creator's authorization is looked at first, then the interval, and an
/// accepted registration gets the next identifier, the record with `last_run`
/// at zero, and the notification with the identifier and the creator.
pub open spec fn enrolled(config: TaskConfig, authorized: bool, counter: u64) -> Result<
    Registration,
    Error,
> {
    if !authorized {
        Err(Error::Unauthorized)
    } else if !config.valid() {
        Err(Error::InvalidInterval)
    } else {
        Ok(
            Registration {
                id: (counter + 1) as u64,
                record: config.at_creation(),
                notification: config.notice((counter + 1) as u64),
            },
        )
    }
}

/// Decides on a registration, given whether the creator's authorization was
/// verified and the latest identifier handed out (zero while none was).
pub fn enroll(config: TaskConfig, authorized: bool, counter: u64) -> (result: Result<
    Registration,
    Error,
>)
    requires
        authorized && config.valid() ==> counter < u64::MAX,
    ensures
        result == enrolled(config, authorized, counter),
{
    if !authorized {
        return Err(Error::Unauthorized);
    }
    match config.validate() {
        Err(error) => {
            return Err(error);
        },
        Ok(_) => {},
    }
    let id: u64 = next_id(counter);
    let notification = config.registration_notice(id);
    Ok(Registration { id, record: config.into_record(), notification })
}

impl ResolverReply {
    /// Whether the reply lets the task fire: only an explicit `true` does.
    pub open spec fn allows(self) -> bool {
        self == ResolverReply::Verdict(true)
    }

    /// Whether the reply lets the task fire: only an explicit `true` does.
    /// A `false`, a failed call and a reply that is no boolean all count as
    /// "not ready".
    pub fn is_ready(&self) -> (ready: bool)
        ensures
            ready == self.allows(),
    {
        match self {
            ResolverReply::Verdict(verdict) => *verdict,
            ResolverReply::Failed => false,
        }
    }
}

impl TaskConfig {
    /// Whether the configuration may be registered: its interval is not zero.
    pub open spec fn valid(self) -> bool {
        self.interval != 0
    }

    /// The record as the registry keeps it at creation: as given, but never
    /// run.
    pub open spec fn at_creation(self) -> TaskConfig {
        TaskConfig { last_run: 0, ..self }
    }

    /// The record after a firing at time `now`: only `last_run` differs.
    pub open spec fn fired_at(self, now: u64) -> TaskConfig {
        TaskConfig { last_run: now, ..self }
    }

    /// The call that asks the task's resolver, where it has one: the
    /// resolver's one method, with the task's arguments.
    pub open spec fn asks(self) -> Option<CallView> {
        match self.resolver {
            Some(resolver) => Some(
                CallView { callee: resolver@, function: resolver_method(), args: self.args@ },
            ),
            None => None,
        }
    }

    /// The call that fires the task: the task's function on its target, with
    /// the task's arguments.
    pub open spec fn invokes(self) -> CallView {
        CallView { callee: self.target@, function: self.function@, args: self.args@ }
    }

    /// Whether the task is ready to fire, given what its resolver would
    /// reply. A task without a resolver is ready whatever the reply says.
    pub open spec fn ready(self, reply: ResolverReply) -> bool {
        self.resolver is None || reply.allows()
    }

    /// The notification of a registration of the configuration under `id`.
    pub open spec fn notice(self, id: u64) -> Notification {
        Notification { task_id: id, creator: self.creator }
    }

    /// The notification that goes out when the configuration was registered
    /// under `id`: it carries the identifier and the creator.
    pub fn registration_notice(&self, id: u64) -> (notification: Notification)
        ensures
            notification == self.notice(id),
    {
        Notification { task_id: id, creator: self.creator.clone() }
    }

    /// Checks that the configuration may be registered.
    pub fn validate(&self) -> (result: Result<(), Error>)
        ensures
            self.valid() ==> result == Ok::<(), Error>(()),
            !self.valid() ==> result == Err::<(), Error>(Error::InvalidInterval),
    {
        if self.interval == 0 {
            Err(Error::InvalidInterval)
        } else {
            Ok(())
        }
    }

    /// Turns a configuration as a caller gave it into the record that is
    /// stored: `last_run` is set to zero whatever the caller wrote there.
    pub fn into_record(self) -> (record: TaskConfig)
        ensures
            record == self.at_creation(),
    {
        let mut record = self;
        record.last_run = 0;
        record
    }

    /// The call that asks the task's resolver whether the task is ready, or
    /// `None` where the task has no resolver and is therefore always ready.
    pub fn resolver_call(&self) -> (call: Option<Call>)
        ensures
            match call {
                Some(call) => self.asks() == Some(call@),
                None => self.asks() is None,
            },
    {
        match &self.resolver {
            Some(resolver) => Some(
                Call {
                    callee: resolver.clone(),
                    function: "check_condition".to_owned(),
                    args: self.args.clone(),
                },
            ),
            None => None,
        }
    }

    /// The call that fires the task.
    pub fn target_call(&self) -> (call: Call)
        ensures
            call@ == self.invokes(),
    {
        Call {
            callee: self.target.clone(),
            function: self.function.clone(),
            args: self.args.clone(),
        }
    }

    /// Records a successful firing at time `now`.
    pub fn mark_fired(&mut self, now: u64)
        ensures
            *final(self) == old(self).fired_at(now),
    {
        self.last_run = now;
    }
}

} // verus!
