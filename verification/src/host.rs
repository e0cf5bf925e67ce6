//! The surroundings of an evaluation: the time, the resolver and the target,
//! and a stand-in for them that answers as told and notes what it was asked.

use vstd::prelude::*;
use crate::task::{Call, CallKind, CallView, ResolverReply, TargetReply};

verus! {

/// How the surroundings answer during one evaluation of a task: the time, and
/// what the task's resolver and target reply if the engine turns to them.
#[derive(Clone, Copy, Debug, PartialEq, Eq, Structural)]
pub struct Host {
    /// The time of the evaluation.
    pub now: u64,
    /// What the resolver replies if it is asked.
    pub resolver: ResolverReply,
    /// What the target replies if it is invoked.
    pub target: TargetReply,
}

/// A stand-in for the callables beyond the engine. It answers every call as
/// its `Host` says and keeps a log of the calls, so that what an evaluation
/// asked of its surroundings, and how often, can be read off afterwards.
#[derive(Clone, Debug)]
pub struct Invoker {
    host: Host,
    calls: Vec<(CallKind, Call)>,
}

impl Invoker {
    /// The answers that the invoker gives.
    pub closed spec fn host(&self) -> Host {
        self.host
    }

    /// The calls made so far, the earliest first.
    pub closed spec fn log(&self) -> Seq<(CallKind, CallView)> {
        self.calls@.map_values(|entry: (CallKind, Call)| (entry.0, entry.1@))
    }

    /// An invoker that answers as `host` says and was not called yet.
    pub fn new(host: Host) -> (invoker: Invoker)
        ensures
            invoker.host() == host,
            invoker.log() == Seq::<(CallKind, CallView)>::empty(),
    {
        Invoker { host, calls: Vec::new() }
    }

    /// The calls made so far, the earliest first.
    pub fn calls(&self) -> (calls: &Vec<(CallKind, Call)>)
        ensures
            calls@.map_values(|entry: (CallKind, Call)| (entry.0, entry.1@)) == self.log(),
    {
        &self.calls
    }

    /// The time of the evaluation. Reading it is no call.
    pub fn now(&self) -> (now: u64)
        ensures
            now == self.host().now,
    {
        self.host.now
    }

    /// Asks the resolver: the call is logged and the reply is the host's.
    pub fn ask_resolver(&mut self, call: Call) -> (reply: ResolverReply)
        ensures
            reply == old(self).host().resolver,
            final(self).host() == old(self).host(),
            final(self).log() == old(self).log().push((CallKind::Resolver, call@)),
    {
        self.calls.push((CallKind::Resolver, call));
        self.host.resolver
    }

    /// Invokes the target: the call is logged and the reply is the host's.
    pub fn invoke_target(&mut self, call: Call) -> (reply: TargetReply)
        ensures
            reply == old(self).host().target,
            final(self).host() == old(self).host(),
            final(self).log() == old(self).log().push((CallKind::Target, call@)),
    {
        self.calls.push((CallKind::Target, call));
        self.host.target
    }
}

} // verus!
