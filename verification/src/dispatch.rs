//! The evaluation of one task as a sequence of steps: the engine says what
//! is to be done next, the surroundings do it and say what came of it.

use vstd::prelude::*;
use crate::error::Error;
use crate::task::{Call, CallView, ResolverReply, TargetReply, TaskConfig};

verus! {

/// What happened last in an evaluation.
#[derive(Clone, Copy, Debug, PartialEq, Eq, Structural)]
pub enum Event {
    /// Nothing yet: the evaluation begins.
    Started,
    /// The resolver was asked, and this came back.
    ResolverReplied(ResolverReply),
    /// The target was invoked at the time `now`, and this came back.
    TargetReplied { reply: TargetReply, now: u64 },
}

/// What the engine asks for next.
#[derive(Clone, Debug, PartialEq, Eq)]
pub enum Step {
    /// Ask the resolver with this call, and come back with its reply.
    Ask(Call),
    /// Invoke the target with this call, and come back with its reply.
    Invoke(Call),
    /// The task fired and its record has changed: store it. This ends the
    /// evaluation.
    Store,
    /// The task is not ready: nothing is to be done. This ends the evaluation.
    Leave,
    /// The evaluation failed: nothing is to be stored. This ends the
    /// evaluation.
    Abort(Error),
}

/// A step as a mathematical value.
pub enum StepView {
    /// Ask the resolver with this call.
    Ask(CallView),
    /// Invoke the target with this call.
    Invoke(CallView),
    /// Store the record, which has changed.
    Store,
    /// Do nothing.
    Leave,
    /// Fail with this error.
    Abort(Error),
}

impl View for Step {
    type V = StepView;

    open spec fn view(&self) -> StepView {
        match self {
            Step::Ask(call) => StepView::Ask(call@),
            Step::Invoke(call) => StepView::Invoke(call@),
            Step::Store => StepView::Store,
            Step::Leave => StepView::Leave,
            Step::Abort(error) => StepView::Abort(*error),
        }
    }
}

impl TaskConfig {
    /// The step that follows `event`. An evaluation begins with the resolver
    /// where the task has one, and with the target where it has none. Only
    /// an explicit `true` from the resolver leads on to the target. A target
    /// that returned has the record stored, one that failed ends the
    /// evaluation with `TargetFailed`.
    pub open spec fn next(self, event: Event) -> StepView {
        match event {
            Event::Started => match self.asks() {
                Some(question) => StepView::Ask(question),
                None => StepView::Invoke(self.invokes()),
            },
            Event::ResolverReplied(reply) => if reply.allows() {
                StepView::Invoke(self.invokes())
            } else {
                StepView::Leave
            },
            Event::TargetReplied { reply: TargetReply::Returned, now } => StepView::Store,
            Event::TargetReplied { reply: TargetReply::Failed, now } => StepView::Abort(
                Error::TargetFailed,
            ),
        }
    }

    /// The record after `event`: a target that returned at the time `now`
    /// sets `last_run` to `now`, and nothing else changes anything.
    pub open spec fn after(self, event: Event) -> TaskConfig {
        match event {
            Event::TargetReplied { reply: TargetReply::Returned, now } => self.fired_at(now),
            _ => self,
        }
    }

    /// Takes `event` in and says what is to be done next.
    pub fn advance(&mut self, event: Event) -> (step: Step)
        ensures
            step@ == old(self).next(event),
            *final(self) == old(self).after(event),
    {
        match event {
            Event::Started => match self.resolver_call() {
                Some(question) => Step::Ask(question),
                None => Step::Invoke(self.target_call()),
            },
            Event::ResolverReplied(reply) => if reply.is_ready() {
                Step::Invoke(self.target_call())
            } else {
                Step::Leave
            },
            Event::TargetReplied { reply: TargetReply::Returned, now } => {
                self.mark_fired(now);
                Step::Store
            },
            Event::TargetReplied { reply: TargetReply::Failed, now: _ } => Step::Abort(
                Error::TargetFailed,
            ),
        }
    }
}

} // verus!
