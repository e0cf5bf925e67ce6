//! A task-automation engine: a registry of recurring jobs and the rules that
//! decide when a job fires and what a firing changes.
//!
//! Callers register a task: a target to invoke, the arguments, an optional
//! resolver that says whether the task is ready, and an interval. Anybody
//! may later ask for a task to be evaluated; a ready task has its target
//! invoked and the time of the firing recorded. The engine never acts by
//! itself, and it does not hold a task back until its interval has passed.
//!
//! - `task`: one task's record and the decisions taken on a record alone.
//! - `dispatch`: the evaluation of one task, step by step.
//! - `registry`: the registry, its mathematical model, and the operations.
//! - `host`: the surroundings of an evaluation, and a stand-in for them.
//! - `key`: the keys under which records are kept.
//! - `error`: the ways in which an operation fails.
//! - `theorems`: what holds of the registry over any run of operations.

pub mod dispatch;
pub mod error;
pub mod host;
pub mod key;
pub mod registry;
pub mod task;
pub mod theorems;
