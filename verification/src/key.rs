//! The keys under which the registry's records are kept.

use vstd::prelude::*;

verus! {

/// The key of one persisted record. The two kinds never coincide, whatever
/// the identifier is.
#[derive(Clone, Copy, Debug, PartialEq, Eq, Structural)]
pub enum DataKey {
    /// The record of the task with this identifier.
    Task(u64),
    /// The record of the latest identifier handed out.
    Counter,
}

} // verus!
