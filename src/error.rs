//! The kinds of failure a call through the bridge can end in.
use vstd::prelude::*;

verus! {

#[derive(Debug, Clone, Copy, PartialEq, Eq, Structural)]
pub enum BridgeError {
    /// A waiter for the correlation id already exists.
    DuplicateId,
    /// The broker rejected the request or did not acknowledge it in time.
    PublishFailure,
    /// No response arrived within the wait budget.
    CorrelationTimeout,
}

} // verus!
