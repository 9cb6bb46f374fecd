//! The single-fire delivery slot that joins one waiting caller to the
//! table: the producing end is held by the table, the consuming end by
//! the caller.
use vstd::prelude::*;

verus! {

#[verifier::external_type_specification]
#[verifier::external_body]
#[verifier::reject_recursive_types(T)]
pub struct ExOneshotSender<T>(tokio::sync::oneshot::Sender<T>);

#[verifier::external_type_specification]
#[verifier::external_body]
#[verifier::reject_recursive_types(T)]
pub struct ExOneshotReceiver<T>(tokio::sync::oneshot::Receiver<T>);

/// Declared because the receiver's `Future` impl names it as its output.
#[verifier::external_type_specification]
#[verifier::external_body]
pub struct ExOneshotRecvError(tokio::sync::oneshot::error::RecvError);

/// The producing end of a delivery slot.
pub type SlotSender = tokio::sync::oneshot::Sender<String>;

/// The consuming end of a delivery slot.
pub type SlotReceiver = tokio::sync::oneshot::Receiver<String>;

/// Relies on tokio::sync::oneshot::channel: a fresh, connected pair of ends.
#[verifier::external_body]
pub(crate) fn new_slot() -> (SlotSender, SlotReceiver) {
    tokio::sync::oneshot::channel()
}

/// Relies on tokio::sync::oneshot::Sender::send: fire-and-forget delivery that
/// never blocks; it hands the value back (here: reports `false`) when the
/// consuming end is gone.
#[verifier::external_body]
pub(crate) fn deliver(tx: SlotSender, payload: String) -> (r: bool) {
    tx.send(payload).is_ok()
}

/// Relies on tokio::sync::oneshot::Receiver::try_recv: the value already
/// recorded in the slot, if any, without waiting.
#[verifier::external_body]
pub(crate) fn take_recorded(rx: &mut SlotReceiver) -> (r: Option<String>) {
    rx.try_recv().ok()
}

} // verus!
