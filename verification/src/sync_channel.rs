use vstd::prelude::*;
use crossbeam::channel::{Receiver, Sender};

verus! {

#[verifier::external_type_specification]
#[verifier::external_body]
#[verifier::reject_recursive_types(T)]
pub struct ExSender<T>(Sender<T>);

#[verifier::external_type_specification]
#[verifier::external_body]
#[verifier::reject_recursive_types(T)]
pub struct ExReceiver<T>(Receiver<T>);

/// Relies on crossbeam's `bounded`: a fresh channel whose buffer holds at
/// most one token and starts out empty; the two halves belong to the same
/// channel. `bounded` panics only on a capacity too large to allocate, and
/// one is not.
#[verifier::external_body]
pub(crate) fn new_edge_channel() -> (Sender<()>, Receiver<()>) {
    crossbeam::channel::bounded(1)
}

/// Relies on crossbeam's `Sender::send`: blocks while the single slot still
/// holds an unconsumed token and a receiver is alive, so a token is never
/// dropped or overwritten; returns an error exactly when every receiver of
/// the channel has been dropped.
#[verifier::external_body]
pub(crate) fn send_token(tx: &Sender<()>) -> bool {
    tx.send(()).is_ok()
}

/// Relies on crossbeam's `Receiver::recv`: blocks until a token can be taken
/// out of the slot; returns an error exactly when the channel is empty and
/// every sender of it has been dropped.
#[verifier::external_body]
pub(crate) fn recv_token(rx: &Receiver<()>) -> bool {
    rx.recv().is_ok()
}

} // verus!
