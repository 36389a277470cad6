//! The disconnect signal bus: a bounded broadcast channel that carries lists of
//! session ids from the loop to every subscriber.
use vstd::prelude::*;
use tokio::sync::broadcast::{Receiver, Sender};

verus! {

#[verifier::external_type_specification]
#[verifier::external_body]
#[verifier::reject_recursive_types(T)]
pub struct ExBroadcastSender<T>(Sender<T>);

#[verifier::external_type_specification]
#[verifier::external_body]
#[verifier::reject_recursive_types(T)]
pub struct ExBroadcastReceiver<T>(Receiver<T>);

/// Messages a subscriber may fall behind by before it misses some.
pub const BUS_CAPACITY: usize = 16;

/// Relies on tokio::sync::broadcast::channel, which panics only on a zero
/// capacity; the receiver made with the channel is dropped.
#[verifier::external_body]
fn broadcast_channel(capacity: usize) -> Sender<Vec<i32>>
    requires
        capacity > 0,
{
    tokio::sync::broadcast::channel(capacity).0
}

/// Relies on tokio's `Sender::send`: `Ok` carries the number of receivers,
/// which is at least one; with no receiver the value comes back in `Err`.
#[verifier::external_body]
fn broadcast_send(sender: &Sender<Vec<i32>>, ids: Vec<i32>) -> (r: Option<usize>)
    ensures
        r is Some ==> r->0 > 0,
{
    sender.send(ids).ok()
}

/// Relies on tokio's `Sender::subscribe`: a receiver of the values sent after
/// the call.
#[verifier::external_body]
fn broadcast_subscribe(sender: &Sender<Vec<i32>>) -> Receiver<Vec<i32>> {
    sender.subscribe()
}

/// One-to-many channel of session-id lists.
pub struct DisconnectBus {
    sender: Sender<Vec<i32>>,
}

impl DisconnectBus {
    /// A bus with room for `BUS_CAPACITY` pending lists per subscriber.
    pub fn new() -> (r: DisconnectBus) {
        DisconnectBus { sender: broadcast_channel(BUS_CAPACITY) }
    }

    /// Sends `ids` to every current subscriber; returns how many there were.
    /// Having none is not an error.
    pub fn publish(&self, ids: Vec<i32>) -> (n: usize) {
        match broadcast_send(&self.sender, ids) {
            Some(n) => n,
            None => 0,
        }
    }

    /// A new subscription that sees every list published from now on.
    pub fn subscribe(&self) -> Receiver<Vec<i32>> {
        broadcast_subscribe(&self.sender)
    }
}

} // verus!
