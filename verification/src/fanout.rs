//! Trusted boundary around the live-log fan-out channel.
//!
//! The fan-out is `tokio::sync::broadcast`: a best-effort multicast channel.
//! A subscriber receives only lines published after it subscribed (no
//! replay), and a publish with no subscribers, or past a lagging subscriber,
//! is silently dropped.  Nothing is claimed here about delivery; the library
//! proves instead that every line handed to the channel is exactly the line
//! appended to the record's log buffer.

use vstd::prelude::*;

verus! {

#[verifier::external_type_specification]
#[verifier::external_body]
#[verifier::reject_recursive_types(T)]
pub struct ExSender<T>(tokio::sync::broadcast::Sender<T>);

#[verifier::external_type_specification]
#[verifier::external_body]
#[verifier::reject_recursive_types(T)]
pub struct ExReceiver<T>(tokio::sync::broadcast::Receiver<T>);

/// Relies on tokio::sync::broadcast::channel: builds the sending half of a
/// fan-out channel with the given capacity.  The initial receiving half is
/// dropped; later subscribers attach through `subscribe`.  The function
/// panics when the capacity is zero or above `usize::MAX / 2`, so those
/// capacities are excluded here.
#[verifier::external_body]
pub(crate) fn new_channel(capacity: usize) -> tokio::sync::broadcast::Sender<String>
    requires
        1 <= capacity <= usize::MAX / 2,
{
    tokio::sync::broadcast::channel(capacity).0
}

/// Relies on tokio::sync::broadcast::Sender::send: offers one line to every
/// current subscriber.  The result reports whether at least one subscriber
/// existed; delivery is best-effort either way, so nothing is claimed of it
/// and callers deliberately ignore the report.
#[verifier::external_body]
pub(crate) fn publish(tx: &tokio::sync::broadcast::Sender<String>, line: String) -> bool {
    match tx.send(line) {
        Ok(_) => true,
        Err(_) => false,
    }
}

/// Relies on tokio::sync::broadcast::Sender::subscribe: attaches a new
/// subscriber that will observe lines published from this point on.
#[verifier::external_body]
pub(crate) fn subscribe(
    tx: &tokio::sync::broadcast::Sender<String>,
) -> tokio::sync::broadcast::Receiver<String> {
    tx.subscribe()
}

} // verus!
