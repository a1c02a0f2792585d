//! The settings daemon's request and event protocol, and the channel that
//! carries requests to it.

use tokio::sync::mpsc::UnboundedSender;
use vstd::prelude::*;

verus! {

#[verifier::external_type_specification]
#[verifier::external_body]
#[verifier::reject_recursive_types(T)]
pub struct ExUnboundedSender<T>(UnboundedSender<T>);

/// A request to the settings daemon.
#[derive(Clone, Copy, Debug, PartialEq, Eq, Structural)]
pub enum Request {
    /// Set the display brightness to the given raw value.
    SetDisplayBrightness(i32),
}

/// An event pushed by the settings daemon's subscription.
pub enum DaemonEvent {
    /// The subscription is live: requests may now be sent through this channel.
    Sender(UnboundedSender<Request>),
    /// The largest brightness value the display accepts.
    MaxDisplayBrightness(i32),
    /// The display's current brightness.
    DisplayBrightness(i32),
}

/// Relies on tokio's `UnboundedSender::send`: it enqueues the request without
/// waiting and reports an error only when the receiving half is closed. As a
/// fire-and-forget channel, that error is ignored. (tokio aborts the process
/// only once about `usize::MAX / 2` messages wait in one channel.)
#[verifier::external_body]
pub(crate) fn send_request(tx: &UnboundedSender<Request>, request: Request) {
    let _ = tx.send(request);
}

} // verus!
