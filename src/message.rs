//! The two message sets: what a controller sends and what the daemon sends.
use vstd::prelude::*;

verus! {

/// Identifies a background entity.
#[derive(Clone, Copy, Debug, PartialEq, Eq, Structural)]
pub struct Id(pub u64);

/// Identifies a variable whose value the daemon holds.
#[derive(Clone, Copy, Debug, PartialEq, Eq, Structural)]
pub struct VarId(pub u64);

/// Messages from the controller to the daemon.
#[derive(Debug, PartialEq, Eq)]
pub enum ClientMessage {
    Text(String),
    VarRequest(VarId),
    /// Monitor name, then the path of the content to show on it.
    BackgroundSetup(String, String),
    BackgroundStop(Id),
}

/// Messages from the daemon to the controller.
#[derive(Debug, PartialEq, Eq)]
pub enum DaemonMessage {
    Text(String),
    /// A variable and its new value.
    ValUpdate(VarId, String),
    /// Id, monitor name, then the path of the content shown.
    BackgroundUpdate(Id, String, String),
    BackgroundStop(Id),
}

/// The reply of this core to a controller message, if it has one: text is
/// echoed back; the other requests are left to the business layer.
pub open spec fn response_to(message: ClientMessage) -> Option<DaemonMessage> {
    match message {
        ClientMessage::Text(text) => Some(DaemonMessage::Text(text)),
        _ => None,
    }
}

/// Computes the reply to one controller message.
pub fn respond(message: ClientMessage) -> (r: Option<DaemonMessage>)
    ensures
        r == response_to(message),
{
    match message {
        ClientMessage::Text(text) => Some(DaemonMessage::Text(text)),
        _ => None,
    }
}

} // verus!
