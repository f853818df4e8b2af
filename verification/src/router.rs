//! Which application is bound to which port.

use vstd::prelude::*;
use crate::ident::{transfer_port_text, PortId};

verus! {

/// The applications that can be bound to a port.
#[derive(Clone, Copy, Debug, PartialEq, Eq, Structural)]
pub enum Application {
    /// The fungible-token transfer application.
    Transfer,
}

/// The steps at which the application bound to a port is called.
#[derive(Clone, Copy, Debug, PartialEq, Eq, Structural)]
pub enum Stage {
    ChannelOpenInit,
    ChannelOpenTry,
    ChannelOpenAck,
    ChannelOpenConfirm,
    ChannelCloseInit,
    ChannelCloseConfirm,
    ReceivePacket,
    AcknowledgePacket,
    TimeoutPacket,
}

/// A call of an application's execute hook, for the caller to make once
/// the step has been executed.
#[derive(Clone, Copy, Debug, PartialEq, Eq, Structural)]
pub struct AppCall {
    pub application: Application,
    pub stage: Stage,
}

/// The binding table: the transfer port is bound to the transfer
/// application, and no other port is bound.
pub open spec fn bound_application(port: Seq<char>) -> Option<Application> {
    if port == transfer_port_text() {
        Some(Application::Transfer)
    } else {
        None
    }
}

/// Looks up the application bound to a port.
pub fn lookup(port: &PortId) -> (application: Option<Application>)
    ensures
        application == bound_application(port@),
{
    if port.same(&PortId::transfer()) {
        Some(Application::Transfer)
    } else {
        None
    }
}

/// The hook call for a step on a port, where an application is bound.
pub open spec fn hook_call(port: Seq<char>, stage: Stage) -> Option<AppCall> {
    match bound_application(port) {
        Some(application) => Some(AppCall { application, stage }),
        None => None,
    }
}

pub fn hook(port: &PortId, stage: Stage) -> (call: Option<AppCall>)
    ensures
        call == hook_call(port@, stage),
{
    match lookup(port) {
        Some(application) => Some(AppCall { application, stage }),
        None => None,
    }
}

} // verus!
