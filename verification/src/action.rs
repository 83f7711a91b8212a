//! The state-change actions a device's driver stack can be asked to apply.

use vstd::prelude::*;

verus! {

/// A state-change request that the device-configuration subsystem can apply
/// to a device: bring it up, take it down, or restart it. Restart is a single
/// discrete action, not a disable-then-enable sequence; the driver stack
/// interprets it.
#[derive(Clone, Copy, PartialEq, Eq, Structural, Debug)]
pub enum DeviceStateChangeAction {
    Enable,
    Disable,
    Restart,
}

/// The fixed small integer code by which the subsystem names each action.
pub open spec fn action_code(action: DeviceStateChangeAction) -> u32 {
    match action {
        DeviceStateChangeAction::Enable => 1,
        DeviceStateChangeAction::Disable => 2,
        DeviceStateChangeAction::Restart => 3,
    }
}

impl DeviceStateChangeAction {
    /// The numeric code carried in a property-change request for this action.
    pub fn code(&self) -> (r: u32)
        ensures
            r == action_code(*self),
    {
        match self {
            DeviceStateChangeAction::Enable => 1,
            DeviceStateChangeAction::Disable => 2,
            DeviceStateChangeAction::Restart => 3,
        }
    }
}

/// The subsystem's fixed function code for a property-change request.
pub const INSTALL_FUNCTION_PROPERTY_CHANGE: u32 = 18;

/// The scope flag asking that the change apply globally, not per profile.
pub const SCOPE_GLOBAL: u32 = 1;

/// A property-change request as the subsystem reads it: the fixed installer
/// function code for "property change", the global scope flag, and the
/// numeric code of the requested action.
pub struct PropertyChangeRequest {
    pub install_function: u32,
    pub scope: u32,
    pub state_change: u32,
}

/// Builds the property-change request submitted for an action: always the
/// property-change installer function, always global scope, and the
/// action's own code.
pub fn property_change_request(action: DeviceStateChangeAction) -> (r: PropertyChangeRequest)
    ensures
        r.install_function == INSTALL_FUNCTION_PROPERTY_CHANGE,
        r.scope == SCOPE_GLOBAL,
        r.state_change == action_code(action),
{
    PropertyChangeRequest {
        install_function: INSTALL_FUNCTION_PROPERTY_CHANGE,
        scope: SCOPE_GLOBAL,
        state_change: action.code(),
    }
}

} // verus!
