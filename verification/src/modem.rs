//! Types used by the SMS server modem, sent in events.

use vstd::prelude::*;

verus! {

/// Represents the current status of the modem.
#[derive(PartialEq, Eq, Structural, Debug, Clone, Copy)]
pub enum ModemStatusUpdateState {
    /// Modem is starting up.
    Startup,
    /// Modem is online and operational.
    Online,
    /// Modem is shutting down.
    ShuttingDown,
    /// Modem is offline and not operational.
    Offline,
}

/// The display name of a modem state.
pub open spec fn spec_state_name(state: ModemStatusUpdateState) -> Seq<char> {
    match state {
        ModemStatusUpdateState::Startup => "Startup"@,
        ModemStatusUpdateState::Online => "Online"@,
        ModemStatusUpdateState::ShuttingDown => "ShuttingDown"@,
        ModemStatusUpdateState::Offline => "Offline"@,
    }
}

impl ModemStatusUpdateState {
    /// The human-readable name of this state.
    pub fn as_str(&self) -> (r: &'static str)
        ensures
            r@ == spec_state_name(*self),
    {
        match self {
            ModemStatusUpdateState::Startup => "Startup",
            ModemStatusUpdateState::Online => "Online",
            ModemStatusUpdateState::ShuttingDown => "ShuttingDown",
            ModemStatusUpdateState::Offline => "Offline",
        }
    }
}

} // verus!
