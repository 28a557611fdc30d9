//! The typed system events that travel the event bus.
//!
//! Exactly one instance of a message travels the bus per logical
//! occurrence: producers create it at the call site and the orchestrator
//! consumes it exactly once.

use vstd::prelude::*;

verus! {

/// One event on the system bus.
#[derive(Clone, Debug)]
pub enum SystemMessage {
    /// Synthesize and play the text.
    Speak(String),
    /// The network stack came up; the control surface may start.
    WifiConnected,
    /// A credential was scanned and decoded to a card code.
    OnCard(u32),
    /// An authorization decision: card code, display name, granted.
    OnAuth(u32, String, bool),
    /// A firmware image arrived from the control surface.
    OnOtaBuffer(Vec<u8>),
}

} // verus!
