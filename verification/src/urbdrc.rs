//! Messages from the USB redirection (URBDRC) backend to the server.
use vstd::prelude::*;

verus! {

/// A request that the USB redirection backend hands to the server's event
/// loop.
#[derive(Debug, Clone, Copy, PartialEq, Eq, Structural, Hash)]
pub enum UrbdrcServerMessage {
    /// Open a new dynamic virtual channel for a redirected device.
    AddChan,
}

} // verus!
