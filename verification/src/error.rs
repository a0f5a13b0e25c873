//! The errors the facade returns.

use vstd::prelude::*;

verus! {

/// What can go wrong when driving the presence connection.
///
/// The two precondition errors are raised locally; a transport error comes
/// from the outside IPC library and is carried to the caller unchanged.
#[derive(Debug)]
pub enum PresenceError {
    /// `update_presence` was called on a wrapper that is not connected.
    NotConnected,
    /// The manager was asked to act before a successful `initialize`.
    NotInitialized,
    /// The outside IPC library failed; its error is carried unchanged.
    Transport(discord_rich_presence::error::Error),
}

impl PresenceError {
    /// A short description of the error, for callers that want text.
    pub fn describe(&self) -> (r: &'static str)
        ensures
            self is NotConnected ==> r@ == "client is not connected"@,
            self is NotInitialized ==> r@ == "client is not initialized"@,
            self is Transport ==> r@ == "transport error"@,
    {
        match self {
            PresenceError::NotConnected => "client is not connected",
            PresenceError::NotInitialized => "client is not initialized",
            PresenceError::Transport(_) => "transport error",
        }
    }
}

} // verus!
