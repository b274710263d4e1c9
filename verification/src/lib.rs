//! Verified core of the Codex usage dock: the usage snapshot and its
//! transitions, the App Server session protocol, the choice of the Codex
//! binary, the recognition of foreground windows and the panel layout state.
pub mod percent;
pub mod usage;
pub mod protocol;
pub mod focus;
pub mod layout;
pub mod binary;
