//! Rich-presence client for a chat application's local IPC protocol:
//! frame codec, presence records, request building and connection state.
pub mod codec;
pub mod error;
pub mod json;
pub mod presence;
pub mod protocol;
pub mod client;
