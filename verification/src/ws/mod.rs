//! Decisions behind the remote-control socket.

pub mod ws_sender;
