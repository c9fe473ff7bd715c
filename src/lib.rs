//! Clipboard sharing over SSH: the wire protocol, its frames, the daemon that holds the one
//! clipboard value, the proxy that relays a request to it, and the client's side of both.
pub mod agent;
pub mod autostart;
pub mod client;
pub mod client_actions;
pub mod codec;
pub mod daemon;
pub mod display;
pub mod framing;
pub mod install;
pub mod local_clipboard;
pub mod path_list;
pub mod protocol;
pub mod proxy;
pub mod shell_profile;
pub mod text;
pub mod wire;
