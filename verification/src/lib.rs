//! Forwarding of keyboard, mouse and media-key input to a NetHID receiver.
//!
//! The crate holds the protocol itself and leaves sockets, HTTP and the window
//! that captures input to the program around it:
//!
//! - [`wire`]: the layout of a datagram, and how a mouse delta that exceeds
//!   one report is spread over several;
//! - [`udp`]: a session, which turns each event into its datagrams;
//! - [`token`]: the session token and its hexadecimal form;
//! - [`auth`]: the handshake that trades a password for a token;
//! - [`keymap`]: the table of media keys;
//! - [`forward`]: what each observation of the capture layer means for the
//!   receiver.

pub mod auth;
pub mod forward;
pub mod keymap;
pub mod token;
pub mod udp;
pub mod wire;
