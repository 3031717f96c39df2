//! Signalling relay between one publisher and many viewers.
//!
//! The publisher announces streams, viewers ask to watch one of them, and
//! the relay routes the session-negotiation messages between the two sides.
//! Every decision the relay takes is a function of this library; sockets,
//! tasks and the user-interface shell live outside of it.

pub mod bd;
pub mod config;
pub mod ds_installer;
pub mod license;
pub mod text;
pub mod web;
pub mod ws;
