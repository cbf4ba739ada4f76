//! Core of a keyboard-and-mouse sharing service: the capture and emulation
//! controllers, the registry of peers and the context they coordinate through,
//! written as state machines over plain values.

pub mod capture;
pub mod capture_laws;
pub mod capture_test;
pub mod client;
pub mod emulation;
pub mod emulation_laws;
pub mod event;
pub mod frontend;
pub mod handshake_laws;
pub mod server;
