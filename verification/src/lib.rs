//! Core logic for a morse-code practice paddle client.
//!
//! A hardware device streams single-byte signals over a serial link:
//! paddle presses and releases, a periodic heartbeat, and a fixed
//! reboot-announcement sequence. This crate holds the verified core of
//! the client: the reboot-sequence detector, the byte-to-event decoder
//! with its liveness tracking, the paddle/process state machine, and
//! profile validation. All I/O (the serial link, the terminal, child
//! processes) lives outside this crate and talks to it in plain values.

pub mod app;
pub mod decoder;
pub mod profile;
pub mod reset_detector;
