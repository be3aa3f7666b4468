//! Core of a live camera viewer: the capture-session lifecycle and the
//! cross-thread frame hand-off.
//!
//! The library holds the logic that is worth proving: the single-frame
//! hand-off cell ([`frame_slot::FrameSlot`]), the capture worker's loop
//! decisions ([`worker`]), the two-phase session teardown ([`session`]),
//! the device-selection state machine ([`manager`]), the consumer's
//! take-and-decode tick ([`consumer`]), and the device-control rules
//! ([`controls`]). Everything that touches a real device, a thread or a
//! window lives outside, drives these state machines, and performs the
//! actions they hand back.

pub mod consumer;
pub mod controls;
pub mod frame_slot;
pub mod manager;
pub mod session;
pub mod worker;
