//! Core logic of a mobile orbit-camera demo, in fixed-point arithmetic.
//!
//! Two independent components run once per simulation tick:
//!
//! * the gesture interpreter ([`gesture`]) turns a tick's touch events and
//!   rotation-gesture events into an update of a camera transform, keeping
//!   one piece of memory (the last touch position) across ticks;
//! * the lifecycle reactor ([`lifecycle`]) maps app-lifecycle transition
//!   events to play/pause commands on an audio sink.
//!
//! A small third piece ([`ui`]) maps a button's interaction state to its
//! background colour.
//!
//! All quantities are fixed-point integers: a value of [`fixed::SCALE`]
//! stands for 1.0. The host engine owns the real window, camera and audio
//! sink; it converts to and from these types at the edge.

pub mod fixed;
pub mod gesture;
pub mod lifecycle;
pub mod ui;
