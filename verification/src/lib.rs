//! Input state and cursor policy for a single-window frame loop.
//!
//! The frame loop of a small windowed program keeps two things between
//! frames: what the pointer is doing, and whether the window was asked to
//! close. This crate holds that state, the rule by which a window event
//! changes it, the button array that the overlay is told each frame, and the
//! rule that picks the pointer shape the operating system is asked to show.
//! Everything here works on plain values; opening the window, drawing and
//! talking to the overlay are left to the program around it.

pub mod cursor;
pub mod events;
pub mod mouse;
