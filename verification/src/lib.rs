//! Delivery of transcribed text into the focused application of a Linux desktop.
//!
//! The library decides; a host performs. Every probe of the session, every
//! clipboard operation and every external program is described by a request
//! that the host carries out and answers.

pub mod clipboard;
pub mod command;
pub mod error;
pub mod exchange;
pub mod feedback;
pub mod laws;
pub mod output;
pub mod session;
pub mod strategy;
pub mod text;
pub mod window;
