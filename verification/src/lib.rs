//! Driver logic for Waveshare monochrome e-paper displays.
//!
//! The driver never touches the hardware itself. Every operation queues the
//! bus transactions that the controller has to receive, in order, and the
//! host drains the queue and performs them on its serial bus and pins.

pub mod color;
pub mod command;
pub mod epd4in2;
pub mod error;
pub mod graphics;
pub mod interface;
pub mod refresh;
