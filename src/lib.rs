//! Render and refresh engine for a battery-powered e-paper energy panel.
//!
//! The library decides what to redraw for each telemetry message, carries the
//! displayed information across full repaints, scales the forecast chart and
//! drives the bounded-retry connection lifecycle. Socket and hardware I/O stay
//! with the caller.

pub mod text;
pub mod model;
pub mod cache;
pub mod layout;
pub mod chart;
pub mod surface;
pub mod icons;
pub mod widgets;
pub mod panels;
pub mod session;
pub mod connection;
pub mod laws;
