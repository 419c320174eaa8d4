//! A single-line terminal marquee: static text that scrolls where it is
//! wider than the line, and alerts that lie over it for a few seconds.
//!
//! The crate holds what the display decides and computes, and proves it:
//!
//! - [`app`] is the display state machine: scroll offset, pause and dim
//!   switches, the alert and what it saved, one step per event.
//! - [`marquee`] cuts the column-exact window out of the scrolling strip;
//!   [`glyph`] measures the glyphs, [`countdown`] writes an alert's countdown.
//! - [`ui`] says what is to be drawn in a state; [`style`] picks its colours.
//! - [`event`] holds the events and the clock of the funnel that feeds the
//!   state machine, with its change of interval that keeps the phase.
//! - [`source`] draws the static text together from the source files.
//! - [`server`], [`api`] and [`ws_client`] decide what a listener, a poller
//!   and a WebSocket client make of what they receive; [`json`] follows the
//!   paths into a JSON payload.
//! - [`config`] holds the settings, [`text`] the plain work on texts.
//!
//! Terminal, files, sockets and timers are the caller's: the crate takes
//! plain values and gives plain values back.

pub mod api;
pub mod app;
pub mod config;
pub mod countdown;
pub mod event;
pub mod glyph;
pub mod json;
pub mod marquee;
pub mod server;
pub mod source;
pub mod style;
pub mod text;
pub mod ui;
pub mod ws_client;
