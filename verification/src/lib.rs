//! Core of a live terminal viewer for `jj log`: decoding of command output,
//! the shared result cell, viewport arithmetic and the frame loop's decisions.

pub mod app;
pub mod args;
pub mod cell;
pub mod config;
pub mod decode;
pub mod error;
pub mod layout;
pub mod log_widget;
pub mod poll;
pub mod status_line_widget;
pub mod text;
