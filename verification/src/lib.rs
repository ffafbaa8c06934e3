//! Logic of a small status bar for the GlazeWM tiling window manager:
//! a fuzzy clock, the bar's workspace state, and the interpretation of the
//! window manager's JSON event stream.

pub mod clock;
pub mod font;
pub mod fuzzydate;
pub mod ids;
pub mod ipc;
pub mod state;
pub mod json;
pub mod rebar;
pub mod text;
