//! The decisions of a HUD launcher: a transparent, borderless window that a
//! global shortcut shows under the cursor and hides again, and that runs
//! scripts and shell commands for its content.
//!
//! Nothing here touches a window, a process or the environment. A caller
//! reads what the windowing system reports, asks this library what to do, and
//! does it.
//!
//! - [`positioner`]: where to put the window, and how far off it ended up.
//! - [`controller`]: when to show and when to hide it.
//! - [`process`]: what to run, and what its outcome means.
//! - [`units`]: the exact arithmetic of pixels, points and scale factors.

pub mod controller;
pub mod positioner;
pub mod process;
pub mod units;
