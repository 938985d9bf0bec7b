//! The rules of a terminal pomodoro timer: which interval comes next, how far
//! its progress bar has filled, which hue each cell of the bar takes, and how
//! key presses steer a running interval.
//!
//! Nothing here touches the terminal or the clock. Callers hand in what they
//! read (keys, elapsed milliseconds) and get back what to show.

pub mod event;
pub mod gradient;
pub mod paint;
pub mod progress;
pub mod schedule;
pub mod session;
pub mod text;
