//! Session coordinator of a panel applet that controls display brightness
//! through a settings daemon reached over the session message bus.
//!
//! The coordinator is a reducer: [`Window::update`] takes one inbound
//! message at a time and returns the one effect that the surrounding
//! application has to carry out.

pub mod daemon;
pub mod laws;
pub mod window;

pub use daemon::{DaemonEvent, Request};
pub use window::{BrightnessSlider, Effect, Message, Window, WindowView};
