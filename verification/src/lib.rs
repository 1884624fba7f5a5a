//! Native backend of the Dex thin client.
//!
//! The library holds the decisions the desktop shell makes: how the outcome of
//! an exchange with the operating system's secret store becomes the reply the
//! user interface sees, which action a tray event stands for, and what each
//! kind of target platform gets. The application around it owns the window
//! runtime and carries the actions out.

pub mod credentials;
pub mod platform;
pub mod text;
pub mod tray;
