//! Kiosk lockdown: the decisions behind a locked-down embedded web view.
//!
//! The library decides which raw input events are swallowed, tracks the
//! global interceptor handles, builds the in-page lockdown script, plans
//! the removal of the rendering engine's artifact directory, and steps the
//! window's lifecycle. The host program performs the OS calls.
pub mod filter;
pub mod hooks;
pub mod lockdown;
pub mod cleanup;
pub mod lifecycle;
