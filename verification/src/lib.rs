//! Setting and reading the polling rate and the DPI of Razer DeathAdder mice.
//!
//! The library decides and computes; talking to the HID layer is left to its
//! caller. A run is planned by [`session::plan`], the reports it sends are
//! built in [`report`], and each of them goes through an exchange that
//! [`exchange::Phase`] leads.
pub mod devices;
pub mod error;
pub mod exchange;
pub mod profile;
pub mod report;
pub mod session;
pub mod text;
