//! Management endpoint of a security key: resolves raw commands from the
//! CTAPHID vendor channel and the ISO 7816 smartcard channel into one set of
//! operations, applies each channel's policy, and executes them.
pub mod app;
pub mod channel;
pub mod command;
pub mod laws;

pub use app::{App, Reboot, Reply, Service};
pub use channel::{apdu_request, hid_commands, hid_request, HidError, Interface, Request, Status};
pub use command::{Command, Error};
