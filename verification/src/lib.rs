//! Connection-status derivation and icon selection for the VPN client shell.
//!
//! The library reduces a status snapshot of the daemon to one connection
//! label, maps that label onto the tray icon and the application icon, keeps
//! track of what each surface currently shows, and steps the blinking
//! animation that runs while a connection is being set up or torn down.
//! Everything here works on plain values; locking, drawing, sleeping and
//! talking to the daemon are left to the caller.

pub mod text;
pub mod status;
pub mod label;
pub mod theme;
pub mod icons;
pub mod heartbeat;
pub mod platform;

pub use status::{
    ConnectionState, Destination, DestinationState, FundingIssue, FundingState, RoutingOptions,
    RunMode, StatusResponse,
};
