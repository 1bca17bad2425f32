//! The status snapshot that the daemon reports: run mode, funding health and
//! one connection state per destination.

use std::collections::HashMap;
use vstd::prelude::*;

verus! {

/// `std::time::SystemTime`, carried through unread: the library never looks
/// inside a timestamp.
#[verifier::external_type_specification]
#[verifier::external_body]
pub struct ExSystemTime(std::time::SystemTime);

/// How traffic to a destination is routed.
#[derive(Clone, Debug)]
pub enum RoutingOptions {
    Hops(usize),
    IntermediatePath(Vec<String>),
}

/// A destination the client can connect to.
#[derive(Clone, Debug)]
pub struct Destination {
    pub meta: HashMap<String, String>,
    pub address: String,
    pub routing: RoutingOptions,
}

/// The connection state of one destination, with the time it was entered
/// and, while in transition, the phase reached.
#[derive(Debug)]
pub enum ConnectionState {
    NoConnection,
    Connecting(std::time::SystemTime, String),
    Connected(std::time::SystemTime),
    Disconnecting(std::time::SystemTime, String),
}

/// A destination together with its connection state.
#[derive(Debug)]
pub struct DestinationState {
    pub destination: Destination,
    pub connection_state: ConnectionState,
    pub last_connection_error: Option<String>,
}

/// A funding problem, most severe first. `Other` stands for any problem
/// that has no bearing on the icons.
#[derive(Clone, Copy, Debug, PartialEq, Eq, Structural)]
pub enum FundingIssue {
    Unfunded,
    ChannelsOutOfFunds,
    SafeOutOfFunds,
    SafeLowOnFunds,
    NodeUnderfunded,
    NodeLowOnFunds,
    Other,
}

/// Funding health while the service is running.
#[derive(Clone, Copy, Debug, PartialEq, Eq, Structural)]
pub enum FundingState {
    /// Not queried yet.
    Unknown,
    /// At least one issue is outstanding; this is the most severe.
    TopIssue(FundingIssue),
    WellFunded,
}

/// What the service is doing.
#[derive(Debug)]
pub enum RunMode {
    /// First start, until the safe has been created.
    PreparingSafe { node_address: String, node_xdai: String, node_wxhopr: String },
    /// Starting up.
    Warmup,
    /// Normal operation: connections can be made.
    Running { funding: FundingState },
    /// Shutting down.
    Shutdown,
}

/// One answer of the daemon to a status query.
#[derive(Debug)]
pub struct StatusResponse {
    pub run_mode: RunMode,
    pub destinations: Vec<DestinationState>,
    pub network: String,
}

impl FundingIssue {
    /// The issues that put the low-funds overlay on the application icon.
    pub open spec fn is_low_funds(self) -> bool {
        self != FundingIssue::Other
    }

    /// Whether this issue puts the low-funds overlay on the application icon.
    pub fn triggers_low_funds(&self) -> (low: bool)
        ensures
            low == self.is_low_funds(),
    {
        match self {
            FundingIssue::Unfunded
            | FundingIssue::ChannelsOutOfFunds
            | FundingIssue::SafeOutOfFunds
            | FundingIssue::SafeLowOnFunds
            | FundingIssue::NodeUnderfunded
            | FundingIssue::NodeLowOnFunds => true,
            FundingIssue::Other => false,
        }
    }
}

} // verus!
