//! What the shell needs from the platform it runs on.

pub mod common;
pub mod linux;
pub mod macos;

use vstd::prelude::*;

verus! {

/// A platform the shell can run on.
pub trait PlatformInterface {
    /// Prepares the platform for a tray icon, or says why it cannot have one.
    fn setup_system_tray() -> Result<(), String>;
}

} // verus!
