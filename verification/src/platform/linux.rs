//! Linux: the tray needs no preparation of its own.

use super::PlatformInterface;
use vstd::prelude::*;

verus! {

pub struct LinuxPlatform;

impl PlatformInterface for LinuxPlatform {
    fn setup_system_tray() -> (outcome: Result<(), String>)
        ensures
            outcome is Ok,
    {
        Ok(())
    }
}

} // verus!
