//! The fallback for platforms without a system tray.

use super::PlatformInterface;
use vstd::prelude::*;

verus! {

pub struct UnsupportedPlatform;

impl PlatformInterface for UnsupportedPlatform {
    fn setup_system_tray() -> (outcome: Result<(), String>)
        ensures
            outcome matches Err(reason) && reason@
                == "System tray not supported on this platform"@,
    {
        Err("System tray not supported on this platform".to_owned())
    }
}

} // verus!
