//! The macOS platform.

use crate::platform::{Platform, PlatformCapabilities};
use vstd::prelude::*;

verus! {

/// macOS.
#[derive(Debug, Clone, Copy, PartialEq, Eq, Structural)]
pub struct MacOSPlatform;

impl MacOSPlatform {
    /// The platform.
    pub fn new() -> (platform: MacOSPlatform)
        ensures
            platform == MacOSPlatform,
    {
        MacOSPlatform
    }
}

impl Platform for MacOSPlatform {
    open spec fn spec_name(&self) -> Seq<char> {
        "macOS"@
    }

    open spec fn spec_is_supported(&self) -> bool {
        true
    }

    open spec fn spec_capabilities(&self) -> PlatformCapabilities {
        PlatformCapabilities {
            raw_socket_support: true,
            monitor_mode_support: false,
            bpf_support: true,
            netlink_support: false,
            winpcap_support: false,
        }
    }

    fn name(&self) -> (name: &str) {
        "macOS"
    }

    fn is_supported(&self) -> (supported: bool) {
        true
    }

    fn capabilities(&self) -> (capabilities: PlatformCapabilities) {
        PlatformCapabilities {
            raw_socket_support: true,
            monitor_mode_support: false,
            bpf_support: true,
            netlink_support: false,
            winpcap_support: false,
        }
    }
}

} // verus!
