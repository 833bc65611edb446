//! The Linux platform.

use crate::platform::{Platform, PlatformCapabilities};
use vstd::prelude::*;

verus! {

/// Linux.
#[derive(Debug, Clone, Copy, PartialEq, Eq, Structural)]
pub struct LinuxPlatform;

impl LinuxPlatform {
    /// The platform.
    pub fn new() -> (platform: LinuxPlatform)
        ensures
            platform == LinuxPlatform,
    {
        LinuxPlatform
    }
}

impl Platform for LinuxPlatform {
    open spec fn spec_name(&self) -> Seq<char> {
        "Linux"@
    }

    open spec fn spec_is_supported(&self) -> bool {
        true
    }

    open spec fn spec_capabilities(&self) -> PlatformCapabilities {
        PlatformCapabilities {
            raw_socket_support: true,
            monitor_mode_support: true,
            bpf_support: false,
            netlink_support: true,
            winpcap_support: false,
        }
    }

    fn name(&self) -> (name: &str) {
        "Linux"
    }

    fn is_supported(&self) -> (supported: bool) {
        true
    }

    fn capabilities(&self) -> (capabilities: PlatformCapabilities) {
        PlatformCapabilities {
            raw_socket_support: true,
            monitor_mode_support: true,
            bpf_support: false,
            netlink_support: true,
            winpcap_support: false,
        }
    }
}

} // verus!
