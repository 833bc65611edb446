//! The Windows platform.

use crate::platform::{Platform, PlatformCapabilities};
use vstd::prelude::*;

verus! {

/// Windows.
#[derive(Debug, Clone, Copy, PartialEq, Eq, Structural)]
pub struct WindowsPlatform;

impl WindowsPlatform {
    /// The platform.
    pub fn new() -> (platform: WindowsPlatform)
        ensures
            platform == WindowsPlatform,
    {
        WindowsPlatform
    }
}

impl Platform for WindowsPlatform {
    open spec fn spec_name(&self) -> Seq<char> {
        "Windows"@
    }

    open spec fn spec_is_supported(&self) -> bool {
        true
    }

    open spec fn spec_capabilities(&self) -> PlatformCapabilities {
        PlatformCapabilities {
            raw_socket_support: true,
            monitor_mode_support: false,
            bpf_support: false,
            netlink_support: false,
            winpcap_support: true,
        }
    }

    fn name(&self) -> (name: &str) {
        "Windows"
    }

    fn is_supported(&self) -> (supported: bool) {
        true
    }

    fn capabilities(&self) -> (capabilities: PlatformCapabilities) {
        PlatformCapabilities {
            raw_socket_support: true,
            monitor_mode_support: false,
            bpf_support: false,
            netlink_support: false,
            winpcap_support: true,
        }
    }
}

} // verus!
