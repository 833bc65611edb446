//! What each supported operating system can do.

pub mod linux;
pub mod macos;
pub mod windows;

pub use linux::LinuxPlatform;
pub use macos::MacOSPlatform;
pub use windows::WindowsPlatform;

use crate::error::DeauthError;
use crate::network::interface::Platform as Host;
use vstd::prelude::*;

verus! {

/// What a platform offers for sending and capturing.
#[derive(Debug, Clone, Copy, PartialEq, Eq, Structural)]
pub struct PlatformCapabilities {
    /// Raw sockets can be opened.
    pub raw_socket_support: bool,
    /// An interface can be put into monitor mode.
    pub monitor_mode_support: bool,
    /// Packets can be captured through BPF devices.
    pub bpf_support: bool,
    /// Interfaces can be managed over netlink.
    pub netlink_support: bool,
    /// Packets can be captured through WinPcap or Npcap.
    pub winpcap_support: bool,
}

/// An operating system as the runtime sees it.
pub trait Platform {
    /// The platform's name.
    spec fn spec_name(&self) -> Seq<char>;

    /// Whether the runtime works on the platform.
    spec fn spec_is_supported(&self) -> bool;

    /// What the platform offers.
    spec fn spec_capabilities(&self) -> PlatformCapabilities;

    /// The platform's name.
    fn name(&self) -> (name: &str)
        ensures
            name@ == self.spec_name(),
    ;

    /// Whether the runtime works on the platform.
    fn is_supported(&self) -> (supported: bool)
        ensures
            supported == self.spec_is_supported(),
    ;

    /// What the platform offers.
    fn capabilities(&self) -> (capabilities: PlatformCapabilities)
        ensures
            capabilities == self.spec_capabilities(),
    ;
}

/// `str`'s `==`: whether two strings hold the same characters.
#[verifier::external_body]
pub(crate) fn str_eq(a: &str, b: &str) -> (same: bool)
    ensures
        same == (a@ == b@),
{
    a == b
}

/// Whether the name is that of an operating system the runtime knows, as
/// the compiler spells it.
pub open spec fn known_os(os: Seq<char>) -> bool {
    os == "linux"@ || os == "windows"@ || os == "macos"@
}

/// One of the platforms that the runtime works on.
#[derive(Debug, Clone, Copy, PartialEq, Eq, Structural)]
pub enum SupportedPlatform {
    /// Linux.
    Linux(LinuxPlatform),
    /// Windows.
    Windows(WindowsPlatform),
    /// macOS.
    MacOS(MacOSPlatform),
}

impl Platform for SupportedPlatform {
    open spec fn spec_name(&self) -> Seq<char> {
        match *self {
            SupportedPlatform::Linux(p) => p.spec_name(),
            SupportedPlatform::Windows(p) => p.spec_name(),
            SupportedPlatform::MacOS(p) => p.spec_name(),
        }
    }

    open spec fn spec_is_supported(&self) -> bool {
        true
    }

    open spec fn spec_capabilities(&self) -> PlatformCapabilities {
        match *self {
            SupportedPlatform::Linux(p) => p.spec_capabilities(),
            SupportedPlatform::Windows(p) => p.spec_capabilities(),
            SupportedPlatform::MacOS(p) => p.spec_capabilities(),
        }
    }

    fn name(&self) -> (name: &str) {
        match self {
            SupportedPlatform::Linux(p) => p.name(),
            SupportedPlatform::Windows(p) => p.name(),
            SupportedPlatform::MacOS(p) => p.name(),
        }
    }

    fn is_supported(&self) -> (supported: bool) {
        true
    }

    fn capabilities(&self) -> (capabilities: PlatformCapabilities) {
        match self {
            SupportedPlatform::Linux(p) => p.capabilities(),
            SupportedPlatform::Windows(p) => p.capabilities(),
            SupportedPlatform::MacOS(p) => p.capabilities(),
        }
    }
}

/// The platform that the name of a known operating system stands for.
pub open spec fn supported_platform(os: Seq<char>) -> SupportedPlatform {
    if os == "linux"@ {
        SupportedPlatform::Linux(LinuxPlatform)
    } else if os == "windows"@ {
        SupportedPlatform::Windows(WindowsPlatform)
    } else {
        SupportedPlatform::MacOS(MacOSPlatform)
    }
}

/// The platform of the operating system with the given name, as the compiler
/// spells it: `linux`, `windows` or `macos`.
pub fn get_current_platform(os: &str) -> (platform: SupportedPlatform)
    requires
        known_os(os@),
    ensures
        platform == supported_platform(os@),
{
    if str_eq(os, "linux") {
        SupportedPlatform::Linux(LinuxPlatform::new())
    } else if str_eq(os, "windows") {
        SupportedPlatform::Windows(WindowsPlatform::new())
    } else {
        SupportedPlatform::MacOS(MacOSPlatform::new())
    }
}

/// What was found out about the machine before the runtime starts.
#[derive(Debug, Clone, Copy, PartialEq, Eq, Structural)]
pub struct HostFacts {
    /// The effective user of the process.
    pub effective_uid: u32,
    /// Whether a capture library is installed.
    pub capture_library_installed: bool,
    /// How many BPF devices there are, if they could be listed.
    pub bpf_devices: Option<usize>,
}

/// Whether the runtime can start on the machine: on Linux only as the
/// superuser, on Windows only with a capture library, on macOS not where the
/// BPF devices could be listed and there is none.
pub open spec fn compatible(host: Host, facts: HostFacts) -> bool {
    match host {
        Host::Linux => facts.effective_uid == 0,
        Host::Windows => facts.capture_library_installed,
        Host::MacOS => facts.bpf_devices != Some(0usize),
        Host::Unknown => true,
    }
}

/// Checks that the runtime can start on the machine, and says what is
/// missing where it cannot.
pub fn check_platform_compatibility(host: Host, facts: &HostFacts) -> (r: Result<(), DeauthError>)
    ensures
        r is Ok <==> compatible(host, *facts),
        r matches Err(e) ==> match host {
            Host::Linux => e is PermissionError && e.spec_message()@
                == "This application requires root privileges for packet injection. Please run with sudo."@,
            Host::Windows => e is PlatformError && e.spec_message()@
                == "Npcap or WinPcap not found. Please install Npcap from https://npcap.com/"@,
            _ => e is PlatformError && e.spec_message()@
                == "No BPF devices found. You may need to load the BPF kernel extension."@,
        },
{
    match host {
        Host::Linux => {
            if facts.effective_uid != 0 {
                return Err(
                    DeauthError::PermissionError(
                        "This application requires root privileges for packet injection. Please run with sudo.".to_string(),
                    ),
                );
            }
        },
        Host::Windows => {
            if !facts.capture_library_installed {
                return Err(
                    DeauthError::PlatformError(
                        "Npcap or WinPcap not found. Please install Npcap from https://npcap.com/".to_string(),
                    ),
                );
            }
        },
        Host::MacOS => {
            match facts.bpf_devices {
                Some(0) => {
                    return Err(
                        DeauthError::PlatformError(
                            "No BPF devices found. You may need to load the BPF kernel extension.".to_string(),
                        ),
                    );
                },
                _ => {},
            }
        },
        Host::Unknown => {},
    }
    Ok(())
}

} // verus!
