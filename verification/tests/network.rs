use wifi_deauther::address::MacAddress;
use wifi_deauther::network::capture::{capture_step, CaptureEvent, CaptureResult, CaptureStats, CaptureStep};
use wifi_deauther::network::injection::{BatchInjector, InjectionResult, InjectionStats};
use wifi_deauther::network::interface::{
    discover_linux_interfaces, get_platform, linux_interface, parse_operstate, InterfaceManager,
    InterfaceStatus, InterfaceType, LinuxInterfaceData, MacOSInterfaceData, MonitorModeStep,
    NetworkInterface, Platform, PlatformInterfaceData, SysfsEntry, WindowsInterfaceData,
};
use wifi_deauther::platform::{
    get_current_platform, LinuxPlatform, MacOSPlatform, Platform as PlatformOps, SupportedPlatform,
    WindowsPlatform,
};
use wifi_deauther::DeauthError;

fn interface(name: &str, kind: InterfaceType, data: PlatformInterfaceData) -> NetworkInterface {
    NetworkInterface {
        name: name.to_string(),
        index: 1,
        mac_address: MacAddress::new([2, 0, 0, 0, 0, 1]),
        interface_type: kind,
        status: InterfaceStatus::Up,
        supported_channels: Vec::new(),
        current_channel: None,
        signal_strength: None,
        platform_data: data,
    }
}

fn linux() -> PlatformInterfaceData {
    PlatformInterfaceData::Linux(LinuxInterfaceData {
        ifindex: 1,
        flags: 0,
        driver: "unknown".to_string(),
    })
}

fn windows() -> PlatformInterfaceData {
    PlatformInterfaceData::Windows(WindowsInterfaceData {
        guid: String::new(),
        description: String::new(),
        adapter_type: String::new(),
    })
}

fn macos() -> PlatformInterfaceData {
    PlatformInterfaceData::MacOS(MacOSInterfaceData { bpf_device: None, io_service: String::new() })
}

#[test]
fn test_injection_result() {
    let result = InjectionResult {
        success: true,
        bytes_sent: 100,
        error: None,
    };

    assert!(result.success);
    assert_eq!(result.bytes_sent, 100);
    assert!(result.error.is_none());
}

#[test]
fn test_interface_manager_creation() {
    let manager = InterfaceManager::new();
    assert!(manager.get_interfaces().is_empty());
}

#[test]
fn test_interface_types() {
    assert_eq!(InterfaceType::WiFi, InterfaceType::WiFi);
    assert_ne!(InterfaceType::WiFi, InterfaceType::Ethernet);
}

#[test]
fn test_platform_detection() {
    assert_eq!(get_platform("linux"), Platform::Linux);
    assert_eq!(get_platform("windows"), Platform::Windows);
    assert_eq!(get_platform("macos"), Platform::MacOS);
}

#[test]
fn unknown_platform_names() {
    assert_eq!(get_platform("freebsd"), Platform::Unknown);
    assert_eq!(get_platform(""), Platform::Unknown);
    assert_eq!(get_platform("Linux"), Platform::Unknown);
    assert_eq!(get_platform("linux "), Platform::Unknown);
}

#[test]
fn injection_result_from_outcome() {
    let sent = InjectionResult::from_outcome(26, Ok(()));
    assert!(sent.success);
    assert_eq!(sent.bytes_sent, 26);
    assert!(sent.error.is_none());

    let failed = InjectionResult::from_outcome(26, Err("Injector not initialized".to_string()));
    assert!(!failed.success);
    assert_eq!(failed.bytes_sent, 0);
    assert_eq!(failed.error.as_deref(), Some("Injector not initialized"));

    let direct = InjectionResult::sent(3);
    assert!(direct.success && direct.bytes_sent == 3 && direct.error.is_none());
    let refused = InjectionResult::failed("no".to_string());
    assert!(!refused.success && refused.bytes_sent == 0);
}

#[test]
fn injection_stats_start_at_zero() {
    assert_eq!(
        InjectionStats::zero(),
        InjectionStats { packets_sent: 0, packets_dropped: 0, bytes_sent: 0, errors: 0 }
    );
}

#[test]
fn batch_deals_in_turn() {
    let mut batch = BatchInjector::new(3);
    let dealt: Vec<usize> = (0..7).map(|_| batch.next_injector()).collect();
    assert_eq!(dealt, vec![0, 1, 2, 0, 1, 2, 0]);
    let mut single = BatchInjector::new(1);
    assert_eq!(single.next_injector(), 0);
    assert_eq!(single.next_injector(), 0);
}

#[test]
fn capture_loop_steps() {
    let packet = CaptureResult::new(5, vec![1, 2, 3]);
    assert_eq!(packet.length, 3);
    assert_eq!(packet.timestamp, 5);
    assert_eq!(packet.data, vec![1, 2, 3]);
    assert_eq!(capture_step(&CaptureEvent::Packet(packet)), CaptureStep::Deliver);
    assert_eq!(capture_step(&CaptureEvent::Timeout), CaptureStep::Retry);
    assert_eq!(capture_step(&CaptureEvent::Failed), CaptureStep::Stop);
    let stats = CaptureStats { packets_captured: 1, packets_dropped: 2, bytes_captured: 3 };
    assert_eq!(stats.bytes_captured, 3);
}

#[test]
fn operstate_words() {
    assert_eq!(parse_operstate("up"), InterfaceStatus::Up);
    assert_eq!(parse_operstate("down"), InterfaceStatus::Down);
    assert_eq!(parse_operstate("dormant"), InterfaceStatus::Unknown);
    assert_eq!(parse_operstate(""), InterfaceStatus::Unknown);
    assert_eq!(parse_operstate("UP"), InterfaceStatus::Unknown);
}

#[test]
fn manager_finds_interfaces_by_name_and_kind() {
    let mut manager = InterfaceManager::new();
    assert!(manager.get_interface("wlan0").is_none());
    assert!(manager.get_wifi_interfaces().is_empty());
    manager.set_interfaces(vec![
        interface("eth0", InterfaceType::Ethernet, linux()),
        interface("wlan0", InterfaceType::WiFi, linux()),
        interface("wlan1", InterfaceType::WiFi, linux()),
        interface("tun0", InterfaceType::Other, linux()),
    ]);
    assert_eq!(manager.get_interfaces().len(), 4);
    let names: Vec<&str> = manager.get_wifi_interfaces().iter().map(|i| i.name.as_str()).collect();
    assert_eq!(names, vec!["wlan0", "wlan1"]);
    assert_eq!(manager.get_interface("wlan1").map(|i| i.interface_type), Some(InterfaceType::WiFi));
    assert_eq!(manager.get_interface("eth0").map(|i| i.interface_type), Some(InterfaceType::Ethernet));
    assert!(manager.get_interface("wlan").is_none());
    manager.set_interfaces(Vec::new());
    assert!(manager.get_interface("wlan0").is_none());
}

#[test]
fn monitor_mode_by_platform() {
    let manager = InterfaceManager::new();
    let on_linux = interface("wlan0", InterfaceType::WiFi, linux());
    let on_windows = interface("Wi-Fi", InterfaceType::WiFi, windows());
    let on_macos = interface("en0", InterfaceType::WiFi, macos());
    let nowhere = interface("x", InterfaceType::WiFi, PlatformInterfaceData::Unknown);
    let wired = interface("eth0", InterfaceType::Ethernet, linux());

    assert_eq!(manager.supports_monitor_mode(&on_linux), Ok(true));
    assert_eq!(manager.supports_monitor_mode(&on_windows), Ok(true));
    assert_eq!(manager.supports_monitor_mode(&on_macos), Ok(true));
    assert_eq!(manager.supports_monitor_mode(&nowhere), Ok(false));

    assert_eq!(manager.enable_monitor_mode(&on_linux), Ok(MonitorModeStep::SetMode));
    assert_eq!(manager.enable_monitor_mode(&on_macos), Ok(MonitorModeStep::Nothing));
    assert!(matches!(manager.enable_monitor_mode(&on_windows), Err(DeauthError::PlatformError(_))));
    assert!(matches!(manager.enable_monitor_mode(&nowhere), Err(DeauthError::PlatformError(_))));
    assert!(matches!(manager.enable_monitor_mode(&wired), Err(DeauthError::InterfaceError(_))));
}

#[test]
fn platforms_and_their_capabilities() {
    let linux = LinuxPlatform::new();
    assert_eq!(linux.name(), "Linux");
    assert!(linux.is_supported());
    let caps = linux.capabilities();
    assert!(caps.raw_socket_support && caps.monitor_mode_support && caps.netlink_support);
    assert!(!caps.bpf_support && !caps.winpcap_support);

    let windows = WindowsPlatform::new();
    assert_eq!(windows.name(), "Windows");
    assert!(windows.is_supported());
    let caps = windows.capabilities();
    assert!(caps.raw_socket_support && caps.winpcap_support);
    assert!(!caps.monitor_mode_support && !caps.bpf_support && !caps.netlink_support);

    let macos = MacOSPlatform::new();
    assert_eq!(macos.name(), "macOS");
    assert!(macos.is_supported());
    let caps = macos.capabilities();
    assert!(caps.raw_socket_support && caps.bpf_support);
    assert!(!caps.monitor_mode_support && !caps.netlink_support && !caps.winpcap_support);
}

#[test]
fn current_platform_by_name() {
    assert_eq!(get_current_platform("linux"), SupportedPlatform::Linux(LinuxPlatform));
    assert_eq!(get_current_platform("windows"), SupportedPlatform::Windows(WindowsPlatform));
    assert_eq!(get_current_platform("macos"), SupportedPlatform::MacOS(MacOSPlatform));
    assert_eq!(get_current_platform("linux").name(), "Linux");
    assert_eq!(get_current_platform("windows").name(), "Windows");
    assert_eq!(get_current_platform("macos").name(), "macOS");
    assert!(get_current_platform("macos").is_supported());
    assert_eq!(get_current_platform("linux").capabilities(), LinuxPlatform.capabilities());
}

fn entry(name: &str, address: Option<&str>) -> SysfsEntry {
    SysfsEntry {
        name: name.to_string(),
        address: address.map(|a| a.to_string()),
        ifindex: Some("3\n".to_string()),
        wireless: false,
        operstate: Some("up\n".to_string()),
        driver: Some("e1000e".to_string()),
    }
}

#[test]
fn addresses_are_read_from_text() {
    assert_eq!(
        MacAddress::parse("00:11:22:aa:BB:ff").map(|m| m.bytes()),
        Some([0x00, 0x11, 0x22, 0xaa, 0xbb, 0xff])
    );
    assert_eq!(
        MacAddress::parse("00-11-22-33-44-55").map(|m| m.bytes()),
        Some([0x00, 0x11, 0x22, 0x33, 0x44, 0x55])
    );
    assert_eq!(
        MacAddress::parse("0011223344ff").map(|m| m.bytes()),
        Some([0x00, 0x11, 0x22, 0x33, 0x44, 0xff])
    );
    assert!(MacAddress::parse("").is_none());
    assert!(MacAddress::parse("00:11:22:33:44").is_none());
    assert!(MacAddress::parse("00:11:22:33:44:gg").is_none());
    assert!(MacAddress::parse(" 00:11:22:33:44:55").is_none());
}

#[test]
fn an_entry_becomes_an_interface() {
    let mut wlan = entry("wlan0", Some("  02:00:00:00:00:01\n"));
    wlan.wireless = true;
    wlan.operstate = Some("down\n".to_string());
    wlan.ifindex = Some(" 7 \n".to_string());
    let interface = linux_interface(&wlan).expect("readable").expect("an interface");
    assert_eq!(interface.name, "wlan0");
    assert_eq!(interface.index, 7);
    assert_eq!(interface.mac_address, MacAddress::new([2, 0, 0, 0, 0, 1]));
    assert_eq!(interface.interface_type, InterfaceType::WiFi);
    assert_eq!(interface.status, InterfaceStatus::Down);
    assert!(interface.supported_channels.is_empty());
    assert_eq!(interface.current_channel, None);
    assert_eq!(interface.signal_strength, None);
    match interface.platform_data {
        PlatformInterfaceData::Linux(data) => {
            assert_eq!(data.ifindex, 7);
            assert_eq!(data.flags, 0);
            assert_eq!(data.driver, "e1000e");
        }
        _ => panic!("a Linux interface"),
    }
}

#[test]
fn what_an_entry_lacks_is_filled_in() {
    let bare = SysfsEntry {
        name: "eth1".to_string(),
        address: Some("020000000002".to_string()),
        ifindex: None,
        wireless: false,
        operstate: None,
        driver: None,
    };
    let interface = linux_interface(&bare).expect("readable").expect("an interface");
    assert_eq!(interface.index, 0);
    assert_eq!(interface.interface_type, InterfaceType::Ethernet);
    assert_eq!(interface.status, InterfaceStatus::Unknown);
    match interface.platform_data {
        PlatformInterfaceData::Linux(data) => assert_eq!(data.driver, "unknown"),
        _ => panic!("a Linux interface"),
    }
    let mut odd = entry("eth2", Some("02:00:00:00:00:03"));
    odd.ifindex = Some("seven".to_string());
    odd.operstate = Some("dormant".to_string());
    let interface = linux_interface(&odd).expect("readable").expect("an interface");
    assert_eq!(interface.index, 0);
    assert_eq!(interface.status, InterfaceStatus::Unknown);
    let mut large = entry("eth3", Some("02:00:00:00:00:03"));
    large.ifindex = Some("4294967296".to_string());
    assert_eq!(linux_interface(&large).expect("readable").expect("an interface").index, 0);
}

#[test]
fn entries_passed_over_and_refused() {
    assert!(linux_interface(&entry("lo", Some("00:00:00:00:00:00"))).expect("passed over").is_none());
    assert!(linux_interface(&entry("eth0", None)).expect("passed over").is_none());
    let refused = linux_interface(&entry("eth0", Some("not an address"))).expect_err("refused");
    assert_eq!(refused, DeauthError::InterfaceError("Invalid MAC address".to_string()));
}

#[test]
fn discovery_keeps_the_order_and_fails_as_a_whole() {
    let entries = vec![
        entry("lo", Some("00:00:00:00:00:00")),
        entry("eth0", Some("02:00:00:00:00:01")),
        entry("tun0", None),
        entry("wlan0", Some("02:00:00:00:00:02")),
    ];
    let found = discover_linux_interfaces(&entries).expect("readable");
    let names: Vec<&str> = found.iter().map(|i| i.name.as_str()).collect();
    assert_eq!(names, vec!["eth0", "wlan0"]);

    let mut broken = entries.clone();
    broken.push(entry("eth9", Some("zz:zz:zz:zz:zz:zz")));
    assert!(matches!(discover_linux_interfaces(&broken), Err(DeauthError::InterfaceError(_))));
    assert!(discover_linux_interfaces(&Vec::new()).expect("nothing to read").is_empty());
}

#[test]
fn manager_discovers_by_platform() {
    let entries = vec![
        entry("eth0", Some("02:00:00:00:00:01")),
        entry("wlan0", Some("02:00:00:00:00:02")),
    ];
    let mut manager = InterfaceManager::new();
    assert_eq!(manager.discover_interfaces(Platform::Linux, &entries), Ok(2));
    assert_eq!(manager.get_interfaces().len(), 2);
    assert!(manager.get_interface("wlan0").is_some());

    // A failure leaves what was known.
    let broken = vec![entry("eth7", Some("?"))];
    assert!(matches!(
        manager.discover_interfaces(Platform::Linux, &broken),
        Err(DeauthError::InterfaceError(_))
    ));
    assert_eq!(
        manager.discover_interfaces(Platform::Unknown, &entries),
        Err(DeauthError::PlatformError("Unsupported platform".to_string()))
    );
    assert_eq!(manager.get_interfaces().len(), 2);

    assert_eq!(manager.discover_interfaces(Platform::Windows, &entries), Ok(0));
    assert!(manager.get_interfaces().is_empty());
    assert_eq!(manager.discover_interfaces(Platform::Linux, &entries), Ok(2));
    assert_eq!(manager.discover_interfaces(Platform::MacOS, &entries), Ok(0));
    assert!(manager.get_interfaces().is_empty());
}

#[test]
fn the_later_of_two_interfaces_with_one_name_stays() {
    let mut manager = InterfaceManager::new();
    manager.set_interfaces(vec![
        interface("wlan0", InterfaceType::Ethernet, linux()),
        interface("eth0", InterfaceType::Ethernet, linux()),
        interface("wlan0", InterfaceType::WiFi, linux()),
    ]);
    assert_eq!(manager.get_interfaces().len(), 2);
    assert_eq!(manager.get_interface("wlan0").map(|i| i.interface_type), Some(InterfaceType::WiFi));
    assert_eq!(manager.get_wifi_interfaces().len(), 1);
}

#[test]
fn start_up_check_by_platform() {
    let root = wifi_deauther::platform::HostFacts {
        effective_uid: 0,
        capture_library_installed: true,
        bpf_devices: Some(2),
    };
    let user = wifi_deauther::platform::HostFacts { effective_uid: 1000, ..root };
    let bare = wifi_deauther::platform::HostFacts {
        effective_uid: 1000,
        capture_library_installed: false,
        bpf_devices: Some(0),
    };
    let unlisted = wifi_deauther::platform::HostFacts { bpf_devices: None, ..bare };
    let check = wifi_deauther::platform::check_platform_compatibility;

    assert_eq!(check(Platform::Linux, &root), Ok(()));
    assert_eq!(
        check(Platform::Linux, &user),
        Err(DeauthError::PermissionError(
            "This application requires root privileges for packet injection. Please run with sudo."
                .to_string()
        ))
    );
    assert_eq!(check(Platform::Windows, &user), Ok(()));
    assert_eq!(
        check(Platform::Windows, &bare),
        Err(DeauthError::PlatformError(
            "Npcap or WinPcap not found. Please install Npcap from https://npcap.com/".to_string()
        ))
    );
    assert_eq!(check(Platform::MacOS, &user), Ok(()));
    assert_eq!(check(Platform::MacOS, &unlisted), Ok(()));
    assert_eq!(
        check(Platform::MacOS, &bare),
        Err(DeauthError::PlatformError(
            "No BPF devices found. You may need to load the BPF kernel extension.".to_string()
        ))
    );
    assert_eq!(check(Platform::Unknown, &bare), Ok(()));
}
