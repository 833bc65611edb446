use chrono::Utc;
use wifi_deauther::address::MacAddress;
use wifi_deauther::gui::export::{CapturedPacket, ExportConfig, ExportManager, ExportMetadata};
use wifi_deauther::gui::targets::{EncryptionType, Target, TargetManager};

fn packet(len: usize) -> CapturedPacket {
    CapturedPacket { timestamp: 0, data: vec![0xAB; len], original_length: len }
}

fn limited(max_packets: Option<usize>, max_size: Option<usize>) -> ExportConfig {
    ExportConfig {
        filename: "test.pcap".to_string(),
        include_metadata: false,
        compress: false,
        max_packets,
        max_size,
    }
}

fn lengths(manager: &ExportManager) -> Vec<usize> {
    manager.packets().iter().map(|p| p.data.len()).collect()
}

fn target(last: u8, ssid: &str) -> Target {
    Target {
        mac_address: MacAddress::new([0, 1, 2, 3, 4, last]),
        ssid: ssid.to_string(),
        channel: 6,
        signal_strength: -50,
        encryption: EncryptionType::WPA2,
        vendor: None,
        last_seen: 0,
    }
}

fn mac(last: u8) -> MacAddress {
    MacAddress::new([0, 1, 2, 3, 4, last])
}

#[test]
fn test_export_metadata() {
    let metadata = ExportMetadata::new(
        Utc::now().timestamp_millis(),
        Utc::now().timestamp_millis(),
        100,
        10000,
        "wlan0".to_string(),
        Some(6),
        None,
        "Test capture".to_string(),
    );

    assert_eq!(metadata.packet_count, 100);
    assert_eq!(metadata.total_bytes, 10000);
    assert_eq!(metadata.interface, "wlan0");
    assert_eq!(metadata.channel, Some(6));
}

#[test]
fn test_export_manager() {
    let config = ExportConfig::default();
    let mut manager = ExportManager::new(config);

    let packet = CapturedPacket {
        timestamp: Utc::now().timestamp_millis(),
        data: vec![0x01, 0x02, 0x03, 0x04],
        original_length: 4,
    };

    manager.add_packet(packet);

    assert_eq!(manager.packet_count(), 1);
    assert_eq!(manager.total_bytes(), 4);
}

#[test]
fn default_export_config() {
    let config = ExportConfig::default();
    assert!(config.include_metadata);
    assert!(!config.compress);
    assert_eq!(config.max_packets, None);
    assert_eq!(config.max_size, None);
    assert!(config.filename.starts_with("capture_"));
    assert!(config.filename.ends_with(".pcap"));
    // capture_ + YYYYMMDD_HHMMSS + .pcap
    assert_eq!(config.filename.len(), 8 + 15 + 5);
}

#[test]
fn metadata_made_at_a_given_time() {
    let metadata = ExportMetadata::new_at(
        9,
        1,
        2,
        3,
        4,
        "en0".to_string(),
        None,
        Some("type mgt".to_string()),
        "d".to_string(),
    );
    assert_eq!(metadata.export_time, 9);
    assert_eq!(metadata.start_time, 1);
    assert_eq!(metadata.end_time, 2);
    assert_eq!(metadata.packet_count, 3);
    assert_eq!(metadata.total_bytes, 4);
    assert_eq!(metadata.interface, "en0");
    assert_eq!(metadata.channel, None);
    assert_eq!(metadata.filter.as_deref(), Some("type mgt"));
    assert_eq!(metadata.description, "d");
}

#[test]
fn export_without_limits_keeps_everything() {
    let mut manager = ExportManager::new(limited(None, None));
    for len in [3usize, 0, 5] {
        manager.add_packet(packet(len));
    }
    assert_eq!(lengths(&manager), vec![3, 0, 5]);
    assert_eq!(manager.total_bytes(), 8);
    assert_eq!(manager.packet_count(), 3);
    assert_eq!(manager.config().filename, "test.pcap");
}

#[test]
fn packet_limit_drops_the_oldest_and_keeps_it_counted() {
    let mut manager = ExportManager::new(limited(Some(2), None));
    manager.add_packet(packet(1));
    manager.add_packet(packet(2));
    assert_eq!(lengths(&manager), vec![1, 2]);
    manager.add_packet(packet(4));
    assert_eq!(lengths(&manager), vec![2, 4]);
    assert_eq!(manager.total_bytes(), 7);
    let none = &mut ExportManager::new(limited(Some(0), None));
    none.add_packet(packet(9));
    assert_eq!(none.packet_count(), 0);
    assert_eq!(none.total_bytes(), 9);
}

#[test]
fn size_limit_drops_the_oldest_until_it_fits() {
    let mut manager = ExportManager::new(limited(None, Some(10)));
    manager.add_packet(packet(4));
    manager.add_packet(packet(4));
    assert_eq!(lengths(&manager), vec![4, 4]);
    manager.add_packet(packet(6));
    // 14 bytes are too many: the oldest goes, and 10 fit.
    assert_eq!(lengths(&manager), vec![4, 6]);
    assert_eq!(manager.total_bytes(), 10);
    // A packet larger than the limit drops everything, itself included.
    manager.add_packet(packet(11));
    assert_eq!(manager.packet_count(), 0);
    assert_eq!(manager.total_bytes(), 0);
}

#[test]
fn both_limits_together() {
    let mut manager = ExportManager::new(limited(Some(2), Some(100)));
    manager.add_packet(packet(60));
    manager.add_packet(packet(30));
    manager.add_packet(packet(5));
    // The packet limit drops the first packet but leaves its 60 bytes
    // counted; 95 bytes are within the size limit.
    assert_eq!(lengths(&manager), vec![30, 5]);
    assert_eq!(manager.total_bytes(), 95);
    manager.add_packet(packet(10));
    // 105 counted: the size limit drops the oldest left, 5 bytes.
    assert_eq!(lengths(&manager), vec![10]);
    assert_eq!(manager.total_bytes(), 100);
}

#[test]
fn export_record_and_clear() {
    let mut manager = ExportManager::new(limited(None, None));
    manager.add_packet(packet(7));
    manager.add_packet(packet(8));
    let metadata = manager.metadata_at(1234);
    assert_eq!(metadata.export_time, 1234);
    assert_eq!(metadata.end_time, 1234);
    assert!(metadata.start_time <= Utc::now().timestamp_millis());
    assert_eq!(metadata.packet_count, 2);
    assert_eq!(metadata.total_bytes, 15);
    assert_eq!(metadata.interface, "wlan0");
    assert_eq!(metadata.channel, Some(6));
    assert_eq!(metadata.filter, None);
    assert_eq!(metadata.description, "Wi-Fi Deauther capture");
    manager.clear();
    assert_eq!(manager.packet_count(), 0);
    assert_eq!(manager.total_bytes(), 0);
}

#[test]
fn targets_are_added_found_and_removed() {
    let mut manager = TargetManager::new();
    assert!(manager.get_targets().is_empty());
    manager.add_target(target(1, "one"));
    manager.add_target(target(2, "two"));
    manager.add_target(target(1, "uno"));
    assert_eq!(manager.get_targets().len(), 2);
    assert_eq!(manager.get_target(&mac(1)).map(|t| t.ssid.as_str()), Some("uno"));
    assert_eq!(manager.get_target(&mac(2)).map(|t| t.ssid.as_str()), Some("two"));
    assert!(manager.get_target(&mac(3)).is_none());
    let mut names: Vec<&str> = manager.get_targets().iter().map(|t| t.ssid.as_str()).collect();
    names.sort();
    assert_eq!(names, vec!["two", "uno"]);

    let removed = manager.remove_target(&mac(1)).expect("a target");
    assert_eq!(removed.ssid, "uno");
    assert!(manager.remove_target(&mac(1)).is_none());
    assert_eq!(manager.get_targets().len(), 1);
    manager.clear_targets();
    assert!(manager.get_targets().is_empty());
    assert!(TargetManager::default().get_targets().is_empty());
}

#[test]
fn targets_are_selected_in_order_and_once() {
    let mut manager = TargetManager::new();
    for last in 1..=3u8 {
        manager.add_target(target(last, "t"));
    }
    assert_eq!(manager.select_target(mac(9)), Err("Target not found".to_string()));
    assert_eq!(manager.select_target(mac(3)), Ok(()));
    assert_eq!(manager.select_target(mac(1)), Ok(()));
    assert_eq!(manager.select_target(mac(3)), Ok(()));
    let picked: Vec<MacAddress> = manager.get_selected_targets().iter().map(|t| t.mac_address).collect();
    assert_eq!(picked, vec![mac(3), mac(1)]);

    manager.deselect_target(&mac(3));
    manager.deselect_target(&mac(2));
    let picked: Vec<MacAddress> = manager.get_selected_targets().iter().map(|t| t.mac_address).collect();
    assert_eq!(picked, vec![mac(1)]);

    // Removing a target withdraws its pick.
    assert_eq!(manager.select_target(mac(2)), Ok(()));
    manager.remove_target(&mac(1));
    let picked: Vec<MacAddress> = manager.get_selected_targets().iter().map(|t| t.mac_address).collect();
    assert_eq!(picked, vec![mac(2)]);
    manager.clear_targets();
    assert!(manager.get_selected_targets().is_empty());
}

#[test]
fn signal_updates_touch_one_target() {
    let mut manager = TargetManager::new();
    manager.add_target(target(1, "one"));
    manager.add_target(target(2, "two"));
    manager.select_target(mac(1)).expect("a target");
    manager.update_signal_at(mac(1), -70, 555);
    manager.update_signal_at(mac(7), -10, 666);
    let one = manager.get_target(&mac(1)).expect("a target");
    assert_eq!(one.signal_strength, -70);
    assert_eq!(one.last_seen, 555);
    assert_eq!(one.ssid, "one");
    assert_eq!(one.encryption, EncryptionType::WPA2);
    let two = manager.get_target(&mac(2)).expect("a target");
    assert_eq!(two.signal_strength, -50);
    assert_eq!(two.last_seen, 0);
    assert!(manager.get_target(&mac(7)).is_none());
    assert_eq!(manager.get_selected_targets().len(), 1);

    manager.update_signal(mac(2), -20);
    let two = manager.get_target(&mac(2)).expect("a target");
    assert_eq!(two.signal_strength, -20);
    assert!(two.last_seen > 0);
}
