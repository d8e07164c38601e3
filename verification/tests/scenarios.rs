use std::path::{Path, PathBuf};
use std::time::Duration;

use mtp_tui::config::{expand_tilde, Config};
use mtp_tui::device::{MtpDeviceBuilder, MtpDeviceInfo};
use mtp_tui::messages::device_dir_warning;
use mtp_tui::usb::{align_to_packet_size, is_mtp_class};

const HOME: &str = "/home/tester";

fn is_dir(p: &str) -> bool {
    Path::new(p).is_dir()
}

#[test]
fn builder_timeout() {
    let builder = MtpDeviceBuilder::new();
    assert_eq!(builder.timeout, mtp_rs::transport::NusbTransport::DEFAULT_TIMEOUT);

    let custom = MtpDeviceBuilder::new().timeout(Duration::from_secs(45));
    assert_eq!(custom.timeout, Duration::from_secs(45));
}

#[test]
fn device_info_display() {
    let with_serial = MtpDeviceInfo {
        vendor_id: 0x04e8,
        product_id: 0x6860,
        manufacturer: Some("Samsung".to_string()),
        product: Some("Galaxy S24".to_string()),
        serial_number: Some("ABC123".to_string()),
        location_id: 0x00200000,
    };
    let display = with_serial.display();
    assert!(display.contains("Samsung") && display.contains("Galaxy S24"));
    assert!(display.contains("ABC123") && display.contains("00200000"));

    let no_serial = MtpDeviceInfo {
        serial_number: None,
        ..with_serial.clone()
    };
    assert!(!no_serial.display().contains("serial:"));

    let unknown = MtpDeviceInfo {
        manufacturer: None,
        product: None,
        ..with_serial
    };
    assert!(unknown.display().contains("Unknown"));
}

#[test]
fn test_align_to_packet_size() {
    assert_eq!(align_to_packet_size(0, 512), 512);
    assert_eq!(align_to_packet_size(1, 512), 512);
    assert_eq!(align_to_packet_size(512, 512), 512);
    assert_eq!(align_to_packet_size(1024, 512), 1024);
    assert_eq!(align_to_packet_size(513, 512), 1024);
    assert_eq!(align_to_packet_size(100, 64), 128);
    assert_eq!(align_to_packet_size(0, 0), 1);
    assert_eq!(align_to_packet_size(100, 0), 100);
}

#[test]
fn test_mtp_class_detection() {
    assert!(is_mtp_class(0x06, 0x01, 0x01));
    assert!(is_mtp_class(0xFF, 0x01, 0x01));
    assert!(!is_mtp_class(0x08, 0x01, 0x01));
    assert!(!is_mtp_class(0x06, 0x00, 0x01));
    assert!(!is_mtp_class(0x06, 0x01, 0x00));
    assert!(!is_mtp_class(0xFF, 0xFF, 0x00));
}

#[test]
fn device_dir_warning_no_segments_reached() {
    let msg = device_dir_warning("/Download/Books", &[]);
    assert!(msg.contains("default_device_dir = \"/Download/Books\""));
    assert!(msg.contains("Opened \"/\" instead."));
}

#[test]
fn device_dir_warning_partial_path_reached() {
    let msg = device_dir_warning("/Download/Books/Fiction", &["Download"]);
    assert!(msg.contains("default_device_dir = \"/Download/Books/Fiction\""));
    assert!(msg.contains("Opened \"/Download\" instead."));
}

#[test]
fn device_dir_warning_two_segments_reached() {
    let msg = device_dir_warning("/A/B/C", &["A", "B"]);
    assert!(msg.contains("Opened \"/A/B\" instead."));
}

#[test]
fn expand_tilde_home() {
    let expanded = expand_tilde("~/Documents", Some(HOME));
    assert_eq!(PathBuf::from(expanded), PathBuf::from(HOME).join("Documents"));
}

#[test]
fn expand_tilde_bare() {
    let expanded = expand_tilde("~", Some(HOME));
    assert_eq!(PathBuf::from(expanded), PathBuf::from(HOME));
}

#[test]
fn expand_tilde_no_prefix() {
    let expanded = expand_tilde("/absolute/path", Some(HOME));
    assert_eq!(PathBuf::from(expanded), PathBuf::from("/absolute/path"));
}

#[test]
fn expand_tilde_mid_path_untouched() {
    let expanded = expand_tilde("/foo/~bar", Some(HOME));
    assert_eq!(PathBuf::from(expanded), PathBuf::from("/foo/~bar"));
}

#[test]
fn host_dir_expanded_returns_none_when_unset() {
    let config = Config::default();
    assert!(config.host_dir_expanded(Some(HOME)).is_none());
}

#[test]
fn host_dir_expanded_returns_path_even_if_missing() {
    let config = Config {
        default_host_dir: Some("~/nonexistent_dir_abc123".into()),
        default_device_dir: None,
    };
    let expanded = PathBuf::from(config.host_dir_expanded(Some(HOME)).unwrap());
    assert!(expanded.is_absolute());
    assert!(expanded.ends_with("nonexistent_dir_abc123"));
    assert!(
        config.host_dir(Some(HOME), is_dir).is_none(),
        "host_dir() should be None for missing dir"
    );
}

#[test]
fn host_dir_expanded_relative_path() {
    let config = Config {
        default_host_dir: Some("relative/path".into()),
        default_device_dir: None,
    };
    let expanded = PathBuf::from(config.host_dir_expanded(Some(HOME)).unwrap());
    assert!(!expanded.is_absolute());
    assert!(
        config.host_dir(Some(HOME), is_dir).is_none(),
        "host_dir() should be None for relative path"
    );
}

#[test]
fn builder_default_matches_new() {
    let b = MtpDeviceBuilder::default();
    assert_eq!(b.timeout, MtpDeviceBuilder::new().timeout);
    assert_eq!(b.timeout, Duration::from_secs(30));
}
