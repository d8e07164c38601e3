use mtp_tui::format::format_size;
use mtp_tui::inspector::{
    decode_prop_value, format_datetime, format_object_format, hex_dump, inspector_properties,
    prop_name, string_value, DateTime, FormatCode, PropertyCode,
};

fn float_size(bytes: u64) -> String {
    const KB: f64 = 1024.0;
    const MB: f64 = KB * 1024.0;
    const GB: f64 = MB * 1024.0;
    let b = bytes as f64;
    if b >= GB {
        format!("{:.1} GB", b / GB)
    } else if b >= MB {
        format!("{:.1} MB", b / MB)
    } else if b >= KB {
        format!("{:.1} KB", b / KB)
    } else {
        format!("{bytes} B")
    }
}

#[test]
fn format_size_exact_values() {
    assert_eq!(format_size(0), "0 B");
    assert_eq!(format_size(512), "512 B");
    assert_eq!(format_size(1023), "1023 B");
    assert_eq!(format_size(1024), "1.0 KB");
    assert_eq!(format_size(1536), "1.5 KB");
    assert_eq!(format_size(1024 * 1024), "1.0 MB");
    assert_eq!(format_size(5 * 1024 * 1024 + 512 * 1024), "5.5 MB");
    assert_eq!(format_size(1024 * 1024 * 1024), "1.0 GB");
    assert_eq!(format_size(u64::MAX), "17179869184.0 GB");
}

#[test]
fn format_size_rounds_ties_like_float_formatting() {
    // 1.25 KB and 1.75 KB are exact binary ties at one decimal.
    assert_eq!(format_size(1280), float_size(1280));
    assert_eq!(format_size(1792), float_size(1792));
    assert_eq!(format_size(1280), "1.2 KB");
    assert_eq!(format_size(1792), "1.8 KB");
}

#[test]
fn format_size_agrees_with_float_formatting() {
    let mut v: u64 = 1;
    while v < u64::MAX / 3 {
        for d in [0u64, 1, 2, 51, 102, 103, 511, 512, 513] {
            let n = v.wrapping_add(d);
            assert_eq!(format_size(n), float_size(n), "value {n}");
            let m = v.wrapping_sub(d.min(v));
            assert_eq!(format_size(m), float_size(m), "value {m}");
        }
        v = v * 3 + 1;
    }
    for n in 0..5000u64 {
        assert_eq!(format_size(n * 97), float_size(n * 97));
    }
    let big = [
        (1u64 << 53) - 1,
        1u64 << 53,
        (1u64 << 53) + 1,
        (1u64 << 53) + 3,
        (1u64 << 60) + 1025,
        u64::MAX - 1024,
        u64::MAX - 2048,
    ];
    for n in big {
        assert_eq!(format_size(n), float_size(n), "value {n}");
    }
}

#[test]
fn hex_dump_cases() {
    assert_eq!(hex_dump(&[]), "(empty)");
    assert_eq!(hex_dump(&[0x0a]), "0A");
    assert_eq!(hex_dump(&[0x00, 0xff, 0x10]), "00 FF 10");
    let bytes: Vec<u8> = (0..40u8).collect();
    let shown: Vec<String> = (0..32u8).map(|b| format!("{b:02X}")).collect();
    assert_eq!(hex_dump(&bytes), format!("{}... (40 bytes total)", shown.join(" ")));
    let exact: Vec<u8> = (0..32u8).collect();
    assert!(!hex_dump(&exact).contains("total"));
}

#[test]
fn prop_names() {
    assert_eq!(prop_name(PropertyCode::StorageId), "StorageId");
    assert_eq!(prop_name(PropertyCode::Name), "Name");
    assert_eq!(prop_name(PropertyCode::Unknown(0xdc4e)), "0xDC4E");
    assert_eq!(prop_name(PropertyCode::Unknown(0x12)), "0x0012");
    assert_eq!(inspector_properties().len(), 9);
    assert_eq!(inspector_properties()[3], PropertyCode::ObjectSize);
}

#[test]
fn decode_numeric_properties() {
    let size = 1536u64.to_le_bytes();
    assert_eq!(decode_prop_value(PropertyCode::ObjectSize, &size), "1.5 KB (1536 bytes)");
    assert_eq!(decode_prop_value(PropertyCode::ObjectFormat, &[0x01, 0x30]), "0x3001");
    assert_eq!(decode_prop_value(PropertyCode::ProtectionStatus, &[0, 0]), "0x0000");
    assert_eq!(decode_prop_value(PropertyCode::StorageId, &[0x01, 0x00, 0x01, 0x00]), "0x00010001");
    assert_eq!(decode_prop_value(PropertyCode::ParentObject, &[0xff, 0xff, 0xff, 0xff]), "0xFFFFFFFF");
}

#[test]
fn decode_short_values_fall_back_to_hex() {
    assert_eq!(decode_prop_value(PropertyCode::ObjectSize, &[1, 2, 3]), "01 02 03");
    assert_eq!(decode_prop_value(PropertyCode::ObjectFormat, &[7]), "07");
    assert_eq!(decode_prop_value(PropertyCode::StorageId, &[]), "(empty)");
    assert_eq!(decode_prop_value(PropertyCode::Unknown(0xdc99), &[0xab, 0xcd]), "AB CD");
}

#[test]
fn decode_string_properties() {
    // "Hi" + NUL terminator, UTF-16LE with a length byte of 3.
    let hi = [3u8, b'H', 0, b'i', 0, 0, 0];
    assert_eq!(decode_prop_value(PropertyCode::ObjectFileName, &hi), "Hi");
    assert_eq!(decode_prop_value(PropertyCode::Name, &[0]), "(empty)");
    // Too short for its length byte: shown raw.
    assert_eq!(decode_prop_value(PropertyCode::DateCreated, &[5, 0x41, 0]), "05 41 00");
    assert_eq!(decode_prop_value(PropertyCode::DateModified, &[]), "(empty)");
    // Unpaired surrogate: invalid UTF-16, shown raw.
    assert_eq!(decode_prop_value(PropertyCode::Name, &[1, 0x00, 0xd8]), "01 00 D8");
}

#[test]
fn string_value_cases() {
    assert_eq!(string_value(Some("abc".to_string()), &[9]), "abc");
    assert_eq!(string_value(Some(String::new()), &[9]), "(empty)");
    assert_eq!(string_value(None, &[9, 10]), "09 0A");
}

#[test]
fn object_format_labels() {
    assert_eq!(format_object_format(FormatCode::Association), "Association/Folder (0x3001)");
    assert_eq!(format_object_format(FormatCode::Png), "PNG (0x380B)");
    assert_eq!(format_object_format(FormatCode::Unknown(0xb123)), "Unknown(0xB123)");
    assert_eq!(format_object_format(FormatCode::OggAudio), "OggAudio");
    assert_eq!(format_object_format(FormatCode::Script), format!("{:?}", mtp_rs::ptp::ObjectFormatCode::Script));
}

#[test]
fn datetime_text() {
    let dt = DateTime { year: 2024, month: 3, day: 5, hour: 7, minute: 0, second: 9 };
    assert_eq!(format_datetime(&dt), "2024-03-05 07:00:09");
    let early = DateTime { year: 7, month: 12, day: 31, hour: 23, minute: 59, second: 59 };
    assert_eq!(format_datetime(&early), "0007-12-31 23:59:59");
}
