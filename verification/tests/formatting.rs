use superpilot::util::format_bytes;

/// The byte formatting written with floating point, as a reference.
fn float_format(bytes: u64) -> String {
    let units = ["B", "KB", "MB", "GB", "TB"];
    let mut size = bytes as f64;
    let mut unit_index = 0;
    while size >= 1024.0 && unit_index < units.len() - 1 {
        size /= 1024.0;
        unit_index += 1;
    }
    format!("{:.2} {}", size, units[unit_index])
}

#[test]
fn format_bytes_matches_float_formatting_on_edges() {
    let mut values: Vec<u64> = vec![0, 1, 9, 10, 99, 100, 999, 1000, 1023, 1024, 1025, 1152, 1153, 1535,
        1536, 2047, 2048, 5120, 10240, 1048575, 1048576, 1073741823, 1073741824, 1099511627775,
        1099511627776, u64::MAX, u64::MAX - 1, 1 << 53, (1 << 53) + 1, (1 << 53) - 1, (1 << 54) + 3];
    for k in 0..64u32 {
        let p = 1u64 << k;
        values.push(p);
        values.push(p - 1);
        values.push(p.wrapping_add(1));
        values.push(p + p / 2);
    }
    // Values whose scaled hundredths end in exactly one half (ties).
    for unit in 0..5u32 {
        let scale = 1u64 << (10 * unit);
        for h in 0..400u64 {
            if let Some(v) = (2 * h + 1).checked_mul(scale) {
                if v % 200 == 0 {
                    values.push(v / 200);
                }
            }
            if let Some(v) = h.checked_mul(scale).and_then(|x| x.checked_mul(5)) {
                values.push(v);
            }
        }
    }
    for v in values {
        assert_eq!(format_bytes(v), float_format(v), "bytes = {}", v);
    }
}

#[test]
fn format_bytes_matches_float_formatting_on_a_sweep() {
    let mut x: u64 = 0x9E3779B97F4A7C15;
    for i in 0..200000u64 {
        x ^= x << 13;
        x ^= x >> 7;
        x ^= x << 17;
        let v = match i % 6 {
            0 => x,
            1 => x >> 20,
            2 => x >> 34,
            3 => x >> 44,
            4 => x % 5000,
            _ => x >> 54,
        };
        assert_eq!(format_bytes(v), float_format(v), "bytes = {}", v);
    }
}

#[test]
fn format_bytes_rounds_ties_to_even() {
    // 1152 bytes is exactly 1.125 KB; the tie goes to the even digit.
    assert_eq!(format_bytes(1152), "1.12 KB");
    // 1177.6 is not representable; 1178 bytes is 1.150390625 KB.
    assert_eq!(format_bytes(1178), "1.15 KB");
    assert_eq!(format_bytes(0), "0.00 B");
    assert_eq!(format_bytes(1023), "1023.00 B");
    assert_eq!(format_bytes(1536), "1.50 KB");
}

#[test]
fn format_bytes_caps_at_terabytes() {
    assert_eq!(format_bytes(1024u64.pow(4)), "1.00 TB");
    assert_eq!(format_bytes(1024u64.pow(5)), "1024.00 TB");
    assert_eq!(format_bytes(u64::MAX), "16777216.00 TB");
}
