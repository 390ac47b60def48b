use file_compressor::format::divide_half_even;
use file_compressor::text::{append_decimal, append_signed_decimal, digit_text, digit_value, parse_i32};
use file_compressor::{format_ratio, format_size};

#[test]
fn test_format_size_kb() {
    assert_eq!(format_size(512), "0.50 KB");
    assert_eq!(format_size(1024), "1.00 KB");
    assert_eq!(format_size(512 * 1024), "512.00 KB");
}

#[test]
fn test_format_size_mb() {
    assert_eq!(format_size(1_048_576), "1.00 MB");
    assert_eq!(format_size(5 * 1_048_576), "5.00 MB");
    assert_eq!(format_size(1_572_864), "1.50 MB");
}

#[test]
fn test_format_size_gb() {
    assert_eq!(format_size(1_073_741_824), "1.00 GB");
    assert_eq!(format_size(5 * 1_073_741_824), "5.00 GB");
}

#[test]
fn test_format_size_tb() {
    assert_eq!(format_size(1_099_511_627_776), "1.00 TB");
}

#[test]
fn test_format_ratio_reduction() {
    assert_eq!(format_ratio(100, 50), "50.0% riduzione");
    assert_eq!(format_ratio(100, 25), "75.0% riduzione");
}

#[test]
fn test_format_ratio_increase() {
    assert_eq!(format_ratio(100, 150), "50.0% aumento");
}

#[test]
fn test_format_ratio_zero() {
    assert_eq!(format_ratio(0, 100), "N/A");
}

#[test]
fn format_size_of_nothing_is_zero_kb() {
    assert_eq!(format_size(0), "0.00 KB");
}

#[test]
fn format_size_switches_unit_at_each_power() {
    assert_eq!(format_size(1_048_575), "1024.00 KB");
    assert_eq!(format_size(1_073_741_823), "1024.00 MB");
    assert_eq!(format_size(1_099_511_627_775), "1024.00 GB");
    assert_eq!(format_size(u64::MAX), "16777216.00 TB");
}

#[test]
fn format_size_rounds_ties_to_the_even_hundredth() {
    // 0.125 KB and 0.375 KB lie exactly between two hundredths.
    assert_eq!(format_size(128), "0.12 KB");
    assert_eq!(format_size(384), "0.38 KB");
    assert_eq!(format_size(1), "0.00 KB");
    assert_eq!(format_size(6), "0.01 KB");
    assert_eq!(format_size(1023), "1.00 KB");
}

fn float_size_text(bytes: u64) -> String {
    let kb = 1024u64;
    let mb = 1024 * kb;
    let gb = 1024 * mb;
    let tb = 1024 * gb;
    if bytes >= tb {
        format!("{:.2} TB", bytes as f64 / tb as f64)
    } else if bytes >= gb {
        format!("{:.2} GB", bytes as f64 / gb as f64)
    } else if bytes >= mb {
        format!("{:.2} MB", bytes as f64 / mb as f64)
    } else {
        format!("{:.2} KB", bytes as f64 / kb as f64)
    }
}

#[test]
fn format_size_agrees_with_floating_point_formatting() {
    for bytes in 0..5000u64 {
        assert_eq!(format_size(bytes), float_size_text(bytes), "{} bytes", bytes);
    }
    let mut state: u64 = 0x2545_f491_4f6c_dd1d;
    for _ in 0..20_000 {
        state ^= state << 13;
        state ^= state >> 7;
        state ^= state << 17;
        let bytes = state >> (11 + (state % 43));
        assert_eq!(format_size(bytes), float_size_text(bytes), "{} bytes", bytes);
    }
}

#[test]
fn format_ratio_of_equal_sizes_is_no_reduction() {
    assert_eq!(format_ratio(100, 100), "0.0% riduzione");
    assert_eq!(format_ratio(1, 0), "100.0% riduzione");
}

#[test]
fn format_ratio_rounds_to_the_nearest_tenth() {
    assert_eq!(format_ratio(3, 1), "66.7% riduzione");
    assert_eq!(format_ratio(3, 2), "33.3% riduzione");
    assert_eq!(format_ratio(1000, 1), "99.9% riduzione");
    assert_eq!(format_ratio(7, 9), "28.6% aumento");
    assert_eq!(format_ratio(10_000, 10_001), "0.0% aumento");
    assert_eq!(format_ratio(1, u64::MAX), "1844674407370955161400.0% aumento");
}

#[test]
fn format_ratio_rounds_ties_to_the_even_tenth() {
    // 1/16 is 6.25 percent and 3/16 is 18.75 percent.
    assert_eq!(format_ratio(16, 15), "6.2% riduzione");
    assert_eq!(format_ratio(16, 13), "18.8% riduzione");
    assert_eq!(format_ratio(16, 17), "6.2% aumento");
}

#[test]
fn format_ratio_agrees_with_floating_point_formatting_off_ties() {
    let mut state: u64 = 0x9e37_79b9_7f4a_7c15;
    let mut compared = 0;
    for _ in 0..20_000 {
        state ^= state << 13;
        state ^= state >> 7;
        state ^= state << 17;
        let original = (state >> 40) + 1;
        let compressed = (state >> 8) % (2 * original);
        let difference = original.abs_diff(compressed);
        if (difference as u128 * 2000) % (original as u128) == 0 {
            continue;
        }
        let ratio = (1.0 - (compressed as f64 / original as f64)) * 100.0;
        let expected = if ratio >= 0.0 {
            format!("{:.1}% riduzione", ratio)
        } else {
            format!("{:.1}% aumento", -ratio)
        };
        assert_eq!(format_ratio(original, compressed), expected, "{} -> {}", original, compressed);
        compared += 1;
    }
    assert!(compared > 19_000);
}

#[test]
fn division_rounds_half_to_even() {
    assert_eq!(divide_half_even(0, 7), 0);
    assert_eq!(divide_half_even(1, 2), 0);
    assert_eq!(divide_half_even(3, 2), 2);
    assert_eq!(divide_half_even(5, 2), 2);
    assert_eq!(divide_half_even(7, 2), 4);
    assert_eq!(divide_half_even(10, 4), 2);
    assert_eq!(divide_half_even(11, 4), 3);
    assert_eq!(divide_half_even(14, 4), 4);
    assert_eq!(divide_half_even(u128::MAX, 1), u128::MAX);
    assert_eq!(divide_half_even(u128::MAX, u128::MAX), 1);
    assert_eq!(divide_half_even(u128::MAX - 1, u128::MAX), 1);
    assert_eq!(divide_half_even(u128::MAX / 2, u128::MAX), 0);
    assert_eq!(divide_half_even(u128::MAX / 2 + 1, u128::MAX), 1);
    assert_eq!(divide_half_even(u128::MAX, 2), u128::MAX / 2 + 1);
}

#[test]
fn decimal_text_is_written_and_read() {
    let mut text = String::from("n=");
    append_decimal(&mut text, 0);
    append_decimal(&mut text, 1234567890);
    append_decimal(&mut text, u128::MAX);
    assert_eq!(text, "n=01234567890340282366920938463463374607431768211455");
    let mut text = String::new();
    append_signed_decimal(&mut text, -17);
    append_signed_decimal(&mut text, 0);
    append_signed_decimal(&mut text, i32::MIN);
    append_signed_decimal(&mut text, i32::MAX);
    assert_eq!(text, "-170-21474836482147483647");
    for digit in 0..10u8 {
        let character = (b'0' + digit) as char;
        assert_eq!(digit_text(digit), character.to_string());
        assert_eq!(digit_value(character), Some(digit));
    }
    assert_eq!(digit_value('a'), None);
    assert_eq!(digit_value('٣'), None);
    assert_eq!(parse_i32("-2147483648"), Some(i32::MIN));
    assert_eq!(parse_i32("2147483647"), Some(i32::MAX));
    assert_eq!(parse_i32("2147483648"), None);
    assert_eq!(parse_i32("+0"), Some(0));
    assert_eq!(parse_i32("-"), None);
}

#[test]
fn integers_are_read_as_the_standard_parser_reads_them() {
    let mut state: u64 = 0x0123_4567_89ab_cdef;
    let alphabet: Vec<char> = "0123456789+-0123456789 x".chars().collect();
    for _ in 0..50_000 {
        state ^= state << 13;
        state ^= state >> 7;
        state ^= state << 17;
        let length = (state % 13) as usize;
        let mut text = String::new();
        let mut bits = state >> 8;
        for _ in 0..length {
            text.push(alphabet[(bits % alphabet.len() as u64) as usize]);
            bits /= 3;
        }
        assert_eq!(parse_i32(&text), text.parse::<i32>().ok(), "{:?}", text);
    }
}
