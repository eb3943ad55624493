use instar::rounding::{half_even, half_up, rounded_percentage, to_binary64};
use instar::size::{
    format_size_human, parse_memory_size, parse_qemu_img_size, parse_resize_size, ParsedResizeSize,
};

fn nearest_even(value: f64) -> f64 {
    let floor = value.floor();
    let fract = value - floor;
    if (fract - 0.5).abs() < f64::EPSILON {
        if floor as i64 % 2 == 0 {
            floor
        } else {
            floor + 1.0
        }
    } else {
        value.round()
    }
}

fn float_size(value: f64, unit: &str, compatible: bool) -> String {
    if compatible {
        let rounded = if value >= 100.0 {
            nearest_even(value)
        } else if value >= 10.0 {
            nearest_even(value * 10.0) / 10.0
        } else {
            nearest_even(value * 100.0) / 100.0
        };
        if rounded.fract() == 0.0 {
            return format!("{} {}", rounded as u64, unit);
        }
        let s = format!("{rounded}");
        format!("{} {}", s.trim_end_matches('0').trim_end_matches('.'), unit)
    } else {
        let rounded = (value * 10.0).round() / 10.0;
        if rounded.fract() == 0.0 {
            format!("{} {}", rounded as u64, unit)
        } else {
            format!("{rounded:.1} {unit}")
        }
    }
}

fn by_floats(bytes: u64, compatible: bool) -> String {
    let b = bytes as f64;
    let k = 1024.0;
    if b >= k * k * k * k {
        float_size(b / (k * k * k * k), "TiB", compatible)
    } else if b >= k * k * k {
        float_size(b / (k * k * k), "GiB", compatible)
    } else if b >= k * k {
        float_size(b / (k * k), "MiB", compatible)
    } else if b >= k {
        float_size(b / k, "KiB", compatible)
    } else if bytes == 0 {
        "0".to_string()
    } else {
        format!("{bytes} B")
    }
}

#[test]
fn sizes_agree_with_floating_point() {
    let mut sizes: Vec<u64> = vec![0, 1, 512, 1023, 1024, 1025, 1029, 1034, u64::MAX, u64::MAX - 1023];
    for shift in [10u64, 20, 30, 40] {
        let unit = 1u64 << shift;
        for n in [1u64, 2, 9, 10, 11, 99, 100, 101, 192, 193, 999, 1000, 1023] {
            for part in [0, 1, 5, 10, 51, 102, 128, 256, 511, 512, 513, 768, 1018, 1023] {
                sizes.push(n * unit + part * (unit / 1024));
                sizes.push(n * unit + part * (unit / 1024) + 1);
            }
            sizes.push(n * unit + unit / 2);
            sizes.push(n * unit + unit / 20);
            sizes.push(n * unit + unit / 200);
        }
    }
    let mut n: u64 = 12345;
    for _ in 0..2000 {
        n = n.wrapping_mul(6364136223846793005).wrapping_add(1442695040888963407);
        sizes.push(n >> (n % 50));
    }
    for size in sizes {
        for compatible in [true, false] {
            assert_eq!(
                format_size_human(size, compatible),
                by_floats(size, compatible),
                "size {} compatible {}",
                size,
                compatible
            );
        }
    }
}

#[test]
fn sizes_have_the_expected_text() {
    assert_eq!(format_size_human(0, true), "0");
    assert_eq!(format_size_human(500, true), "500 B");
    assert_eq!(format_size_human(1536, true), "1.5 KiB");
    assert_eq!(format_size_human(197120, true), "192 KiB");
    assert_eq!(format_size_human(198144, true), "194 KiB");
    assert_eq!(format_size_human(197120, false), "192.5 KiB");
    assert_eq!(format_size_human(1 << 30, true), "1 GiB");
}

#[test]
fn memory_sizes_know_four_suffixes() {
    assert_eq!(parse_memory_size("4096").unwrap(), 4096);
    assert_eq!(parse_memory_size(" 256M ").unwrap(), 256 << 20);
    assert_eq!(parse_memory_size("1g").unwrap(), 1 << 30);
    assert_eq!(parse_memory_size("2T").unwrap(), 2 << 40);
    assert_eq!(parse_memory_size("3k").unwrap(), 3 << 10);
    assert_eq!(parse_memory_size("+5").unwrap(), 5);
    assert_eq!(parse_memory_size("").unwrap_err(), "empty memory size string");
    assert_eq!(parse_memory_size("1P").unwrap_err(), "invalid memory size: '1P'");
    assert_eq!(parse_memory_size("1 G").unwrap_err(), "invalid memory size: '1 G'");
    assert_eq!(
        parse_memory_size("99999999T").unwrap_err(),
        "memory size overflow: '99999999T'"
    );
    assert!(parse_memory_size("18446744073709551616").is_err());
}

#[test]
fn image_sizes_name_what_they_refuse() {
    assert_eq!(parse_qemu_img_size("1 G").unwrap(), 1 << 30);
    assert_eq!(parse_qemu_img_size(" ").unwrap_err(), "empty size string");
    assert_eq!(parse_qemu_img_size("1B").unwrap_err(), "invalid size: '1B'");
    assert_eq!(parse_qemu_img_size("16E").unwrap_err(), "size overflow: '16E'");
    assert_eq!(parse_qemu_img_size("15E").unwrap(), 15 << 60);
}

#[test]
fn a_sign_makes_a_size_relative() {
    assert!(matches!(parse_resize_size(" +1k "), Ok(ParsedResizeSize::Add(1024))));
    assert!(matches!(parse_resize_size("-1b"), Ok(ParsedResizeSize::Subtract(512))));
    assert!(matches!(parse_resize_size("--1"), Err(_)));
    assert!(matches!(parse_resize_size("0"), Ok(ParsedResizeSize::Absolute(0))));
}

#[test]
fn rounding_picks_the_nearest() {
    assert_eq!(half_even(5, 2), 2);
    assert_eq!(half_even(7, 2), 4);
    assert_eq!(half_even(8, 3), 3);
    assert_eq!(half_up(5, 2), 3);
    assert_eq!(half_up(4, 3), 1);
}

#[test]
fn wide_numbers_lose_their_low_bits() {
    for n in [0u64, 1, (1 << 53) - 1, (1 << 53) + 1, (1 << 53) + 3, u64::MAX, u64::MAX - 1024] {
        assert_eq!(to_binary64(n as u128), n as f64 as u128);
    }
}

#[test]
fn percentages_agree_with_floating_point() {
    let mut n: u64 = 99;
    for _ in 0..2000 {
        n = n.wrapping_mul(6364136223846793005).wrapping_add(1442695040888963407);
        let total = (n >> (n % 60)).max(1);
        let count = n.rotate_left(17) % (total.saturating_add(1)).max(1);
        let percent = (count as f64 / total as f64) * 100.0;
        let text = format!("{:.2}", percent);
        let digits: String = text.chars().filter(|c| *c != '.').collect();
        assert_eq!(
            rounded_percentage(count, total, 100),
            digits.parse::<u128>().unwrap(),
            "{} of {}",
            count,
            total
        );
    }
    assert_eq!(rounded_percentage(5, 0, 100), 0);
}
