use instar::create_options::parse_create_o_options;
use instar::measure_options::parse_o_options;
use instar::options::parse_amend_o_options;
use instar::text::{
    byte_length, parse_number, push_hex, push_left_aligned, push_right_aligned, push_zero_padded,
    split, split_once, starts_with, to_lower, trim,
};

fn strings(given: &[&str]) -> Vec<String> {
    given.iter().map(|s| s.to_string()).collect()
}

#[test]
fn white_space_is_cut_as_std_cuts_it() {
    let samples = [
        "", " ", "a", "  a b\t\n", "\u{a0}x\u{3000}", "\u{200b}y", "\u{85}\u{1680}z\u{2028}", "\r\n",
    ];
    for sample in samples {
        assert_eq!(trim(sample), sample.trim());
    }
    for code in 0..0x3100u32 {
        if let Some(c) = char::from_u32(code) {
            let text = format!("{c}q{c}");
            assert_eq!(trim(&text), text.trim(), "{code:x}");
        }
    }
}

#[test]
fn pieces_are_split_as_std_splits_them() {
    for sample in ["", ",", "a", "a,b", ",a,,b,", "é,ü", "a=b=c"] {
        let parts: Vec<String> = sample.split(',').map(str::to_string).collect();
        assert_eq!(split(sample, ','), parts);
        let pair = sample.split_once('=').map(|(k, v)| (k.to_string(), v.to_string()));
        assert_eq!(split_once(sample, '='), pair);
    }
}

#[test]
fn joined_texts_have_joined_pieces() {
    for (a, b) in [("", ""), ("x", "y"), ("a,b", "c"), (",", "d,,")] {
        let mut both = split(a, ',');
        both.extend(split(b, ','));
        assert_eq!(split(&format!("{a},{b}"), ','), both);
    }
}

#[test]
fn only_ascii_letters_are_lowered() {
    for sample in ["", "ON", "Yes", "ÄÖ", "\u{212a}", "aZ09[@`{"] {
        assert_eq!(to_lower(sample), sample.to_ascii_lowercase());
    }
    assert!(starts_with("raw:image", "raw:"));
    assert!(!starts_with("ra", "raw"));
    assert!(starts_with("x", ""));
}

#[test]
fn columns_are_padded_but_never_cut() {
    let mut s = String::new();
    push_left_aligned(&mut s, "ab", 5);
    push_right_aligned(&mut s, "cd", 5);
    push_right_aligned(&mut s, "wider", 3);
    push_zero_padded(&mut s, 255, 16, 4);
    push_hex(&mut s, 0xbeef);
    assert_eq!(s, format!("{:<5}{:>5}{:>3}{:04x}{:x}", "ab", "cd", "wider", 255, 0xbeef));
    assert_eq!(byte_length("aé€😀"), 10);
}

#[test]
fn numbers_are_read_as_std_reads_them() {
    let samples = [
        "", "0", "+7", "+", "-1", "007", "255", "256", "12a", " 1", "1 ", "١", "++1",
    ];
    for sample in samples {
        assert_eq!(parse_number(sample, 255), sample.parse::<u8>().ok().map(u64::from), "{sample}");
    }
    assert_eq!(parse_number("18446744073709551615", u64::MAX), Some(u64::MAX));
    assert_eq!(parse_number("18446744073709551616", u64::MAX), None);
}

#[test]
fn options_given_twice_are_options_joined_by_a_comma() {
    let twice = strings(&["size=1M", "compat=1.1", "cluster_size=4096", "size=2M"]);
    let once = strings(&["size=1M", "compat=1.1,cluster_size=4096", "size=2M"]);
    let a = parse_create_o_options("qcow2", &twice).unwrap();
    let b = parse_create_o_options("qcow2", &once).unwrap();
    assert_eq!((a.size, a.compat_v3, a.cluster_size), (b.size, b.compat_v3, b.cluster_size));
    assert_eq!(a.size, Some(2 * 1024 * 1024));

    let a = parse_amend_o_options(&strings(&["compat=0.10", "compat=1.1"])).unwrap();
    let b = parse_amend_o_options(&strings(&["compat=0.10,compat=1.1"])).unwrap();
    assert_eq!(a.compat_v3, Some(true));
    assert_eq!(a.compat_v3, b.compat_v3);

    let a = parse_o_options("qcow2", &strings(&["cluster_size=512", "cluster_size=1024"])).unwrap();
    let b = parse_o_options("qcow2", &strings(&["cluster_size=512,cluster_size=1024"])).unwrap();
    assert_eq!(a.cluster_size, Some(1024));
    assert_eq!(a.cluster_size, b.cluster_size);
}
