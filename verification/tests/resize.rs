use instar::abi::{
    IMAGE_FORMAT_QCOW2, IMAGE_FORMAT_RAW, IMAGE_FORMAT_VHD, IMAGE_FORMAT_VHDX, IMAGE_FORMAT_VMDK3,
    IMAGE_FORMAT_VMDK4, RESIZE_RESULT_ERROR_HEADER_MISMATCH,
};
use instar::formats::image_format_name;
use instar::resize::map_resize_error;
use instar::size::{parse_qemu_img_size, parse_resize_size, ParsedResizeSize};

#[test]
fn qemu_img_size_bare_number_is_bytes() {
    assert_eq!(parse_qemu_img_size("1024").unwrap(), 1024);
}

#[test]
fn qemu_img_size_suffixes() {
    assert_eq!(parse_qemu_img_size("1b").unwrap(), 512);
    assert_eq!(parse_qemu_img_size("1k").unwrap(), 1024);
    assert_eq!(parse_qemu_img_size("1K").unwrap(), 1024);
    assert_eq!(parse_qemu_img_size("1M").unwrap(), 1 << 20);
    assert_eq!(parse_qemu_img_size("1G").unwrap(), 1 << 30);
    assert_eq!(parse_qemu_img_size("1T").unwrap(), 1u64 << 40);
    assert_eq!(parse_qemu_img_size("1P").unwrap(), 1u64 << 50);
    assert_eq!(parse_qemu_img_size("1E").unwrap(), 1u64 << 60);
}

#[test]
fn qemu_img_size_rejects_empty() {
    assert!(parse_qemu_img_size("").is_err());
    assert!(parse_qemu_img_size("   ").is_err());
}

#[test]
fn qemu_img_size_rejects_garbage() {
    assert!(parse_qemu_img_size("abc").is_err());
    assert!(parse_qemu_img_size("1xq").is_err());
}

#[test]
fn qemu_img_size_overflow() {
    assert!(parse_qemu_img_size("32E").is_err());
}

#[test]
fn resize_size_absolute() {
    match parse_resize_size("1G").unwrap() {
        ParsedResizeSize::Absolute(v) => assert_eq!(v, 1 << 30),
        other => panic!("expected Absolute, got {other:?}"),
    }
}

#[test]
fn resize_size_additive() {
    match parse_resize_size("+512M").unwrap() {
        ParsedResizeSize::Add(v) => assert_eq!(v, 512 << 20),
        other => panic!("expected Add, got {other:?}"),
    }
}

#[test]
fn resize_size_subtractive() {
    match parse_resize_size("-256k").unwrap() {
        ParsedResizeSize::Subtract(v) => assert_eq!(v, 256 << 10),
        other => panic!("expected Subtract, got {other:?}"),
    }
}

#[test]
fn resize_size_rejects_empty() {
    assert!(parse_resize_size("").is_err());
    assert!(parse_resize_size("+").is_err());
    assert!(parse_resize_size("-").is_err());
}

#[test]
fn image_format_names_match_qemu() {
    assert_eq!(image_format_name(IMAGE_FORMAT_RAW), "raw");
    assert_eq!(image_format_name(IMAGE_FORMAT_QCOW2), "qcow2");
    assert_eq!(image_format_name(IMAGE_FORMAT_VMDK4), "vmdk");
    assert_eq!(image_format_name(IMAGE_FORMAT_VMDK3), "vmdk");
    assert_eq!(image_format_name(IMAGE_FORMAT_VHD), "vpc");
    assert_eq!(image_format_name(IMAGE_FORMAT_VHDX), "vhdx");
    assert_eq!(image_format_name(999), "unknown");
}

#[test]
fn resize_error_codes_have_messages() {
    for code in 0..=RESIZE_RESULT_ERROR_HEADER_MISMATCH {
        let msg = map_resize_error(code);
        assert!(!msg.is_empty(), "code {code} has empty message");
        assert!(
            !msg.starts_with("unknown"),
            "code {code} hit the unknown-fallback: {msg}"
        );
    }
}
