//! What the remaining operations ask of their guests.
use instar::chain::{create_single_image_chain, ChainImage};
use instar::convert::{
    check_convert_input, check_encryption, finish_convert, flat_extent_name, plan_convert,
    plan_output, read_convert_target, reports_failure, skips_zeros, write_convert_config,
    ConvertArgs, ConvertSecrets, ConvertTarget, OutputOpen,
};
use instar::copy::{check_copy, plan_copy, write_copy_config, CopyArgs};
use instar::formats::ImageFormat;
use instar::info::{
    descriptor_failure, guest_memory_size, info_profile, plan_info, probe_config,
    resolve_luks_passphrase, write_info_config, InfoArgs,
};
use instar::info_report::OutputProfile;
use instar::luks::{luks_random_data, place_uuid};
use instar::map::{plan_map, write_map_config, MapArgs};
use instar::map_report::finish_map;
use instar::measure::{
    check_measure_source, mentions_bitmaps, plan_measure, write_measure_config, MeasureArgs,
};
use instar::measure_options::parse_o_options;
use instar::message::CompleteMessage;
use instar::passphrase::{pick_passphrase, strip_newline, strip_newlines, take_first_line};
use instar::snapshot::{finish_snapshot, plan_snapshot, write_snapshot_config, SnapshotArgs};

fn t(s: &str) -> String {
    s.to_string()
}

fn image(format: ImageFormat, cluster_size: u32) -> ChainImage {
    create_single_image_chain("/i", format, 2, "x", 1 << 20, 5, cluster_size, 0).remove(0)
}

fn info_args() -> InfoArgs {
    InfoArgs {
        input: t("/i"),
        sector_size: 65536,
        ignore_quirks: false,
        unsafe_quirks: false,
        qemu_version: None,
        output: t("human"),
        chain: false,
        extra_detail: false,
        luks_passphrase: None,
        luks_passphrase_file: None,
        max_guest_memory: None,
    }
}

#[test]
fn info_is_configured_for_its_guest() {
    let mut args = info_args();
    args.unsafe_quirks = true;
    args.extra_detail = true;
    let config = plan_info(&args, true, (32 << 20) + 100, &Some(t("pw"))).unwrap();
    assert_eq!(config.flags, 0x8000_000f);
    let bytes = write_info_config(&config);
    assert_eq!(bytes.len(), 280);
    assert_eq!(&bytes[..4], &0x494E464Fu32.to_le_bytes());
    assert_eq!(&bytes[8..12], &2u32.to_le_bytes());
    assert_eq!(&bytes[16..19], b"pw\0");
    assert_eq!(&bytes[272..280], &100u64.to_le_bytes());
    assert_eq!(
        plan_info(&args, true, 32 << 20, &Some("x".repeat(257))).unwrap_err(),
        "passphrase too long (257 bytes, max 256)"
    );
    assert_eq!(probe_config(false).flags, 3);
    assert_eq!(probe_config(true).flags, 7);
    assert_eq!(descriptor_failure("x"), "error resolving VMDK descriptor: x");
}

#[test]
fn guests_have_a_least_memory() {
    assert_eq!(guest_memory_size(&None).unwrap(), 32 << 20);
    assert_eq!(guest_memory_size(&Some(t("1G"))).unwrap(), 1 << 30);
    assert_eq!(
        guest_memory_size(&Some(t("1M"))).unwrap_err(),
        "--max-guest-memory must be at least 32MB (got 1M)"
    );
    assert_eq!(guest_memory_size(&Some(t("?"))).unwrap_err(), "invalid memory size: '?'");
}

#[test]
fn a_passphrase_file_gives_its_first_line() {
    let mut args = info_args();
    args.luks_passphrase_file = Some(t("/p"));
    assert_eq!(
        resolve_luks_passphrase(&args, &Ok(t("one\ntwo\n"))).unwrap(),
        Some(t("one"))
    );
    assert_eq!(
        resolve_luks_passphrase(&args, &Err(t("gone"))).unwrap_err(),
        "failed to read passphrase file '/p': gone"
    );
    args.luks_passphrase = Some(t("given"));
    assert_eq!(resolve_luks_passphrase(&args, &Ok(t("x"))).unwrap(), Some(t("given")));
    assert_eq!(take_first_line("a\nb"), "a");
    assert_eq!(take_first_line("\n"), "");
    assert_eq!(strip_newlines("a\n\n"), "a");
    assert_eq!(strip_newline("a\n\n"), "a\n");
    assert_eq!(strip_newline("a"), "a");
    assert_eq!(pick_passphrase(&None, &Some(t("b"))), Some(t("b")));
    assert_eq!(pick_passphrase(&Some(t("a")), &Some(t("b"))), Some(t("a")));
}

#[test]
fn the_profile_follows_the_version() {
    let known = OutputProfile { include_dirty_flag: true, include_child_node: false };
    let detected = OutputProfile { include_dirty_flag: false, include_child_node: true };
    let mut args = info_args();
    let p = info_profile(&args, None, detected).unwrap();
    assert!(p.include_child_node);
    args.qemu_version = Some(t("7.2"));
    let p = info_profile(&args, Some(known), detected).unwrap();
    assert!(p.include_dirty_flag);
    assert_eq!(
        info_profile(&args, None, detected).unwrap_err(),
        "invalid qemu version '7.2' (expected format: X.Y)"
    );
}

#[test]
fn a_copy_is_planned() {
    let mut args = CopyArgs {
        input_sector_size: 512,
        output_sector_size: 65536,
        max_output_size: None,
        preallocate_output: false,
        progress_percent: 10,
        verify: true,
        skip_zeros: true,
        start_sector: 3,
        sector_count: 4,
    };
    assert!(check_copy(&args).is_ok());
    let plan = plan_copy(&args, 999, true);
    assert_eq!((plan.output_capacity, plan.sparse_output), (999, true));
    let bytes = write_copy_config(&plan.config);
    assert_eq!(&bytes[..4], &0x434F5059u32.to_le_bytes());
    assert_eq!(&bytes[4..8], &0x8000_0003u32.to_le_bytes());
    assert_eq!(&bytes[8..16], &3u64.to_le_bytes());
    assert_eq!(&bytes[16..24], &4u64.to_le_bytes());
    args.max_output_size = Some(5);
    args.preallocate_output = true;
    let plan = plan_copy(&args, 999, false);
    assert_eq!((plan.output_capacity, plan.sparse_output), (5, false));
    args.output_sector_size = 100;
    assert_eq!(
        check_copy(&args).unwrap_err(),
        "output sector size must be a power of 2, 512 to 65536 (got 100)"
    );
    args.input_sector_size = 1;
    assert_eq!(
        check_copy(&args).unwrap_err(),
        "input sector size must be a power of 2, 512 to 65536 (got 1)"
    );
}

fn convert_args(format: &str) -> ConvertArgs {
    ConvertArgs {
        input: t("/i"),
        output: t("/o"),
        output_format: t(format),
        sector_size: 65536,
        cluster_size: 65536,
        compress: false,
        skip_zeros: false,
        no_skip_zeros: false,
        progress_percent: 10,
        no_create: false,
        extended_l2: false,
        luks_encrypt_iterations: 20000,
        snapshot: None,
        subformat: t(""),
        grain_size: 65536,
        block_size: 0,
    }
}

fn convert_refusal<F: FnOnce(&mut ConvertArgs)>(format: &str, change: F) -> String {
    let mut a = convert_args(format);
    change(&mut a);
    read_convert_target(&a).unwrap_err()
}

#[test]
fn each_rule_of_a_conversion_has_its_refusal() {
    assert_eq!(
        convert_refusal("iso", |_| {}),
        "unsupported output format 'iso' (supported: 'raw', 'qcow2', 'vmdk', 'vpc', 'vhdx')"
    );
    assert!(convert_refusal("raw", |a| a.sector_size = 3).starts_with("sector size must be"));
    assert_eq!(
        convert_refusal("qcow2", |a| a.cluster_size = 100),
        "cluster size must be a power of 2, 512 to 2097152 (got 100)"
    );
    assert!(convert_refusal("raw", |a| a.compress = true).starts_with("compression (-c) is only"));
    assert!(convert_refusal("raw", |a| a.extended_l2 = true).starts_with("--extended-l2 is only"));
    assert_eq!(
        convert_refusal("vmdk", |a| a.grain_size = 512),
        "grain size must be a power of 2, 4096 to 65536 (got 512)"
    );
    assert!(convert_refusal("raw", |a| a.grain_size = 512).starts_with("--grain-size is only"));
    assert!(convert_refusal("raw", |a| a.subformat = t("x")).starts_with("--subformat is only"));
    assert!(convert_refusal("vmdk", |a| a.subformat = t("x")).starts_with("unsupported VMDK subformat 'x'"));
    assert!(convert_refusal("vmdk", |a| {
        a.subformat = t("monolithicFlat");
        a.compress = true;
    })
    .contains("not supported with monolithicFlat"));
    assert!(convert_refusal("raw", |a| a.block_size = 512).starts_with("--block-size is only"));
    assert_eq!(
        convert_refusal("vpc", |a| a.block_size = 3),
        "block size must be a power of 2 (got 3)"
    );
    assert_eq!(
        convert_refusal("vpc", |a| a.block_size = 262144),
        "VHD block size must be 524288 to 268435456 (got 262144)"
    );
    assert_eq!(
        convert_refusal("vhdx", |a| a.block_size = 524288),
        "VHDX block size must be 1048576 to 268435456 (got 524288)"
    );
    let raw = ConvertTarget { format: 1, flat: false };
    let qcow2 = ConvertTarget { format: 2, flat: false };
    assert!(check_encryption(raw, false, true).unwrap_err().contains("only supported with QCOW2"));
    assert!(check_encryption(qcow2, true, true).unwrap_err().contains("cannot be combined with -c"));
    assert!(check_encryption(qcow2, false, true).is_ok());
    assert!(check_encryption(raw, true, false).is_ok());
}

#[test]
fn the_input_of_a_conversion_must_fit() {
    assert_eq!(check_convert_input(&vec![image(ImageFormat::Qcow2, 65536)]).unwrap(), 1 << 20);
    assert!(check_convert_input(&vec![image(ImageFormat::Vhdx, 32 << 20)]).is_ok());
    assert_eq!(
        check_convert_input(&vec![image(ImageFormat::Qcow2, 4 << 20)]).unwrap_err(),
        "cluster size 4096KB in /i exceeds maximum supported 2048KB"
    );
    let mut many = Vec::new();
    for _ in 0..16 {
        many.push(image(ImageFormat::Qcow2, 512));
    }
    assert_eq!(
        check_convert_input(&many).unwrap_err(),
        "chain depth 16 plus output device exceeds maximum of 16 devices"
    );
    let mut empty = image(ImageFormat::Qcow2, 512);
    empty.virtual_size = 0;
    assert_eq!(
        check_convert_input(&vec![empty]).unwrap_err(),
        "input image has zero virtual size"
    );
}

#[test]
fn an_output_has_room_for_its_format() {
    let mib = 1u64 << 20;
    let plan = |args: &ConvertArgs, skip| {
        let target = read_convert_target(args).unwrap();
        plan_output(args, target, 100 * mib, skip)
    };
    let raw = plan(&convert_args("raw"), true);
    assert_eq!((raw.format, raw.capacity), (1, 100 * mib));
    assert_eq!(raw.open, OutputOpen::Create { capacity: 100 * mib, sparse: true });
    let qcow2 = plan(&convert_args("qcow2"), false);
    assert_eq!(qcow2.capacity, 111 * mib);
    assert_eq!(qcow2.open, OutputOpen::Create { capacity: 111 * mib, sparse: true });
    let vhdx = plan(&convert_args("vhdx"), false);
    assert_eq!(vhdx.capacity, 138 * mib);
    let mut flat = convert_args("vmdk");
    flat.subformat = t("monolithicFlat");
    let flat = plan(&flat, false);
    assert_eq!((flat.format, flat.capacity), (1, 100 * mib));
    let mut packed = convert_args("qcow2");
    packed.compress = true;
    packed.no_create = true;
    let packed = plan(&packed, false);
    assert_eq!((packed.sector_size, packed.open), (512, OutputOpen::Existing));
    let mut small = convert_args("qcow2");
    small.cluster_size = 4096;
    assert_eq!(plan(&small, false).sector_size, 4096);
    assert_eq!(flat_extent_name(Some("foo")), "foo-flat.vmdk");
    assert_eq!(flat_extent_name(None), "output-flat.vmdk");
}

#[test]
fn zeros_are_skipped_unless_refused() {
    let mut args = convert_args("raw");
    assert!(skips_zeros(&args, None));
    assert!(!skips_zeros(&args, Some(false)));
    args.skip_zeros = true;
    assert!(skips_zeros(&args, Some(false)));
    args.no_skip_zeros = true;
    assert!(!skips_zeros(&args, Some(true)));
}

#[test]
fn a_conversion_is_configured_for_its_guest() {
    let mut args = convert_args("qcow2");
    args.snapshot = Some(t("snap"));
    args.extended_l2 = true;
    let target = read_convert_target(&args).unwrap();
    let secrets = ConvertSecrets { qcow2: None, luks: None, encrypt: Some(t("secret")) };
    let config = plan_convert(&args, target, true, true, 3, 32 << 20, &secrets, 0x50_0000).unwrap();
    assert_eq!(config.flags, 0x8000_0001 | 0x8 | 0x10);
    let bytes = write_convert_config(&config);
    assert_eq!(bytes.len(), 400);
    assert_eq!(&bytes[..4], &0x434F4E56u32.to_le_bytes());
    assert_eq!(&bytes[8..12], &3u32.to_le_bytes());
    assert_eq!(&bytes[12..16], &2u32.to_le_bytes());
    assert_eq!(&bytes[16..20], &16u32.to_le_bytes());
    assert_eq!(&bytes[20..24], &6u32.to_le_bytes());
    assert_eq!(&bytes[28..35], b"secret\0");
    assert_eq!(&bytes[284..288], &4u32.to_le_bytes());
    assert_eq!(&bytes[292..297], b"snap\0");
    assert_eq!(&bytes[368..372], &20000u32.to_le_bytes());
    assert_eq!(&bytes[372..376], &64u32.to_le_bytes());
    assert_eq!(&bytes[376..384], &0x50_0000u64.to_le_bytes());
    assert_eq!(&bytes[384..392], &256_100u64.to_le_bytes());
    assert_eq!(&bytes[392..396], &65536u32.to_le_bytes());
    let none = ConvertSecrets { qcow2: None, luks: Some("x".repeat(257)), encrypt: None };
    assert_eq!(
        plan_convert(&args, target, true, true, 3, 32 << 20, &none, 0).unwrap_err(),
        "passphrase too long (max 256 bytes)"
    );
    args.snapshot = Some("s".repeat(65));
    let none = ConvertSecrets { qcow2: None, luks: None, encrypt: None };
    assert_eq!(
        plan_convert(&args, target, true, true, 3, 32 << 20, &none, 0).unwrap_err(),
        "Snapshot ID too long (max 64 bytes)"
    );
}

#[test]
fn a_conversion_ends_with_its_lengths() {
    let raw = ConvertTarget { format: 1, flat: false };
    let finish = finish_convert(raw, true, 1024, false).unwrap();
    assert_eq!(
        (finish.descriptor_sectors, finish.output_length, finish.extent_length),
        (None, Some(1024), None)
    );
    let finish = finish_convert(raw, false, 1024, false).unwrap();
    assert_eq!(finish.output_length, None);
    let flat = ConvertTarget { format: 3, flat: true };
    let finish = finish_convert(flat, true, 1024, false).unwrap();
    assert_eq!(
        (finish.descriptor_sectors, finish.output_length, finish.extent_length),
        (Some(2), None, Some(1024))
    );
    assert_eq!(finish_convert(raw, true, 1024, true).unwrap_err(), "convert operation failed");
    let complete = |operation: &str, success| CompleteMessage { operation: t(operation), count: 0, success };
    assert!(reports_failure(&complete("convert", false)));
    assert!(!reports_failure(&complete("convert", true)));
    assert!(!reports_failure(&complete("copy", false)));
}

#[test]
fn random_data_holds_a_well_formed_uuid() {
    let data = luks_random_data();
    assert_eq!(data.len(), 256_100);
    let uuid = &data[128..164];
    for (i, b) in uuid.iter().enumerate() {
        match i {
            8 | 13 | 18 | 23 => assert_eq!(*b, b'-'),
            14 => assert_eq!(*b, b'4'),
            19 => assert!(b"89ab".contains(b)),
            _ => assert!(b"0123456789abcdef".contains(b)),
        }
    }
    let other = luks_random_data();
    assert_ne!(data[..64], other[..64]);
    assert_ne!(data[164..], other[164..]);
    assert!(data[..64].iter().any(|b| *b != 0));
    let placed = place_uuid(vec![7u8; 200], &(0u8..32).collect());
    assert_eq!(&placed[..128], &[7u8; 128]);
    assert_eq!(&placed[128..164], b"01234567-89ab-4cde-b012-3456789abcde");
    assert_eq!(&placed[164..], &[7u8; 36]);
}

fn measure_args(format: &str) -> MeasureArgs {
    MeasureArgs {
        input: None,
        size: Some(t("1G")),
        target_format: t(format),
        output: t("human"),
        sector_size: 65536,
        cluster_size: 0,
        refcount_bits: 0,
        extended_l2: false,
        lazy_refcounts: false,
        compat: t("1.1"),
        compress: false,
        preallocation: t("off"),
        subformat: t(""),
        grain_size: 0,
        block_size: 0,
        option: Vec::new(),
    }
}

#[test]
fn a_measurement_is_configured_for_its_guest() {
    let mut args = measure_args("qcow2");
    args.compress = true;
    args.option = vec![t("cluster_size=4k,preallocation=full"), t("extended_l2=on,compat=0.10")];
    let config = plan_measure(&args).unwrap();
    assert_eq!(config.flags, 0x1 | 0x8 | 0x30);
    let bytes = write_measure_config(&config);
    assert_eq!(bytes.len(), 56);
    assert_eq!(&bytes[..4], &0x4D454153u32.to_le_bytes());
    assert_eq!(&bytes[4..8], &2u32.to_le_bytes());
    assert_eq!(&bytes[12..16], &65536u32.to_le_bytes());
    assert_eq!(&bytes[16..24], &(1u64 << 30).to_le_bytes());
    assert_eq!(&bytes[24..28], &4096u32.to_le_bytes());
    let refusal = |change: fn(&mut MeasureArgs)| {
        let mut a = measure_args("qcow2");
        change(&mut a);
        plan_measure(&a).unwrap_err()
    };
    assert_eq!(
        refusal(|a| a.size = None),
        "measure: either --size or FILENAME must be provided"
    );
    assert_eq!(
        refusal(|a| a.cluster_size = 3),
        "measure: --cluster-size must be a power of 2 >= 512 (got 3)"
    );
    assert_eq!(
        refusal(|a| a.refcount_bits = 3),
        "measure: --refcount-bits must be one of 1,2,4,8,16,32,64 (got 3)"
    );
    assert_eq!(
        refusal(|a| a.grain_size = 3),
        "measure: --grain-size must be a power of 2 >= 512 (got 3)"
    );
    assert_eq!(
        refusal(|a| a.block_size = 3),
        "measure: --block-size must be a power of 2 >= 512 (got 3)"
    );
    assert_eq!(
        refusal(|a| a.target_format = t("x")),
        "measure: unsupported target format 'x'"
    );
    assert_eq!(
        refusal(|a| a.preallocation = t("x")),
        "measure: unsupported preallocation mode 'x'"
    );
    assert_eq!(
        refusal(|a| a.subformat = t("x")),
        "measure: unsupported vmdk subformat 'x'"
    );
    assert!(check_measure_source(true).is_err());
    assert!(check_measure_source(false).is_ok());
}

#[test]
fn bitmaps_are_mentioned_for_new_qcow2_sources_only() {
    let mut args = measure_args("qcow2");
    args.size = None;
    args.input = Some(t("/i"));
    assert!(mentions_bitmaps(&args, true));
    args.target_format = t("raw");
    assert!(!mentions_bitmaps(&args, true));
}

#[test]
fn measure_options_are_read_by_target() {
    let qcow2 = |o: &str| parse_o_options("qcow2", &[t(o)]);
    let o = qcow2("cluster_size=4k, refcount_bits=8,lazy_refcounts=off,compression_type=zstd").unwrap();
    assert_eq!((o.cluster_size, o.refcount_bits), (Some(4096), Some(8)));
    assert_eq!((o.lazy_refcounts, o.compression_used), (Some(false), Some(false)));
    let joined = qcow2("cluster_size=512,cluster_size=4k").unwrap();
    let apart = parse_o_options("qcow2", &[t("cluster_size=512"), t("cluster_size=4k")]).unwrap();
    assert_eq!(joined.cluster_size, apart.cluster_size);
    assert_eq!(joined.cluster_size, Some(4096));
    assert_eq!(
        parse_o_options("vmdk", &[t("subformat=monolithicFlat,hwversion=4")]).unwrap().vmdk_subformat,
        Some(2)
    );
    assert_eq!(
        parse_o_options("vpc", &[t("subformat=fixed,force_size=on")]).unwrap().vhd_subformat,
        Some(1)
    );
    assert_eq!(
        parse_o_options("vhdx", &[t("block_size=1M,log_size=x")]).unwrap().block_size,
        Some(1 << 20)
    );
    let refusals = [
        ("qcow2", "x", "measure: -o option 'x' is missing a value (expected KEY=VALUE)"),
        ("qcow2", "x=1", "measure: unrecognised -o key 'x' for target qcow2"),
        ("qcow2", "compat=2", "measure: bad value '2' for -o key 'compat' (expected 0.10 or 1.1)"),
        ("qcow2", "extended_l2=2", "measure: bad value '2' for -o key 'extended_l2' (expected on/off)"),
        ("qcow2", "refcount_bits=300", "measure: bad number '300' for -o key 'refcount_bits'"),
        (
            "qcow2",
            "cluster_size=?",
            "measure: bad size '?' for -o key 'cluster_size' (invalid memory size: '?')",
        ),
        (
            "qcow2",
            "cluster_size=4G",
            "measure: size 4294967296 for -o key 'cluster_size' exceeds u32::MAX",
        ),
        ("qcow2", "preallocation=x", "measure: bad value 'x' for -o key 'preallocation'"),
        ("qcow2", "compression_type=x", "measure: bad value 'x' for -o key 'compression_type'"),
        ("raw", "x=1", "measure: raw output does not support -o options"),
        ("vhdx", "subformat=fixed", "measure: -O vhdx -o subformat=fixed is not yet supported"),
    ];
    for (target, option, expected) in refusals {
        assert_eq!(parse_o_options(target, &[t(option)]).err().unwrap(), expected);
    }
    assert!(qcow2("data_file=x").err().unwrap().contains("not implemented"));
    assert!(qcow2("encrypt.format=luks").err().unwrap().contains("future work"));
    assert!(parse_o_options("raw", &[]).is_ok());
}

#[test]
fn a_map_is_planned_and_ended() {
    let mut args = MapArgs {
        input: t("/i"),
        output: t("human"),
        start_offset: Some(t("1k")),
        max_length: None,
        sector_size: 512,
        image_opts: false,
    };
    let config = plan_map(&args, false, true).unwrap();
    let bytes = write_map_config(&config);
    assert_eq!(bytes.len(), 64);
    assert_eq!(&bytes[..4], &0x4D41505Fu32.to_le_bytes());
    assert_eq!(&bytes[4..8], &0x8000_0000u32.to_le_bytes());
    assert_eq!(&bytes[12..16], &1u32.to_le_bytes());
    assert_eq!(&bytes[16..24], &1024u64.to_le_bytes());
    assert_eq!(&bytes[24..32], &0u64.to_le_bytes());
    assert!(plan_map(&args, true, false).unwrap_err().starts_with("map: monolithicFlat source"));
    args.max_length = Some(t("?"));
    assert_eq!(plan_map(&args, false, false).unwrap_err(), "invalid memory size: '?'");
    args.sector_size = 5;
    assert!(plan_map(&args, true, false).unwrap_err().starts_with("sector size must be"));
    args.image_opts = true;
    assert!(plan_map(&args, true, false).unwrap_err().starts_with("map: --image-opts"));
    assert_eq!(finish_map(true, None).unwrap(), false);
    assert_eq!(finish_map(false, Some(0)).unwrap(), true);
    assert_eq!(finish_map(false, Some(4)).unwrap_err(), "map: guest reported error code 4");
    assert_eq!(finish_map(false, None).unwrap_err(), "map: guest returned no MapResult");
}

fn snapshot_args() -> SnapshotArgs {
    SnapshotArgs {
        filename: t("/i"),
        list: false,
        apply: None,
        create: None,
        delete: None,
        format: None,
        quiet: false,
        force_share: false,
        image_opts: false,
        output: t("human"),
        sector_size: 512,
    }
}

#[test]
fn a_snapshot_is_planned_and_ended() {
    let mut args = snapshot_args();
    let plan = plan_snapshot(&args, false, None, &Ok(10)).unwrap();
    assert_eq!((plan.read_only, plan.capacity, plan.config.mode), (true, 10, 0));
    args.create = Some(t("s\u{e4}"));
    let plan = plan_snapshot(&args, true, Some((1 << 33, 123_456)), &Ok(10)).unwrap();
    assert!(!plan.read_only);
    let bytes = write_snapshot_config(&plan.config);
    assert_eq!(bytes.len(), 312);
    assert_eq!(&bytes[..4], &0x534E4150u32.to_le_bytes());
    assert_eq!(&bytes[4..8], &2u32.to_le_bytes());
    assert_eq!(&bytes[8..12], &0x8000_0000u32.to_le_bytes());
    assert_eq!(&bytes[16..20], &3u32.to_le_bytes());
    assert_eq!(&bytes[24..28], "s\u{e4}\0".as_bytes());
    assert_eq!(&bytes[280..284], &0u32.to_le_bytes());
    assert_eq!(&bytes[284..288], &123_456_000u32.to_le_bytes());
    args.create = None;
    args.format = Some(t("raw"));
    assert_eq!(
        plan_snapshot(&args, false, None, &Ok(10)).unwrap_err().message,
        "snapshot: format driver 'raw' does not support image snapshots (qcow2 only)"
    );
    assert_eq!(finish_snapshot(true, None).unwrap(), false);
    assert_eq!(finish_snapshot(false, Some(0)).unwrap(), true);
    assert_eq!(
        finish_snapshot(false, Some(8)).unwrap_err(),
        "snapshot: guest reported error code 8"
    );
    assert_eq!(
        finish_snapshot(false, None).unwrap_err(),
        "snapshot: guest returned no SnapshotResult"
    );
}
