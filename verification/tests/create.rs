use instar::abi::{IMAGE_FORMAT_QCOW2, IMAGE_FORMAT_UNKNOWN, IMAGE_FORMAT_VHD};
use instar::create::{
    check_backing, create_backing_format_code, create_error_detail, create_target_format,
    data_error, finish_create, harvest_create, output_error, plan_create, plan_data_preallocation,
    plan_raw, preallocates_data, prepare_create, raw_error, render_create_success, resolve_backing,
    trusted_virtual_size, validate_create_args, write_create_config, BackingFacts, BackingInput,
    CreateArgs, CreateRunResult, DataStep, RawStep,
};
use instar::message::CreateResultMessage;
use instar::preallocation::Preallocation;

fn t(s: &str) -> String {
    s.to_string()
}

fn args(format: &str) -> CreateArgs {
    CreateArgs {
        filename: t("a\\b"),
        size: Some(t("1M")),
        target_format: t(format),
        backing: None,
        backing_format: None,
        backing_unsafe: false,
        quiet: false,
        output: t("human"),
        sector_size: 512,
        cluster_size: 0,
        refcount_bits: 0,
        extended_l2: false,
        lazy_refcounts: false,
        compat: t("1.1"),
        subformat: t(""),
        grain_size: 0,
        block_size: 0,
        preallocation: t("off"),
    }
}

fn refusal<F: FnOnce(&mut CreateArgs)>(format: &str, change: F) -> String {
    let mut a = args(format);
    change(&mut a);
    validate_create_args(&a).unwrap_err()
}

#[test]
fn sound_requests_are_accepted() {
    for format in ["raw", "qcow2", "vmdk", "vpc", "vhdx"] {
        assert!(validate_create_args(&args(format)).is_ok(), "{}", format);
    }
    let mut a = args("qcow2");
    a.size = None;
    a.backing = Some(t("b"));
    a.backing_format = Some(t("raw"));
    assert!(validate_create_args(&a).is_ok());
}

#[test]
fn each_rule_of_a_request_has_its_refusal() {
    assert_eq!(refusal("raw", |a| a.filename = t("")), "create: FILENAME is required");
    assert_eq!(
        refusal("raw", |a| a.size = None),
        "create: either SIZE or -b BACKING must be provided"
    );
    assert!(refusal("raw", |a| a.sector_size = 4096).contains("got 4096"));
    assert_eq!(
        refusal("qcow2", |a| a.cluster_size = 1000),
        "create: --cluster-size must be a power of 2 in 512..=2 MiB (got 1000)"
    );
    assert!(refusal("qcow2", |a| a.cluster_size = 4 << 20).contains("4194304"));
    assert_eq!(
        refusal("qcow2", |a| a.refcount_bits = 3),
        "create: --refcount-bits must be one of 1,2,4,8,16,32,64 (got 3)"
    );
    assert_eq!(
        refusal("vmdk", |a| a.grain_size = 2048),
        "create: --grain-size must be a power of 2 in [4 KiB, 64 KiB] (got 2048)"
    );
    assert_eq!(
        refusal("vhdx", |a| a.block_size = 3),
        "create: --block-size must be a power of 2 (got 3)"
    );
    assert!(refusal("vmdk", |a| a.subformat = t("fixed")).contains("is not valid for vmdk"));
    assert!(refusal("vmdk", |a| a.subformat = t("monolithicFlat")).contains("not yet supported"));
    assert_eq!(
        refusal("vpc", |a| a.subformat = t("x")),
        "create: --subformat 'x' is not valid for vpc (expected dynamic or fixed)"
    );
    assert_eq!(
        refusal("qcow2", |a| a.subformat = t("x")),
        "create: --subformat is only valid with -f vmdk or -f vpc (got -f qcow2)"
    );
    assert!(refusal("raw", |a| a.preallocation = t("metadata")).contains("not valid for raw"));
    assert!(refusal("vhdx", |a| a.preallocation = t("full")).contains("--preallocation=full"));
    assert_eq!(
        refusal("raw", |a| a.preallocation = t("x")),
        "create: unknown --preallocation 'x'"
    );
    assert!(refusal("raw", |a| a.backing = Some(t("b"))).contains("does not support -b BACKING"));
    assert!(refusal("qcow2", |a| a.backing = Some(t("b"))).contains("requires either -F"));
    assert_eq!(
        refusal("raw", |a| a.size = Some(t("0"))),
        "create: SIZE must be greater than zero"
    );
    assert_eq!(
        refusal("raw", |a| a.size = Some(t("9223372036854775808"))),
        "create: SIZE 9223372036854775808 exceeds the maximum representable size \
         (9223372036854775807)"
    );
    assert_eq!(
        refusal("raw", |a| a.size = Some(t("x"))),
        "invalid memory size: 'x'"
    );
}

#[test]
fn options_override_the_flags() {
    let mut a = args("qcow2");
    a.cluster_size = 512;
    prepare_create(&mut a, &[t("cluster_size=4k,size=2M,compat=0.10,lazy_refcounts=on")]).unwrap();
    assert_eq!(a.cluster_size, 4096);
    assert_eq!(a.size, Some(t("2097152")));
    assert_eq!(a.compat, "0.10");
    assert!(a.lazy_refcounts);
    let mut b = args("vmdk");
    prepare_create(&mut b, &[t("subformat=streamOptimized"), t("grain_size=4k")]).unwrap();
    assert_eq!((b.subformat.as_str(), b.grain_size), ("streamOptimized", 4096));
    let mut c = args("qcow2");
    assert!(prepare_create(&mut c, &[t("size=0")]).is_err());
}

#[test]
fn a_raw_image_needs_a_size() {
    assert_eq!(plan_raw(&args("raw")).unwrap(), 1 << 20);
    let mut a = args("raw");
    a.size = None;
    assert_eq!(plan_raw(&a).unwrap_err(), "create: -f raw requires SIZE");
    assert_eq!(raw_error(RawStep::Open, "f", "x"), "create: open 'f' failed: x");
    assert_eq!(raw_error(RawStep::SetLength, "f", "x"), "create: ftruncate failed: x");
    assert_eq!(raw_error(RawStep::Sync, "f", "x"), "create: sync failed: x");
}

#[test]
fn format_names_have_codes() {
    assert_eq!(create_backing_format_code("").unwrap(), IMAGE_FORMAT_UNKNOWN);
    assert_eq!(create_backing_format_code("vhd").unwrap(), IMAGE_FORMAT_VHD);
    assert!(create_backing_format_code("iso").unwrap_err().starts_with("create: -F iso is not"));
    assert_eq!(create_target_format("qcow2").unwrap(), IMAGE_FORMAT_QCOW2);
    assert_eq!(
        create_target_format("iso").unwrap_err(),
        "create: unsupported target format 'iso'"
    );
}

#[test]
fn a_backing_file_is_looked_at_first() {
    assert_eq!(resolve_backing("b", "/vm"), "/vm/b");
    assert_eq!(resolve_backing("/b", "/vm"), "/b");
    let a = args("qcow2");
    let facts = |found, open_error: Option<&str>| BackingFacts {
        found,
        open_error: open_error.map(str::to_string),
    };
    assert!(matches!(
        check_backing(&a, "b", "/vm/b", &facts(Some((true, 77)), None)),
        Ok(BackingInput::Device { capacity: 77 })
    ));
    assert_eq!(
        check_backing(&a, "b", "/vm/b", &facts(None, Some("gone"))).unwrap_err(),
        "create: backing file 'b' (resolved to '/vm/b') not accessible (pass -u to skip this check)"
    );
    assert_eq!(
        check_backing(&a, "b", "/vm/b", &facts(Some((false, 0)), None)).unwrap_err(),
        "create: backing path '/vm/b' is not a regular file"
    );
    assert_eq!(
        check_backing(&a, "b", "/vm/b", &facts(Some((true, 0)), Some("denied"))).unwrap_err(),
        "create: open backing '/vm/b' failed: denied"
    );
    let mut trusting = args("qcow2");
    trusting.backing_unsafe = true;
    assert!(matches!(
        check_backing(&trusting, "b", "/vm/b", &facts(None, Some("gone"))),
        Ok(BackingInput::Absent)
    ));
    let long = "x".repeat(1025);
    assert_eq!(
        check_backing(&a, &long, "/l", &facts(Some((true, 0)), None)).unwrap_err(),
        "create: backing path too long (1025 bytes; max 1024)"
    );
}

#[test]
fn a_new_image_is_planned() {
    let mut a = args("qcow2");
    a.backing = Some(t("base"));
    a.backing_format = Some(t("raw"));
    a.extended_l2 = true;
    a.preallocation = t("falloc");
    a.cluster_size = 65536;
    a.refcount_bits = 8;
    let plan = plan_create(&a).unwrap();
    assert_eq!(plan.output_capacity, (1 << 20) + (64 << 20));
    assert_eq!(plan.config.flags, 0x1 | 0x4 | 0x20);
    let bytes = write_create_config(&plan.config);
    assert_eq!(bytes.len(), 1136);
    assert_eq!(&bytes[..4], &0x43524541u32.to_le_bytes());
    assert_eq!(&bytes[4..8], &2u32.to_le_bytes());
    assert_eq!(&bytes[16..24], &(1u64 << 20).to_le_bytes());
    assert_eq!(&bytes[24..28], &65536u32.to_le_bytes());
    assert_eq!(bytes[28], 8);
    assert_eq!(&bytes[40..44], &4u32.to_le_bytes());
    assert_eq!(&bytes[44..49], b"base\0");
    assert_eq!(&bytes[1068..1072], &1u32.to_le_bytes());
    let mut v = args("vpc");
    v.subformat = t("fixed");
    assert_eq!(plan_create(&v).unwrap().config.vhd_subformat, 1);
}

#[test]
fn a_creation_ends_with_what_the_guest_reports() {
    let message = |error| CreateResultMessage {
        target_format: t("qcow2"),
        resolved_virtual_size: 1,
        metadata_bytes_written: 2,
        file_size_after: 3,
        resolved_unit_size: 4,
        error,
    };
    let done: CreateRunResult = finish_create(Some(harvest_create(&message(0)))).unwrap();
    assert_eq!((done.resolved_virtual_size, done.file_size_after), (1, 3));
    assert_eq!(
        finish_create(Some(harvest_create(&message(7)))).unwrap_err(),
        "create failed: write to output device failed"
    );
    assert_eq!(finish_create(None).unwrap_err(), "create: guest did not return a result");
    assert_eq!(create_error_detail(99), "unknown error");
    assert_eq!(output_error("f", "x"), "create: open 'f' for write failed: x");
}

#[test]
fn data_is_preallocated_behind_the_header() {
    let mut a = args("qcow2");
    assert!(!preallocates_data(&a));
    a.preallocation = t("full");
    assert!(preallocates_data(&a));
    a.target_format = t("raw");
    assert!(!preallocates_data(&a));
    assert_eq!(trusted_virtual_size(5, 9).unwrap(), 5);
    assert_eq!(trusted_virtual_size(0, 9).unwrap(), 9);
    assert_eq!(trusted_virtual_size(0, 1 << 57).unwrap(), 1 << 57);
    assert!(trusted_virtual_size(0, (1 << 57) + 1)
        .unwrap_err()
        .starts_with("create: guest reported resolved_virtual_size=144115188075855873"));
    assert!(matches!(
        plan_data_preallocation("full", 1000, 512, 4096),
        Ok(Preallocation::Zero { offset: 3072, length: 1024 })
    ));
    assert_eq!(
        plan_data_preallocation("full", 1000, 512, 1000).unwrap_err(),
        "create: preallocation range [0, 1024) exceeds observed file size 1000; refusing"
    );
    assert!(plan_data_preallocation("falloc", 1000, 512, 1100)
        .unwrap_err()
        .starts_with("create: preallocation data_offset (76) below minimum metadata footprint (512)"));
    assert!(matches!(
        plan_data_preallocation("falloc", 65537, 0, 196608),
        Ok(Preallocation::Reserve { offset: 65536, length: 131072 })
    ));
    assert!(plan_data_preallocation("falloc", 65537, 0, 196607).unwrap_err().starts_with(
        "create: preallocation data_offset (65535) below minimum metadata footprint (65536)"
    ));
    assert_eq!(data_error(DataStep::Reopen, "x"), "create: reopen for preallocation failed: x");
    assert_eq!(data_error(DataStep::Stat, "x"), "create: stat for preallocation bounds failed: x");
    assert_eq!(data_error(DataStep::Sync, "x"), "create: sync after preallocation failed: x");
}

#[test]
fn a_new_image_is_announced() {
    let mut a = args("qcow2");
    a.filename = t("foo.qcow2");
    assert_eq!(
        render_create_success(&a, 1073741824, 1, 2, 65536),
        "Created: foo.qcow2 (format=qcow2, virtual_size=1073741824, cluster_size=65536)\n"
    );
    let mut a = args("vhdx");
    assert_eq!(
        render_create_success(&a, 10, 1, 2, 3),
        "Created: a\\b (format=vhdx, virtual_size=10, unit_size=3)\n"
    );
    assert_eq!(
        render_create_success(&args("raw"), 10, 0, 10, 0),
        "Created: a\\b (format=raw, virtual_size=10)\n"
    );
    a.quiet = true;
    assert_eq!(render_create_success(&a, 10, 1, 2, 3), "");
    a.output = t("json");
    assert_eq!(
        render_create_success(&a, 10, 1, 2, 3),
        "{\n    \"filename\": \"a\\\\b\",\n    \"format\": \"vhdx\",\n    \"virtual_size\": 10,\n    \
         \"metadata_bytes_written\": 1,\n    \"file_size_after\": 2,\n    \"resolved_unit_size\": 3\n}\n"
    );
}
