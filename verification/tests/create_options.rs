use instar::create_options::parse_create_o_options;
use instar::options::{parse_create_o_bool, parse_create_o_size_u64};

fn s(v: &str) -> Vec<String> {
    vec![v.to_string()]
}

#[test]
fn empty_overrides_parse_cleanly() {
    let o = parse_create_o_options("qcow2", &[]).unwrap();
    assert!(o.cluster_size.is_none());
    assert!(o.size.is_none());
    assert!(o.backing_file.is_none());
}

#[test]
fn qcow2_all_keys_parse() {
    let o = parse_create_o_options(
        "qcow2",
        &s(
            "cluster_size=4k,refcount_bits=8,extended_l2=on,lazy_refcounts=yes,\
            compat=0.10,preallocation=off,size=64M,backing_file=p.qcow2,\
            backing_fmt=qcow2,compression_type=zlib",
        ),
    )
    .unwrap();
    assert_eq!(o.cluster_size, Some(4096));
    assert_eq!(o.refcount_bits, Some(8));
    assert_eq!(o.extended_l2, Some(true));
    assert_eq!(o.lazy_refcounts, Some(true));
    assert_eq!(o.compat_v3, Some(false));
    assert_eq!(o.preallocation, Some("off"));
    assert_eq!(o.size, Some(64 * 1024 * 1024));
    assert_eq!(o.backing_file.as_deref(), Some("p.qcow2"));
    assert_eq!(o.backing_fmt, Some("qcow2"));
}

#[test]
fn vmdk_subformat_and_grain() {
    let o =
        parse_create_o_options("vmdk", &s("subformat=streamOptimized,grain_size=16k")).unwrap();
    assert_eq!(o.vmdk_subformat, Some(1));
    assert_eq!(o.grain_size, Some(16 * 1024));
}

#[test]
fn vmdk_monolithic_flat_parses_but_host_will_reject() {
    let o = parse_create_o_options("vmdk", &s("subformat=monolithicFlat")).unwrap();
    assert_eq!(o.vmdk_subformat, Some(2));
}

#[test]
fn vpc_subformat_fixed() {
    let o = parse_create_o_options("vpc", &s("subformat=fixed")).unwrap();
    assert_eq!(o.vhd_subformat, Some(1));
}

#[test]
fn vhdx_block_size() {
    let o = parse_create_o_options("vhdx", &s("block_size=8M")).unwrap();
    assert_eq!(o.block_size, Some(8 * 1024 * 1024));
}

#[test]
fn raw_size_and_preallocation() {
    let o = parse_create_o_options("raw", &s("size=4M,preallocation=falloc")).unwrap();
    assert_eq!(o.size, Some(4 * 1024 * 1024));
    assert_eq!(o.preallocation, Some("falloc"));
}

#[test]
fn unknown_key_errors_with_target_name() {
    let err = parse_create_o_options("qcow2", &s("nonsense=1"))
        .unwrap_err()
        .to_string();
    assert!(err.contains("nonsense"), "error did not mention key: {err}");
    assert!(err.contains("qcow2"), "error did not mention target: {err}");
}

#[test]
fn bad_cluster_size_value_errors() {
    let err = parse_create_o_options("qcow2", &s("cluster_size=zzz"))
        .unwrap_err()
        .to_string();
    assert!(err.contains("cluster_size"), "error mentions key: {err}");
}

#[test]
fn bad_compat_value_errors() {
    let err = parse_create_o_options("qcow2", &s("compat=2.0"))
        .unwrap_err()
        .to_string();
    assert!(err.contains("compat"));
}

#[test]
fn last_wins_across_multiple_o_invocations() {
    let raw = vec![
        "cluster_size=512".to_string(),
        "cluster_size=4k".to_string(),
    ];
    let o = parse_create_o_options("qcow2", &raw).unwrap();
    assert_eq!(o.cluster_size, Some(4096));
}

#[test]
fn last_wins_within_single_o_invocation() {
    let o = parse_create_o_options("qcow2", &s("cluster_size=512,cluster_size=4k")).unwrap();
    assert_eq!(o.cluster_size, Some(4096));
}

#[test]
fn encrypt_keys_return_deferred_error() {
    let err = parse_create_o_options("qcow2", &s("encrypt.cipher=aes"))
        .unwrap_err()
        .to_string();
    assert!(err.contains("encrypt"));
    assert!(err.contains("deferred"));
}

#[test]
fn data_file_returns_deferred_error() {
    let err = parse_create_o_options("qcow2", &s("data_file=ext.bin"))
        .unwrap_err()
        .to_string();
    assert!(err.contains("data_file"));
    assert!(err.contains("deferred"));
}

#[test]
fn qcow2_preallocation_metadata_accepted() {
    let o = parse_create_o_options("qcow2", &s("preallocation=metadata")).unwrap();
    assert_eq!(o.preallocation, Some("metadata"));
}

#[test]
fn qcow2_preallocation_falloc_accepted() {
    let o = parse_create_o_options("qcow2", &s("preallocation=falloc")).unwrap();
    assert_eq!(o.preallocation, Some("falloc"));
}

#[test]
fn qcow2_preallocation_full_accepted() {
    let o = parse_create_o_options("qcow2", &s("preallocation=full")).unwrap();
    assert_eq!(o.preallocation, Some("full"));
}

#[test]
fn raw_preallocation_metadata_rejected() {
    let err = parse_create_o_options("raw", &s("preallocation=metadata"))
        .unwrap_err()
        .to_string();
    assert!(err.contains("raw has no metadata"));
}

#[test]
fn raw_preallocation_full_accepted() {
    let o = parse_create_o_options("raw", &s("preallocation=full")).unwrap();
    assert_eq!(o.preallocation, Some("full"));
}

#[test]
fn vmdk_preallocation_metadata_deferred() {
    let err = parse_create_o_options("vmdk", &s("preallocation=metadata"))
        .unwrap_err()
        .to_string();
    assert!(err.contains("non-qcow2 preallocation is future work"));
}

#[test]
fn raw_rejects_qcow2_keys() {
    let err = parse_create_o_options("raw", &s("cluster_size=4k"))
        .unwrap_err()
        .to_string();
    assert!(err.contains("cluster_size"));
    assert!(err.contains("raw"));
}

#[test]
fn boolean_accepts_off_on_true_false_yes_no() {
    for v in ["on", "ON", "True", "yes"] {
        assert_eq!(parse_create_o_bool("k", v).unwrap(), true);
    }
    for v in ["off", "OFF", "False", "no"] {
        assert_eq!(parse_create_o_bool("k", v).unwrap(), false);
    }
    assert!(parse_create_o_bool("k", "maybe").is_err());
}

#[test]
fn size_u64_accepts_t_suffix() {
    assert_eq!(parse_create_o_size_u64("size", "1T").unwrap(), 1u64 << 40);
}

#[test]
fn missing_value_errors_with_helpful_message() {
    let err = parse_create_o_options("qcow2", &s("cluster_size"))
        .unwrap_err()
        .to_string();
    assert!(err.contains("missing a value"));
}

#[test]
fn empty_pieces_are_skipped() {
    let o = parse_create_o_options("qcow2", &s(",cluster_size=4k,,")).unwrap();
    assert_eq!(o.cluster_size, Some(4096));
}

#[test]
fn backing_fmt_accepts_vhd_alias() {
    let o = parse_create_o_options("qcow2", &s("backing_fmt=vhd")).unwrap();
    assert_eq!(o.backing_fmt, Some("vpc"));
}
