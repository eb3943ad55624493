//! Operations that change an image where it is.
use instar::abi::{
    IMAGE_FORMAT_QCOW2, IMAGE_FORMAT_RAW, IMAGE_FORMAT_VHD, IMAGE_FORMAT_VHDX, IMAGE_FORMAT_VMDK4,
};
use instar::amend::{
    amend_request, finish_amend, harvest_amend, map_amend_error, plan_amend, probe_amend_target,
    render_amend_success, write_amend_config, AmendArgs, AmendRunResult,
};
use instar::capacity::doubled_capacity;
use instar::chain::{create_single_image_chain, ChainImage, InfoOperationResult};
use instar::commit::{
    check_backing_file, check_commit_overlay, check_commit_pair, check_explicit_base, commit_chain,
    finish_commit, harvest_commit, map_commit_error, plan_commit, probe_commit_target,
    recorded_backing, render_commit_success, resolve_commit_backing, write_commit_config,
    CommitArgs, CommitRunResult, ProbedCommitTarget,
};
use instar::formats::ImageFormat;
use instar::message::{
    AmendResultMessage, CommitResultMessage, RebaseResultMessage, ResizeResultMessage,
};
use instar::preallocation::Preallocation;
use instar::rebase::{
    check_new_backing, check_rebase_overlay, finish_rebase, forced_rebase_format, harvest_rebase,
    map_rebase_error, new_backing_path, plan_rebase, probe_rebase_target, render_rebase_success,
    write_rebase_config, ProbedRebaseTarget, RebaseArgs, RebaseMode, RebaseRunResult,
};
use instar::resize::{
    action_str, detected_format, finish_resize, footer_offset, forced_resize_format,
    guest_action_str, harvest_resize, new_virtual_size, plan_raw_resize, plan_resize,
    probe_resize_target, probe_vhdx_virtual_size, read_resize_request, render_resize_success,
    write_resize_config, HeaderFacts, ProbedResizeTarget, Qcow2Header, ResizeArgs, ResizeRunResult,
    VhdxFacts,
};
use instar::size::ParsedResizeSize;

fn t(s: &str) -> String {
    s.to_string()
}

fn image(path: &str) -> ChainImage {
    create_single_image_chain(path, ImageFormat::Qcow2, IMAGE_FORMAT_QCOW2, "qcow2", 10, 20, 512, 0)
        .remove(0)
}

fn header() -> Qcow2Header {
    Qcow2Header {
        version: 3,
        virtual_size: 1 << 30,
        cluster_size: 65536,
        refcount_bits: 16,
        incompatible_features: 1,
        compatible_features: 2,
        backing_file_offset: 0,
        backing_file_size: 0,
        extended_l2: true,
    }
}

fn facts() -> HeaderFacts {
    HeaderFacts {
        qcow2: Some(header()),
        vmdk_virtual_size: Some(111),
        vhd_virtual_size: Some(222),
        vhdx_virtual_size: Ok(333),
    }
}

fn no_facts() -> HeaderFacts {
    HeaderFacts {
        qcow2: None,
        vmdk_virtual_size: None,
        vhd_virtual_size: None,
        vhdx_virtual_size: Err(t("resize: vhdx headers both invalid")),
    }
}

fn resize_args(mode: &str, shrink: bool) -> ResizeArgs {
    ResizeArgs {
        filename: t("a \"b\""),
        size: t("+1M"),
        format: None,
        shrink,
        preallocation: t(mode),
        quiet: false,
        output: t("human"),
        object: false,
        image_opts: false,
    }
}

#[test]
fn resize_requests_are_read_before_the_file() {
    let mut args = resize_args("off", false);
    assert!(matches!(read_resize_request(&args), Ok(ParsedResizeSize::Add(1048576))));
    args.image_opts = true;
    assert_eq!(
        read_resize_request(&args).unwrap_err(),
        "--image-opts is not yet supported by instar resize"
    );
    args.object = true;
    assert_eq!(
        read_resize_request(&args).unwrap_err(),
        "--object is not yet supported by instar resize"
    );
    let mut args = resize_args("off", false);
    args.size = t("big");
    assert_eq!(read_resize_request(&args).unwrap_err(), "invalid size: 'big'");
}

#[test]
fn growing_and_shrinking_back_restores_the_size() {
    let grown = new_virtual_size(1000, ParsedResizeSize::Add(24)).unwrap();
    assert_eq!(grown, 1024);
    assert_eq!(new_virtual_size(grown, ParsedResizeSize::Subtract(24)).unwrap(), 1000);
    assert_eq!(new_virtual_size(7, ParsedResizeSize::Absolute(9)).unwrap(), 9);
    assert_eq!(
        new_virtual_size(u64::MAX, ParsedResizeSize::Add(1)).unwrap_err(),
        "resize: new virtual size overflows u64"
    );
    assert_eq!(
        new_virtual_size(1, ParsedResizeSize::Subtract(2)).unwrap_err(),
        "resize: new virtual size underflows below zero"
    );
}

#[test]
fn resize_formats_can_be_forced() {
    assert_eq!(forced_resize_format(None).unwrap(), None);
    assert_eq!(forced_resize_format(Some("vhd")).unwrap(), Some(ImageFormat::Vhd));
    assert_eq!(forced_resize_format(Some("vpc")).unwrap(), Some(ImageFormat::Vhd));
    assert_eq!(forced_resize_format(Some("vmdk")).unwrap(), Some(ImageFormat::Vmdk4));
    assert_eq!(
        forced_resize_format(Some("iso")).unwrap_err(),
        "resize: unknown -f format 'iso'"
    );
    assert_eq!(footer_offset(ImageFormat::Raw, 1024), Some(512));
    assert_eq!(footer_offset(ImageFormat::Raw, 511), None);
    assert_eq!(footer_offset(ImageFormat::Qcow2, 1024), None);
    assert_eq!(detected_format(ImageFormat::Raw, 1024, true), ImageFormat::Vhd);
    assert_eq!(detected_format(ImageFormat::Raw, 1024, false), ImageFormat::Raw);
    assert_eq!(detected_format(ImageFormat::Raw, 100, true), ImageFormat::Raw);
    assert_eq!(detected_format(ImageFormat::Qcow2, 1024, true), ImageFormat::Qcow2);
}

#[test]
fn resize_targets_are_probed_by_format() {
    let f = facts();
    let raw = probe_resize_target(ImageFormat::Raw, "Raw", 700, &f).unwrap();
    assert_eq!((raw.format, raw.current_virtual_size, raw.current_file_size), (IMAGE_FORMAT_RAW, 700, 700));
    let qcow2 = probe_resize_target(ImageFormat::Qcow2, "Qcow2", 700, &f).unwrap();
    assert_eq!((qcow2.format, qcow2.current_virtual_size), (IMAGE_FORMAT_QCOW2, 1 << 30));
    assert!(qcow2.qcow2_extended_l2);
    let vmdk = probe_resize_target(ImageFormat::Vmdk3, "Vmdk3", 700, &f).unwrap();
    assert_eq!((vmdk.format, vmdk.current_virtual_size), (IMAGE_FORMAT_VMDK4, 111));
    let vhd = probe_resize_target(ImageFormat::Vhd, "Vhd", 700, &f).unwrap();
    assert_eq!((vhd.format, vhd.current_virtual_size), (IMAGE_FORMAT_VHD, 222));
    let vhdx = probe_resize_target(ImageFormat::Vhdx, "Vhdx", 700, &f).unwrap();
    assert_eq!((vhdx.format, vhdx.current_virtual_size), (IMAGE_FORMAT_VHDX, 333));
}

#[test]
fn broken_resize_targets_are_refused() {
    let n = no_facts();
    let refusal = |format, name| probe_resize_target(format, name, 600, &n).unwrap_err();
    assert_eq!(refusal(ImageFormat::Qcow2, "Qcow2"), "resize: invalid qcow2 header");
    assert_eq!(refusal(ImageFormat::Vmdk4, "Vmdk4"), "resize: invalid vmdk header");
    assert_eq!(refusal(ImageFormat::Vhd, "Vhd"), "resize: invalid vhd footer");
    assert_eq!(refusal(ImageFormat::Vhdx, "Vhdx"), "resize: vhdx headers both invalid");
    assert_eq!(
        refusal(ImageFormat::Luks, "Luks"),
        "resize: format Luks is not supported for in-place resize"
    );
    assert_eq!(
        probe_resize_target(ImageFormat::Vhd, "Vhd", 511, &facts()).unwrap_err(),
        "resize: file too small to contain a vhd footer"
    );
    let mut f = facts();
    f.qcow2 = Some(Qcow2Header { backing_file_size: 1, ..header() });
    assert!(probe_resize_target(ImageFormat::Qcow2, "Qcow2", 600, &f)
        .unwrap_err()
        .starts_with("resize: qcow2 images with a backing file are not yet supported"));
}

#[test]
fn the_vhdx_size_is_read_from_its_metadata() {
    let mut meta = vec![0u8; 0x10010];
    meta[0x10008..0x10010].copy_from_slice(&0x1122_3344_5566_7788u64.to_le_bytes());
    let facts = |file_size, h1, h2, metadata| VhdxFacts {
        file_size,
        header1_valid: h1,
        header2_valid: h2,
        metadata,
    };
    let size = 0x50000;
    assert_eq!(
        probe_vhdx_virtual_size(&facts(size, true, false, Some(meta.clone()))).unwrap(),
        0x1122_3344_5566_7788
    );
    assert_eq!(
        probe_vhdx_virtual_size(&facts(size - 1, true, true, Some(meta.clone()))).unwrap_err(),
        "resize: file too small for vhdx layout"
    );
    assert_eq!(
        probe_vhdx_virtual_size(&facts(size, false, false, Some(meta.clone()))).unwrap_err(),
        "resize: vhdx headers both invalid"
    );
    assert_eq!(
        probe_vhdx_virtual_size(&facts(size, false, true, None)).unwrap_err(),
        "resize: vhdx region table invalid"
    );
    meta.truncate(0x1000f);
    assert_eq!(
        probe_vhdx_virtual_size(&facts(size, true, true, Some(meta))).unwrap_err(),
        "resize: vhdx metadata too short"
    );
}

#[test]
fn raw_images_shrink_only_when_asked() {
    assert_eq!(
        plan_raw_resize(&resize_args("off", false), 100, 50).unwrap_err(),
        "resize: shrinking from 100 to 50 bytes requires --shrink"
    );
    assert!(matches!(
        plan_raw_resize(&resize_args("off", true), 100, 50),
        Ok(Preallocation::Nothing)
    ));
    assert_eq!(
        plan_raw_resize(&resize_args("full", true), 100, 50).unwrap_err(),
        "resize: --preallocation=full is meaningless when shrinking"
    );
    assert_eq!(
        plan_raw_resize(&resize_args("metadata", false), 100, 150).unwrap_err(),
        "resize: --preallocation=metadata is not supported for raw"
    );
    assert!(matches!(
        plan_raw_resize(&resize_args("falloc", false), 100, 150),
        Ok(Preallocation::Reserve { offset: 100, length: 50 })
    ));
    assert!(matches!(
        plan_raw_resize(&resize_args("full", false), 100, 100),
        Ok(Preallocation::Nothing)
    ));
}

#[test]
fn a_resize_is_planned_with_room_to_grow() {
    let probed = ProbedResizeTarget {
        format: IMAGE_FORMAT_QCOW2,
        current_virtual_size: 5 << 30,
        current_file_size: 7,
        qcow2_extended_l2: true,
    };
    let mut args = resize_args("falloc", true);
    args.quiet = true;
    let plan = plan_resize(&args, &probed, 6 << 30).unwrap();
    assert_eq!(plan.capacity_hint, 12 << 30);
    assert_eq!(plan.config.flags, 0x1 | 0x2 | 0x4 | 0x20);
    let bytes = write_resize_config(&plan.config);
    assert_eq!(bytes.len(), 112);
    assert_eq!(&bytes[..4], &0x52455349u32.to_le_bytes());
    assert_eq!(&bytes[4..8], &2u32.to_le_bytes());
    assert_eq!(&bytes[8..12], &0x27u32.to_le_bytes());
    assert_eq!(&bytes[12..16], &512u32.to_le_bytes());
    assert_eq!(&bytes[16..24], &(5u64 << 30).to_le_bytes());
    assert_eq!(&bytes[24..32], &(6u64 << 30).to_le_bytes());
    assert_eq!(&bytes[32..48], &[0; 16]);
    assert_eq!(&bytes[48..56], &7u64.to_le_bytes());
    assert_eq!(
        plan_resize(&resize_args("full", true), &probed, 1).unwrap_err(),
        "resize: --preallocation=full is meaningless when shrinking"
    );
    assert_eq!(doubled_capacity(0), 1 << 30);
    assert_eq!(doubled_capacity(1 << 30), 2 << 30);
    assert_eq!(doubled_capacity(u64::MAX), u64::MAX);
}

#[test]
fn a_resize_ends_with_what_the_guest_reports() {
    let message = |action: &str, error| ResizeResultMessage {
        target_format: t("qcow2"),
        resolved_new_virtual_size: 9,
        file_size_before: 10,
        file_size_after: 30,
        action: t(action),
        error,
    };
    let grown: ResizeRunResult = harvest_resize(&message("grow", 0));
    assert_eq!(guest_action_str(grown.action), "grow");
    assert_eq!(guest_action_str(harvest_resize(&message("shrink", 0)).action), "shrink");
    assert_eq!(guest_action_str(harvest_resize(&message("?", 0)).action), "noop");
    let finish = finish_resize(Some(grown), "full", 100).unwrap();
    assert_eq!(finish.file_size, 30);
    assert!(matches!(finish.preallocation, Preallocation::Zero { offset: 10, length: 20 }));
    let grown = harvest_resize(&message("grow", 0));
    assert!(finish_resize(Some(grown), "falloc", 29)
        .unwrap_err()
        .starts_with("resize: guest reported file_size_after 30 exceeds capacity hint 29"));
    assert_eq!(
        finish_resize(Some(harvest_resize(&message("grow", 2))), "off", 100).unwrap_err(),
        "resize: guest reported error 2: invalid new size"
    );
    assert_eq!(
        finish_resize(None, "off", 100).unwrap_err(),
        "resize: guest did not return a result"
    );
    assert_eq!(action_str(1, 2), "grow");
    assert_eq!(action_str(2, 1), "shrink");
    assert_eq!(action_str(2, 2), "noop");
}

#[test]
fn a_resize_is_announced() {
    let mut args = resize_args("off", false);
    assert_eq!(render_resize_success(&args, 2, 1, 2, 3, "grow"), "Image resized.\n");
    args.output = t("json");
    assert_eq!(
        render_resize_success(&args, 2, 1, 2, 3, "grow"),
        "{\n  \"filename\": \"a \\\"b\\\"\",\n  \"format\": \"qcow2\",\n  \"action\": \"grow\",\n  \
         \"old_virtual_size\": 1,\n  \"new_virtual_size\": 2,\n  \"new_file_size\": 3\n}\n"
    );
    args.quiet = true;
    assert_eq!(render_resize_success(&args, 2, 1, 2, 3, "grow"), "");
}

fn rebase_args(backing: &str) -> RebaseArgs {
    RebaseArgs {
        filename: t("/vm/o.qcow2"),
        format: None,
        backing: t(backing),
        backing_format: None,
        unsafe_mode: false,
        quiet: false,
        output: t("human"),
    }
}

#[test]
fn rebase_targets_are_probed() {
    let mut args = rebase_args("b");
    assert_eq!(
        check_rebase_overlay(&args, false).unwrap_err(),
        "rebase: overlay '/vm/o.qcow2' does not exist"
    );
    assert!(check_rebase_overlay(&args, true).is_ok());
    assert_eq!(forced_rebase_format(&args).unwrap(), None);
    args.format = Some(t("vmdk"));
    assert_eq!(forced_rebase_format(&args).unwrap(), Some(ImageFormat::Vmdk4));
    args.format = Some(t("raw"));
    assert_eq!(
        forced_rebase_format(&args).unwrap_err(),
        "rebase: format 'raw' is not supported (qcow2 and vmdk only)"
    );
    let probed = probe_rebase_target(ImageFormat::Qcow2, "Qcow2", 9, &facts()).unwrap();
    assert_eq!(
        (probed.format, probed.current_virtual_size, probed.current_file_size, probed.overlay_cluster_size),
        (IMAGE_FORMAT_QCOW2, 1 << 30, 9, 65536)
    );
    let probed = probe_rebase_target(ImageFormat::Vmdk4, "Vmdk4", 9, &facts()).unwrap();
    assert_eq!((probed.format, probed.overlay_cluster_size), (IMAGE_FORMAT_VMDK4, 0));
    assert_eq!(
        probe_rebase_target(ImageFormat::Qcow2, "Qcow2", 9, &no_facts()).unwrap_err(),
        "rebase: failed to parse qcow2 header"
    );
    assert_eq!(
        probe_rebase_target(ImageFormat::Raw, "Raw", 9, &facts()).unwrap_err(),
        "rebase: format 'Raw' does not support rebase (qcow2 and vmdk only)"
    );
}

#[test]
fn a_new_backing_file_must_be_there_and_fit() {
    let args = rebase_args("b");
    let path = new_backing_path(&args, "/vm");
    assert_eq!(path, Some(t("/vm/b")));
    assert_eq!(
        check_new_backing(&args, &path, false).unwrap_err(),
        "rebase: new backing file '/vm/b' does not exist; pass -u to skip this check"
    );
    assert!(check_new_backing(&args, &path, true).is_ok());
    let mut trusted = rebase_args("b");
    trusted.unsafe_mode = true;
    assert!(check_new_backing(&trusted, &path, false).is_ok());
    let long = rebase_args(&"x".repeat(1025));
    let path = new_backing_path(&long, "/vm");
    assert_eq!(
        check_new_backing(&long, &path, true).unwrap_err(),
        "rebase: backing path is 1025 bytes; maximum is 1024"
    );
    let detached = rebase_args("");
    assert_eq!(new_backing_path(&detached, "/vm"), None);
}

#[test]
fn a_rebase_is_planned_over_both_chains() {
    let probed = ProbedRebaseTarget {
        format: IMAGE_FORMAT_QCOW2,
        current_virtual_size: 77,
        current_file_size: 5,
        overlay_cluster_size: 512,
    };
    let mut args = rebase_args("b");
    args.backing_format = Some(t("raw"));
    let plan =
        plan_rebase(&args, &probed, &vec![image("/p")], &Some(vec![image("/n"), image("/m")])).unwrap();
    let c = &plan.config;
    assert_eq!((c.old_chain_first, c.old_chain_count), (0, 1));
    assert_eq!((c.new_chain_first, c.new_chain_count), (1, 2));
    assert_eq!((plan.input_count, plan.output_slot, plan.stub_input), (3, 3, false));
    assert_eq!(c.new_backing_format, IMAGE_FORMAT_RAW);
    assert_eq!(plan.capacity_hint, 1 << 30);
    let bytes = write_rebase_config(c);
    assert_eq!(&bytes[..4], &0x52454241u32.to_le_bytes());
    let detached = plan_rebase(&rebase_args(""), &probed, &Vec::new(), &None).unwrap();
    assert_eq!(detached.config.flags, 4);
    assert_eq!((detached.input_count, detached.stub_input), (1, true));
    let mut many = Vec::new();
    for _ in 0..17 {
        many.push(image("/p"));
    }
    assert_eq!(
        plan_rebase(&rebase_args("b"), &probed, &many, &None).unwrap_err(),
        "rebase: combined chain length (17 parents + 0 new chain) exceeds the 16-device limit"
    );
    args.backing_format = Some(t("vhd"));
    assert_eq!(
        plan_rebase(&args, &probed, &Vec::new(), &None).unwrap_err(),
        "rebase: backing format 'vhd' is not supported (qcow2, vmdk, raw only)"
    );
}

#[test]
fn a_rebase_is_announced() {
    let message = |mode: &str, error| RebaseResultMessage {
        overlay_format: t("qcow2"),
        mode: t(mode),
        clusters_copied: 3,
        bytes_copied: 4,
        error,
    };
    let result: RebaseRunResult = harvest_rebase(&message("safe", 0), IMAGE_FORMAT_QCOW2);
    assert!(matches!(result.mode, RebaseMode::Safe));
    let mut args = rebase_args("b");
    assert_eq!(render_rebase_success(&args, &result), "Image rebased.\n");
    args.output = t("json");
    assert_eq!(
        render_rebase_success(&args, &result),
        "{\n  \"overlay\": \"/vm/o.qcow2\",\n  \"overlay_format\": \"qcow2\",\n  \"mode\": \"safe\",\n  \
         \"clusters_copied\": 3,\n  \"bytes_copied\": 4,\n  \"new_backing\": \"b\"\n}\n"
    );
    let mut gone = rebase_args("");
    assert_eq!(render_rebase_success(&gone, &result), "Image detached.\n");
    gone.output = t("json");
    assert!(render_rebase_success(&gone, &result).ends_with("\"bytes_copied\": 4,\n  \"detached\": true\n}\n"));
    args.quiet = true;
    assert_eq!(render_rebase_success(&args, &result), "");
    assert!(finish_rebase(Some(result)).is_ok());
    let failed = harvest_rebase(&message("unsafe", 7), IMAGE_FORMAT_QCOW2);
    assert_eq!(
        finish_rebase(Some(failed)).unwrap_err(),
        "rebase: guest reported error 7: the overlay is marked dirty or corrupt; run `instar check` first"
    );
    assert_eq!(finish_rebase(None).unwrap_err(), "rebase: guest did not return a result");
    assert_eq!(map_rebase_error(99), "unknown rebase error code 99");
    for code in 0..=13 {
        assert!(!map_rebase_error(code).starts_with("unknown"));
    }
}

fn commit_args(base: Option<&str>) -> CommitArgs {
    CommitArgs {
        filename: t("/vm/o"),
        format: None,
        base: base.map(str::to_string),
        quiet: false,
        output: t("human"),
    }
}

fn commit_target(backing: Option<&str>) -> ProbedCommitTarget {
    ProbedCommitTarget {
        format: IMAGE_FORMAT_QCOW2,
        virtual_size: 100,
        cluster_size: 512,
        backing_file_raw: backing.map(str::to_string),
    }
}

#[test]
fn commit_targets_are_probed() {
    assert_eq!(
        check_commit_overlay(&commit_args(None), false).unwrap_err(),
        "commit: overlay '/vm/o' does not exist"
    );
    let info = || InfoOperationResult {
        format: t("qcow2"),
        virtual_size: 5,
        actual_size: 6,
        cluster_size: 7,
        flags: 0,
        backing_file: Some(t("b")),
        external_data_file: None,
    };
    let probed = probe_commit_target(Ok(info()), &None, "overlay").unwrap();
    assert_eq!((probed.format, probed.virtual_size, probed.cluster_size), (2, 5, 7));
    assert_eq!(probed.backing_file_raw, Some(t("b")));
    let forced = probe_commit_target(Ok(info()), &Some(t("vmdk")), "overlay").unwrap();
    assert_eq!(forced.format, IMAGE_FORMAT_VMDK4);
    assert_eq!(
        probe_commit_target(Ok(info()), &Some(t("raw")), "overlay").unwrap_err(),
        "commit: overlay: format 'raw' is not supported (qcow2 and vmdk only)"
    );
    let mut raw = info();
    raw.format = t("raw");
    assert_eq!(
        probe_commit_target(Ok(raw), &None, "backing").unwrap_err(),
        "commit: backing: format 'raw' does not support commit (qcow2 and vmdk only)"
    );
    assert_eq!(
        probe_commit_target(Err(t("boom")), &None, "backing").unwrap_err(),
        "commit: backing: boom"
    );
}

#[test]
fn a_commit_goes_to_the_recorded_parent() {
    let overlay = commit_target(Some("b"));
    assert_eq!(recorded_backing(&overlay, "/vm"), Some(t("/vm/b")));
    assert_eq!(resolve_commit_backing(&commit_args(None), &overlay, "/vm").unwrap(), "/vm/b");
    assert_eq!(resolve_commit_backing(&commit_args(Some("/x")), &overlay, "/vm").unwrap(), "/x");
    let alone = commit_target(None);
    assert_eq!(
        resolve_commit_backing(&commit_args(None), &alone, "/vm").unwrap_err(),
        "commit: overlay has no recorded backing file; pass -b BASE to name one"
    );
    assert_eq!(
        check_backing_file("/x", false, false).unwrap_err(),
        "commit: backing file '/x' does not exist"
    );
    assert_eq!(
        check_backing_file("/x", true, false).unwrap_err(),
        "commit: backing file '/x' is not writable"
    );
    assert!(check_explicit_base("/x", "/x", &Some(t("/x"))).is_ok());
    assert!(check_explicit_base("/x", "/x", &Some(t("/y")))
        .unwrap_err()
        .contains("(the overlay's immediate parent is '/y')"));
    assert!(check_explicit_base("/x", "/x", &None).unwrap_err().contains("'-b /x' would be"));
}

#[test]
fn a_commit_needs_a_matching_pair() {
    let overlay = commit_target(Some("b"));
    assert!(check_commit_pair(&overlay, &commit_target(None)).is_ok());
    let mut other = commit_target(None);
    other.format = IMAGE_FORMAT_VMDK4;
    assert_eq!(
        check_commit_pair(&overlay, &other).unwrap_err(),
        "commit: cross-format commit is not yet supported (overlay is qcow2, backing is vmdk)"
    );
    let mut other = commit_target(None);
    other.cluster_size = 1024;
    assert_eq!(
        check_commit_pair(&overlay, &other).unwrap_err(),
        "commit: cluster-size mismatch is not yet supported (overlay 512 B, backing 1024 B)"
    );
    other.cluster_size = 0;
    assert!(check_commit_pair(&overlay, &other).is_ok());
    other.virtual_size = 99;
    assert_eq!(
        check_commit_pair(&overlay, &other).unwrap_err(),
        "commit: overlay virtual size (100 B) exceeds backing virtual size (99 B)"
    );
}

#[test]
fn a_commit_is_planned_and_announced() {
    let overlay = commit_target(Some("b"));
    let backing = commit_target(None);
    let plan = plan_commit(&commit_args(None), &overlay, &backing, &vec![image("/p")], 3).unwrap();
    assert_eq!((plan.input_count, plan.output_slot, plan.capacity_hint), (2, 2, 1 << 30));
    assert_eq!(&write_commit_config(&plan.config)[..4], &0x434F4D4Du32.to_le_bytes());
    let mut many = Vec::new();
    for _ in 0..16 {
        many.push(image("/p"));
    }
    assert_eq!(
        plan_commit(&commit_args(None), &overlay, &backing, &many, 3).unwrap_err(),
        "commit: combined chain length (overlay + 16 backing parents) exceeds the 16-device limit"
    );
    let chain = commit_chain(&overlay, "/vm/o", 2, "qcow2", 50, vec![image("/p")]);
    assert_eq!(chain.len(), 2);
    assert_eq!((chain[0].path.as_str(), chain[0].virtual_size), ("/vm/o", 100));
    let message = |error| CommitResultMessage {
        overlay_format: t("qcow2"),
        backing_format: t("qcow2"),
        clusters_committed: 1,
        bytes_committed: 2,
        overlay_clusters_cleared: 3,
        error,
    };
    let result: CommitRunResult = harvest_commit(&message(0), 2, 2);
    let mut args = commit_args(None);
    assert_eq!(render_commit_success(&args, "/b", &result), "Image committed.\n");
    args.output = t("json");
    assert_eq!(
        render_commit_success(&args, "/b", &result),
        "{\n  \"overlay\": \"/vm/o\",\n  \"overlay_format\": \"qcow2\",\n  \"backing\": \"/b\",\n  \
         \"backing_format\": \"qcow2\",\n  \"clusters_committed\": 1,\n  \"bytes_committed\": 2,\n  \
         \"overlay_clusters_cleared\": 3\n}\n"
    );
    assert!(finish_commit(Some(result)).is_ok());
    assert_eq!(
        finish_commit(Some(harvest_commit(&message(2), 2, 2))).unwrap_err(),
        "commit: guest reported error 2: the overlay has no recorded backing file; pass -b to name one"
    );
    assert_eq!(finish_commit(None).unwrap_err(), "commit: guest did not return a result");
    assert_eq!(map_commit_error(44), "unknown commit error code 44");
}

fn amend_args(options: &[&str]) -> AmendArgs {
    AmendArgs {
        filename: t("a"),
        format: None,
        option: options.iter().map(|s| s.to_string()).collect(),
        quiet: false,
        output: t("human"),
    }
}

#[test]
fn only_qcow2_can_be_amended() {
    let mut args = amend_args(&["compat=1.1"]);
    let probed = probe_amend_target(&args, ImageFormat::Qcow2, Some(header())).unwrap();
    assert_eq!((probed.cluster_size, probed.current_version, probed.virtual_size), (65536, 3, 1 << 30));
    assert_eq!(
        probe_amend_target(&args, ImageFormat::Raw, None).unwrap_err(),
        "amend: only qcow2 images can be amended"
    );
    assert_eq!(
        probe_amend_target(&args, ImageFormat::Qcow2, None).unwrap_err(),
        "amend: invalid qcow2 header"
    );
    args.format = Some(t("raw"));
    assert!(probe_amend_target(&args, ImageFormat::Qcow2, Some(header())).is_err());
}

#[test]
fn an_amendment_is_planned_and_announced() {
    let args = amend_args(&["compat=1.1", "lazy_refcounts=off"]);
    let options = amend_request(&args).unwrap();
    let probed = probe_amend_target(&args, ImageFormat::Qcow2, Some(header())).unwrap();
    let config = plan_amend(&options, true, &probed);
    assert_eq!(config.flags, 0x1 | 0x2 | 0x4 | 0x10);
    assert_eq!(&write_amend_config(&config)[..4], &0x414D4E44u32.to_le_bytes());
    let message = |action, error| AmendResultMessage {
        target_format: t("qcow2"),
        action,
        resulting_version: 3,
        lazy_refcounts: true,
        error,
    };
    let amended: AmendRunResult = harvest_amend(&message(1, 0));
    let mut json = amend_args(&[]);
    json.output = t("json");
    assert_eq!(
        render_amend_success(&json, &amended),
        "{\n  \"filename\": \"a\",\n  \"format\": \"qcow2\",\n  \"action\": \"amended\",\n  \
         \"compat\": \"1.1\",\n  \"lazy_refcounts\": \"on\"\n}\n"
    );
    assert_eq!(render_amend_success(&args, &amended), "Image amended.\n");
    assert_eq!(render_amend_success(&args, &harvest_amend(&message(0, 0))), "No change.\n");
    assert!(finish_amend(Some(amended)).unwrap().sync);
    assert!(!finish_amend(Some(harvest_amend(&message(0, 0)))).unwrap().sync);
    assert_eq!(
        finish_amend(Some(harvest_amend(&message(0, 11)))).unwrap_err(),
        "amend: I/O error writing the image header"
    );
    assert_eq!(finish_amend(None).unwrap_err(), "amend: guest did not return a result");
    assert_eq!(map_amend_error(50), "unknown amend error code");
}
