use instar::abi::{
    SNAPSHOT_CONFIG_MODE_APPLY, SNAPSHOT_CONFIG_MODE_CREATE, SNAPSHOT_CONFIG_MODE_DELETE,
    SNAPSHOT_CONFIG_MODE_LIST, SNAPSHOT_RESULT_ERROR_ALLOCATION_FAILED,
    SNAPSHOT_RESULT_ERROR_DUPLICATE_NAME, SNAPSHOT_RESULT_ERROR_INVALID_CONFIG,
    SNAPSHOT_RESULT_ERROR_INVALID_UTF8, SNAPSHOT_RESULT_ERROR_IO,
    SNAPSHOT_RESULT_ERROR_L1_SIZE_MISMATCH, SNAPSHOT_RESULT_ERROR_NOT_FOUND,
    SNAPSHOT_RESULT_ERROR_OK, SNAPSHOT_RESULT_ERROR_PARSE_FAILED,
    SNAPSHOT_RESULT_ERROR_REFCOUNT_OVERFLOW, SNAPSHOT_RESULT_ERROR_SNAPSHOT_TABLE_FULL,
    SNAPSHOT_RESULT_ERROR_UNSUPPORTED_FEATURE, SNAPSHOT_RESULT_ERROR_UNSUPPORTED_FORMAT,
};
use instar::json::json_escape;
use instar::message::SnapshotEntryMessage;
use instar::snapshot::{plan_snapshot, SnapshotArgs};
use instar::snapshot_report::{
    format_qemu_snapshot_clock, format_snapshot_vm_size, snapshot_error_message, SnapshotRenderer,
};

const EPOCH: &str = "1970-01-01 00:00:00";

fn snap(
    id: &str,
    name: &str,
    date_sec_hi: u32,
    date_sec_lo: u32,
    date_nsec: u32,
    vm_clock_nsec: u64,
    vm_state_size: u64,
    icount: u64,
) -> SnapshotEntryMessage {
    SnapshotEntryMessage {
        id: id.to_string(),
        name: name.to_string(),
        l1_table_offset: 0,
        l1_size: 0,
        date_sec_hi,
        date_sec_lo,
        date_nsec,
        vm_clock_nsec,
        vm_state_size,
        disk_size: 0,
        icount,
        extra_data_size: 0,
    }
}

fn render_snapshots(output: &str, entries: &[SnapshotEntryMessage]) -> Vec<u8> {
    let mut r = SnapshotRenderer::new(output);
    let mut buf = r.begin();
    for e in entries {
        buf.push_str(&r.emit_snapshot(e, EPOCH));
    }
    buf.push_str(&r.finish());
    buf.into_bytes()
}

fn render_snapshot_human(entries: &[SnapshotEntryMessage]) -> Vec<u8> {
    render_snapshots("human", entries)
}

fn render_snapshot_json(entries: &[SnapshotEntryMessage]) -> Vec<u8> {
    render_snapshots("json", entries)
}

/// A request for an image that cannot be opened.
fn refused_args(
    force_share: bool,
    create: Option<&str>,
    delete: Option<&str>,
    apply: Option<&str>,
    list: bool,
) -> SnapshotArgs {
    SnapshotArgs {
        filename: "/dev/null/no_such_image".to_string(),
        list,
        apply: apply.map(str::to_string),
        create: create.map(str::to_string),
        delete: delete.map(str::to_string),
        format: None,
        quiet: false,
        force_share,
        image_opts: false,
        output: "human".to_string(),
        sector_size: 65536,
    }
}

fn refusal(args: &SnapshotArgs) -> String {
    let missing = Err("No such file or directory (os error 2)".to_string());
    plan_snapshot(args, false, None, &missing).unwrap_err().message
}

#[test]
fn snapshot_human_empty_list_emits_no_output() {
    let out = render_snapshot_human(&[]);
    assert!(out.is_empty(), "expected empty output, got {:?}", out);
}

#[test]
fn snapshot_json_empty_list_emits_brackets() {
    let out = render_snapshot_json(&[]);
    assert_eq!(out, b"[]\n");
}

#[test]
fn snapshot_human_single_snapshot_byte_exact() {
    let e = snap("1", "snap1", 0, 0, 0, 0, 0, 0);
    let out = render_snapshot_human(&[e]);
    let text = String::from_utf8(out).unwrap();
    assert!(text.starts_with("Snapshot list:\n"), "got: {:?}", text);
    assert!(
        text.contains(
            "ID      TAG               VM_SIZE                DATE        VM_CLOCK     ICOUNT"
        ),
        "header column titles do not match qemu-img v10 layout: {:?}",
        text
    );
    assert!(
        text.contains("1       snap1                 0 B"),
        "row: {:?}",
        text
    );
    assert!(text.contains("0000:00:00.000"), "clock: {:?}", text);
    assert!(text.ends_with("          0\n"), "icount tail: {:?}", text);
}

#[test]
fn snapshot_human_two_snapshots_byte_exact() {
    let e1 = snap("1", "first", 0, 0, 0, 0, 0, 0);
    let e2 = snap("2", "second", 0, 0, 0, 0, 0, 0);
    let out = render_snapshot_human(&[e1, e2]);
    let text = String::from_utf8(out).unwrap();
    assert_eq!(text.matches('\n').count(), 4, "got: {:?}", text);
    assert!(text.contains("1       first"), "row 1: {:?}", text);
    assert!(text.contains("2       second"), "row 2: {:?}", text);
}

#[test]
fn snapshot_json_two_snapshots_comma_separated() {
    let e1 = snap("1", "first", 0, 0, 0, 0, 0, 0);
    let e2 = snap("2", "second", 0, 0, 0, 0, 0, 0);
    let out = render_snapshot_json(&[e1, e2]);
    let text = String::from_utf8(out).unwrap();
    assert!(text.starts_with("[\n{"), "head: {:?}", text);
    assert!(text.contains("},\n{"), "separator: {:?}", text);
    assert!(text.ends_with("\n]\n"), "tail: {:?}", text);
    assert!(text.contains("\"id\": \"1\""));
    assert!(text.contains("\"id\": \"2\""));
}

#[test]
fn snapshot_human_icount_absent_emits_double_dash() {
    let e = snap("1", "x", 0, 0, 0, 0, 0, u64::MAX);
    let out = render_snapshot_human(&[e]);
    let text = String::from_utf8(out).unwrap();
    assert!(text.ends_with("        --\n"), "tail: {:?}", text);
}

#[test]
fn snapshot_json_icount_absent_emits_null() {
    let e = snap("1", "x", 0, 0, 0, 0, 0, u64::MAX);
    let out = render_snapshot_json(&[e]);
    let text = String::from_utf8(out).unwrap();
    assert!(
        text.contains("\"icount\": null"),
        "JSON icount should be null: {:?}",
        text
    );
}

#[test]
fn snapshot_human_long_id_shifts_later_columns_right() {
    let e = snap("very-long-id", "name", 0, 0, 0, 0, 0, 0);
    let out = render_snapshot_human(&[e]);
    let text = String::from_utf8(out).unwrap();
    let row = text.lines().nth(2).expect("expected data row");
    assert!(row.len() > 80, "row should expand: len={}", row.len());
    assert!(row.starts_with("very-long-id "), "id at head: {:?}", row);
}

#[test]
fn snapshot_human_multibyte_name_pads_by_bytes() {
    let e = snap("1", "snäp-名前", 0, 0, 0, 0, 0, 0);
    let out = render_snapshot_human(&[e]);
    let text = String::from_utf8(out).unwrap();
    let row = text.lines().nth(2).expect("expected data row");
    let expected_prefix = format!("1{}snäp-名前{}0 B", " ".repeat(7), " ".repeat(10));
    assert!(
        row.starts_with(&expected_prefix),
        "byte-padded row: {:?}",
        row
    );
}

#[test]
fn snapshot_human_vm_size_spot_checks() {
    assert_eq!(format_snapshot_vm_size(0), "0 B");
    assert_eq!(format_snapshot_vm_size(1024), "1 KiB");
    assert_eq!(format_snapshot_vm_size(64 * 1024), "64 KiB");
}

#[test]
fn snapshot_human_clock_format_four_digit_hours() {
    assert_eq!(format_qemu_snapshot_clock(0), "0000:00:00.000");
    let nsec: u64 = (3600 + 2 * 60 + 3) * 1_000_000_000 + 456 * 1_000_000;
    assert_eq!(format_qemu_snapshot_clock(nsec), "0001:02:03.456");
    let big_nsec: u64 = 12345u64 * 3_600_000_000_000;
    assert_eq!(format_qemu_snapshot_clock(big_nsec), "12345:00:00.000");
}

#[test]
fn snapshot_error_ok_returns_none() {
    for mode in [
        SNAPSHOT_CONFIG_MODE_LIST,
        SNAPSHOT_CONFIG_MODE_APPLY,
        SNAPSHOT_CONFIG_MODE_CREATE,
        SNAPSHOT_CONFIG_MODE_DELETE,
    ] {
        assert!(snapshot_error_message(mode, SNAPSHOT_RESULT_ERROR_OK).is_none());
    }
}

#[test]
fn snapshot_error_codes_have_distinct_messages() {
    let codes = [
        SNAPSHOT_RESULT_ERROR_UNSUPPORTED_FORMAT,
        SNAPSHOT_RESULT_ERROR_UNSUPPORTED_FEATURE,
        SNAPSHOT_RESULT_ERROR_NOT_FOUND,
        SNAPSHOT_RESULT_ERROR_DUPLICATE_NAME,
        SNAPSHOT_RESULT_ERROR_REFCOUNT_OVERFLOW,
        SNAPSHOT_RESULT_ERROR_ALLOCATION_FAILED,
        SNAPSHOT_RESULT_ERROR_SNAPSHOT_TABLE_FULL,
        SNAPSHOT_RESULT_ERROR_IO,
        SNAPSHOT_RESULT_ERROR_L1_SIZE_MISMATCH,
        SNAPSHOT_RESULT_ERROR_INVALID_UTF8,
        SNAPSHOT_RESULT_ERROR_INVALID_CONFIG,
        SNAPSHOT_RESULT_ERROR_PARSE_FAILED,
    ];
    for mode in [SNAPSHOT_CONFIG_MODE_APPLY, SNAPSHOT_CONFIG_MODE_DELETE] {
        let messages: Vec<&'static str> = codes
            .iter()
            .map(|c| snapshot_error_message(mode, *c).expect("known error must have message"))
            .collect();
        for m in &messages {
            assert!(!m.is_empty());
            assert!(m.starts_with("snapshot: "), "missing prefix: {}", m);
        }
        for i in 0..messages.len() {
            for j in (i + 1)..messages.len() {
                assert_ne!(
                    messages[i], messages[j],
                    "mode {}: error codes {} and {} share a message",
                    mode, codes[i], codes[j]
                );
            }
        }
    }
}

#[test]
fn snapshot_error_unknown_returns_generic_message() {
    let msg = snapshot_error_message(SNAPSHOT_CONFIG_MODE_LIST, 999)
        .expect("unknown error returns Some");
    assert!(msg.contains("unknown"));
}

#[test]
fn snapshot_not_found_message_is_name_only_for_delete() {
    let msg =
        snapshot_error_message(SNAPSHOT_CONFIG_MODE_DELETE, SNAPSHOT_RESULT_ERROR_NOT_FOUND)
            .expect("not-found has a message");
    assert!(msg.contains("name only"), "msg: {}", msg);
    assert!(!msg.contains("neither"), "msg: {}", msg);
}

#[test]
fn snapshot_not_found_message_is_id_then_name_for_apply() {
    let msg =
        snapshot_error_message(SNAPSHOT_CONFIG_MODE_APPLY, SNAPSHOT_RESULT_ERROR_NOT_FOUND)
            .expect("not-found has a message");
    assert!(msg.contains("ID first, then by name"), "msg: {}", msg);
    assert!(!msg.contains("name only"), "msg: {}", msg);
}

#[test]
fn snapshot_l1_mismatch_message_is_mode_aware() {
    let apply = snapshot_error_message(
        SNAPSHOT_CONFIG_MODE_APPLY,
        SNAPSHOT_RESULT_ERROR_L1_SIZE_MISMATCH,
    )
    .expect("apply mismatch has a message");
    assert!(apply.contains("resized"), "msg: {}", apply);
    assert!(apply.contains("truncates"), "msg: {}", apply);
    assert!(apply.contains("quirks"), "msg: {}", apply);
    let delete = snapshot_error_message(
        SNAPSHOT_CONFIG_MODE_DELETE,
        SNAPSHOT_RESULT_ERROR_L1_SIZE_MISMATCH,
    )
    .expect("delete mismatch has a message");
    assert_ne!(apply, delete);
}

#[test]
fn snapshot_force_share_with_create_is_refused_before_file() {
    let args = refused_args(true, Some("snap1"), None, None, false);
    let err = refusal(&args);
    let msg = err.to_string();
    assert!(
        msg.contains("force-share") || msg.contains("-U"),
        "expected force-share refusal, got: {}",
        msg
    );
}

#[test]
fn snapshot_force_share_with_delete_is_refused_before_file() {
    let args = refused_args(true, None, Some("snap1"), None, false);
    let err = refusal(&args);
    let msg = err.to_string();
    assert!(
        msg.contains("force-share") || msg.contains("-U"),
        "expected force-share refusal, got: {}",
        msg
    );
}

#[test]
fn snapshot_force_share_with_apply_is_refused_before_file() {
    let args = refused_args(true, None, None, Some("snap1"), false);
    let err = refusal(&args);
    let msg = err.to_string();
    assert!(
        msg.contains("force-share") || msg.contains("-U"),
        "expected force-share refusal, got: {}",
        msg
    );
}

#[test]
fn snapshot_create_empty_name_refused_host_side() {
    let args = refused_args(false, Some(""), None, None, false);
    let err = refusal(&args);
    let msg = err.to_string();
    assert!(
        msg.contains("non-empty"),
        "expected empty-name refusal, got: {}",
        msg
    );
}

#[test]
fn snapshot_create_over_255_byte_name_refused_host_side() {
    let long = "n".repeat(256);
    let args = refused_args(false, Some(&long), None, None, false);
    let err = refusal(&args);
    let msg = err.to_string();
    assert!(
        msg.contains("255"),
        "expected over-length refusal, got: {}",
        msg
    );
}

#[test]
fn snapshot_delete_apply_oversized_needle_not_found_host_side() {
    let long = "n".repeat(257);
    for (delete, apply) in [(Some(long.as_str()), None), (None, Some(long.as_str()))] {
        let args = refused_args(false, None, delete, apply, false);
        let err = refusal(&args);
        let msg = err.to_string();
        assert!(
            msg.contains(&format!("error code {}", SNAPSHOT_RESULT_ERROR_NOT_FOUND)),
            "expected not-found surface, got: {}",
            msg
        );
    }
}

#[test]
fn snapshot_force_share_with_list_proceeds_past_d1_check() {
    let args = refused_args(true, None, None, None, true);
    let err = refusal(&args);
    let msg = err.to_string();
    assert!(
        !msg.contains("force-share") && !msg.contains("sharing-safe"),
        "D1 gate must not fire for -U -l; got: {}",
        msg
    );
}

#[test]
fn snapshot_bare_filename_dispatches_to_list() {
    let args = refused_args(false, None, None, None, false);
    let err = refusal(&args);
    let msg = err.to_string();
    assert!(
        !msg.contains("required") && !msg.contains("force-share"),
        "bare filename must reach list path, not mode-required gate; got: {}",
        msg
    );
    assert!(
        msg.contains("No such file") || msg.contains("not found") || msg.contains("os error"),
        "expected file-not-found after D2 dispatch, got: {}",
        msg
    );
}

#[test]
fn snapshot_json_escape_basic() {
    assert_eq!(json_escape("abc"), "abc");
    assert_eq!(json_escape("a\"b"), "a\\\"b");
    assert_eq!(json_escape("a\\b"), "a\\\\b");
    assert_eq!(json_escape("a\nb"), "a\\nb");
    assert_eq!(json_escape("\x07"), "\\u0007");
}

#[test]
fn the_date_fills_its_column() {
    let mut renderer = SnapshotRenderer::new("human");
    let entry = snap("1", "snap1", 0, 0, 0, 0, 0, 0);
    let text = renderer.begin() + &renderer.emit_snapshot(&entry, EPOCH) + &renderer.finish();
    let row = text.lines().last().unwrap();
    assert_eq!(row.len(), 80);
    assert_eq!(&row[34..53], EPOCH);
}
