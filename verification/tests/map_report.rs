use instar::abi::{
    MAP_RESULT_ERROR_HAS_BACKING, MAP_RESULT_ERROR_INVALID_OPTION, MAP_RESULT_ERROR_INVALID_SOURCE,
    MAP_RESULT_ERROR_IO, MAP_RESULT_ERROR_OK,
};
use instar::map_report::{format_hex_or_zero, map_error_message, map_state_triple, MapRenderer};
use instar::message::MapExtentMessage;

fn ext(start: u64, length: u64, state: &str, file_offset: u64) -> MapExtentMessage {
    MapExtentMessage { start, length, state: state.to_string(), file_offset }
}

fn render(output: &str, extents: &[MapExtentMessage], filename: &str) -> Vec<u8> {
    let mut r = MapRenderer::new(output, filename.to_string());
    let mut buf = r.begin();
    for e in extents {
        buf.push_str(&r.emit_extent(e));
    }
    buf.push_str(&r.finish());
    buf.into_bytes()
}

fn render_human(extents: &[MapExtentMessage], filename: &str) -> Vec<u8> {
    render("human", extents, filename)
}

fn render_json(extents: &[MapExtentMessage]) -> Vec<u8> {
    render("json", extents, "<unused>")
}

#[test]
fn state_triple_hole() {
    assert_eq!(map_state_triple("hole"), (false, true, false, false));
}

#[test]
fn state_triple_zero() {
    assert_eq!(map_state_triple("zero"), (true, true, false, false));
}

#[test]
fn state_triple_data() {
    assert_eq!(map_state_triple("data"), (true, false, true, true));
}

#[test]
fn state_triple_unknown_falls_back_to_data() {
    assert_eq!(map_state_triple("future-state"), (true, false, true, true));
}

#[test]
fn error_ok_returns_none() {
    assert!(map_error_message(MAP_RESULT_ERROR_OK).is_none());
}

#[test]
fn error_codes_have_distinct_messages() {
    let codes = [
        MAP_RESULT_ERROR_INVALID_SOURCE,
        MAP_RESULT_ERROR_INVALID_OPTION,
        MAP_RESULT_ERROR_HAS_BACKING,
        MAP_RESULT_ERROR_IO,
    ];
    let messages: Vec<&'static str> = codes
        .iter()
        .map(|c| map_error_message(*c).expect("known error must have message"))
        .collect();
    for m in &messages {
        assert!(!m.is_empty());
        assert!(m.starts_with("map: "), "missing prefix: {}", m);
    }
    for i in 0..messages.len() {
        for j in (i + 1)..messages.len() {
            assert_ne!(
                messages[i], messages[j],
                "error codes {} and {} share a message",
                codes[i], codes[j]
            );
        }
    }
}

#[test]
fn error_unknown_returns_generic_message() {
    let msg = map_error_message(999).expect("unknown error returns Some");
    assert!(msg.contains("unknown"));
}

#[test]
fn error_has_backing_mentions_chain_followup() {
    let msg = map_error_message(MAP_RESULT_ERROR_HAS_BACKING)
        .expect("has-backing error must have message");
    assert!(msg.contains("chain") || msg.contains("PLAN-map"));
}

#[test]
fn hex_or_zero_zero_is_literal_zero() {
    assert_eq!(format_hex_or_zero(0), "0");
}

#[test]
fn hex_or_zero_nonzero_is_lowercase_hex() {
    assert_eq!(format_hex_or_zero(0x10000), "0x10000");
    assert_eq!(format_hex_or_zero(0x50000), "0x50000");
    assert_eq!(format_hex_or_zero(u64::MAX), "0xffffffffffffffff");
}

#[test]
fn renderer_human_empty_extents_emits_header_only() {
    let out = render_human(&[], "any.qcow2");
    assert_eq!(
        out,
        b"Offset          Length          Mapped to       File\n"
    );
}

#[test]
fn human_single_data_extent_byte_exact() {
    let out = render_human(&[ext(0, 0x10000, "data", 0x50000)], "m4.qcow2");
    let expected = "\
Offset          Length          Mapped to       File
0               0x10000         0x50000         m4.qcow2
";
    assert_eq!(out, expected.as_bytes());
}

#[test]
fn human_zero_offset_renders_as_literal_zero() {
    let out = render_human(&[ext(0, 0x10000, "data", 0)], "raw5.img");
    let expected = "\
Offset          Length          Mapped to       File
0               0x10000         0               raw5.img
";
    assert_eq!(out, expected.as_bytes());
}

#[test]
fn human_holes_are_elided() {
    let out = render_human(
        &[
            ext(0, 0x10000, "hole", 0),
            ext(0x10000, 0x10000, "zero", 0),
            ext(0x20000, 0x10000, "data", 0x50000),
        ],
        "mix.qcow2",
    );
    let expected = "\
Offset          Length          Mapped to       File
0x20000         0x10000         0x50000         mix.qcow2
";
    assert_eq!(out, expected.as_bytes());
}

#[test]
fn human_multiple_data_extents_preserve_order() {
    let out = render_human(
        &[
            ext(0, 0x10000, "data", 0x50000),
            ext(0x80000, 0x10000, "data", 0x60000),
        ],
        "m3.qcow2",
    );
    let expected = "\
Offset          Length          Mapped to       File
0               0x10000         0x50000         m3.qcow2
0x80000         0x10000         0x60000         m3.qcow2
";
    assert_eq!(out, expected.as_bytes());
}

#[test]
fn human_filename_preserved_verbatim() {
    let out = render_human(&[ext(0, 0x10000, "data", 0)], "/tmp/has spaces/img.qcow2");
    let expected = "\
Offset          Length          Mapped to       File
0               0x10000         0               /tmp/has spaces/img.qcow2
";
    assert_eq!(out, expected.as_bytes());
}

#[test]
fn human_large_offset_overflows_column_gracefully() {
    let out = render_human(&[ext(u64::MAX - 0xffff, 0x10000, "data", 0)], "big.img");
    let lines: Vec<&[u8]> = out.split(|&b| b == b'\n').collect();
    assert_eq!(
        lines[0],
        b"Offset          Length          Mapped to       File"
    );
    assert!(lines[1].starts_with(b"0xffffffffffff"));
    assert!(lines[1].ends_with(b"big.img"));
}

#[test]
fn renderer_json_empty_extents_is_empty_array() {
    let out = render_json(&[]);
    assert_eq!(out, b"[]\n");
}

#[test]
fn json_single_data_extent_byte_exact() {
    let out = render_json(&[ext(0, 0x10000, "data", 0x50000)]);
    let expected = b"[{ \"start\": 0, \"length\": 65536, \"depth\": 0, \
                      \"present\": true, \"zero\": false, \"data\": true, \
                      \"compressed\": false, \"offset\": 327680}]\n";
    assert_eq!(out, expected);
}

#[test]
fn json_hole_omits_offset_but_includes_compressed_false() {
    let out = render_json(&[ext(0, 0x100000, "hole", 0)]);
    let expected = b"[{ \"start\": 0, \"length\": 1048576, \"depth\": 0, \
                      \"present\": false, \"zero\": true, \"data\": false, \
                      \"compressed\": false}]\n";
    assert_eq!(out, expected);
}

#[test]
fn json_zero_state_is_present_no_offset() {
    let out = render_json(&[ext(0, 0x10000, "zero", 0)]);
    let s = std::str::from_utf8(&out).unwrap();
    assert!(s.contains("\"present\": true"));
    assert!(s.contains("\"zero\": true"));
    assert!(s.contains("\"data\": false"));
    assert!(!s.contains("\"offset\""));
    assert!(s.contains("\"compressed\": false"));
}

#[test]
fn json_inter_object_separator_is_comma_newline() {
    let out = render_json(&[
        ext(0, 0x10000, "data", 0x50000),
        ext(0x10000, 0x10000, "hole", 0),
    ]);
    let s = std::str::from_utf8(&out).unwrap();
    assert!(s.contains("},\n{"));
    assert!(!s.contains("},{"));
}

#[test]
fn json_multiple_extents_byte_exact() {
    let out = render_json(&[
        ext(0, 0x10000, "data", 0x50000),
        ext(0x10000, 0x10000, "hole", 0),
        ext(0x20000, 0x10000, "data", 0x70000),
    ]);
    let expected = b"[{ \"start\": 0, \"length\": 65536, \"depth\": 0, \
                      \"present\": true, \"zero\": false, \"data\": true, \
                      \"compressed\": false, \"offset\": 327680},\n\
                      { \"start\": 65536, \"length\": 65536, \"depth\": 0, \
                      \"present\": false, \"zero\": true, \"data\": false, \
                      \"compressed\": false},\n\
                      { \"start\": 131072, \"length\": 65536, \"depth\": 0, \
                      \"present\": true, \"zero\": false, \"data\": true, \
                      \"compressed\": false, \"offset\": 458752}]\n";
    assert_eq!(out, expected);
}

#[test]
fn json_trailing_newline_after_closing_bracket() {
    let out = render_json(&[ext(0, 0x10000, "data", 0)]);
    assert!(
        out.ends_with(b"]\n"),
        "JSON output must end with `]\\n` to match qemu-img"
    );
}

#[test]
fn json_compressed_false_emitted_for_every_state() {
    for state in ["hole", "zero", "data"] {
        let out = render_json(&[ext(0, 0x10000, state, 0)]);
        let s = std::str::from_utf8(&out).unwrap();
        assert!(
            s.contains("\"compressed\": false"),
            "state {} must emit compressed: false; got: {}",
            state,
            s,
        );
    }
}

#[test]
fn json_field_order_is_canonical() {
    let out = render_json(&[ext(0, 4096, "data", 65536)]);
    let s = std::str::from_utf8(&out).unwrap();
    let order = [
        "\"start\":",
        "\"length\":",
        "\"depth\":",
        "\"present\":",
        "\"zero\":",
        "\"data\":",
        "\"compressed\":",
        "\"offset\":",
    ];
    let mut last_pos = 0usize;
    for field in order {
        let pos = s
            .find(field)
            .unwrap_or_else(|| panic!("missing field {} in JSON: {}", field, s));
        assert!(
            pos >= last_pos,
            "field {} appears out of order at byte {}: {}",
            field,
            pos,
            s
        );
        last_pos = pos;
    }
}

#[test]
fn json_large_u64_offset_is_decimal() {
    let big = 1u64 << 40; // 1 TiB
    let out = render_json(&[ext(0, 4096, "data", big)]);
    let s = std::str::from_utf8(&out).unwrap();
    assert!(s.contains(&format!("\"offset\": {}", big)));
    assert!(!s.contains("0x"));
}

#[test]
fn renderer_extents_written_counts_data_only_in_human() {
    let mut r = MapRenderer::new("human", "img".to_string());
    r.begin();
    r.emit_extent(&ext(0, 0x10000, "hole", 0));
    r.emit_extent(&ext(0x10000, 0x10000, "data", 0x50000));
    r.emit_extent(&ext(0x20000, 0x10000, "zero", 0));
    r.finish();
    assert_eq!(r.extents_written, 1);
}

#[test]
fn renderer_extents_written_counts_all_in_json() {
    let mut r = MapRenderer::new("json", "img".to_string());
    r.begin();
    r.emit_extent(&ext(0, 0x10000, "hole", 0));
    r.emit_extent(&ext(0x10000, 0x10000, "data", 0x50000));
    r.emit_extent(&ext(0x20000, 0x10000, "zero", 0));
    r.finish();
    assert_eq!(r.extents_written, 3);
}
