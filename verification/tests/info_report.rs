use instar::info_report::{
    format_info, format_info_json, info_report, round_to_sectors, FlatExtent, OutputProfile,
};
use instar::json::{escape_json_string, json_escape, json_escape_string};
use instar::message::{InfoResultMessage, LuksInfo, Qcow2Info, VdiInfo, VmdkInfo};

fn t(s: &str) -> String {
    s.to_string()
}

fn image(format: &str) -> InfoResultMessage {
    InfoResultMessage {
        format: t(format),
        version: 3,
        virtual_size: 1 << 30,
        actual_size: 200_000,
        cluster_size: 65536,
        flags: 0,
        backing_file: t(""),
        external_data_file: t(""),
        qcow2_info: Qcow2Info {
            compat: t("1.1"),
            compression_type: t("zstd"),
            lazy_refcounts: true,
            refcount_bits: 8,
            corrupt: false,
            extended_l2: true,
            dirty: true,
            nb_snapshots: 2,
            backing_format: t("raw"),
        },
        vmdk_info: VmdkInfo { cid: 11, parent_cid: 22, create_type: t("monolithicSparse") },
        vdi_info: VdiInfo {
            image_type: 1,
            block_size: 1048576,
            blocks_in_image: 5,
            blocks_allocated: 3,
            uuid: t("abc"),
        },
        luks_info: LuksInfo {
            cipher: t("aes"),
            cipher_mode: t("xts-plain64"),
            hash: t("sha256"),
            uuid: t("u-u"),
            payload_offset: 4096,
            master_key_length: 64,
            active_key_slots: 1,
            inner_format: t("qcow2"),
            inner_virtual_size: 99,
        },
    }
}

const NEW: OutputProfile = OutputProfile { include_dirty_flag: true, include_child_node: true };
const OLD: OutputProfile = OutputProfile { include_dirty_flag: false, include_child_node: false };

#[test]
fn a_qcow2_image_is_described_in_full() {
    let mut m = image("qcow2");
    m.flags = 3;
    m.backing_file = t("base.img");
    m.external_data_file = t("data.raw");
    let expected = "\
image: /vm/a.qcow2
file format: qcow2
virtual size: 1 GiB (1073741824 bytes)
disk size: 196 KiB
cluster_size: 65536
cleanly shut down: no
backing file: base.img (actual path: /vm/base.img)
backing file format: raw
data file: data.raw
Format specific information:
    compat: 1.1
    compression type: zstd
    lazy refcounts: true
    refcount bits: 8
    corrupt: false
    extended l2: true
Snapshot count: 2
Child node '/file':
    filename: /vm/a.qcow2
    protocol type: file
    file length: 195 KiB (200000 bytes)
    disk size: 196 KiB
";
    assert_eq!(
        format_info(&m, "/vm/a.qcow2", "/vm", 198_000, 200_704, false, false, NEW),
        expected
    );
}

#[test]
fn an_old_image_takes_its_defaults() {
    let mut m = image("qcow2");
    m.flags = 1;
    m.backing_file = t("/base");
    m.qcow2_info.compat = t("");
    m.qcow2_info.compression_type = t("");
    m.qcow2_info.refcount_bits = 0;
    m.qcow2_info.nb_snapshots = 0;
    m.qcow2_info.backing_format = t("");
    let expected = "\
image: /a
file format: qcow2
virtual size: 1 GiB (1073741824 bytes)
disk size: 500 B
cluster_size: 65536
backing file: /base
Format specific information:
    compat: 0.10
    compression type: zlib
    refcount bits: 16
";
    assert_eq!(format_info(&m, "/a", "/", 500, 500, false, false, OLD), expected);
}

#[test]
fn a_raw_image_is_as_long_as_its_file() {
    let mut m = image("raw");
    m.cluster_size = 0;
    m.actual_size = 0;
    let expected = "\
image: /r
file format: raw
virtual size: 1 KiB (1024 bytes)
disk size: 0
Child node '/file':
    filename: /r
    protocol type: file
    file length: 1 KiB (1024 bytes)
    disk size: 0
";
    assert_eq!(format_info(&m, "/r", "/", 513, 0, false, false, NEW), expected);
    assert_eq!(round_to_sectors(0), 0);
    assert_eq!(round_to_sectors(512), 512);
    assert_eq!(round_to_sectors(513), 1024);
}

#[test]
fn vmdk_and_vdi_have_their_own_details() {
    let mut m = image("vmdk");
    m.flags = 8;
    let text = format_info(&m, "/v.vmdk", "/", 100, 512, false, false, OLD);
    assert!(
        text.ends_with(
            "Format specific information:\n    cid: 11\n    parent cid: 22\n    \
             create type: monolithicSparse\n    extents:\n        [0]:\n            \
             compressed: true\n            virtual size: 1073741824\n            \
             filename: /v.vmdk\n            cluster size: 65536\n            format: \n"
        ),
        "{}",
        text
    );
    let m = image("vdi");
    let text = format_info(&m, "/d", "/", 100, 512, false, true, OLD);
    assert!(
        text.ends_with(
            "Format specific information:\n    image type: dynamic\n    block size: 1048576\n    \
             blocks in image: 5\n    blocks allocated: 3\n    uuid: abc\n"
        ),
        "{}",
        text
    );
    let plain = format_info(&m, "/d", "/", 100, 512, false, false, OLD);
    assert!(!plain.contains("Format specific"), "{}", plain);
}

#[test]
fn json_describes_a_qcow2_image() {
    let mut m = image("qcow2");
    m.flags = 1;
    m.backing_file = t("base.img");
    let expected = r#"{
    "children": [
        {
            "name": "file",
            "info": {
                "children": [],
                "virtual-size": 200000,
                "filename": "/vm/a.qcow2",
                "format": "file",
                "actual-size": 4096,
                "format-specific": {
                    "type": "file",
                    "data": {}
                },
                "dirty-flag": false
            }
        }
    ],
    "backing-filename-format": "raw",
    "virtual-size": 1073741824,
    "filename": "/vm/a.qcow2",
    "cluster-size": 65536,
    "format": "qcow2",
    "actual-size": 4096,
    "format-specific": {
        "type": "qcow2",
        "data": {
            "compat": "1.1",
            "compression-type": "zstd",
            "lazy-refcounts": true,
            "refcount-bits": 8,
            "corrupt": false,
            "extended-l2": true
        }
    },
    "full-backing-filename": "/vm/base.img",
    "backing-filename": "base.img",
    "dirty-flag": true
}
"#;
    assert_eq!(
        format_info_json(&m, "/vm/a.qcow2", "/vm", 200_000, 4096, false, NEW, None),
        expected
    );
}

#[test]
fn json_describes_flat_extents() {
    let m = image("vmdk");
    let flat = vec![
        FlatExtent { flat_path: t("/f1"), extent_size: 1024, disk_size: 512 },
        FlatExtent { flat_path: t("/f\"2"), extent_size: 2048, disk_size: 0 },
    ];
    let text = format_info_json(&m, "/d", "/", 100, 4096, false, OLD, Some(&flat));
    assert!(text.contains("\"name\": \"extents.1\""), "{}", text);
    assert!(text.contains("\"filename\": \"/f\\\"2\""), "{}", text);
    assert!(text.contains("\"virtual-size\": 512,\n                \"filename\": \"/d\""), "{}", text);
    assert!(
        text.contains(
            "            \"extents\": [\n                {\n                    \
             \"virtual-size\": 1024,\n                    \"filename\": \"/f1\",\n                    \
             \"format\": \"FLAT\"\n                },\n                {\n                    \
             \"virtual-size\": 2048,\n                    \"filename\": \"/f\\\"2\",\n                    \
             \"format\": \"FLAT\"\n                }\n            ]\n"
        ),
        "{}",
        text
    );
}

#[test]
fn json_describes_luks_only_when_asked() {
    let m = image("luks");
    let text = format_info_json(&m, "/l", "/", 4096, 4096, true, OLD, None);
    let expected = r#"{
    "virtual-size": 1073741824,
    "filename": "/l",
    "cluster-size": 65536,
    "format": "luks",
    "actual-size": 4096,
    "format-specific": {
        "type": "luks",
        "data": {
            "cipher": "aes",
            "cipher-mode": "xts-plain64",
            "hash": "sha256",
            "uuid": "u-u",
            "payload-offset": 4096,
            "master-key-length": 64,
            "active-key-slots": 1,
            "inner-format": "qcow2",
            "inner-virtual-size": 99
        }
    },
    "dirty-flag": false
}
"#;
    assert_eq!(text, expected);
    let plain = format_info_json(&m, "/l", "/", 4096, 4096, false, OLD, None);
    assert!(!plain.contains("format-specific"), "{}", plain);
}

#[test]
fn the_report_picks_sizes_by_the_quirks() {
    let m = image("qcow2");
    let text = info_report(&m, "/a", "/", 1000, 3, false, false, OLD, "human", None);
    assert!(text.contains("disk size: 1.5 KiB\n"), "{}", text);
    let text = info_report(&m, "/a", "/", 1000, 3, true, false, OLD, "human", None);
    assert!(text.contains("disk size: 1000 B\n"), "{}", text);
    let text = info_report(&m, "/a", "/", 1000, 3, false, false, NEW, "json", None);
    assert!(text.contains("\"virtual-size\": 200000,"), "{}", text);
    let text = info_report(&m, "/a", "/", 1000, 3, true, false, NEW, "json", None);
    assert!(text.contains("\"virtual-size\": 1000,"), "{}", text);
}

#[test]
fn every_style_escapes_what_json_must() {
    let text = "q\"b\\n\nr\rt\tc\u{1}d\u{85}\u{e4}";
    assert_eq!(escape_json_string(text), "q\\\"b\\\\n\\nr\\rt\\tc\\u0001d\\u0085\u{e4}");
    assert_eq!(json_escape(text), "q\\\"b\\\\n\\nr\\rt\\tc\\u0001d\u{85}\u{e4}");
    assert_eq!(json_escape("\u{8}\u{c}"), "\\b\\f");
    assert_eq!(json_escape_string("a\"b\\c\n"), "a\\\"b\\\\c\\u000a");
}
