//! The report of `info`: what the guest found out about an image, for people
//! or in JSON.
use vstd::prelude::*;
use crate::abi::{
    INFO_RESULT_FLAG_COMPRESSED, INFO_RESULT_FLAG_HAS_BACKING_FILE,
    INFO_RESULT_FLAG_HAS_EXTERNAL_DATA,
};
use crate::json::{escape_json_string, escaped, EscapeStyle};
use crate::message::{InfoResultMessage, LuksInfo, Qcow2Info, VdiInfo};
use crate::paths::{absolute, is_absolute, join, joined};
use crate::size::{format_size_human, human_size};
use crate::text::{
    between, dec, holds_part, lemma_first_part, lemma_last_part, lemma_part_stays, lemma_tail_part,
    number_between, opt, push_dec, push_if, same, truth, truth_word,
};

verus! {

/// What the output imitates: versions differ in what they show.
#[derive(Debug, Clone, Copy, PartialEq, Eq, Structural)]
pub struct OutputProfile {
    pub include_dirty_flag: bool,
    pub include_child_node: bool,
}

/// One data file of a VMDK image that keeps its data in flat files.
#[derive(Debug)]
pub struct FlatExtent {
    pub flat_path: String,
    /// The size that the descriptor gives the extent.
    pub extent_size: u64,
    /// What the file takes up on disk.
    pub disk_size: u64,
}

/// `n` rounded up to whole sectors of 512 bytes.
pub open spec fn sector_rounded(n: int) -> int {
    (n + 511) / 512 * 512
}

/// Rounds up to whole sectors of 512 bytes.
pub fn round_to_sectors(n: u64) -> (r: u64)
    requires
        sector_rounded(n as int) <= u64::MAX,
    ensures
        r == sector_rounded(n as int),
{
    if n % 512 == 0 {
        n
    } else {
        n - n % 512 + 512
    }
}

/// Whether a format has no header that could tell the image's size.
pub open spec fn unstructured(format: Seq<char>) -> bool {
    format == "raw"@ || format == "unknown"@
}

/// Whether a result names a backing file.
pub open spec fn has_backing(info: InfoResultMessage) -> bool {
    info.flags & INFO_RESULT_FLAG_HAS_BACKING_FILE != 0 && info.backing_file@.len() > 0
}

/// Whether a result names an external data file.
pub open spec fn has_data_file(info: InfoResultMessage) -> bool {
    info.flags & INFO_RESULT_FLAG_HAS_EXTERNAL_DATA != 0 && info.external_data_file@.len() > 0
}

/// The file length a report shows for the image file itself: the larger of
/// what the file system and the image's metadata say, or the former alone.
pub open spec fn child_length(file_size: u64, actual_size: u64, ignore_quirks: bool) -> u64 {
    if ignore_quirks || file_size >= actual_size {
        file_size
    } else {
        actual_size
    }
}

/// What a report shows as the image's size on disk.
pub open spec fn disk_usage(file_size: u64, disk_blocks: u64, ignore_quirks: bool) -> int {
    if ignore_quirks {
        file_size as int
    } else {
        disk_blocks * 512
    }
}

/// A text, or another one where it is empty.
pub open spec fn or_default(text: Seq<char>, default: Seq<char>) -> Seq<char> {
    if text.len() == 0 {
        default
    } else {
        text
    }
}

fn text_or<'a>(text: &'a str, default: &'a str) -> (r: &'a str)
    ensures
        r@ == or_default(text@, default@),
{
    if text.is_empty() {
        default
    } else {
        text
    }
}

/// The width of a refcount: 16 bits unless the image says otherwise.
pub open spec fn refcount_bits(q: Qcow2Info) -> u32 {
    if q.refcount_bits == 0 {
        16
    } else {
        q.refcount_bits
    }
}

/// The name of a VDI image type.
pub open spec fn vdi_type(n: u32) -> Seq<char> {
    if n == 1 {
        "dynamic"@
    } else if n == 2 {
        "fixed"@
    } else {
        "unknown"@
    }
}

fn vdi_type_name(n: u32) -> (r: &'static str)
    ensures
        r@ == vdi_type(n),
{
    if n == 1 {
        "dynamic"
    } else if n == 2 {
        "fixed"
    } else {
        "unknown"
    }
}

fn escape(s: &str) -> (r: String)
    ensures
        r@ == quoted(s@),
{
    escape_json_string(s)
}

/// A text as it stands inside a JSON string of this report.
pub open spec fn quoted(s: Seq<char>) -> Seq<char> {
    escaped(s, EscapeStyle::Report)
}

// ---------------------------------------------------------------------------
// For people
// ---------------------------------------------------------------------------

/// The lines on the backing file.
pub open spec fn backing_lines(info: InfoResultMessage, image_dir: Seq<char>) -> Seq<char> {
    "backing file: "@
        + info.backing_file@
        + actual_path_note(info.backing_file@, image_dir)
        + "\n"@
        + opt(info.qcow2_info.backing_format@.len() > 0, "backing file format: "@ + info.qcow2_info.backing_format@ + "\n"@)
}

/// The lines on the backing file.
fn format_backing_lines(info: &InfoResultMessage, image_dir: &str) -> (r: String)
    ensures
        r@ == backing_lines(*info, image_dir@),
{
    let mut s = "backing file: ".to_owned();
    s.append(info.backing_file.as_str());
    s.append(format_actual_path_note(info.backing_file.as_str(), image_dir).as_str());
    s.append("\n");
    let format = between(
        "backing file format: ",
        info.qcow2_info.backing_format.as_str(),
        "\n",
    );
    push_if(&mut s, !info.qcow2_info.backing_format.as_str().is_empty(), format.as_str());
    s
}

/// Where a relative backing path leads.
pub open spec fn actual_path_note(backing: Seq<char>, image_dir: Seq<char>) -> Seq<char> {
    opt(!absolute(backing), " (actual path: "@ + joined(image_dir, backing) + ")"@)
}

fn format_actual_path_note(backing: &str, image_dir: &str) -> (r: String)
    ensures
        r@ == actual_path_note(backing@, image_dir@),
{
    if is_absolute(backing) {
        String::new()
    } else {
        between(" (actual path: ", join(image_dir, backing).as_str(), ")")
    }
}

/// The lines that only qcow2 images have.
pub open spec fn qcow2_lines(q: Qcow2Info) -> Seq<char> {
    "Format specific information:\n    compat: "@
        + or_default(q.compat@, "0.10"@)
        + "\n    compression type: "@
        + or_default(q.compression_type@, "zlib"@)
        + "\n"@
        + opt(or_default(q.compat@, "0.10"@) == "1.1"@, "    lazy refcounts: "@ + truth(q.lazy_refcounts) + "\n"@)
        + "    refcount bits: "@
        + dec(refcount_bits(q) as int)
        + "\n"@
        + opt(or_default(q.compat@, "0.10"@) == "1.1"@, "    corrupt: "@ + truth(q.corrupt) + "\n    extended l2: "@ + truth(q.extended_l2) + "\n"@)
        + opt(q.nb_snapshots > 0, "Snapshot count: "@ + dec(q.nb_snapshots as int) + "\n"@)
}

/// The lines that only qcow2 images have.
fn format_qcow2_lines(q: &Qcow2Info) -> (r: String)
    ensures
        r@ == qcow2_lines(*q),
{
    let mut s = "Format specific information:\n    compat: ".to_owned();
    s.append(text_or(q.compat.as_str(), "0.10").to_owned().as_str());
    s.append("\n    compression type: ");
    s.append(text_or(q.compression_type.as_str(), "zlib").to_owned().as_str());
    s.append("\n");
    let v3: bool = same(text_or(q.compat.as_str(), "0.10"), "1.1");
    let lazy = between("    lazy refcounts: ", truth_word(q.lazy_refcounts), "\n");
    push_if(&mut s, v3, lazy.as_str());
    s.append("    refcount bits: ");
    let bits: u32 = if q.refcount_bits == 0 {
        16
    } else {
        q.refcount_bits
    };
    push_dec(&mut s, bits as u64);
    s.append("\n");
    let mut flags = between("    corrupt: ", truth_word(q.corrupt), "\n    extended l2: ");
    flags.append(truth_word(q.extended_l2));
    flags.append("\n");
    push_if(&mut s, v3, flags.as_str());
    let count = number_between("Snapshot count: ", q.nb_snapshots as u64, "\n");
    push_if(&mut s, q.nb_snapshots > 0, count.as_str());
    s
}

/// The lines that only VMDK images have.
pub open spec fn vmdk_lines(info: InfoResultMessage, path: Seq<char>) -> Seq<char> {
    "Format specific information:\n    cid: "@
        + dec(info.vmdk_info.cid as int)
        + "\n    parent cid: "@
        + dec(info.vmdk_info.parent_cid as int)
        + "\n    create type: "@
        + info.vmdk_info.create_type@
        + "\n    extents:\n        [0]:\n"@
        + opt(info.flags & INFO_RESULT_FLAG_COMPRESSED != 0, "            compressed: true\n"@)
        + "            virtual size: "@
        + dec(info.virtual_size as int)
        + "\n            filename: "@
        + path
        + "\n            cluster size: "@
        + dec(info.cluster_size as int)
        + "\n            format: \n"@
}

/// The lines that only VMDK images have.
fn format_vmdk_lines(info: &InfoResultMessage, path: &str) -> (r: String)
    ensures
        r@ == vmdk_lines(*info, path@),
{
    let mut s = "Format specific information:\n    cid: ".to_owned();
    push_dec(&mut s, info.vmdk_info.cid as u64);
    s.append("\n    parent cid: ");
    push_dec(&mut s, info.vmdk_info.parent_cid as u64);
    s.append("\n    create type: ");
    s.append(info.vmdk_info.create_type.as_str());
    s.append("\n    extents:\n        [0]:\n");
    push_if(&mut s, info.flags & INFO_RESULT_FLAG_COMPRESSED != 0, "            compressed: true\n");
    s.append("            virtual size: ");
    push_dec(&mut s, info.virtual_size);
    s.append("\n            filename: ");
    s.append(path.to_owned().as_str());
    s.append("\n            cluster size: ");
    push_dec(&mut s, info.cluster_size as u64);
    s.append("\n            format: \n");
    s
}

/// The lines that only VDI images have.
pub open spec fn vdi_lines(v: VdiInfo) -> Seq<char> {
    "Format specific information:\n    image type: "@
        + vdi_type(v.image_type)
        + "\n    block size: "@
        + dec(v.block_size as int)
        + "\n    blocks in image: "@
        + dec(v.blocks_in_image as int)
        + "\n    blocks allocated: "@
        + dec(v.blocks_allocated as int)
        + "\n"@
        + opt(v.uuid@.len() > 0, "    uuid: "@ + v.uuid@ + "\n"@)
}

/// The lines that only VDI images have.
fn format_vdi_lines(v: &VdiInfo) -> (r: String)
    ensures
        r@ == vdi_lines(*v),
{
    let mut s = "Format specific information:\n    image type: ".to_owned();
    s.append(vdi_type_name(v.image_type).to_owned().as_str());
    s.append("\n    block size: ");
    push_dec(&mut s, v.block_size as u64);
    s.append("\n    blocks in image: ");
    push_dec(&mut s, v.blocks_in_image as u64);
    s.append("\n    blocks allocated: ");
    push_dec(&mut s, v.blocks_allocated as u64);
    s.append("\n");
    let uuid = between("    uuid: ", v.uuid.as_str(), "\n");
    push_if(&mut s, !v.uuid.as_str().is_empty(), uuid.as_str());
    s
}

/// The lines on the file that holds the image.
pub open spec fn child_lines(path: Seq<char>, length: int, disk_size: u64, qemu_compat: bool) -> Seq<char> {
    "Child node '/file':\n    filename: "@
        + path
        + "\n    protocol type: file\n    file length: "@
        + human_size(length as u64, qemu_compat)
        + " ("@
        + dec(length)
        + " bytes)\n    disk size: "@
        + human_size(disk_size, qemu_compat)
        + "\n"@
}

/// The lines on the file that holds the image.
fn format_child_lines(path: &str, length: u64, disk_size: u64, qemu_compat: bool) -> (r: String)
    ensures
        r@ == child_lines(path@, length as int, disk_size, qemu_compat),
{
    let mut s = "Child node '/file':\n    filename: ".to_owned();
    s.append(path.to_owned().as_str());
    s.append("\n    protocol type: file\n    file length: ");
    s.append(format_size_human(length, qemu_compat).as_str());
    s.append(" (");
    push_dec(&mut s, length);
    s.append(" bytes)\n    disk size: ");
    s.append(format_size_human(disk_size, qemu_compat).as_str());
    s.append("\n");
    s
}

/// The virtual size a report for people shows.
pub open spec fn shown_virtual_size(info: InfoResultMessage, file_size: u64) -> int {
    if unstructured(info.format@) {
        sector_rounded(file_size as int)
    } else {
        info.virtual_size as int
    }
}

/// The length a report for people shows for the image file itself.
pub open spec fn shown_child_length(
    info: InfoResultMessage,
    file_size: u64,
    ignore_quirks: bool,
) -> int {
    let length = child_length(file_size, info.actual_size, ignore_quirks);
    if info.format@ == "raw"@ {
        sector_rounded(length as int)
    } else {
        length as int
    }
}

/// The report for people.
pub open spec fn info_text(
    info: InfoResultMessage,
    path: Seq<char>,
    image_dir: Seq<char>,
    file_size: u64,
    disk_size: u64,
    ignore_quirks: bool,
    extra_detail: bool,
    profile: OutputProfile,
) -> Seq<char> {
    let size = shown_virtual_size(info, file_size);
    let length = shown_child_length(info, file_size, ignore_quirks);
    "image: "@ + path + "\nfile format: "@ + info.format@ + "\nvirtual size: "@
        + human_size(size as u64, !ignore_quirks) + " ("@ + dec(size) + " bytes)\ndisk size: "@
        + human_size(disk_size, !ignore_quirks) + "\n"@
        + opt(info.cluster_size > 0, "cluster_size: "@ + dec(info.cluster_size as int) + "\n"@)
        + opt(
        profile.include_dirty_flag && info.format@ == "qcow2"@ && info.qcow2_info.dirty,
        "cleanly shut down: no\n"@,
    ) + opt(has_backing(info), backing_lines(info, image_dir))
        + opt(has_data_file(info), "data file: "@ + info.external_data_file@ + "\n"@)
        + opt(info.format@ == "qcow2"@, qcow2_lines(info.qcow2_info))
        + opt(info.format@ == "vmdk"@, vmdk_lines(info, path))
        + opt(info.format@ == "vdi"@ && extra_detail, vdi_lines(info.vdi_info))
        + opt(profile.include_child_node, child_lines(path, length, disk_size, !ignore_quirks))
}

/// Whether the sizes that the report for people rounds up to sectors still
/// fit in 64 bits.
pub open spec fn text_sizes_fit(
    info: InfoResultMessage,
    file_size: u64,
    ignore_quirks: bool,
    profile: OutputProfile,
) -> bool {
    &&& shown_virtual_size(info, file_size) <= u64::MAX
    &&& profile.include_child_node ==> shown_child_length(info, file_size, ignore_quirks)
        <= u64::MAX
}

/// The report for people, on an image at the absolute path `path` in the
/// directory `image_dir`.
pub fn format_info(
    info: &InfoResultMessage,
    path: &str,
    image_dir: &str,
    file_size: u64,
    disk_size: u64,
    ignore_quirks: bool,
    extra_detail: bool,
    profile: OutputProfile,
) -> (r: String)
    requires
        text_sizes_fit(*info, file_size, ignore_quirks, profile),
    ensures
        r@ == info_text(
            *info,
            path@,
            image_dir@,
            file_size,
            disk_size,
            ignore_quirks,
            extra_detail,
            profile,
        ),
{
    let format = info.format.as_str();
    let raw: bool = same(format, "raw");
    let qcow2: bool = same(format, "qcow2");
    let size: u64 = if raw || same(format, "unknown") {
        round_to_sectors(file_size)
    } else {
        info.virtual_size
    };
    let mut s = "image: ".to_owned();
    s.append(path);
    s.append("\nfile format: ");
    s.append(format);
    s.append("\nvirtual size: ");
    s.append(format_size_human(size, !ignore_quirks).as_str());
    s.append(" (");
    push_dec(&mut s, size);
    s.append(" bytes)\ndisk size: ");
    s.append(format_size_human(disk_size, !ignore_quirks).as_str());
    s.append("\n");
    let cluster = number_between("cluster_size: ", info.cluster_size as u64, "\n");
    push_if(&mut s, info.cluster_size > 0, cluster.as_str());
    push_if(
        &mut s,
        profile.include_dirty_flag && qcow2 && info.qcow2_info.dirty,
        "cleanly shut down: no\n",
    );
    push_if(
        &mut s,
        info.flags & INFO_RESULT_FLAG_HAS_BACKING_FILE != 0
            && !info.backing_file.as_str().is_empty(),
        format_backing_lines(info, image_dir).as_str(),
    );
    let data = between("data file: ", info.external_data_file.as_str(), "\n");
    push_if(
        &mut s,
        info.flags & INFO_RESULT_FLAG_HAS_EXTERNAL_DATA != 0
            && !info.external_data_file.as_str().is_empty(),
        data.as_str(),
    );
    push_if(&mut s, qcow2, format_qcow2_lines(&info.qcow2_info).as_str());
    push_if(&mut s, same(format, "vmdk"), format_vmdk_lines(info, path).as_str());
    push_if(
        &mut s,
        same(format, "vdi") && extra_detail,
        format_vdi_lines(&info.vdi_info).as_str(),
    );
    let child = if profile.include_child_node {
        let length: u64 = if ignore_quirks || file_size >= info.actual_size {
            file_size
        } else {
            info.actual_size
        };
        let shown: u64 = if raw {
            round_to_sectors(length)
        } else {
            length
        };
        format_child_lines(path, shown, disk_size, !ignore_quirks)
    } else {
        String::new()
    };
    push_if(&mut s, profile.include_child_node, child.as_str());
    s
}

// ---------------------------------------------------------------------------
// JSON
// ---------------------------------------------------------------------------

/// The members of a child that stands for a file.
pub open spec fn file_child(name: Seq<char>, virtual_size: int, path: Seq<char>, disk_size: u64) -> Seq<char> {
    "        {\n            \"name\": \""@
        + name
        + "\",\n            \"info\": {\n                \"children\": [],\n                \"virtual-size\": "@
        + dec(virtual_size)
        + ",\n                \"filename\": \""@
        + quoted(path)
        + "\",\n                \"format\": \"file\",\n                \"actual-size\": "@
        + dec(disk_size as int)
        + ",\n                \"format-specific\": {\n                    \"type\": \"file\",\n                    \"data\": {}\n                },\n                \"dirty-flag\": false\n            }\n"@
}

/// The members of a child that stands for a file.
fn format_file_child(name: &str, virtual_size: u64, path: &str, disk_size: u64) -> (r: String)
    ensures
        r@ == file_child(name@, virtual_size as int, path@, disk_size),
{
    let mut s = "        {\n            \"name\": \"".to_owned();
    s.append(name.to_owned().as_str());
    s.append("\",\n            \"info\": {\n                \"children\": [],\n                \"virtual-size\": ");
    push_dec(&mut s, virtual_size);
    s.append(",\n                \"filename\": \"");
    s.append(escape(path).as_str());
    s.append("\",\n                \"format\": \"file\",\n                \"actual-size\": ");
    push_dec(&mut s, disk_size);
    s.append(",\n                \"format-specific\": {\n                    \"type\": \"file\",\n                    \"data\": {}\n                },\n                \"dirty-flag\": false\n            }\n");
    s
}

/// The children that stand for the first `n` flat data files, each followed
/// by the start of the next.
pub open spec fn flat_children(extents: Seq<FlatExtent>, n: int) -> Seq<char>
    decreases n,
{
    if n <= 0 {
        Seq::empty()
    } else {
        let e = extents[n - 1];
        flat_children(extents, n - 1) + file_child(
            "extents."@ + dec(n - 1),
            e.extent_size as int,
            e.flat_path@,
            e.disk_size,
        ) + "        },\n"@
    }
}

fn format_flat_children(extents: &Vec<FlatExtent>) -> (r: String)
    ensures
        r@ == flat_children(extents@, extents@.len() as int),
{
    let mut s = String::new();
    let mut i: usize = 0;
    while i < extents.len()
        invariant
            i <= extents@.len(),
            s@ == flat_children(extents@, i as int),
        decreases extents.len() - i,
    {
        let e = &extents[i];
        let mut name = "extents.".to_owned();
        push_dec(&mut name, i as u64);
        let child = format_file_child(
            name.as_str(),
            e.extent_size,
            e.flat_path.as_str(),
            e.disk_size,
        );
        s.append(child.as_str());
        s.append("        },\n");
        i = i + 1;
    }
    s
}

/// The list of children: the flat data files, then the image file.
pub open spec fn children(
    path: Seq<char>,
    length: int,
    disk_size: u64,
    flat: Option<Seq<FlatExtent>>,
) -> Seq<char> {
    let (files, size) = match flat {
        Some(e) => (flat_children(e, e.len() as int), sector_rounded(length)),
        None => (Seq::empty(), length),
    };
    "    \"children\": [\n"@ + files + file_child("file"@, size, path, disk_size)
        + "        }\n    ],\n"@
}

/// The flat data files behind a reference, if there are any.
pub open spec fn flat_files(flat: Option<&Vec<FlatExtent>>) -> Option<Seq<FlatExtent>> {
    match flat {
        Some(e) => Some(e@),
        None => None,
    }
}

fn format_children(
    path: &str,
    length: u64,
    disk_size: u64,
    flat: Option<&Vec<FlatExtent>>,
) -> (r: String)
    requires
        flat is Some ==> sector_rounded(length as int) <= u64::MAX,
    ensures
        r@ == children(path@, length as int, disk_size, flat_files(flat)),
{
    let (files, size): (String, u64) = match flat {
        Some(e) => (format_flat_children(e), round_to_sectors(length)),
        None => {
            let none = String::new();
            (none, length)
        },
    };
    let mut s = "    \"children\": [\n".to_owned();
    s.append(files.as_str());
    s.append(format_file_child("file", size, path, disk_size).as_str());
    s.append("        }\n    ],\n");
    s
}

/// The members of a qcow2 image that only version 3 has, after the refcount
/// width.
pub open spec fn qcow2_v3_members(info: InfoResultMessage) -> Seq<char> {
    ",\n            \"corrupt\": "@ + truth(info.qcow2_info.corrupt)
        + ",\n            \"extended-l2\": "@ + truth(info.qcow2_info.extended_l2) + opt(
        has_data_file(info),
        ",\n            \"data-file\": \""@ + quoted(info.external_data_file@) + "\""@,
    )
}

fn format_qcow2_v3_members(info: &InfoResultMessage) -> (r: String)
    ensures
        r@ == qcow2_v3_members(*info),
{
    let mut s = ",\n            \"corrupt\": ".to_owned();
    s.append(truth_word(info.qcow2_info.corrupt));
    s.append(",\n            \"extended-l2\": ");
    s.append(truth_word(info.qcow2_info.extended_l2));
    let data = between(
        ",\n            \"data-file\": \"",
        escape(info.external_data_file.as_str()).as_str(),
        "\"",
    );
    push_if(
        &mut s,
        info.flags & INFO_RESULT_FLAG_HAS_EXTERNAL_DATA != 0
            && !info.external_data_file.as_str().is_empty(),
        data.as_str(),
    );
    s
}

/// The section that only qcow2 images have.
pub open spec fn qcow2_section(info: InfoResultMessage) -> Seq<char> {
    "    \"format-specific\": {\n        \"type\": \"qcow2\",\n        \"data\": {\n            \"compat\": \""@
        + or_default(info.qcow2_info.compat@, "0.10"@)
        + "\",\n            \"compression-type\": \""@
        + or_default(info.qcow2_info.compression_type@, "zlib"@)
        + "\",\n"@
        + opt(or_default(info.qcow2_info.compat@, "0.10"@) == "1.1"@, "            \"lazy-refcounts\": "@ + truth(info.qcow2_info.lazy_refcounts) + ",\n"@)
        + "            \"refcount-bits\": "@
        + dec(refcount_bits(info.qcow2_info) as int)
        + opt(or_default(info.qcow2_info.compat@, "0.10"@) == "1.1"@, qcow2_v3_members(info))
        + "\n        }\n    },\n"@
}

/// The section that only qcow2 images have.
fn format_qcow2_section(info: &InfoResultMessage) -> (r: String)
    ensures
        r@ == qcow2_section(*info),
{
    let mut s = "    \"format-specific\": {\n        \"type\": \"qcow2\",\n        \"data\": {\n            \"compat\": \"".to_owned();
    s.append(text_or(info.qcow2_info.compat.as_str(), "0.10").to_owned().as_str());
    s.append("\",\n            \"compression-type\": \"");
    s.append(text_or(info.qcow2_info.compression_type.as_str(), "zlib").to_owned().as_str());
    s.append("\",\n");
    let v3: bool = same(text_or(info.qcow2_info.compat.as_str(), "0.10"), "1.1");
    let lazy = between(
        "            \"lazy-refcounts\": ",
        truth_word(info.qcow2_info.lazy_refcounts),
        ",\n",
    );
    push_if(&mut s, v3, lazy.as_str());
    s.append("            \"refcount-bits\": ");
    let bits: u32 = if info.qcow2_info.refcount_bits == 0 {
        16
    } else {
        info.qcow2_info.refcount_bits
    };
    push_dec(&mut s, bits as u64);
    push_if(&mut s, v3, format_qcow2_v3_members(info).as_str());
    s.append("\n        }\n    },\n");
    s
}

/// One flat data file of a VMDK image.
pub open spec fn flat_record(e: FlatExtent) -> Seq<char> {
    "                {\n                    \"virtual-size\": "@ + dec(e.extent_size as int)
        + ",\n                    \"filename\": \""@ + quoted(e.flat_path@)
        + "\",\n                    \"format\": \"FLAT\"\n"@
}

/// The first `n` flat data files of a VMDK image; each but the first closes
/// the record before it.
pub open spec fn flat_records(extents: Seq<FlatExtent>, n: int) -> Seq<char>
    decreases n,
{
    if n <= 0 {
        Seq::empty()
    } else {
        flat_records(extents, n - 1) + opt(n > 1, "                },\n"@) + flat_record(
            extents[n - 1],
        )
    }
}

fn format_flat_record(e: &FlatExtent) -> (r: String)
    ensures
        r@ == flat_record(*e),
{
    let mut s = "                {\n                    \"virtual-size\": ".to_owned();
    push_dec(&mut s, e.extent_size);
    s.append(",\n                    \"filename\": \"");
    s.append(escape(e.flat_path.as_str()).as_str());
    s.append("\",\n                    \"format\": \"FLAT\"\n");
    s
}

fn format_flat_records(extents: &Vec<FlatExtent>) -> (r: String)
    ensures
        r@ == flat_records(extents@, extents@.len() as int),
{
    let mut s = String::new();
    let mut i: usize = 0;
    while i < extents.len()
        invariant
            i <= extents@.len(),
            s@ == flat_records(extents@, i as int),
        decreases extents.len() - i,
    {
        push_if(&mut s, i > 0, "                },\n");
        s.append(format_flat_record(&extents[i]).as_str());
        i = i + 1;
    }
    s
}

/// The one extent of a VMDK image that keeps its data in itself.
pub open spec fn sparse_record(info: InfoResultMessage, path: Seq<char>) -> Seq<char> {
    "                {\n"@ + opt(
        info.flags & INFO_RESULT_FLAG_COMPRESSED != 0,
        "                    \"compressed\": true,\n"@,
    ) + "                    \"virtual-size\": "@ + dec(info.virtual_size as int)
        + ",\n                    \"filename\": \""@ + quoted(path)
        + "\",\n                    \"cluster-size\": "@ + dec(info.cluster_size as int)
        + ",\n                    \"format\": \"\"\n"@
}

fn format_sparse_record(info: &InfoResultMessage, path: &str) -> (r: String)
    ensures
        r@ == sparse_record(*info, path@),
{
    let mut s = "                {\n".to_owned();
    push_if(
        &mut s,
        info.flags & INFO_RESULT_FLAG_COMPRESSED != 0,
        "                    \"compressed\": true,\n",
    );
    s.append("                    \"virtual-size\": ");
    push_dec(&mut s, info.virtual_size);
    s.append(",\n                    \"filename\": \"");
    s.append(escape(path).as_str());
    s.append("\",\n                    \"cluster-size\": ");
    push_dec(&mut s, info.cluster_size as u64);
    s.append(",\n                    \"format\": \"\"\n");
    s
}

/// The records of a VMDK image's extents.
pub open spec fn extent_records(
    info: InfoResultMessage,
    path: Seq<char>,
    flat: Option<Seq<FlatExtent>>,
) -> Seq<char> {
    match flat {
        Some(e) => flat_records(e, e.len() as int),
        None => sparse_record(info, path),
    }
}

fn format_extent_records(
    info: &InfoResultMessage,
    path: &str,
    flat: Option<&Vec<FlatExtent>>,
) -> (r: String)
    ensures
        r@ == extent_records(*info, path@, flat_files(flat)),
{
    match flat {
        Some(e) => format_flat_records(e),
        None => format_sparse_record(info, path),
    }
}

/// The section that only VMDK images have.
pub open spec fn vmdk_section(info: InfoResultMessage, path: Seq<char>, flat: Option<Seq<FlatExtent>>) -> Seq<char> {
    "    \"format-specific\": {\n        \"type\": \"vmdk\",\n        \"data\": {\n            \"cid\": "@
        + dec(info.vmdk_info.cid as int)
        + ",\n            \"parent-cid\": "@
        + dec(info.vmdk_info.parent_cid as int)
        + ",\n            \"create-type\": \""@
        + info.vmdk_info.create_type@
        + "\",\n            \"extents\": [\n"@
        + extent_records(info, path, flat)
        + "                }\n            ]\n        }\n    },\n"@
}

/// The section that only VMDK images have.
fn format_vmdk_section(info: &InfoResultMessage, path: &str, flat: Option<&Vec<FlatExtent>>) -> (r: String)
    ensures
        r@ == vmdk_section(*info, path@, flat_files(flat)),
{
    let mut s = "    \"format-specific\": {\n        \"type\": \"vmdk\",\n        \"data\": {\n            \"cid\": ".to_owned();
    push_dec(&mut s, info.vmdk_info.cid as u64);
    s.append(",\n            \"parent-cid\": ");
    push_dec(&mut s, info.vmdk_info.parent_cid as u64);
    s.append(",\n            \"create-type\": \"");
    s.append(info.vmdk_info.create_type.as_str());
    s.append("\",\n            \"extents\": [\n");
    s.append(format_extent_records(info, path, flat).as_str());
    s.append("                }\n            ]\n        }\n    },\n");
    s
}

/// The section that only VDI images have.
pub open spec fn vdi_section(v: VdiInfo) -> Seq<char> {
    "    \"format-specific\": {\n        \"type\": \"vdi\",\n        \"data\": {\n            \"image-type\": \""@
        + vdi_type(v.image_type)
        + "\",\n            \"block-size\": "@
        + dec(v.block_size as int)
        + ",\n            \"blocks-in-image\": "@
        + dec(v.blocks_in_image as int)
        + ",\n            \"blocks-allocated\": "@
        + dec(v.blocks_allocated as int)
        + ",\n            \"uuid\": \""@
        + quoted(v.uuid@)
        + "\"\n        }\n    },\n"@
}

/// The section that only VDI images have.
fn format_vdi_section(v: &VdiInfo) -> (r: String)
    ensures
        r@ == vdi_section(*v),
{
    let mut s = "    \"format-specific\": {\n        \"type\": \"vdi\",\n        \"data\": {\n            \"image-type\": \"".to_owned();
    s.append(vdi_type_name(v.image_type).to_owned().as_str());
    s.append("\",\n            \"block-size\": ");
    push_dec(&mut s, v.block_size as u64);
    s.append(",\n            \"blocks-in-image\": ");
    push_dec(&mut s, v.blocks_in_image as u64);
    s.append(",\n            \"blocks-allocated\": ");
    push_dec(&mut s, v.blocks_allocated as u64);
    s.append(",\n            \"uuid\": \"");
    s.append(escape(v.uuid.as_str()).as_str());
    s.append("\"\n        }\n    },\n");
    s
}

/// The members that name a LUKS cipher.
pub open spec fn luks_cipher_members(l: LuksInfo) -> Seq<char> {
    "            \"cipher\": \""@
        + quoted(l.cipher@)
        + "\",\n            \"cipher-mode\": \""@
        + quoted(l.cipher_mode@)
        + "\",\n            \"hash\": \""@
        + quoted(l.hash@)
        + "\",\n"@
}

/// The members that name a LUKS cipher.
fn format_luks_cipher_members(l: &LuksInfo) -> (r: String)
    ensures
        r@ == luks_cipher_members(*l),
{
    let mut s = "            \"cipher\": \"".to_owned();
    s.append(escape(l.cipher.as_str()).as_str());
    s.append("\",\n            \"cipher-mode\": \"");
    s.append(escape(l.cipher_mode.as_str()).as_str());
    s.append("\",\n            \"hash\": \"");
    s.append(escape(l.hash.as_str()).as_str());
    s.append("\",\n");
    s
}

/// The members on the image inside a LUKS container.
pub open spec fn luks_inner_members(l: LuksInfo) -> Seq<char> {
    ",\n            \"inner-format\": \""@
        + quoted(l.inner_format@)
        + "\",\n            \"inner-virtual-size\": "@
        + dec(l.inner_virtual_size as int)
}

/// The members on the image inside a LUKS container.
fn format_luks_inner_members(l: &LuksInfo) -> (r: String)
    ensures
        r@ == luks_inner_members(*l),
{
    let mut s = ",\n            \"inner-format\": \"".to_owned();
    s.append(escape(l.inner_format.as_str()).as_str());
    s.append("\",\n            \"inner-virtual-size\": ");
    push_dec(&mut s, l.inner_virtual_size);
    s
}

/// The section that only LUKS images have.
pub open spec fn luks_section(l: LuksInfo) -> Seq<char> {
    "    \"format-specific\": {\n        \"type\": \"luks\",\n        \"data\": {\n"@
        + opt(l.cipher@.len() > 0, luks_cipher_members(l))
        + opt(l.uuid@.len() > 0, "            \"uuid\": \""@ + quoted(l.uuid@) + "\",\n"@)
        + opt(l.payload_offset > 0, "            \"payload-offset\": "@ + dec(l.payload_offset as int) + ",\n"@)
        + opt(l.master_key_length > 0, "            \"master-key-length\": "@ + dec(l.master_key_length as int) + ",\n"@)
        + "            \"active-key-slots\": "@
        + dec(l.active_key_slots as int)
        + opt(l.inner_format@.len() > 0, luks_inner_members(l))
        + "\n        }\n    },\n"@
}

/// The section that only LUKS images have.
fn format_luks_section(l: &LuksInfo) -> (r: String)
    ensures
        r@ == luks_section(*l),
{
    let mut s = "    \"format-specific\": {\n        \"type\": \"luks\",\n        \"data\": {\n".to_owned();
    push_if(&mut s, !l.cipher.as_str().is_empty(), format_luks_cipher_members(l).as_str());
    let uuid = between("            \"uuid\": \"", escape(l.uuid.as_str()).as_str(), "\",\n");
    push_if(&mut s, !l.uuid.as_str().is_empty(), uuid.as_str());
    let payload = number_between("            \"payload-offset\": ", l.payload_offset, ",\n");
    push_if(&mut s, l.payload_offset > 0, payload.as_str());
    let key = number_between(
        "            \"master-key-length\": ",
        l.master_key_length as u64,
        ",\n",
    );
    push_if(&mut s, l.master_key_length > 0, key.as_str());
    s.append("            \"active-key-slots\": ");
    push_dec(&mut s, l.active_key_slots as u64);
    push_if(&mut s, !l.inner_format.as_str().is_empty(), format_luks_inner_members(l).as_str());
    s.append("\n        }\n    },\n");
    s
}

/// The section on what only images of one format have.
pub open spec fn format_section(
    info: InfoResultMessage,
    path: Seq<char>,
    extra_detail: bool,
    flat: Option<Seq<FlatExtent>>,
) -> Seq<char> {
    if info.format@ == "qcow2"@ {
        qcow2_section(info)
    } else if info.format@ == "vmdk"@ {
        vmdk_section(info, path, flat)
    } else if info.format@ == "vdi"@ && extra_detail {
        vdi_section(info.vdi_info)
    } else if info.format@ == "luks"@ && extra_detail {
        luks_section(info.luks_info)
    } else {
        Seq::empty()
    }
}

fn format_format_section(
    info: &InfoResultMessage,
    path: &str,
    extra_detail: bool,
    flat: Option<&Vec<FlatExtent>>,
) -> (r: String)
    ensures
        r@ == format_section(*info, path@, extra_detail, flat_files(flat)),
{
    let format = info.format.as_str();
    if same(format, "qcow2") {
        format_qcow2_section(info)
    } else if same(format, "vmdk") {
        format_vmdk_section(info, path, flat)
    } else if same(format, "vdi") && extra_detail {
        format_vdi_section(&info.vdi_info)
    } else if same(format, "luks") && extra_detail {
        format_luks_section(&info.luks_info)
    } else {
        String::new()
    }
}

/// The members that name the backing file.
pub open spec fn backing_members(backing: Seq<char>, image_dir: Seq<char>) -> Seq<char> {
    "    \"full-backing-filename\": \""@
        + quoted(joined(image_dir, backing))
        + "\",\n    \"backing-filename\": \""@
        + quoted(backing)
        + "\",\n"@
}

/// The members that name the backing file.
fn format_backing_members(backing: &str, image_dir: &str) -> (r: String)
    ensures
        r@ == backing_members(backing@, image_dir@),
{
    let mut s = "    \"full-backing-filename\": \"".to_owned();
    s.append(escape(join(image_dir, backing).as_str()).as_str());
    s.append("\",\n    \"backing-filename\": \"");
    s.append(escape(backing).as_str());
    s.append("\",\n");
    s
}

/// A size that images without a header have rounded up to whole sectors.
pub open spec fn rounded_if(round: bool, n: u64) -> int {
    if round {
        sector_rounded(n as int)
    } else {
        n as int
    }
}

/// The report in JSON.
pub open spec fn info_json(
    info: InfoResultMessage,
    path: Seq<char>,
    image_dir: Seq<char>,
    child_file_length: u64,
    disk_size: u64,
    extra_detail: bool,
    profile: OutputProfile,
    flat: Option<Seq<FlatExtent>>,
) -> Seq<char> {
    let plain = unstructured(info.format@);
    let length = rounded_if(plain, child_file_length);
    let size = if plain {
        length
    } else {
        info.virtual_size as int
    };
    "{\n"@ + opt(
        profile.include_child_node || flat is Some,
        children(path, length, disk_size, flat),
    ) + opt(
        has_backing(info),
        "    \"backing-filename-format\": \""@ + or_default(
            info.qcow2_info.backing_format@,
            "qcow2"@,
        ) + "\",\n"@,
    ) + "    \"virtual-size\": "@ + dec(size) + ",\n    \"filename\": \""@ + quoted(path)
        + "\",\n"@ + opt(
        info.cluster_size > 0,
        "    \"cluster-size\": "@ + dec(info.cluster_size as int) + ",\n"@,
    ) + "    \"format\": \""@ + info.format@ + "\",\n    \"actual-size\": "@
        + dec(disk_size as int) + ",\n"@ + format_section(info, path, extra_detail, flat) + opt(
        has_backing(info),
        backing_members(info.backing_file@, image_dir),
    ) + "    \"dirty-flag\": "@ + truth(
        profile.include_dirty_flag && info.format@ == "qcow2"@ && info.qcow2_info.dirty,
    ) + "\n}\n"@
}

/// Whether the sizes that the JSON report rounds up to sectors still fit in
/// 64 bits.
pub open spec fn json_sizes_fit(
    info: InfoResultMessage,
    child_file_length: u64,
    flat: Option<Seq<FlatExtent>>,
) -> bool {
    &&& rounded_if(unstructured(info.format@), child_file_length) <= u64::MAX
    &&& flat is Some ==> sector_rounded(child_file_length as int) <= u64::MAX
}

/// The report in JSON, on an image at the absolute path `path` in the
/// directory `image_dir`.
pub fn format_info_json(
    info: &InfoResultMessage,
    path: &str,
    image_dir: &str,
    child_file_length: u64,
    disk_size: u64,
    extra_detail: bool,
    profile: OutputProfile,
    vmdk_flat: Option<&Vec<FlatExtent>>,
) -> (r: String)
    requires
        json_sizes_fit(*info, child_file_length, flat_files(vmdk_flat)),
    ensures
        r@ == info_json(
            *info,
            path@,
            image_dir@,
            child_file_length,
            disk_size,
            extra_detail,
            profile,
            flat_files(vmdk_flat),
        ),
{
    let format = info.format.as_str();
    let qcow2: bool = same(format, "qcow2");
    let plain: bool = same(format, "raw") || same(format, "unknown");
    let length: u64 = if plain {
        round_to_sectors(child_file_length)
    } else {
        child_file_length
    };
    let size: u64 = if plain {
        length
    } else {
        info.virtual_size
    };
    let backing: bool = info.flags & INFO_RESULT_FLAG_HAS_BACKING_FILE != 0
        && !info.backing_file.as_str().is_empty();
    let mut s = "{\n".to_owned();
    push_if(
        &mut s,
        profile.include_child_node || vmdk_flat.is_some(),
        format_children(path, length, disk_size, vmdk_flat).as_str(),
    );
    let backing_format = between(
        "    \"backing-filename-format\": \"",
        text_or(info.qcow2_info.backing_format.as_str(), "qcow2"),
        "\",\n",
    );
    push_if(&mut s, backing, backing_format.as_str());
    s.append("    \"virtual-size\": ");
    push_dec(&mut s, size);
    s.append(",\n    \"filename\": \"");
    s.append(escape(path).as_str());
    s.append("\",\n");
    let cluster = number_between("    \"cluster-size\": ", info.cluster_size as u64, ",\n");
    push_if(&mut s, info.cluster_size > 0, cluster.as_str());
    s.append("    \"format\": \"");
    s.append(format);
    s.append("\",\n    \"actual-size\": ");
    push_dec(&mut s, disk_size);
    s.append(",\n");
    s.append(format_format_section(info, path, extra_detail, vmdk_flat).as_str());
    push_if(
        &mut s,
        backing,
        format_backing_members(info.backing_file.as_str(), image_dir).as_str(),
    );
    s.append("    \"dirty-flag\": ");
    s.append(truth_word(profile.include_dirty_flag && qcow2 && info.qcow2_info.dirty));
    s.append("\n}\n");
    s
}

/// The report of `info` in the form the user asked for.
pub open spec fn info_report_text(
    info: InfoResultMessage,
    path: Seq<char>,
    image_dir: Seq<char>,
    file_size: u64,
    disk_blocks: u64,
    ignore_quirks: bool,
    extra_detail: bool,
    profile: OutputProfile,
    json: bool,
    flat: Option<Seq<FlatExtent>>,
) -> Seq<char> {
    let disk = disk_usage(file_size, disk_blocks, ignore_quirks) as u64;
    if json {
        info_json(
            info,
            path,
            image_dir,
            child_length(file_size, info.actual_size, ignore_quirks),
            disk,
            extra_detail,
            profile,
            flat,
        )
    } else {
        info_text(info, path, image_dir, file_size, disk, ignore_quirks, extra_detail, profile)
    }
}

/// Formats the report of `info`. `disk_blocks` counts the blocks of 512 bytes
/// that the file takes up on disk.
pub fn info_report(
    info: &InfoResultMessage,
    path: &str,
    image_dir: &str,
    file_size: u64,
    disk_blocks: u64,
    ignore_quirks: bool,
    extra_detail: bool,
    profile: OutputProfile,
    output_format: &str,
    vmdk_flat: Option<&Vec<FlatExtent>>,
) -> (r: String)
    requires
        disk_usage(file_size, disk_blocks, ignore_quirks) <= u64::MAX,
        output_format@ == "json"@ ==> json_sizes_fit(
            *info,
            child_length(file_size, info.actual_size, ignore_quirks),
            flat_files(vmdk_flat),
        ),
        output_format@ != "json"@ ==> text_sizes_fit(*info, file_size, ignore_quirks, profile),
    ensures
        r@ == info_report_text(
            *info,
            path@,
            image_dir@,
            file_size,
            disk_blocks,
            ignore_quirks,
            extra_detail,
            profile,
            output_format@ == "json"@,
            flat_files(vmdk_flat),
        ),
{
    let disk_size: u64 = if ignore_quirks {
        file_size
    } else {
        disk_blocks * 512
    };
    if same(output_format, "json") {
        let length: u64 = if ignore_quirks || file_size >= info.actual_size {
            file_size
        } else {
            info.actual_size
        };
        format_info_json(
            info,
            path,
            image_dir,
            length,
            disk_size,
            extra_detail,
            profile,
            vmdk_flat,
        )
    } else {
        format_info(
            info,
            path,
            image_dir,
            file_size,
            disk_size,
            ignore_quirks,
            extra_detail,
            profile,
        )
    }
}

// ---------------------------------------------------------------------------
// Laws
// ---------------------------------------------------------------------------

/// What people are told of a backing file is its name, where that leads, and its
/// format where the image says.
pub proof fn law_backing_is_named(info: InfoResultMessage, image_dir: Seq<char>)
    ensures
        holds_part(backing_lines(info, image_dir), "backing file: "@ + info.backing_file@),
        info.qcow2_info.backing_format@.len() > 0 ==> holds_part(
            backing_lines(info, image_dir),
            "backing file format: "@ + info.qcow2_info.backing_format@ + "\n"@,
        ),
{
    broadcast use {lemma_part_stays, lemma_tail_part, lemma_last_part, lemma_first_part};

}

/// The lines for a qcow2 image hold what its header says, each behind its name;
/// what only the later version has is told of that version alone.
pub proof fn law_qcow2_lines_hold_the_header(q: Qcow2Info)
    ensures
        holds_part(
            qcow2_lines(q),
            "Format specific information:\n    compat: "@ + or_default(q.compat@, "0.10"@),
        ),
        holds_part(
            qcow2_lines(q),
            "\n    compression type: "@ + or_default(q.compression_type@, "zlib"@),
        ),
        or_default(q.compat@, "0.10"@) == "1.1"@ ==> holds_part(
            qcow2_lines(q),
            "    lazy refcounts: "@ + truth(q.lazy_refcounts) + "\n"@,
        ),
        holds_part(qcow2_lines(q), "    refcount bits: "@ + dec(refcount_bits(q) as int)),
        or_default(q.compat@, "0.10"@) == "1.1"@ ==> holds_part(
            qcow2_lines(q),
            "    corrupt: "@ + truth(q.corrupt) + "\n    extended l2: "@ + truth(q.extended_l2) + "\n"@,
        ),
        q.nb_snapshots > 0 ==> holds_part(
            qcow2_lines(q),
            "Snapshot count: "@ + dec(q.nb_snapshots as int) + "\n"@,
        ),
{
    broadcast use {lemma_part_stays, lemma_tail_part, lemma_last_part, lemma_first_part};

}

/// The lines for a VMDK image hold what its descriptor says, each behind its
/// name.
pub proof fn law_vmdk_lines_hold_the_descriptor(info: InfoResultMessage, path: Seq<char>)
    ensures
        holds_part(
            vmdk_lines(info, path),
            "Format specific information:\n    cid: "@ + dec(info.vmdk_info.cid as int),
        ),
        holds_part(
            vmdk_lines(info, path),
            "\n    parent cid: "@ + dec(info.vmdk_info.parent_cid as int),
        ),
        holds_part(vmdk_lines(info, path), "\n    create type: "@ + info.vmdk_info.create_type@),
        info.flags & INFO_RESULT_FLAG_COMPRESSED != 0 ==> holds_part(
            vmdk_lines(info, path),
            "            compressed: true\n"@,
        ),
        holds_part(
            vmdk_lines(info, path),
            "            virtual size: "@ + dec(info.virtual_size as int),
        ),
        holds_part(vmdk_lines(info, path), "\n            filename: "@ + path),
        holds_part(
            vmdk_lines(info, path),
            "\n            cluster size: "@ + dec(info.cluster_size as int),
        ),
{
    broadcast use {lemma_part_stays, lemma_tail_part, lemma_last_part, lemma_first_part};

}

/// The lines for a VDI image hold what its header says, each behind its name.
pub proof fn law_vdi_lines_hold_the_header(v: VdiInfo)
    ensures
        holds_part(
            vdi_lines(v),
            "Format specific information:\n    image type: "@ + vdi_type(v.image_type),
        ),
        holds_part(vdi_lines(v), "\n    block size: "@ + dec(v.block_size as int)),
        holds_part(vdi_lines(v), "\n    blocks in image: "@ + dec(v.blocks_in_image as int)),
        holds_part(vdi_lines(v), "\n    blocks allocated: "@ + dec(v.blocks_allocated as int)),
        v.uuid@.len() > 0 ==> holds_part(vdi_lines(v), "    uuid: "@ + v.uuid@ + "\n"@),
{
    broadcast use {lemma_part_stays, lemma_tail_part, lemma_last_part, lemma_first_part};

}

/// The lines for the file below an image hold its path, its length and the space
/// that it takes.
pub proof fn law_child_lines_hold_the_file(
    path: Seq<char>,
    length: int,
    disk_size: u64,
    qemu_compat: bool,
)
    ensures
        holds_part(
            child_lines(path, length, disk_size, qemu_compat),
            "Child node '/file':\n    filename: "@ + path,
        ),
        holds_part(
            child_lines(path, length, disk_size, qemu_compat),
            "\n    protocol type: file\n    file length: "@ + human_size(length as u64, qemu_compat),
        ),
        holds_part(child_lines(path, length, disk_size, qemu_compat), " ("@ + dec(length)),
        holds_part(
            child_lines(path, length, disk_size, qemu_compat),
            " bytes)\n    disk size: "@ + human_size(disk_size, qemu_compat),
        ),
{
    broadcast use {lemma_part_stays, lemma_tail_part, lemma_last_part, lemma_first_part};

}

/// A report for people holds the path, the format, the two sizes and whatever
/// else is known of the image, each behind its name.
pub proof fn law_text_holds_the_image(
    info: InfoResultMessage,
    path: Seq<char>,
    image_dir: Seq<char>,
    file_size: u64,
    disk_size: u64,
    ignore_quirks: bool,
    extra_detail: bool,
    profile: OutputProfile,
)
    ensures
        ({
            let size = shown_virtual_size(info, file_size);
            let length = shown_child_length(info, file_size, ignore_quirks);
            let text = info_text(info, path, image_dir, file_size, disk_size, ignore_quirks, extra_detail, profile);
            &&& holds_part(text, "image: "@ + path)
            &&& holds_part(text, "\nfile format: "@ + info.format@)
            &&& holds_part(text, "\nvirtual size: "@ + human_size(size as u64, !ignore_quirks))
            &&& holds_part(text, " ("@ + dec(size))
            &&& holds_part(text, " bytes)\ndisk size: "@ + human_size(disk_size, !ignore_quirks))
            &&& info.cluster_size > 0 ==> holds_part(
                text,
                "cluster_size: "@ + dec(info.cluster_size as int) + "\n"@,
            )
            &&& profile.include_dirty_flag && info.format@ == "qcow2"@ && info.qcow2_info.dirty ==> holds_part(
                text,
                "cleanly shut down: no\n"@,
            )
            &&& has_backing(info) ==> holds_part(text, backing_lines(info, image_dir))
            &&& has_data_file(info) ==> holds_part(
                text,
                "data file: "@ + info.external_data_file@ + "\n"@,
            )
            &&& info.format@ == "qcow2"@ ==> holds_part(text, qcow2_lines(info.qcow2_info))
            &&& info.format@ == "vmdk"@ ==> holds_part(text, vmdk_lines(info, path))
            &&& info.format@ == "vdi"@ && extra_detail ==> holds_part(
                text,
                vdi_lines(info.vdi_info),
            )
            &&& profile.include_child_node ==> holds_part(
                text,
                child_lines(path, length, disk_size, !ignore_quirks),
            )
        }),
{
    broadcast use {lemma_part_stays, lemma_tail_part, lemma_last_part, lemma_first_part};

}

/// The record of a file below an image holds its name, its size, its path and the
/// space that it takes.
pub proof fn law_child_record_holds_the_file(
    name: Seq<char>,
    virtual_size: int,
    path: Seq<char>,
    disk_size: u64,
)
    ensures
        holds_part(
            file_child(name, virtual_size, path, disk_size),
            "        {\n            \"name\": \""@ + name,
        ),
        holds_part(
            file_child(name, virtual_size, path, disk_size),
            "\",\n            \"info\": {\n                \"children\": [],\n                \"virtual-size\": "@ + dec(virtual_size),
        ),
        holds_part(
            file_child(name, virtual_size, path, disk_size),
            ",\n                \"filename\": \""@ + quoted(path),
        ),
        holds_part(
            file_child(name, virtual_size, path, disk_size),
            "\",\n                \"format\": \"file\",\n                \"actual-size\": "@ + dec(disk_size as int),
        ),
{
    broadcast use {lemma_part_stays, lemma_tail_part, lemma_last_part, lemma_first_part};

}

/// The members that only the later version has hold what the header says.
pub proof fn law_later_qcow2_members_hold_the_header(info: InfoResultMessage)
    ensures
        holds_part(
            qcow2_v3_members(info),
            ",\n            \"corrupt\": "@ + truth(info.qcow2_info.corrupt),
        ),
        holds_part(
            qcow2_v3_members(info),
            ",\n            \"extended-l2\": "@ + truth(info.qcow2_info.extended_l2),
        ),
        has_data_file(info) ==> holds_part(
            qcow2_v3_members(info),
            ",\n            \"data-file\": \""@ + quoted(info.external_data_file@) + "\""@,
        ),
{
    broadcast use {lemma_part_stays, lemma_tail_part, lemma_last_part, lemma_first_part};

}

/// The section for a qcow2 image holds what its header says, each behind its
/// name.
pub proof fn law_qcow2_section_holds_the_header(info: InfoResultMessage)
    ensures
        holds_part(
            qcow2_section(info),
            "    \"format-specific\": {\n        \"type\": \"qcow2\",\n        \"data\": {\n            \"compat\": \""@ + or_default(info.qcow2_info.compat@, "0.10"@),
        ),
        holds_part(
            qcow2_section(info),
            "\",\n            \"compression-type\": \""@ + or_default(info.qcow2_info.compression_type@, "zlib"@),
        ),
        or_default(info.qcow2_info.compat@, "0.10"@) == "1.1"@ ==> holds_part(
            qcow2_section(info),
            "            \"lazy-refcounts\": "@ + truth(info.qcow2_info.lazy_refcounts) + ",\n"@,
        ),
        holds_part(
            qcow2_section(info),
            "            \"refcount-bits\": "@ + dec(refcount_bits(info.qcow2_info) as int),
        ),
        or_default(info.qcow2_info.compat@, "0.10"@) == "1.1"@ ==> holds_part(
            qcow2_section(info),
            qcow2_v3_members(info),
        ),
{
    broadcast use {lemma_part_stays, lemma_tail_part, lemma_last_part, lemma_first_part};

}

/// The record of a flat extent holds its size and its path.
pub proof fn law_flat_record_holds_the_extent(e: FlatExtent)
    ensures
        holds_part(
            flat_record(e),
            "                {\n                    \"virtual-size\": "@ + dec(e.extent_size as int),
        ),
        holds_part(
            flat_record(e),
            ",\n                    \"filename\": \""@ + quoted(e.flat_path@),
        ),
{
    broadcast use {lemma_part_stays, lemma_tail_part, lemma_last_part, lemma_first_part};

}

/// The record of a sparse extent holds its size, its path and its grains, and
/// whether it is compressed.
pub proof fn law_sparse_record_holds_the_extent(info: InfoResultMessage, path: Seq<char>)
    ensures
        info.flags & INFO_RESULT_FLAG_COMPRESSED != 0 ==> holds_part(
            sparse_record(info, path),
            "                    \"compressed\": true,\n"@,
        ),
        holds_part(
            sparse_record(info, path),
            "                    \"virtual-size\": "@ + dec(info.virtual_size as int),
        ),
        holds_part(
            sparse_record(info, path),
            ",\n                    \"filename\": \""@ + quoted(path),
        ),
        holds_part(
            sparse_record(info, path),
            "\",\n                    \"cluster-size\": "@ + dec(info.cluster_size as int),
        ),
{
    broadcast use {lemma_part_stays, lemma_tail_part, lemma_last_part, lemma_first_part};

}

/// The section for a VMDK image holds what its descriptor says, each behind its
/// name, and the records of its extents.
pub proof fn law_vmdk_section_holds_the_descriptor(
    info: InfoResultMessage,
    path: Seq<char>,
    flat: Option<Seq<FlatExtent>>,
)
    ensures
        holds_part(
            vmdk_section(info, path, flat),
            "    \"format-specific\": {\n        \"type\": \"vmdk\",\n        \"data\": {\n            \"cid\": "@ + dec(info.vmdk_info.cid as int),
        ),
        holds_part(
            vmdk_section(info, path, flat),
            ",\n            \"parent-cid\": "@ + dec(info.vmdk_info.parent_cid as int),
        ),
        holds_part(
            vmdk_section(info, path, flat),
            ",\n            \"create-type\": \""@ + info.vmdk_info.create_type@,
        ),
        holds_part(
            vmdk_section(info, path, flat),
            "\",\n            \"extents\": [\n"@ + extent_records(info, path, flat),
        ),
{
    broadcast use {lemma_part_stays, lemma_tail_part, lemma_last_part, lemma_first_part};

}

/// The section for a VDI image holds what its header says, each behind its name.
pub proof fn law_vdi_section_holds_the_header(v: VdiInfo)
    ensures
        holds_part(
            vdi_section(v),
            "    \"format-specific\": {\n        \"type\": \"vdi\",\n        \"data\": {\n            \"image-type\": \""@ + vdi_type(v.image_type),
        ),
        holds_part(vdi_section(v), "\",\n            \"block-size\": "@ + dec(v.block_size as int)),
        holds_part(
            vdi_section(v),
            ",\n            \"blocks-in-image\": "@ + dec(v.blocks_in_image as int),
        ),
        holds_part(
            vdi_section(v),
            ",\n            \"blocks-allocated\": "@ + dec(v.blocks_allocated as int),
        ),
        holds_part(vdi_section(v), ",\n            \"uuid\": \""@ + quoted(v.uuid@)),
{
    broadcast use {lemma_part_stays, lemma_tail_part, lemma_last_part, lemma_first_part};

}

/// The members for the cipher of a LUKS volume hold what its header says.
pub proof fn law_cipher_members_hold_the_header(l: LuksInfo)
    ensures
        holds_part(luks_cipher_members(l), "            \"cipher\": \""@ + quoted(l.cipher@)),
        holds_part(
            luks_cipher_members(l),
            "\",\n            \"cipher-mode\": \""@ + quoted(l.cipher_mode@),
        ),
        holds_part(luks_cipher_members(l), "\",\n            \"hash\": \""@ + quoted(l.hash@)),
{
    broadcast use {lemma_part_stays, lemma_tail_part, lemma_last_part, lemma_first_part};

}

/// The members for the image inside a LUKS volume hold its format and its size.
pub proof fn law_inner_members_hold_the_image(l: LuksInfo)
    ensures
        holds_part(
            luks_inner_members(l),
            ",\n            \"inner-format\": \""@ + quoted(l.inner_format@),
        ),
        holds_part(
            luks_inner_members(l),
            "\",\n            \"inner-virtual-size\": "@ + dec(l.inner_virtual_size as int),
        ),
{
    broadcast use {lemma_part_stays, lemma_tail_part, lemma_last_part, lemma_first_part};

}

/// The section for a LUKS volume holds what its header says, each behind its
/// name, as far as it says it.
pub proof fn law_luks_section_holds_the_header(l: LuksInfo)
    ensures
        l.cipher@.len() > 0 ==> holds_part(luks_section(l), luks_cipher_members(l)),
        l.uuid@.len() > 0 ==> holds_part(
            luks_section(l),
            "            \"uuid\": \""@ + quoted(l.uuid@) + "\",\n"@,
        ),
        l.payload_offset > 0 ==> holds_part(
            luks_section(l),
            "            \"payload-offset\": "@ + dec(l.payload_offset as int) + ",\n"@,
        ),
        l.master_key_length > 0 ==> holds_part(
            luks_section(l),
            "            \"master-key-length\": "@ + dec(l.master_key_length as int) + ",\n"@,
        ),
        holds_part(
            luks_section(l),
            "            \"active-key-slots\": "@ + dec(l.active_key_slots as int),
        ),
        l.inner_format@.len() > 0 ==> holds_part(luks_section(l), luks_inner_members(l)),
{
    broadcast use {lemma_part_stays, lemma_tail_part, lemma_last_part, lemma_first_part};

}

/// The members for a backing file hold where its name leads and the name itself.
pub proof fn law_backing_members_hold_both_paths(backing: Seq<char>, image_dir: Seq<char>)
    ensures
        holds_part(
            backing_members(backing, image_dir),
            "    \"full-backing-filename\": \""@ + quoted(joined(image_dir, backing)),
        ),
        holds_part(
            backing_members(backing, image_dir),
            "\",\n    \"backing-filename\": \""@ + quoted(backing),
        ),
{
    broadcast use {lemma_part_stays, lemma_tail_part, lemma_last_part, lemma_first_part};

}

/// A report as JSON holds the sizes, the path, the format and whatever else is
/// known of the image, each behind its name.
pub proof fn law_json_holds_the_image(
    info: InfoResultMessage,
    path: Seq<char>,
    image_dir: Seq<char>,
    child_file_length: u64,
    disk_size: u64,
    extra_detail: bool,
    profile: OutputProfile,
    flat: Option<Seq<FlatExtent>>,
)
    ensures
        ({
            let plain = unstructured(info.format@);
            let length = rounded_if(plain, child_file_length);
            let size = if plain { length } else { info.virtual_size as int };
            let text = info_json(info, path, image_dir, child_file_length, disk_size, extra_detail, profile, flat);
            &&& (profile.include_child_node || flat is Some) ==> holds_part(
                text,
                children(path, length, disk_size, flat),
            )
            &&& has_backing(info) ==> holds_part(
                text,
                "    \"backing-filename-format\": \""@ + or_default(info.qcow2_info.backing_format@, "qcow2"@) + "\",\n"@,
            )
            &&& holds_part(text, "    \"virtual-size\": "@ + dec(size))
            &&& holds_part(text, ",\n    \"filename\": \""@ + quoted(path))
            &&& info.cluster_size > 0 ==> holds_part(
                text,
                "    \"cluster-size\": "@ + dec(info.cluster_size as int) + ",\n"@,
            )
            &&& holds_part(text, "    \"format\": \""@ + info.format@)
            &&& holds_part(text, "\",\n    \"actual-size\": "@ + dec(disk_size as int))
            &&& holds_part(text, ",\n"@ + format_section(info, path, extra_detail, flat))
            &&& has_backing(info) ==> holds_part(
                text,
                backing_members(info.backing_file@, image_dir),
            )
            &&& holds_part(
                text,
                "    \"dirty-flag\": "@ + truth(profile.include_dirty_flag && info.format@ == "qcow2"@ && info.qcow2_info.dirty),
            )
        }),
{
    broadcast use {lemma_part_stays, lemma_tail_part, lemma_last_part, lemma_first_part};

}

/// Sizes are rounded up to whole sectors, by less than one.
pub proof fn law_sizes_are_rounded_up(n: u64, r: u64)
    requires
        call_ensures(round_to_sectors, (n,), r),
    ensures
        r as int % 512 == 0,
        n <= r < n + 512,
{
}

/// The size of an image without a structure is that of its file in whole
/// sectors, and of any other what the guest found.
pub proof fn law_shown_size_is_the_image_size(info: InfoResultMessage, file_size: u64)
    ensures
        info.format@ != "raw"@ && info.format@ != "unknown"@ ==> shown_virtual_size(info, file_size)
            == info.virtual_size,
        info.format@ == "raw"@ || info.format@ == "unknown"@ ==> shown_virtual_size(info, file_size)
            % 512 == 0 && file_size <= shown_virtual_size(info, file_size) < file_size + 512,
{
}

/// The length of the file below an image is its own, or what the guest found
/// where that is more and quirks are kept; below a raw image it has whole
/// sectors.
pub proof fn law_shown_length_is_the_file_length(
    info: InfoResultMessage,
    file_size: u64,
    ignore_quirks: bool,
)
    ensures
        ({
            let length = shown_child_length(info, file_size, ignore_quirks);
            let own = if !ignore_quirks && info.actual_size > file_size {
                info.actual_size
            } else {
                file_size
            };
            &&& info.format@ != "raw"@ ==> length == own
            &&& info.format@ == "raw"@ ==> length % 512 == 0 && own <= length < own + 512
        }),
{
}

/// An image has a backing file, or its data in another file, where its flags
/// and a name say so.
pub proof fn law_flags_and_names_go_together(info: InfoResultMessage)
    ensures
        has_backing(info) <==> info.flags & 1 != 0 && info.backing_file@.len() > 0,
        has_data_file(info) <==> info.flags & 2 != 0 && info.external_data_file@.len() > 0,
        INFO_RESULT_FLAG_COMPRESSED == 8,
{
}

/// What a header leaves out stands for the oldest: version 0.10, zlib and 16
/// bits; VDI images are dynamic or fixed by number.
pub proof fn law_missing_values_have_defaults(q: Qcow2Info, text: Seq<char>, n: u32)
    ensures
        q.refcount_bits == 0 ==> refcount_bits(q) == 16,
        q.refcount_bits != 0 ==> refcount_bits(q) == q.refcount_bits,
        text.len() == 0 ==> or_default(text, "0.10"@) == "0.10"@ && or_default(text, "zlib"@)
            == "zlib"@,
        text.len() > 0 ==> or_default(text, "0.10"@) == text && or_default(text, "zlib"@) == text,
        n == 1 ==> vdi_type(n) == "dynamic"@,
        n == 2 ==> vdi_type(n) == "fixed"@,
        n != 1 && n != 2 ==> vdi_type(n) == "unknown"@,
{
}

/// A relative backing file is shown with where it leads, an absolute one
/// without.
pub proof fn law_relative_backing_is_resolved(backing: Seq<char>, image_dir: Seq<char>)
    ensures
        backing.len() > 0 && backing[0] == '/' ==> actual_path_note(backing, image_dir).len() == 0,
        backing.len() == 0 || backing[0] != '/' ==> actual_path_note(backing, image_dir)
            == " (actual path: "@ + joined(image_dir, backing) + ")"@,
{
}

/// Each format has its own section: qcow2 and VMDK always, VDI and LUKS where
/// more detail is asked for, and the others none.
pub proof fn law_section_is_that_of_the_format(
    info: InfoResultMessage,
    path: Seq<char>,
    extra_detail: bool,
    flat: Option<Seq<FlatExtent>>,
)
    ensures
        ({
            let section = format_section(info, path, extra_detail, flat);
            let f = info.format@;
            &&& f == "qcow2"@ ==> section == qcow2_section(info)
            &&& f == "vmdk"@ ==> section == vmdk_section(info, path, flat)
            &&& f == "vdi"@ && extra_detail ==> section == vdi_section(info.vdi_info)
            &&& f == "luks"@ && extra_detail ==> section == luks_section(info.luks_info)
            &&& (f == "vdi"@ || f == "luks"@) && !extra_detail ==> section.len() == 0
            &&& f == "raw"@ ==> section.len() == 0
        }),
{
    reveal_strlit("qcow2");
    reveal_strlit("vmdk");
    reveal_strlit("vdi");
    reveal_strlit("luks");
    reveal_strlit("raw");
    assert("qcow2"@.len() == 5 && "vmdk"@.len() == 4 && "luks"@.len() == 4);
    assert("vdi"@.len() == 3 && "raw"@.len() == 3);
    assert("vmdk"@[0] != "luks"@[0] && "vdi"@[0] != "raw"@[0]);
}

/// Of an image in several files each extent is listed with its size, its path
/// and the space that it takes, under its number.
pub proof fn law_each_extent_is_listed(extents: Seq<FlatExtent>, n: int, i: int)
    requires
        0 <= i < n <= extents.len(),
    ensures
        holds_part(
            flat_children(extents, n),
            file_child(
                "extents."@ + dec(i),
                extents[i].extent_size as int,
                extents[i].flat_path@,
                extents[i].disk_size,
            ),
        ),
        holds_part(flat_records(extents, n), flat_record(extents[i])),
    decreases n,
{
    broadcast use {lemma_part_stays, lemma_tail_part, lemma_last_part, lemma_first_part};

    if i < n - 1 {
        law_each_extent_is_listed(extents, n - 1, i);
    }
}

/// The files below an image are its extents, where it has any, and the file
/// itself, whose length is then in whole sectors.
pub proof fn law_children_are_the_files(
    path: Seq<char>,
    length: int,
    disk_size: u64,
    extents: Seq<FlatExtent>,
)
    ensures
        holds_part(
            children(path, length, disk_size, None),
            file_child("file"@, length, path, disk_size),
        ),
        holds_part(
            children(path, length, disk_size, Some(extents)),
            "    \"children\": [\n"@ + flat_children(extents, extents.len() as int),
        ),
        holds_part(
            children(path, length, disk_size, Some(extents)),
            file_child("file"@, (length + 511) / 512 * 512, path, disk_size),
        ),
{
    broadcast use {lemma_part_stays, lemma_tail_part, lemma_last_part, lemma_first_part};

}

/// An image whose extents are known lists those, and any other the one that it
/// is itself.
pub proof fn law_extents_go_before_the_image(
    info: InfoResultMessage,
    path: Seq<char>,
    extents: Seq<FlatExtent>,
)
    ensures
        extent_records(info, path, None) == sparse_record(info, path),
        extent_records(info, path, Some(extents)) == flat_records(extents, extents.len() as int),
{
}

/// JSON is written exactly where it is asked for. Without quirks the file
/// counts for what it is; with them its blocks count for the space that it
/// takes, and the guest may know it to be longer.
pub proof fn law_asked_report_is_written(
    info: &InfoResultMessage,
    path: &str,
    image_dir: &str,
    file_size: u64,
    disk_blocks: u64,
    ignore_quirks: bool,
    extra_detail: bool,
    profile: OutputProfile,
    output_format: &str,
    vmdk_flat: Option<&Vec<FlatExtent>>,
    length: u64,
    disk: u64,
    r: String,
    text: String,
    json: String,
)
    requires
        ignore_quirks ==> disk == file_size && length == file_size,
        !ignore_quirks ==> disk == disk_blocks * 512,
        !ignore_quirks && info.actual_size <= file_size ==> length == file_size,
        !ignore_quirks && info.actual_size > file_size ==> length == info.actual_size,
        call_ensures(
            info_report,
            (
                info,
                path,
                image_dir,
                file_size,
                disk_blocks,
                ignore_quirks,
                extra_detail,
                profile,
                output_format,
                vmdk_flat,
            ),
            r,
        ),
        call_ensures(
            format_info,
            (info, path, image_dir, file_size, disk, ignore_quirks, extra_detail, profile),
            text,
        ),
        call_ensures(
            format_info_json,
            (info, path, image_dir, length, disk, extra_detail, profile, vmdk_flat),
            json,
        ),
    ensures
        output_format@ == "json"@ ==> r@ == json@,
        output_format@ != "json"@ ==> r@ == text@,
{
}

/// Both reports hold the path, the format, the size of the image and the space
/// that it takes.
pub proof fn law_reports_are_of_the_image(
    info: &InfoResultMessage,
    path: &str,
    image_dir: &str,
    size: u64,
    disk_size: u64,
    ignore_quirks: bool,
    extra_detail: bool,
    profile: OutputProfile,
    text: String,
    json: String,
)
    requires
        call_ensures(
            format_info,
            (info, path, image_dir, size, disk_size, ignore_quirks, extra_detail, profile),
            text,
        ),
        call_ensures(
            format_info_json,
            (info, path, image_dir, size, disk_size, extra_detail, profile, None),
            json,
        ),
    ensures
        holds_part(text@, "image: "@ + path@),
        holds_part(text@, "\nfile format: "@ + info.format@),
        holds_part(text@, " bytes)\ndisk size: "@ + human_size(disk_size, !ignore_quirks)),
        holds_part(json@, ",\n    \"filename\": \""@ + escaped(path@, EscapeStyle::Report)),
        holds_part(json@, "    \"format\": \""@ + info.format@),
        holds_part(json@, "\",\n    \"actual-size\": "@ + dec(disk_size as int)),
        info.format@ != "raw"@ && info.format@ != "unknown"@ ==> holds_part(
            json@,
            "    \"virtual-size\": "@ + dec(info.virtual_size as int),
        ) && holds_part(text@, " ("@ + dec(info.virtual_size as int)),
        info.format@ == "raw"@ || info.format@ == "unknown"@ ==> holds_part(
            json@,
            "    \"virtual-size\": "@ + dec((size + 511) / 512 * 512),
        ) && holds_part(text@, " ("@ + dec((size + 511) / 512 * 512)),
{
    broadcast use {lemma_part_stays, lemma_tail_part, lemma_last_part, lemma_first_part};

}

/// Of what an image has not, nothing is said: without clusters, backing file
/// and the like only the path, the format and the sizes are left.
pub proof fn law_nothing_is_said_of_nothing(
    info: InfoResultMessage,
    path: Seq<char>,
    image_dir: Seq<char>,
    file_size: u64,
    disk_size: u64,
    ignore_quirks: bool,
    profile: OutputProfile,
)
    requires
        info.cluster_size == 0,
        info.flags & 1 == 0 && info.flags & 2 == 0,
        info.format@ == "raw"@,
        !profile.include_child_node,
    ensures
        ({
            let size = shown_virtual_size(info, file_size);
            info_text(
                info,
                path,
                image_dir,
                file_size,
                disk_size,
                ignore_quirks,
                true,
                profile,
            ) == "image: "@ + path + "\nfile format: "@ + info.format@ + "\nvirtual size: "@
                + human_size(size as u64, !ignore_quirks) + " ("@ + dec(size)
                + " bytes)\ndisk size: "@ + human_size(disk_size, !ignore_quirks) + "\n"@
        }),
{
    reveal_strlit("raw");
    reveal_strlit("qcow2");
    reveal_strlit("vmdk");
    reveal_strlit("vdi");
    assert("raw"@.len() == 3 && "qcow2"@.len() == 5 && "vmdk"@.len() == 4 && "vdi"@.len() == 3);
    assert("raw"@[0] != "vdi"@[0]);
    let size = shown_virtual_size(info, file_size);
    let head = "image: "@ + path + "\nfile format: "@ + info.format@ + "\nvirtual size: "@
        + human_size(size as u64, !ignore_quirks) + " ("@ + dec(size) + " bytes)\ndisk size: "@
        + human_size(disk_size, !ignore_quirks) + "\n"@;
    assert(info_text(
        info,
        path,
        image_dir,
        file_size,
        disk_size,
        ignore_quirks,
        true,
        profile,
    ) =~= head);
}

} // verus!
