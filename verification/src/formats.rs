//! Image formats: their codes and their names.
use vstd::prelude::*;
use crate::abi::{
    IMAGE_FORMAT_LUKS, IMAGE_FORMAT_QCOW1, IMAGE_FORMAT_QCOW2, IMAGE_FORMAT_RAW, IMAGE_FORMAT_VHD,
    IMAGE_FORMAT_VHDX, IMAGE_FORMAT_VMDK3, IMAGE_FORMAT_VMDK4,
};
use crate::text::same;

verus! {

/// A disk image format.
#[derive(Debug, Clone, Copy, PartialEq, Eq, Structural)]
pub enum ImageFormat {
    Raw,
    Qcow2,
    Qcow1,
    Vmdk4,
    Vmdk3,
    VmdkDescriptor,
    Vhd,
    Vhdx,
    Vdi,
    Qed,
    Iso,
    Luks,
    Unknown,
}

/// The name of a format code on the command line and in reports.
pub open spec fn format_name(code: u32) -> Seq<char> {
    if code == IMAGE_FORMAT_RAW {
        "raw"@
    } else if code == IMAGE_FORMAT_QCOW2 {
        "qcow2"@
    } else if code == IMAGE_FORMAT_VMDK4 || code == IMAGE_FORMAT_VMDK3 {
        "vmdk"@
    } else if code == IMAGE_FORMAT_VHD {
        "vpc"@
    } else if code == IMAGE_FORMAT_VHDX {
        "vhdx"@
    } else {
        "unknown"@
    }
}

/// Names a format code.
pub fn image_format_name(code: u32) -> (r: &'static str)
    ensures
        r@ == format_name(code),
{
    if code == IMAGE_FORMAT_RAW {
        "raw"
    } else if code == IMAGE_FORMAT_QCOW2 {
        "qcow2"
    } else if code == IMAGE_FORMAT_VMDK4 || code == IMAGE_FORMAT_VMDK3 {
        "vmdk"
    } else if code == IMAGE_FORMAT_VHD {
        "vpc"
    } else if code == IMAGE_FORMAT_VHDX {
        "vhdx"
    } else {
        "unknown"
    }
}

/// The format that a code stands for in a chain description.
pub open spec fn format_of_code(code: u32) -> ImageFormat {
    if code == IMAGE_FORMAT_QCOW2 {
        ImageFormat::Qcow2
    } else if code == IMAGE_FORMAT_VMDK4 {
        ImageFormat::Vmdk4
    } else if code == IMAGE_FORMAT_VMDK3 {
        ImageFormat::Vmdk3
    } else if code == IMAGE_FORMAT_VHD {
        ImageFormat::Vhd
    } else if code == IMAGE_FORMAT_VHDX {
        ImageFormat::Vhdx
    } else if code == IMAGE_FORMAT_QCOW1 {
        ImageFormat::Qcow1
    } else if code == IMAGE_FORMAT_LUKS {
        ImageFormat::Luks
    } else if code == IMAGE_FORMAT_RAW {
        ImageFormat::Raw
    } else {
        ImageFormat::Unknown
    }
}

/// Reads a format code of a chain description.
pub fn image_format_from_u32(code: u32) -> (r: ImageFormat)
    ensures
        r == format_of_code(code),
{
    if code == IMAGE_FORMAT_QCOW2 {
        ImageFormat::Qcow2
    } else if code == IMAGE_FORMAT_VMDK4 {
        ImageFormat::Vmdk4
    } else if code == IMAGE_FORMAT_VMDK3 {
        ImageFormat::Vmdk3
    } else if code == IMAGE_FORMAT_VHD {
        ImageFormat::Vhd
    } else if code == IMAGE_FORMAT_VHDX {
        ImageFormat::Vhdx
    } else if code == IMAGE_FORMAT_QCOW1 {
        ImageFormat::Qcow1
    } else if code == IMAGE_FORMAT_LUKS {
        ImageFormat::Luks
    } else if code == IMAGE_FORMAT_RAW {
        ImageFormat::Raw
    } else {
        ImageFormat::Unknown
    }
}

/// The format code that a guest's result names, or the one that was asked for
/// where the name is none of the three.
pub open spec fn echoed_format(name: Seq<char>, asked: u32) -> u32 {
    if name == "qcow2"@ {
        IMAGE_FORMAT_QCOW2
    } else if name == "vmdk"@ {
        IMAGE_FORMAT_VMDK4
    } else if name == "raw"@ {
        IMAGE_FORMAT_RAW
    } else {
        asked
    }
}

/// Reads the format that a guest's result names.
pub(crate) fn read_echoed_format(name: &str, asked: u32) -> (r: u32)
    ensures
        r == echoed_format(name@, asked),
{
    if same(name, "qcow2") {
        IMAGE_FORMAT_QCOW2
    } else if same(name, "vmdk") {
        IMAGE_FORMAT_VMDK4
    } else if same(name, "raw") {
        IMAGE_FORMAT_RAW
    } else {
        asked
    }
}

// ---------------------------------------------------------------------------
// Laws
// ---------------------------------------------------------------------------

/// The names of formats are all different.
pub proof fn lemma_format_names_differ()
    ensures
        "raw"@ != "qcow2"@,
        "raw"@ != "vmdk"@,
        "raw"@ != "vpc"@,
        "raw"@ != "vhd"@,
        "raw"@ != "vhdx"@,
        "raw"@ != "unknown"@,
        "qcow2"@ != "vmdk"@,
        "qcow2"@ != "vpc"@,
        "qcow2"@ != "vhd"@,
        "qcow2"@ != "vhdx"@,
        "qcow2"@ != "unknown"@,
        "vmdk"@ != "vpc"@,
        "vmdk"@ != "vhd"@,
        "vmdk"@ != "vhdx"@,
        "vmdk"@ != "unknown"@,
        "vpc"@ != "vhd"@,
        "vpc"@ != "vhdx"@,
        "vpc"@ != "unknown"@,
        "vhd"@ != "vhdx"@,
        "vhd"@ != "unknown"@,
        "vhdx"@ != "unknown"@,
{
    reveal_strlit("raw");
    reveal_strlit("qcow2");
    reveal_strlit("vmdk");
    reveal_strlit("vpc");
    reveal_strlit("vhd");
    reveal_strlit("vhdx");
    reveal_strlit("unknown");
    assert("raw"@.len() == 3 && "vpc"@.len() == 3 && "vhd"@.len() == 3);
    assert("vmdk"@.len() == 4 && "vhdx"@.len() == 4);
    assert("qcow2"@.len() == 5 && "unknown"@.len() == 7);
    assert("raw"@[0] != "vpc"@[0]);
    assert("raw"@[0] != "vhd"@[0]);
    assert("vmdk"@[1] != "vhdx"@[1]);
    assert("vpc"@[1] != "vhd"@[1]);
}

/// A format's name and its number belong together: each name is given to the
/// numbers that guests use for that format and to no other.
pub proof fn law_names_belong_to_numbers(code: u32, r: &'static str)
    requires
        call_ensures(image_format_name, (code,), r),
    ensures
        r@ == "raw"@ <==> code == 1,
        r@ == "qcow2"@ <==> code == 2,
        r@ == "vmdk"@ <==> code == 3 || code == 4,
        r@ == "vpc"@ <==> code == 5,
        r@ == "vhdx"@ <==> code == 6,
        r@ == "unknown"@ <==> code == 0 || code > 6,
{
    lemma_format_names_differ();
}

/// Reading a number of a chain description loses nothing: two numbers that
/// stand for a known format are read as the same format only where they are
/// the same number.
pub proof fn law_numbers_are_read_apart(a: u32, b: u32, f: ImageFormat, g: ImageFormat)
    requires
        call_ensures(image_format_from_u32, (a,), f),
        call_ensures(image_format_from_u32, (b,), g),
    ensures
        f == g && f != ImageFormat::Unknown ==> a == b,
        f == ImageFormat::Unknown <==> a == 0 || 8 <= a <= 10 || a > 11,
{
}

/// A number of a chain description is read as the format that it is named
/// after; VMDK images keep their version.
pub proof fn law_numbers_are_read_as_named(code: u32, f: ImageFormat, name: &'static str)
    requires
        call_ensures(image_format_from_u32, (code,), f),
        call_ensures(image_format_name, (code,), name),
    ensures
        f == ImageFormat::Raw <==> name@ == "raw"@,
        f == ImageFormat::Qcow2 <==> name@ == "qcow2"@,
        f == ImageFormat::Vmdk4 || f == ImageFormat::Vmdk3 <==> name@ == "vmdk"@,
        f == ImageFormat::Vmdk3 <==> code == 4,
        f == ImageFormat::Vhd <==> name@ == "vpc"@,
        f == ImageFormat::Vhdx <==> name@ == "vhdx"@,
        f == ImageFormat::Qcow1 <==> code == 7,
        f == ImageFormat::Luks <==> code == 11,
{
    lemma_format_names_differ();
}

/// A guest that names a format is taken at its word, and one that names none
/// of those a result can have leaves what was asked for.
pub proof fn law_named_format_is_echoed(name: Seq<char>, asked: u32)
    ensures
        name == "raw"@ || name == "qcow2"@ || name == "vmdk"@ ==> format_name(
            echoed_format(name, asked),
        ) == name && echoed_format(name, asked) != IMAGE_FORMAT_VMDK3,
        name != "raw"@ && name != "qcow2"@ && name != "vmdk"@ ==> echoed_format(name, asked)
            == asked,
{
    lemma_format_names_differ();
}

} // verus!
