//! Resizing an image in place: what may be asked, what the guest is told, and
//! what is made of its answer.
use vstd::prelude::*;
use crate::abi::{
    IMAGE_FORMAT_QCOW2, IMAGE_FORMAT_RAW, IMAGE_FORMAT_VHD, IMAGE_FORMAT_VHDX, IMAGE_FORMAT_VMDK4,
    RESIZE_CONFIG_FLAG_EXTENDED_L2, RESIZE_CONFIG_FLAG_QUIET, RESIZE_CONFIG_FLAG_SHRINK,
    RESIZE_CONFIG_MAGIC, RESIZE_CONFIG_PREALLOC_FALLOC, RESIZE_CONFIG_PREALLOC_FULL,
    RESIZE_CONFIG_PREALLOC_METADATA, RESIZE_RESULT_ACTION_GROW, RESIZE_RESULT_ACTION_NOOP,
    RESIZE_RESULT_ACTION_SHRINK, RESIZE_RESULT_ERROR_HEADER_MISMATCH,
    RESIZE_RESULT_ERROR_INVALID_NEW_SIZE, RESIZE_RESULT_ERROR_INVALID_OPTION,
    RESIZE_RESULT_ERROR_OK, RESIZE_RESULT_ERROR_PARSE_FAILED,
    RESIZE_RESULT_ERROR_PREALLOCATION_UNSUPPORTED, RESIZE_RESULT_ERROR_READ_FAILED,
    RESIZE_RESULT_ERROR_SCRATCH_TOO_SMALL, RESIZE_RESULT_ERROR_SHRINK_BELOW_ALLOCATED,
    RESIZE_RESULT_ERROR_SHRINK_WITHOUT_FLAG, RESIZE_RESULT_ERROR_UNSUPPORTED_FORMAT,
    RESIZE_RESULT_ERROR_UNSUPPORTED_SHRINK, RESIZE_RESULT_ERROR_UNSUPPORTED_SUBFORMAT,
    RESIZE_RESULT_ERROR_WRITE_FAILED,
};
use crate::bytes::{
    bit, bit_if, le_bytes, le_value, lemma_le_bytes_len, push_u32, push_u64, push_zeros, read_u64,
    zeros,
};
use crate::capacity::{doubled, doubled_capacity};
use crate::formats::{
    format_name, format_of_code, image_format_name, lemma_format_names_differ, ImageFormat,
};
use crate::json::{escaped, json_escape_string, EscapeStyle};
use crate::message::ResizeResultMessage;
use crate::options::lemma_modes_differ;
use crate::preallocation::{apply_preallocation, asked_of_data, Preallocation};
use crate::size::{parse_resize_size, resize_size, ParsedResizeSize};
use crate::text::{
    between, dec, holds_part, lemma_first_part, lemma_last_part, lemma_part_stays, outcome,
    push_dec, same,
};

verus! {

/// The arguments of a resize.
#[derive(Debug)]
pub struct ResizeArgs {
    pub filename: String,
    pub size: String,
    pub format: Option<String>,
    pub shrink: bool,
    pub preallocation: String,
    pub quiet: bool,
    pub output: String,
    /// Whether secret objects were given.
    pub object: bool,
    pub image_opts: bool,
}

/// What is known of the image before it is resized.
#[derive(Debug, Clone, Copy, PartialEq, Eq, Structural)]
pub struct ProbedResizeTarget {
    pub format: u32,
    pub current_virtual_size: u64,
    pub current_file_size: u64,
    pub qcow2_extended_l2: bool,
}

// ---------------------------------------------------------------------------
// The request
// ---------------------------------------------------------------------------

/// The size that a resize asks for, or why it is refused.
pub open spec fn resize_request(args: ResizeArgs) -> Result<ParsedResizeSize, Seq<char>> {
    if args.object {
        Err("--object is not yet supported by instar resize"@)
    } else if args.image_opts {
        Err("--image-opts is not yet supported by instar resize"@)
    } else {
        resize_size(args.size@)
    }
}

/// Reads the request of a resize.
pub fn read_resize_request(args: &ResizeArgs) -> (r: Result<ParsedResizeSize, String>)
    ensures
        outcome(r) == resize_request(*args),
{
    if args.object {
        return Err("--object is not yet supported by instar resize".to_owned());
    }
    if args.image_opts {
        return Err("--image-opts is not yet supported by instar resize".to_owned());
    }
    parse_resize_size(args.size.as_str())
}

/// The virtual size that a request comes to for an image of a given size.
pub open spec fn requested_size(current: u64, size: ParsedResizeSize) -> Result<u64, Seq<char>> {
    match size {
        ParsedResizeSize::Absolute(v) => Ok(v),
        ParsedResizeSize::Add(d) => if current + d <= u64::MAX {
            Ok((current + d) as u64)
        } else {
            Err("resize: new virtual size overflows u64"@)
        },
        ParsedResizeSize::Subtract(d) => if d <= current {
            Ok((current - d) as u64)
        } else {
            Err("resize: new virtual size underflows below zero"@)
        },
    }
}

/// Works out the new virtual size of an image.
pub fn new_virtual_size(current: u64, size: ParsedResizeSize) -> (r: Result<u64, String>)
    ensures
        outcome(r) == requested_size(current, size),
{
    match size {
        ParsedResizeSize::Absolute(v) => Ok(v),
        ParsedResizeSize::Add(d) => match current.checked_add(d) {
            Some(v) => Ok(v),
            None => Err("resize: new virtual size overflows u64".to_owned()),
        },
        ParsedResizeSize::Subtract(d) => match current.checked_sub(d) {
            Some(v) => Ok(v),
            None => Err("resize: new virtual size underflows below zero".to_owned()),
        },
    }
}

// ---------------------------------------------------------------------------
// Probing
// ---------------------------------------------------------------------------

/// The format that the user forces, or none.
pub open spec fn forced_format(name: Option<Seq<char>>) -> Result<Option<ImageFormat>, Seq<char>> {
    match name {
        None => Ok(None),
        Some(n) => if n == "raw"@ {
            Ok(Some(ImageFormat::Raw))
        } else if n == "qcow2"@ {
            Ok(Some(ImageFormat::Qcow2))
        } else if n == "vmdk"@ {
            Ok(Some(ImageFormat::Vmdk4))
        } else if n == "vpc"@ || n == "vhd"@ {
            Ok(Some(ImageFormat::Vhd))
        } else if n == "vhdx"@ {
            Ok(Some(ImageFormat::Vhdx))
        } else {
            Err("resize: unknown -f format '"@ + n + "'"@)
        },
    }
}

/// Reads the format that the user forces.
pub fn forced_resize_format(name: Option<&str>) -> (r: Result<Option<ImageFormat>, String>)
    ensures
        outcome(r) == forced_format(
            match name {
                Some(n) => Some(n@),
                None => None,
            },
        ),
{
    match name {
        None => Ok(None),
        Some(n) => {
            if same(n, "raw") {
                Ok(Some(ImageFormat::Raw))
            } else if same(n, "qcow2") {
                Ok(Some(ImageFormat::Qcow2))
            } else if same(n, "vmdk") {
                Ok(Some(ImageFormat::Vmdk4))
            } else if same(n, "vpc") || same(n, "vhd") {
                Ok(Some(ImageFormat::Vhd))
            } else if same(n, "vhdx") {
                Ok(Some(ImageFormat::Vhdx))
            } else {
                Err(between("resize: unknown -f format '", n, "'"))
            }
        },
    }
}

/// Where to look for the footer of a fixed VHD: its head looks like a raw
/// image, so only an image that seems raw and can hold a footer is looked at.
pub fn footer_offset(by_header: ImageFormat, file_size: u64) -> (r: Option<u64>)
    ensures
        r == if by_header == ImageFormat::Raw && file_size >= 512 {
            Some((file_size - 512) as u64)
        } else {
            None
        },
{
    if by_header == ImageFormat::Raw && file_size >= 512 {
        Some(file_size - 512)
    } else {
        None
    }
}

/// The format of an image by its header and by whether a VHD footer was found
/// where one may be.
pub fn detected_format(by_header: ImageFormat, file_size: u64, footer_found: bool) -> (r:
    ImageFormat)
    ensures
        r == if by_header == ImageFormat::Raw && file_size >= 512 && footer_found {
            ImageFormat::Vhd
        } else {
            by_header
        },
{
    if footer_offset(by_header, file_size).is_some() && footer_found {
        ImageFormat::Vhd
    } else {
        by_header
    }
}

/// What the header of a qcow2 image says.
#[derive(Debug, Clone, Copy, PartialEq, Eq, Structural)]
pub struct Qcow2Header {
    pub version: u32,
    pub virtual_size: u64,
    pub cluster_size: u64,
    pub refcount_bits: u32,
    pub incompatible_features: u64,
    pub compatible_features: u64,
    pub backing_file_offset: u64,
    pub backing_file_size: u32,
    pub extended_l2: bool,
}

/// What the headers of an image say, as far as they could be read.
#[derive(Debug)]
pub struct HeaderFacts {
    pub qcow2: Option<Qcow2Header>,
    pub vmdk_virtual_size: Option<u64>,
    pub vhd_virtual_size: Option<u64>,
    pub vhdx_virtual_size: Result<u64, String>,
}

/// The refusal of a format that cannot be resized.
pub open spec fn unresizable(name: Seq<char>) -> Seq<char> {
    "resize: format "@ + name + " is not supported for in-place resize"@
}

/// What is known of an image of a detected format, or why it cannot be
/// resized.
pub open spec fn probed_target(
    detected: ImageFormat,
    name: Seq<char>,
    file_size: u64,
    facts: HeaderFacts,
) -> Result<ProbedResizeTarget, Seq<char>> {
    let target = ProbedResizeTarget {
        format: IMAGE_FORMAT_RAW,
        current_virtual_size: file_size,
        current_file_size: file_size,
        qcow2_extended_l2: false,
    };
    match detected {
        ImageFormat::Raw => Ok(target),
        ImageFormat::Qcow2 => match facts.qcow2 {
            None => Err("resize: invalid qcow2 header"@),
            Some(h) => if h.backing_file_offset != 0 || h.backing_file_size != 0 {
                Err(
                    "resize: qcow2 images with a backing file are not yet supported (resize would orphan the backing reference); resize the base image directly or flatten via `instar convert` first"@,
                )
            } else {
                Ok(
                    ProbedResizeTarget {
                        format: IMAGE_FORMAT_QCOW2,
                        current_virtual_size: h.virtual_size,
                        qcow2_extended_l2: h.extended_l2,
                        ..target
                    },
                )
            },
        },
        ImageFormat::Vmdk4 | ImageFormat::Vmdk3 => match facts.vmdk_virtual_size {
            None => Err("resize: invalid vmdk header"@),
            Some(v) => Ok(
                ProbedResizeTarget { format: IMAGE_FORMAT_VMDK4, current_virtual_size: v, ..target },
            ),
        },
        ImageFormat::Vhd => if file_size < 512 {
            Err("resize: file too small to contain a vhd footer"@)
        } else {
            match facts.vhd_virtual_size {
                None => Err("resize: invalid vhd footer"@),
                Some(v) => Ok(
                    ProbedResizeTarget {
                        format: IMAGE_FORMAT_VHD,
                        current_virtual_size: v,
                        ..target
                    },
                ),
            }
        },
        ImageFormat::Vhdx => match facts.vhdx_virtual_size {
            Err(e) => Err(e@),
            Ok(v) => Ok(
                ProbedResizeTarget { format: IMAGE_FORMAT_VHDX, current_virtual_size: v, ..target },
            ),
        },
        _ => Err(unresizable(name)),
    }
}

/// Works out what is known of an image. `name` is the format's name in an
/// error.
pub fn probe_resize_target(
    detected: ImageFormat,
    name: &str,
    file_size: u64,
    facts: &HeaderFacts,
) -> (r: Result<ProbedResizeTarget, String>)
    ensures
        outcome(r) == probed_target(detected, name@, file_size, *facts),
{
    let target = ProbedResizeTarget {
        format: IMAGE_FORMAT_RAW,
        current_virtual_size: file_size,
        current_file_size: file_size,
        qcow2_extended_l2: false,
    };
    match detected {
        ImageFormat::Raw => Ok(target),
        ImageFormat::Qcow2 => match facts.qcow2 {
            None => Err("resize: invalid qcow2 header".to_owned()),
            Some(h) => {
                if h.backing_file_offset != 0 || h.backing_file_size != 0 {
                    return Err(
                        "resize: qcow2 images with a backing file are not yet supported (resize would orphan the backing reference); resize the base image directly or flatten via `instar convert` first".to_owned(),
                    );
                }
                Ok(
                    ProbedResizeTarget {
                        format: IMAGE_FORMAT_QCOW2,
                        current_virtual_size: h.virtual_size,
                        qcow2_extended_l2: h.extended_l2,
                        ..target
                    },
                )
            },
        },
        ImageFormat::Vmdk4 | ImageFormat::Vmdk3 => match facts.vmdk_virtual_size {
            None => Err("resize: invalid vmdk header".to_owned()),
            Some(v) => Ok(
                ProbedResizeTarget { format: IMAGE_FORMAT_VMDK4, current_virtual_size: v, ..target },
            ),
        },
        ImageFormat::Vhd => {
            if file_size < 512 {
                return Err("resize: file too small to contain a vhd footer".to_owned());
            }
            match facts.vhd_virtual_size {
                None => Err("resize: invalid vhd footer".to_owned()),
                Some(v) => Ok(
                    ProbedResizeTarget {
                        format: IMAGE_FORMAT_VHD,
                        current_virtual_size: v,
                        ..target
                    },
                ),
            }
        },
        ImageFormat::Vhdx => match &facts.vhdx_virtual_size {
            Err(e) => Err(e.as_str().to_owned()),
            Ok(v) => Ok(
                ProbedResizeTarget { format: IMAGE_FORMAT_VHDX, current_virtual_size: *v, ..target },
            ),
        },
        _ => Err(between("resize: format ", name, " is not supported for in-place resize")),
    }
}

/// Where the parts of a VHDX image stand that lead to its virtual size.
pub const VHDX_HEADER1_OFFSET: u64 = 0x10000;

pub const VHDX_HEADER2_OFFSET: u64 = 0x20000;

pub const VHDX_REGION_TABLE_OFFSET: u64 = 0x30000;

pub const VHDX_LEAST_SIZE: u64 = 0x50000;

pub const VHDX_DISK_SIZE_OFFSET: usize = 0x10008;

/// What was read of a VHDX image on the way to its virtual size.
#[derive(Debug)]
pub struct VhdxFacts {
    pub file_size: u64,
    /// Whether each of the two headers is valid.
    pub header1_valid: bool,
    pub header2_valid: bool,
    /// The metadata region, where the region table is valid.
    pub metadata: Option<Vec<u8>>,
}

/// The virtual size of a VHDX image.
pub open spec fn vhdx_size(f: VhdxFacts) -> Result<u64, Seq<char>> {
    if f.file_size < VHDX_LEAST_SIZE {
        Err("resize: file too small for vhdx layout"@)
    } else if !f.header1_valid && !f.header2_valid {
        Err("resize: vhdx headers both invalid"@)
    } else {
        match f.metadata {
            None => Err("resize: vhdx region table invalid"@),
            Some(m) => if m@.len() < VHDX_DISK_SIZE_OFFSET + 8 {
                Err("resize: vhdx metadata too short"@)
            } else {
                Ok(
                    le_value(
                        m@.subrange(
                            VHDX_DISK_SIZE_OFFSET as int,
                            VHDX_DISK_SIZE_OFFSET + 8,
                        ),
                    ) as u64,
                )
            },
        }
    }
}

/// Finds the virtual size of a VHDX image in what was read of it.
pub fn probe_vhdx_virtual_size(f: &VhdxFacts) -> (r: Result<u64, String>)
    ensures
        outcome(r) == vhdx_size(*f),
{
    if f.file_size < VHDX_LEAST_SIZE {
        return Err("resize: file too small for vhdx layout".to_owned());
    }
    if !f.header1_valid && !f.header2_valid {
        return Err("resize: vhdx headers both invalid".to_owned());
    }
    match &f.metadata {
        None => Err("resize: vhdx region table invalid".to_owned()),
        Some(m) => {
            if m.len() < VHDX_DISK_SIZE_OFFSET + 8 {
                return Err("resize: vhdx metadata too short".to_owned());
            }
            Ok(read_u64(m.as_slice(), VHDX_DISK_SIZE_OFFSET))
        },
    }
}

// ---------------------------------------------------------------------------
// Refusals
// ---------------------------------------------------------------------------

/// Whether a mode fills the space that a growing image gains.
pub open spec fn fills_space(mode: Seq<char>) -> bool {
    mode == "falloc"@ || mode == "full"@
}

fn mode_fills_space(mode: &str) -> (r: bool)
    ensures
        r == fills_space(mode@),
{
    same(mode, "falloc") || same(mode, "full")
}

/// The refusal to preallocate for an image that shrinks.
pub open spec fn meaningless_mode(mode: Seq<char>) -> Seq<char> {
    "resize: --preallocation="@ + mode + " is meaningless when shrinking"@
}

/// The refusal to shrink an image unasked.
pub open spec fn unasked_shrink(current: u64, new: u64) -> Seq<char> {
    "resize: shrinking from "@ + dec(current as int) + " to "@ + dec(new as int)
        + " bytes requires --shrink"@
}

/// What is done to a raw image: the preallocation of what it gains, or why it
/// is not resized.
pub open spec fn raw_resize(args: ResizeArgs, current: u64, new: u64) -> Result<
    Preallocation,
    Seq<char>,
> {
    let mode = args.preallocation@;
    if mode == "metadata"@ {
        Err("resize: --preallocation=metadata is not supported for raw"@)
    } else if fills_space(mode) && new < current {
        Err(meaningless_mode(mode))
    } else if new < current && !args.shrink {
        Err(unasked_shrink(current, new))
    } else if new > current {
        Ok(asked_of_data(mode, current, (new - current) as u64))
    } else {
        Ok(Preallocation::Nothing)
    }
}

/// Plans the resize of a raw image: its length is set to the new size, and
/// what it gains is preallocated.
pub fn plan_raw_resize(args: &ResizeArgs, current: u64, new: u64) -> (r: Result<
    Preallocation,
    String,
>)
    ensures
        outcome(r) == raw_resize(*args, current, new),
{
    let mode = args.preallocation.as_str();
    if same(mode, "metadata") {
        return Err("resize: --preallocation=metadata is not supported for raw".to_owned());
    }
    if mode_fills_space(mode) && new < current {
        return Err(
            between("resize: --preallocation=", mode, " is meaningless when shrinking"),
        );
    }
    if new < current && !args.shrink {
        let mut e = "resize: shrinking from ".to_owned();
        push_dec(&mut e, current);
        e.append(" to ");
        push_dec(&mut e, new);
        e.append(" bytes requires --shrink");
        return Err(e);
    }
    if new > current {
        Ok(apply_preallocation(mode, current, new - current))
    } else {
        Ok(Preallocation::Nothing)
    }
}

// ---------------------------------------------------------------------------
// The guest
// ---------------------------------------------------------------------------

/// The flags for the guest.
pub open spec fn resize_flags(args: ResizeArgs, extended_l2: bool) -> u32 {
    bit(args.shrink, RESIZE_CONFIG_FLAG_SHRINK) | bit(args.quiet, RESIZE_CONFIG_FLAG_QUIET) | bit(
        extended_l2,
        RESIZE_CONFIG_FLAG_EXTENDED_L2,
    ) | prealloc_bits(args.preallocation@)
}

/// The bits that stand for a preallocation mode.
pub open spec fn prealloc_bits(mode: Seq<char>) -> u32 {
    if mode == "metadata"@ {
        RESIZE_CONFIG_PREALLOC_METADATA
    } else if mode == "falloc"@ {
        RESIZE_CONFIG_PREALLOC_FALLOC
    } else if mode == "full"@ {
        RESIZE_CONFIG_PREALLOC_FULL
    } else {
        0
    }
}

fn mode_bits(mode: &str) -> (r: u32)
    ensures
        r == prealloc_bits(mode@),
{
    if same(mode, "metadata") {
        RESIZE_CONFIG_PREALLOC_METADATA
    } else if same(mode, "falloc") {
        RESIZE_CONFIG_PREALLOC_FALLOC
    } else if same(mode, "full") {
        RESIZE_CONFIG_PREALLOC_FULL
    } else {
        0
    }
}

/// How large the device seems to the guest: it has room for twice the larger
/// of the file and the new virtual size.
pub open spec fn capacity_hint(file_size: u64, new: u64) -> u64 {
    doubled(
        if file_size >= new {
            file_size
        } else {
            new
        },
    )
}

/// What the guest is told of a resize. What it reads from the image itself is left zero.
#[derive(Debug, Clone, Copy)]
pub struct ResizeConfig {
    pub target_format: u32,
    pub flags: u32,
    pub sector_size: u32,
    pub current_virtual_size: u64,
    pub new_virtual_size: u64,
    pub current_file_size: u64,
}

/// The bytes of the configuration, as the guest reads them.
pub open spec fn resize_config_bytes(c: ResizeConfig) -> Seq<u8> {
    le_bytes(RESIZE_CONFIG_MAGIC as int, 4)
        + le_bytes(c.target_format as int, 4)
        + le_bytes(c.flags as int, 4)
        + le_bytes(c.sector_size as int, 4)
        + le_bytes(c.current_virtual_size as int, 8)
        + le_bytes(c.new_virtual_size as int, 8)
        + zeros(16)
        + le_bytes(c.current_file_size as int, 8)
        + zeros(56)
}

/// Writes the configuration.
pub fn write_resize_config(c: &ResizeConfig) -> (b: Vec<u8>)
    ensures
        b@ == resize_config_bytes(*c),
{
    let mut b: Vec<u8> = Vec::new();
    push_u32(&mut b, RESIZE_CONFIG_MAGIC);
    assert(b@ =~= le_bytes(RESIZE_CONFIG_MAGIC as int, 4));
    push_u32(&mut b, c.target_format);
    push_u32(&mut b, c.flags);
    push_u32(&mut b, c.sector_size);
    push_u64(&mut b, c.current_virtual_size);
    push_u64(&mut b, c.new_virtual_size);
    push_zeros(&mut b, 16);
    push_u64(&mut b, c.current_file_size);
    push_zeros(&mut b, 56);
    b
}

/// Each field of the configuration stands at its offset.
pub proof fn law_resize_config_layout(c: ResizeConfig)
    ensures
        resize_config_bytes(c).len() == 112,
        resize_config_bytes(c).subrange(0, 4) == le_bytes(0x52455349, 4),
        resize_config_bytes(c).subrange(4, 8) == le_bytes(c.target_format as int, 4),
        resize_config_bytes(c).subrange(8, 12) == le_bytes(c.flags as int, 4),
        resize_config_bytes(c).subrange(12, 16) == le_bytes(c.sector_size as int, 4),
        resize_config_bytes(c).subrange(16, 24) == le_bytes(c.current_virtual_size as int, 8),
        resize_config_bytes(c).subrange(24, 32) == le_bytes(c.new_virtual_size as int, 8),
        resize_config_bytes(c).subrange(48, 56) == le_bytes(c.current_file_size as int, 8),
{
    broadcast use lemma_le_bytes_len;

    let b = resize_config_bytes(c);
    assert(b.subrange(0, 4) =~= le_bytes(RESIZE_CONFIG_MAGIC as int, 4));
    assert(b.subrange(4, 8) =~= le_bytes(c.target_format as int, 4));
    assert(b.subrange(8, 12) =~= le_bytes(c.flags as int, 4));
    assert(b.subrange(12, 16) =~= le_bytes(c.sector_size as int, 4));
    assert(b.subrange(16, 24) =~= le_bytes(c.current_virtual_size as int, 8));
    assert(b.subrange(24, 32) =~= le_bytes(c.new_virtual_size as int, 8));
    assert(b.subrange(48, 56) =~= le_bytes(c.current_file_size as int, 8));
}

/// How an image of a structured format is resized.
#[derive(Debug)]
pub struct ResizePlan {
    pub capacity_hint: u64,
    pub config: ResizeConfig,
}

/// Whether a plan is the plan for a request.
pub open spec fn is_resize_plan(
    plan: ResizePlan,
    args: ResizeArgs,
    probed: ProbedResizeTarget,
    new: u64,
) -> bool {
    &&& plan.capacity_hint == capacity_hint(probed.current_file_size, new)
    &&& plan.config.target_format == probed.format
    &&& plan.config.flags == resize_flags(args, probed.qcow2_extended_l2)
    &&& plan.config.sector_size == 512
    &&& plan.config.current_virtual_size == probed.current_virtual_size
    &&& plan.config.new_virtual_size == new
    &&& plan.config.current_file_size == probed.current_file_size
}

/// Plans the resize of an image of a structured format. It is refused only
/// where space is to be filled in an image that shrinks.
pub fn plan_resize(args: &ResizeArgs, probed: &ProbedResizeTarget, new: u64) -> (r: Result<
    ResizePlan,
    String,
>)
    ensures
        match r {
            Ok(plan) => !(fills_space(args.preallocation@) && new < probed.current_virtual_size)
                && is_resize_plan(plan, *args, *probed, new),
            Err(e) => fills_space(args.preallocation@) && new < probed.current_virtual_size && e@
                == meaningless_mode(args.preallocation@),
        },
{
    let mode = args.preallocation.as_str();
    if mode_fills_space(mode) && new < probed.current_virtual_size {
        return Err(
            between("resize: --preallocation=", mode, " is meaningless when shrinking"),
        );
    }
    let larger: u64 = if probed.current_file_size >= new {
        probed.current_file_size
    } else {
        new
    };
    let flags: u32 = bit_if(args.shrink, RESIZE_CONFIG_FLAG_SHRINK) | bit_if(
        args.quiet,
        RESIZE_CONFIG_FLAG_QUIET,
    ) | bit_if(probed.qcow2_extended_l2, RESIZE_CONFIG_FLAG_EXTENDED_L2) | mode_bits(mode);
    Ok(
        ResizePlan {
            capacity_hint: doubled_capacity(larger),
            config: ResizeConfig {
                target_format: probed.format,
                flags,
                sector_size: 512,
                current_virtual_size: probed.current_virtual_size,
                new_virtual_size: new,
                current_file_size: probed.current_file_size,
            },
        },
    )
}

/// What the guest's result comes to.
#[derive(Debug, Clone, Copy, PartialEq, Eq, Structural)]
pub struct ResizeRunResult {
    pub resolved_new_virtual_size: u64,
    pub file_size_before: u64,
    pub file_size_after: u64,
    pub action: u32,
    pub error: u32,
}

/// The code of an action that the guest names.
pub open spec fn action_code(name: Seq<char>) -> u32 {
    if name == "grow"@ {
        RESIZE_RESULT_ACTION_GROW
    } else if name == "shrink"@ {
        RESIZE_RESULT_ACTION_SHRINK
    } else {
        RESIZE_RESULT_ACTION_NOOP
    }
}

/// Keeps what the guest reported.
pub fn harvest_resize(m: &ResizeResultMessage) -> (r: ResizeRunResult)
    ensures
        r == (ResizeRunResult {
            resolved_new_virtual_size: m.resolved_new_virtual_size,
            file_size_before: m.file_size_before,
            file_size_after: m.file_size_after,
            action: action_code(m.action@),
            error: m.error,
        }),
{
    let action: u32 = if same(m.action.as_str(), "grow") {
        RESIZE_RESULT_ACTION_GROW
    } else if same(m.action.as_str(), "shrink") {
        RESIZE_RESULT_ACTION_SHRINK
    } else {
        RESIZE_RESULT_ACTION_NOOP
    };
    ResizeRunResult {
        resolved_new_virtual_size: m.resolved_new_virtual_size,
        file_size_before: m.file_size_before,
        file_size_after: m.file_size_after,
        action,
        error: m.error,
    }
}

/// What an error code of the guest means.
pub open spec fn resize_error(code: u32) -> Seq<char> {
    if code == RESIZE_RESULT_ERROR_OK {
        "ok"@
    } else if code == RESIZE_RESULT_ERROR_INVALID_OPTION {
        "invalid resize option"@
    } else if code == RESIZE_RESULT_ERROR_INVALID_NEW_SIZE {
        "invalid new size"@
    } else if code == RESIZE_RESULT_ERROR_SHRINK_WITHOUT_FLAG {
        "shrinking requires --shrink (would discard data above the new size)"@
    } else if code == RESIZE_RESULT_ERROR_SHRINK_BELOW_ALLOCATED {
        "shrink rejected: allocated data lives above the new size"@
    } else if code == RESIZE_RESULT_ERROR_UNSUPPORTED_FORMAT {
        "format does not support resize"@
    } else if code == RESIZE_RESULT_ERROR_UNSUPPORTED_SUBFORMAT {
        "subformat does not support resize"@
    } else if code == RESIZE_RESULT_ERROR_UNSUPPORTED_SHRINK {
        "shrink not yet supported for this format"@
    } else if code == RESIZE_RESULT_ERROR_PREALLOCATION_UNSUPPORTED {
        "preallocation mode not supported by this format"@
    } else if code == RESIZE_RESULT_ERROR_SCRATCH_TOO_SMALL {
        "image too large for the resize scratch buffer"@
    } else if code == RESIZE_RESULT_ERROR_READ_FAILED {
        "I/O error reading the image"@
    } else if code == RESIZE_RESULT_ERROR_WRITE_FAILED {
        "I/O error writing the image"@
    } else if code == RESIZE_RESULT_ERROR_PARSE_FAILED {
        "the image header could not be parsed"@
    } else if code == RESIZE_RESULT_ERROR_HEADER_MISMATCH {
        "the image's metadata is internally inconsistent or changed between the host's pre-probe and the guest's read (concurrent modification, a pathological image, or a planner accounting bug); retry the operation, or run `instar check` if the image may be corrupt"@
    } else {
        "unknown resize error code "@ + dec(code as int)
    }
}

/// What an error code of the guest means.
pub fn map_resize_error(code: u32) -> (r: String)
    ensures
        r@ == resize_error(code),
{
    if code == RESIZE_RESULT_ERROR_OK {
        "ok".to_owned()
    } else if code == RESIZE_RESULT_ERROR_INVALID_OPTION {
        "invalid resize option".to_owned()
    } else if code == RESIZE_RESULT_ERROR_INVALID_NEW_SIZE {
        "invalid new size".to_owned()
    } else if code == RESIZE_RESULT_ERROR_SHRINK_WITHOUT_FLAG {
        "shrinking requires --shrink (would discard data above the new size)".to_owned()
    } else if code == RESIZE_RESULT_ERROR_SHRINK_BELOW_ALLOCATED {
        "shrink rejected: allocated data lives above the new size".to_owned()
    } else if code == RESIZE_RESULT_ERROR_UNSUPPORTED_FORMAT {
        "format does not support resize".to_owned()
    } else if code == RESIZE_RESULT_ERROR_UNSUPPORTED_SUBFORMAT {
        "subformat does not support resize".to_owned()
    } else if code == RESIZE_RESULT_ERROR_UNSUPPORTED_SHRINK {
        "shrink not yet supported for this format".to_owned()
    } else if code == RESIZE_RESULT_ERROR_PREALLOCATION_UNSUPPORTED {
        "preallocation mode not supported by this format".to_owned()
    } else if code == RESIZE_RESULT_ERROR_SCRATCH_TOO_SMALL {
        "image too large for the resize scratch buffer".to_owned()
    } else if code == RESIZE_RESULT_ERROR_READ_FAILED {
        "I/O error reading the image".to_owned()
    } else if code == RESIZE_RESULT_ERROR_WRITE_FAILED {
        "I/O error writing the image".to_owned()
    } else if code == RESIZE_RESULT_ERROR_PARSE_FAILED {
        "the image header could not be parsed".to_owned()
    } else if code == RESIZE_RESULT_ERROR_HEADER_MISMATCH {
        "the image's metadata is internally inconsistent or changed between the host's pre-probe and the guest's read (concurrent modification, a pathological image, or a planner accounting bug); retry the operation, or run `instar check` if the image may be corrupt".to_owned()
    } else {
        let mut s = "unknown resize error code ".to_owned();
        push_dec(&mut s, code as u64);
        s
    }
}

/// How an image is finished after its guest ran.
#[derive(Debug, Clone, Copy, PartialEq, Eq, Structural)]
pub struct ResizeFinish {
    /// What is preallocated before the file's length is set.
    pub preallocation: Preallocation,
    pub file_size: u64,
}

/// The refusal of a file larger than the guest could see.
pub open spec fn beyond_capacity(size: u64, capacity: u64) -> Seq<char> {
    "resize: guest reported file_size_after "@ + dec(size as int) + " exceeds capacity hint "@
        + dec(capacity as int)
        + " — refusing to truncate beyond the exposed device range"@
}

/// The report of an error of the guest.
pub open spec fn guest_error(error: u32) -> Seq<char> {
    "resize: guest reported error "@ + dec(error as int) + ": "@ + resize_error(error)
}

/// How an image is finished, or why it is not. Only what the file gained at
/// its end is preallocated.
pub open spec fn resize_finish(
    result: Option<ResizeRunResult>,
    mode: Seq<char>,
    capacity: u64,
) -> Result<ResizeFinish, Seq<char>> {
    match result {
        None => Err("resize: guest did not return a result"@),
        Some(r) => if r.error != RESIZE_RESULT_ERROR_OK {
            Err(guest_error(r.error))
        } else if r.file_size_after > capacity {
            Err(beyond_capacity(r.file_size_after, capacity))
        } else {
            Ok(
                ResizeFinish {
                    preallocation: if fills_space(mode) && r.file_size_after > r.file_size_before {
                        asked_of_data(
                            mode,
                            r.file_size_before,
                            (r.file_size_after - r.file_size_before) as u64,
                        )
                    } else {
                        Preallocation::Nothing
                    },
                    file_size: r.file_size_after,
                },
            )
        },
    }
}

/// Decides how an image is finished after its guest ran.
pub fn finish_resize(result: Option<ResizeRunResult>, mode: &str, capacity: u64) -> (r: Result<
    ResizeFinish,
    String,
>)
    ensures
        outcome(r) == resize_finish(result, mode@, capacity),
{
    let result = match result {
        Some(r) => r,
        None => return Err("resize: guest did not return a result".to_owned()),
    };
    if result.error != RESIZE_RESULT_ERROR_OK {
        let mut e = "resize: guest reported error ".to_owned();
        push_dec(&mut e, result.error as u64);
        e.append(": ");
        e.append(map_resize_error(result.error).as_str());
        return Err(e);
    }
    if result.file_size_after > capacity {
        let mut e = "resize: guest reported file_size_after ".to_owned();
        push_dec(&mut e, result.file_size_after);
        e.append(" exceeds capacity hint ");
        push_dec(&mut e, capacity);
        e.append(" — refusing to truncate beyond the exposed device range");
        return Err(e);
    }
    let preallocation = if mode_fills_space(mode) && result.file_size_after
        > result.file_size_before {
        apply_preallocation(
            mode,
            result.file_size_before,
            result.file_size_after - result.file_size_before,
        )
    } else {
        Preallocation::Nothing
    };
    Ok(ResizeFinish { preallocation, file_size: result.file_size_after })
}

// ---------------------------------------------------------------------------
// Report
// ---------------------------------------------------------------------------

/// What a change of size is called.
pub open spec fn action_name(old_size: u64, new_size: u64) -> Seq<char> {
    if new_size > old_size {
        "grow"@
    } else if new_size < old_size {
        "shrink"@
    } else {
        "noop"@
    }
}

/// Names a change of size.
pub fn action_str(old_size: u64, new_size: u64) -> (r: &'static str)
    ensures
        r@ == action_name(old_size, new_size),
{
    if new_size > old_size {
        "grow"
    } else if new_size < old_size {
        "shrink"
    } else {
        "noop"
    }
}

/// The name of an action code.
pub open spec fn action_label(action: u32) -> Seq<char> {
    if action == RESIZE_RESULT_ACTION_GROW {
        "grow"@
    } else if action == RESIZE_RESULT_ACTION_SHRINK {
        "shrink"@
    } else {
        "noop"@
    }
}

/// Names an action code.
pub fn guest_action_str(action: u32) -> (r: &'static str)
    ensures
        r@ == action_label(action),
{
    if action == RESIZE_RESULT_ACTION_GROW {
        "grow"
    } else if action == RESIZE_RESULT_ACTION_SHRINK {
        "shrink"
    } else {
        "noop"
    }
}

/// The report of a resize.
pub open spec fn resize_report(
    args: ResizeArgs,
    format: u32,
    old_size: u64,
    new_virtual_size: u64,
    new_file_size: u64,
    action: Seq<char>,
) -> Seq<char> {
    if args.quiet {
        ""@
    } else if args.output@ == "json"@ {
        resize_json(args, format, old_size, new_virtual_size, new_file_size, action)
    } else {
        "Image resized.\n"@
    }
}

/// The report of a resize as JSON.
pub open spec fn resize_json(
    args: ResizeArgs,
    format: u32,
    old_size: u64,
    new_virtual_size: u64,
    new_file_size: u64,
    action: Seq<char>,
) -> Seq<char> {
    "{\n  \"filename\": \""@
        + escaped(args.filename@, EscapeStyle::Filename)
        + "\",\n  \"format\": \""@
        + format_name(format)
        + "\",\n  \"action\": \""@
        + action
        + "\",\n  \"old_virtual_size\": "@
        + dec(old_size as int)
        + ",\n  \"new_virtual_size\": "@
        + dec(new_virtual_size as int)
        + ",\n  \"new_file_size\": "@
        + dec(new_file_size as int)
        + "\n}\n"@
}

fn format_resize_json(
    args: &ResizeArgs,
    format: u32,
    old_size: u64,
    new_virtual_size: u64,
    new_file_size: u64,
    action: &str,
) -> (r: String)
    ensures
        r@ == resize_json(*args, format, old_size, new_virtual_size, new_file_size, action@),
{
    let mut s = "{\n  \"filename\": \"".to_owned();
    s.append(json_escape_string(args.filename.as_str()).as_str());
    s.append("\",\n  \"format\": \"");
    s.append(image_format_name(format));
    s.append("\",\n  \"action\": \"");
    s.append(action);
    s.append("\",\n  \"old_virtual_size\": ");
    push_dec(&mut s, old_size);
    s.append(",\n  \"new_virtual_size\": ");
    push_dec(&mut s, new_virtual_size);
    s.append(",\n  \"new_file_size\": ");
    push_dec(&mut s, new_file_size);
    s.append("\n}\n");
    s
}

/// Reports a resize.
pub fn render_resize_success(
    args: &ResizeArgs,
    format: u32,
    old_size: u64,
    new_virtual_size: u64,
    new_file_size: u64,
    action: &str,
) -> (r: String)
    ensures
        r@ == resize_report(*args, format, old_size, new_virtual_size, new_file_size, action@),
{
    if args.quiet {
        return "".to_owned();
    }
    if same(args.output.as_str(), "json") {
        format_resize_json(args, format, old_size, new_virtual_size, new_file_size, action)
    } else {
        "Image resized.\n".to_owned()
    }
}

// ---------------------------------------------------------------------------
// Laws
// ---------------------------------------------------------------------------

/// Adding to a size and taking the same away again leads back.
pub proof fn law_add_then_subtract(current: u64, d: u64)
    requires
        requested_size(current, ParsedResizeSize::Add(d)) is Ok,
    ensures
        requested_size(
            requested_size(current, ParsedResizeSize::Add(d))->Ok_0,
            ParsedResizeSize::Subtract(d),
        ) == Ok::<u64, Seq<char>>(current),
{
}

/// What a finished resize preallocates lies between the old end of the file
/// and its new end.
pub proof fn law_only_new_space_is_filled(
    result: ResizeRunResult,
    mode: Seq<char>,
    capacity: u64,
)
    ensures
        match resize_finish(Some(result), mode, capacity) {
            Ok(f) => f.file_size <= capacity && match f.preallocation {
                Preallocation::Nothing => true,
                Preallocation::Reserve { offset, length } => offset == result.file_size_before
                    && offset + length == f.file_size,
                Preallocation::Zero { offset, length } => offset == result.file_size_before
                    && offset + length == f.file_size,
            },
            Err(_) => true,
        },
{
}

/// A raw image never shrinks unless the user asked for it.
pub proof fn law_raw_shrinks_only_when_asked(args: ResizeArgs, current: u64, new: u64)
    requires
        raw_resize(args, current, new) is Ok,
    ensures
        new < current ==> args.shrink,
        new > current ==> raw_resize(args, current, new)->Ok_0 == asked_of_data(
            args.preallocation@,
            current,
            (new - current) as u64,
        ),
{
}

/// Each flag reads back from the flags.
pub proof fn law_resize_flags_read_back(args: ResizeArgs, extended_l2: bool)
    ensures
        resize_flags(args, extended_l2) & RESIZE_CONFIG_FLAG_SHRINK != 0 <==> args.shrink,
        resize_flags(args, extended_l2) & RESIZE_CONFIG_FLAG_QUIET != 0 <==> args.quiet,
        resize_flags(args, extended_l2) & RESIZE_CONFIG_FLAG_EXTENDED_L2 != 0 <==> extended_l2,
        resize_flags(args, extended_l2) & 0x30 == prealloc_bits(args.preallocation@),
{
    let s = bit(args.shrink, RESIZE_CONFIG_FLAG_SHRINK);
    let q = bit(args.quiet, RESIZE_CONFIG_FLAG_QUIET);
    let e = bit(extended_l2, RESIZE_CONFIG_FLAG_EXTENDED_L2);
    let p = prealloc_bits(args.preallocation@);
    assert((s | q | e | p) & 1 == s && (s | q | e | p) & 4 == q && (s | q | e | p) & 2 == e && (s
        | q | e | p) & 0x30 == p) by (bit_vector)
        requires
            s == 0 || s == 1,
            q == 0 || q == 4,
            e == 0 || e == 2,
            p == 0 || p == 0x10 || p == 0x20 || p == 0x30,
    ;
}

/// The format that `-f` forces is the one that it names; VHD goes by two
/// names, and without `-f` nothing is forced.
pub proof fn law_forced_image_format_is_the_named_one(
    name: Option<&str>,
    r: Result<Option<ImageFormat>, String>,
)
    requires
        call_ensures(forced_resize_format, (name,), r),
    ensures
        name is None ==> r is Ok && r->Ok_0 is None,
        name matches Some(n) ==> {
            &&& n@ == "raw"@ <==> (r matches Ok(Some(f)) && f == ImageFormat::Raw)
            &&& n@ == "qcow2"@ <==> (r matches Ok(Some(f)) && f == ImageFormat::Qcow2)
            &&& n@ == "vmdk"@ <==> (r matches Ok(Some(f)) && f == ImageFormat::Vmdk4)
            &&& n@ == "vpc"@ || n@ == "vhd"@ <==> (r matches Ok(Some(f)) && f == ImageFormat::Vhd)
            &&& n@ == "vhdx"@ <==> (r matches Ok(Some(f)) && f == ImageFormat::Vhdx)
            &&& r is Ok ==> r->Ok_0 is Some
        },
{
    lemma_format_names_differ();
}

/// An image is taken for what was detected, VMDK images of either version for
/// the later one, and its size is the one that its own format gives: that of
/// the file for a raw image, else that of its header.
pub proof fn law_image_is_taken_as_detected(
    detected: ImageFormat,
    name: &str,
    file_size: u64,
    facts: &HeaderFacts,
    r: Result<ProbedResizeTarget, String>,
)
    requires
        call_ensures(probe_resize_target, (detected, name, file_size, facts), r),
        r is Ok,
    ensures
        ({
            let t = r->Ok_0;
            &&& t.current_file_size == file_size
            &&& format_of_code(t.format) == if detected == ImageFormat::Vmdk3 {
                ImageFormat::Vmdk4
            } else {
                detected
            }
            &&& detected == ImageFormat::Raw ==> t.current_virtual_size == file_size
            &&& detected == ImageFormat::Qcow2 ==> t.current_virtual_size
                == facts.qcow2->0.virtual_size
            &&& detected == ImageFormat::Vmdk4 || detected == ImageFormat::Vmdk3 ==> Some(
                t.current_virtual_size,
            ) == facts.vmdk_virtual_size
            &&& detected == ImageFormat::Vhd ==> Some(t.current_virtual_size)
                == facts.vhd_virtual_size
            &&& detected == ImageFormat::Vhdx ==> facts.vhdx_virtual_size is Ok
                && t.current_virtual_size == facts.vhdx_virtual_size->Ok_0
            &&& t.qcow2_extended_l2 <==> detected == ImageFormat::Qcow2
                && facts.qcow2->0.extended_l2
        }),
{
}

/// Any image is taken of which the header is read and which has no backing
/// file, if its format can be resized.
pub proof fn law_image_is_taken_where_its_header_is_read(
    detected: ImageFormat,
    name: &str,
    file_size: u64,
    facts: &HeaderFacts,
    r: Result<ProbedResizeTarget, String>,
)
    requires
        call_ensures(probe_resize_target, (detected, name, file_size, facts), r),
    ensures
        r is Ok <==> match detected {
            ImageFormat::Raw => true,
            ImageFormat::Qcow2 => facts.qcow2 is Some && facts.qcow2->0.backing_file_offset == 0
                && facts.qcow2->0.backing_file_size == 0,
            ImageFormat::Vmdk4 => facts.vmdk_virtual_size is Some,
            ImageFormat::Vmdk3 => facts.vmdk_virtual_size is Some,
            ImageFormat::Vhd => file_size >= 512 && facts.vhd_virtual_size is Some,
            ImageFormat::Vhdx => facts.vhdx_virtual_size is Ok,
            _ => false,
        },
{
}

/// Only an image that seems raw is taken for another format, and only for VHD
/// and where a footer was found in its last 512 bytes.
pub proof fn law_only_a_footer_makes_a_vhd(
    by_header: ImageFormat,
    file_size: u64,
    footer_found: bool,
    at: Option<u64>,
    r: ImageFormat,
)
    requires
        call_ensures(footer_offset, (by_header, file_size), at),
        call_ensures(detected_format, (by_header, file_size, footer_found), r),
    ensures
        at is Some <==> by_header == ImageFormat::Raw && file_size >= 512,
        at matches Some(offset) ==> offset + 512 == file_size,
        at is Some && footer_found ==> r == ImageFormat::Vhd,
        at is None || !footer_found ==> r == by_header,
{
}

/// The virtual size of a VHDX image is read where either header is valid and
/// the metadata reaches far enough; it is the number at its place there,
/// lowest byte first.
pub proof fn law_vhdx_size_is_read_from_its_place(f: &VhdxFacts, r: Result<u64, String>)
    requires
        call_ensures(probe_vhdx_virtual_size, (f,), r),
    ensures
        r is Ok <==> f.file_size >= 0x50000 && (f.header1_valid || f.header2_valid) && f.metadata
            is Some && f.metadata->0@.len() >= 0x10010,
        r is Ok ==> r->Ok_0 == le_value(f.metadata->0@.subrange(0x10008, 0x10010)) as u64,
{
}

/// A size is what is asked for: as it is, or added to the present one, or
/// taken away from it, as far as sizes go.
pub proof fn law_new_size_is_the_asked_one(
    current: u64,
    size: ParsedResizeSize,
    r: Result<u64, String>,
)
    requires
        call_ensures(new_virtual_size, (current, size), r),
    ensures
        size matches ParsedResizeSize::Absolute(v) ==> r is Ok && r->Ok_0 == v,
        size matches ParsedResizeSize::Add(d) ==> (r is Ok <==> current + d <= u64::MAX) && (r is Ok
            ==> r->Ok_0 - current == d),
        size matches ParsedResizeSize::Subtract(d) ==> (r is Ok <==> d <= current) && (r is Ok
            ==> current - r->Ok_0 == d),
{
}

/// The size of a request is read from its text, whatever its other arguments,
/// but for two kinds of arguments that are refused.
pub proof fn law_request_is_read_from_its_text(
    args: &ResizeArgs,
    size: &str,
    r: Result<ParsedResizeSize, String>,
    s: Result<ParsedResizeSize, String>,
)
    requires
        call_ensures(read_resize_request, (args,), r),
        call_ensures(parse_resize_size, (size,), s),
        size@ == args.size@,
    ensures
        r is Ok <==> s is Ok && !args.object && !args.image_opts,
        r is Ok ==> r->Ok_0 == s->Ok_0,
{
}

/// A raw image is resized exactly where it has no metadata to preallocate, and
/// shrinks only where that is asked for and nothing is to be filled. What it
/// gains is reserved for `falloc` and zeroed for `full`, and nothing else is.
pub proof fn law_raw_image_gains_what_is_asked(
    args: &ResizeArgs,
    current: u64,
    new: u64,
    r: Result<Preallocation, String>,
)
    requires
        call_ensures(plan_raw_resize, (args, current, new), r),
    ensures
        ({
            let mode = args.preallocation@;
            &&& r is Ok <==> mode != "metadata"@ && (new >= current || (args.shrink && mode
                != "falloc"@ && mode != "full"@))
            &&& r is Ok && new > current && mode == "falloc"@ ==> (
            r->Ok_0 matches Preallocation::Reserve { offset, length } && offset == current && offset
                + length == new)
            &&& r is Ok && new > current && mode == "full"@ ==> (
            r->Ok_0 matches Preallocation::Zero { offset, length } && offset == current && offset
                + length == new)
            &&& r is Ok && (new <= current || (mode != "falloc"@ && mode != "full"@)) ==> r->Ok_0
                is Nothing
        }),
{
    lemma_modes_differ();
}

/// The guest is told of the image what was found in it, of the request what
/// was asked, and has room for both sizes. Only filling what shrinks is
/// refused.
pub proof fn law_guest_is_told_of_the_resize(
    args: &ResizeArgs,
    probed: &ProbedResizeTarget,
    new: u64,
    r: Result<ResizePlan, String>,
)
    requires
        call_ensures(plan_resize, (args, probed, new), r),
    ensures
        r is Ok <==> new >= probed.current_virtual_size || (args.preallocation@ != "falloc"@
            && args.preallocation@ != "full"@),
        r matches Ok(plan) ==> {
            let c = plan.config;
            &&& c.target_format == probed.format
            &&& c.sector_size == 512
            &&& c.current_virtual_size == probed.current_virtual_size
            &&& c.new_virtual_size == new
            &&& c.current_file_size == probed.current_file_size
            &&& plan.capacity_hint >= new && plan.capacity_hint >= probed.current_file_size
            &&& 0x2000_0000 <= new <= u64::MAX / 2 && probed.current_file_size <= new
                ==> plan.capacity_hint == 2 * new
            &&& 0x2000_0000 <= probed.current_file_size <= u64::MAX / 2 && new
                <= probed.current_file_size ==> plan.capacity_hint == 2 * probed.current_file_size
            &&& c.flags & 1 != 0 <==> args.shrink
            &&& c.flags & 2 != 0 <==> probed.qcow2_extended_l2
            &&& c.flags & 4 != 0 <==> args.quiet
            &&& args.preallocation@ == "off"@ ==> c.flags & 0x30 == 0
            &&& args.preallocation@ == "metadata"@ ==> c.flags & 0x30 == 0x10
            &&& args.preallocation@ == "falloc"@ ==> c.flags & 0x30 == 0x20
            &&& args.preallocation@ == "full"@ ==> c.flags & 0x30 == 0x30
        },
{
    law_resize_flags_read_back(*args, probed.qcow2_extended_l2);
    lemma_modes_differ();
}

/// What the guest reported is kept, and its action goes by the name that the
/// guest gave it.
pub proof fn law_resize_report_is_kept(m: &ResizeResultMessage, r: ResizeRunResult, name: &'static str)
    requires
        call_ensures(harvest_resize, (m,), r),
        call_ensures(guest_action_str, (r.action,), name),
    ensures
        r.resolved_new_virtual_size == m.resolved_new_virtual_size,
        r.file_size_before == m.file_size_before,
        r.file_size_after == m.file_size_after,
        r.error == m.error,
        m.action@ == "grow"@ ==> r.action == 1 && name@ == "grow"@,
        m.action@ == "shrink"@ ==> r.action == 2 && name@ == "shrink"@,
        m.action@ != "grow"@ && m.action@ != "shrink"@ ==> r.action == 0 && name@ == "noop"@,
{
    reveal_strlit("grow");
    reveal_strlit("shrink");
    assert("grow"@.len() == 4 && "shrink"@.len() == 6);
}

/// A change of size is named after its direction.
pub proof fn law_change_is_named_after_its_direction(
    old_size: u64,
    new_size: u64,
    r: &'static str,
)
    requires
        call_ensures(action_str, (old_size, new_size), r),
    ensures
        r@ == "grow"@ <==> new_size > old_size,
        r@ == "shrink"@ <==> new_size < old_size,
        r@ == "noop"@ <==> new_size == old_size,
{
    reveal_strlit("grow");
    reveal_strlit("shrink");
    reveal_strlit("noop");
    assert("grow"@.len() == 4 && "shrink"@.len() == 6 && "noop"@.len() == 4);
    assert("grow"@[0] != "noop"@[0]);
}

/// A resize is finished exactly where the guest reports no error and a file
/// that it could see. The file gets the length that the guest reports; what it
/// gained is reserved for `falloc` and zeroed for `full`.
pub proof fn law_resize_is_finished_as_reported(
    result: Option<ResizeRunResult>,
    mode: &str,
    capacity: u64,
    r: Result<ResizeFinish, String>,
)
    requires
        call_ensures(finish_resize, (result, mode, capacity), r),
    ensures
        r is Ok <==> result is Some && result->0.error == 0 && result->0.file_size_after
            <= capacity,
        r matches Ok(f) ==> {
            let before = result->0.file_size_before;
            &&& f.file_size == result->0.file_size_after
            &&& f.file_size > before && mode@ == "falloc"@ ==> (
            f.preallocation matches Preallocation::Reserve { offset, length } && offset == before
                && offset + length == f.file_size)
            &&& f.file_size > before && mode@ == "full"@ ==> (
            f.preallocation matches Preallocation::Zero { offset, length } && offset == before
                && offset + length == f.file_size)
            &&& f.file_size <= before || (mode@ != "falloc"@ && mode@ != "full"@)
                ==> f.preallocation is Nothing
        },
{
    lemma_modes_differ();
}

/// A quiet user is told nothing; JSON holds the image's name and format, the
/// action and each size beside its name; people are told one line.
pub proof fn law_resize_report_holds_the_sizes(
    args: &ResizeArgs,
    format: u32,
    old_size: u64,
    new_virtual_size: u64,
    new_file_size: u64,
    action: &str,
    r: String,
)
    requires
        call_ensures(
            render_resize_success,
            (args, format, old_size, new_virtual_size, new_file_size, action),
            r,
        ),
    ensures
        args.quiet ==> r@.len() == 0,
        !args.quiet && args.output@ != "json"@ ==> r@ == "Image resized.\n"@,
        !args.quiet && args.output@ == "json"@ ==> {
            &&& holds_part(
                r@,
                "{\n  \"filename\": \""@ + escaped(args.filename@, EscapeStyle::Filename),
            )
            &&& holds_part(r@, "\",\n  \"format\": \""@ + format_name(format))
            &&& holds_part(r@, "\",\n  \"action\": \""@ + action@)
            &&& holds_part(r@, "\",\n  \"old_virtual_size\": "@ + dec(old_size as int))
            &&& holds_part(r@, ",\n  \"new_virtual_size\": "@ + dec(new_virtual_size as int))
            &&& holds_part(r@, ",\n  \"new_file_size\": "@ + dec(new_file_size as int))
        },
{
    broadcast use {lemma_part_stays, lemma_last_part, lemma_first_part};

    reveal_strlit("");
}

/// Each error number of the guest is explained by what went wrong.
pub proof fn law_error_numbers_are_explained(code: u32, r: String)
    requires
        call_ensures(map_resize_error, (code,), r),
    ensures
        code == 0 ==> r@ == "ok"@,
        code == 1 ==> r@ == "invalid resize option"@,
        code == 2 ==> r@ == "invalid new size"@,
        code == 3 ==> r@ == "shrinking requires --shrink (would discard data above the new size)"@,
        code == 4 ==> r@ == "shrink rejected: allocated data lives above the new size"@,
        code == 5 ==> r@ == "format does not support resize"@,
        code == 6 ==> r@ == "subformat does not support resize"@,
        code == 7 ==> r@ == "shrink not yet supported for this format"@,
        code == 8 ==> r@ == "preallocation mode not supported by this format"@,
        code == 9 ==> r@ == "image too large for the resize scratch buffer"@,
        code == 10 ==> r@ == "I/O error reading the image"@,
        code == 11 ==> r@ == "I/O error writing the image"@,
        code == 12 ==> r@ == "the image header could not be parsed"@,
        code == 13 ==> r@
            == "the image's metadata is internally inconsistent or changed between the host's pre-probe and the guest's read (concurrent modification, a pathological image, or a planner accounting bug); retry the operation, or run `instar check` if the image may be corrupt"@,
        code > 13 ==> r@ == "unknown resize error code "@ + dec(code as int),
{
}

/// A failed resize is told the guest's number and what it means, or how far
/// the guest went beyond what it could see.
pub proof fn law_failed_resize_is_told_why(
    result: ResizeRunResult,
    mode: &str,
    capacity: u64,
    r: Result<ResizeFinish, String>,
    detail: String,
)
    requires
        call_ensures(finish_resize, (Some(result), mode, capacity), r),
        call_ensures(map_resize_error, (result.error,), detail),
        r is Err,
    ensures
        result.error != 0 ==> r->Err_0@ == "resize: guest reported error "@ + dec(
            result.error as int,
        ) + ": "@ + detail@,
        result.error == 0 ==> holds_part(
            r->Err_0@,
            "resize: guest reported file_size_after "@ + dec(result.file_size_after as int),
        ) && holds_part(r->Err_0@, " exceeds capacity hint "@ + dec(capacity as int)),
{
    broadcast use {lemma_part_stays, lemma_last_part, lemma_first_part};

}

/// A raw image that may not shrink is told from which size to which it would.
pub proof fn law_unasked_shrink_is_told(
    args: &ResizeArgs,
    current: u64,
    new: u64,
    r: Result<Preallocation, String>,
)
    requires
        call_ensures(plan_raw_resize, (args, current, new), r),
        args.preallocation@ == "off"@,
        r is Err,
    ensures
        holds_part(r->Err_0@, "resize: shrinking from "@ + dec(current as int)),
        holds_part(r->Err_0@, " to "@ + dec(new as int)),
{
    broadcast use {lemma_part_stays, lemma_last_part, lemma_first_part};

    lemma_modes_differ();
}

} // verus!
