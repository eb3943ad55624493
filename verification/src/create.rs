//! Creating an empty image.
use vstd::prelude::*;
use crate::abi::{
    CREATE_CONFIG_FLAG_BACKING_UNSAFE, CREATE_CONFIG_FLAG_COMPAT_V3,
    CREATE_CONFIG_FLAG_EXTENDED_L2, CREATE_CONFIG_FLAG_LAZY_REFCOUNTS, CREATE_CONFIG_MAGIC,
    CREATE_CONFIG_MAX_BACKING_FILE, CREATE_CONFIG_PREALLOC_FALLOC, CREATE_CONFIG_PREALLOC_FULL,
    CREATE_CONFIG_PREALLOC_METADATA, CREATE_CONFIG_PREALLOC_OFF,
    CREATE_RESULT_ERROR_BACKING_FORMAT_UNSUPPORTED, CREATE_RESULT_ERROR_BACKING_PARSE_FAILED,
    CREATE_RESULT_ERROR_BACKING_READ_FAILED, CREATE_RESULT_ERROR_BACKING_SIZE_TOO_LARGE,
    CREATE_RESULT_ERROR_BACKING_TOO_LONG, CREATE_RESULT_ERROR_INVALID_OPTION,
    CREATE_RESULT_ERROR_INVALID_SIZE, CREATE_RESULT_ERROR_OK,
    CREATE_RESULT_ERROR_SCRATCH_TOO_SMALL, CREATE_RESULT_ERROR_UNSUPPORTED_FORMAT,
    CREATE_RESULT_ERROR_WRITE_FAILED, IMAGE_FORMAT_QCOW2, IMAGE_FORMAT_RAW,
    IMAGE_FORMAT_UNKNOWN, IMAGE_FORMAT_VHD, IMAGE_FORMAT_VHDX, IMAGE_FORMAT_VMDK3,
    IMAGE_FORMAT_VMDK4,
};
use crate::bytes::{
    bit, bit_if, le_bytes, lemma_le_bytes_len, padded, push_bytes, push_padded, push_u32, push_u64,
    push_u8, push_zeros, zeros,
};
use crate::convert::{capped, output_code};
use crate::create_options::{
    create_options, parse_create_o_options, CreateOptionOverrides, CreateOverrides,
};
use crate::formats::{format_name, lemma_format_names_differ};
use crate::info::passphrase_bytes;
use crate::json::{escaped, json_escape_string, EscapeStyle};
use crate::limits::{is_power_of_two, power_of_two};
use crate::measure::{or_flag, pick_bool, pick_u32, pick_u8, refcount_width};
use crate::message::CreateResultMessage;
use crate::options::{lemma_modes_differ, lemma_subformats_differ};
use crate::paths::{join, joined};
use crate::preallocation::{apply_preallocation, asked_of_data, Preallocation};
use crate::size::{law_decimal_size_reads_back, memory_size, parse_memory_size};
use crate::measure_options::name_text;
use crate::text::{
    between, byte_len, byte_length, copied, dec, holds_part, lemma_first_part, lemma_last_part,
    lemma_part_stays, name_of, number_between, outcome, push_dec, same,
};

verus! {

/// The arguments of `create`.
#[derive(Debug)]
pub struct CreateArgs {
    pub filename: String,
    pub size: Option<String>,
    pub target_format: String,
    pub backing: Option<String>,
    pub backing_format: Option<String>,
    pub backing_unsafe: bool,
    pub quiet: bool,
    pub output: String,
    pub sector_size: u32,
    pub cluster_size: u32,
    pub refcount_bits: u8,
    pub extended_l2: bool,
    pub lazy_refcounts: bool,
    pub compat: String,
    pub subformat: String,
    pub grain_size: u32,
    pub block_size: u32,
    pub preallocation: String,
}

// ---------------------------------------------------------------------------
// Options go before flags
// ---------------------------------------------------------------------------

/// The name of a compatibility level.
pub open spec fn compat_name(v3: bool) -> Seq<char> {
    if v3 {
        "1.1"@
    } else {
        "0.10"@
    }
}

/// The name of a VMDK subformat.
pub open spec fn vmdk_subformat_name(code: u8) -> Seq<char> {
    if code == 1 {
        "streamOptimized"@
    } else if code == 2 {
        "monolithicFlat"@
    } else {
        "monolithicSparse"@
    }
}

/// The name of a VHD subformat.
pub open spec fn vhd_subformat_name(code: u8) -> Seq<char> {
    if code == 1 {
        "fixed"@
    } else {
        "dynamic"@
    }
}

/// A text of `-o` where there is one, else that of the flag, if any.
pub open spec fn overridden_name(option: Option<Seq<char>>, flag: Option<Seq<char>>) -> Option<
    Seq<char>,
> {
    match option {
        Some(v) => Some(v),
        None => flag,
    }
}

/// Whether arguments are those of before, but for what `-o` says.
pub open spec fn are_overridden(after: CreateArgs, before: CreateArgs, o: CreateOverrides) -> bool {
    &&& after.filename == before.filename
    &&& after.target_format == before.target_format
    &&& after.backing_unsafe == before.backing_unsafe
    &&& after.quiet == before.quiet
    &&& after.output == before.output
    &&& after.sector_size == before.sector_size
    &&& after.cluster_size == or_flag(o.cluster_size, before.cluster_size)
    &&& after.refcount_bits == or_flag(o.refcount_bits, before.refcount_bits)
    &&& after.extended_l2 == or_flag(o.extended_l2, before.extended_l2)
    &&& after.lazy_refcounts == or_flag(o.lazy_refcounts, before.lazy_refcounts)
    &&& after.grain_size == or_flag(o.grain_size, before.grain_size)
    &&& after.block_size == or_flag(o.block_size, before.block_size)
    &&& after.compat@ == compat_after(o.compat_v3, before.compat@)
    &&& after.subformat@ == subformat_after(
        o.vhd_subformat,
        o.vmdk_subformat,
        before.subformat@,
    )
    &&& after.preallocation@ == or_flag(o.preallocation, before.preallocation@)
    &&& name_of(after.size) == match o.size {
        Some(v) => Some(dec(v as int)),
        None => name_of(before.size),
    }
    &&& name_of(after.backing) == overridden_name(o.backing_file, name_of(before.backing))
    &&& name_of(after.backing_format) == overridden_name(
        o.backing_fmt,
        name_of(before.backing_format),
    )
}

/// The compatibility level after `-o`.
pub open spec fn compat_after(option: Option<bool>, flag: Seq<char>) -> Seq<char> {
    match option {
        Some(v3) => compat_name(v3),
        None => flag,
    }
}

/// The subformat after `-o`, of which a VHD one goes before a VMDK one.
pub open spec fn subformat_after(vhd: Option<u8>, vmdk: Option<u8>, flag: Seq<char>) -> Seq<char> {
    match vhd {
        Some(code) => vhd_subformat_name(code),
        None => match vmdk {
            Some(code) => vmdk_subformat_name(code),
            None => flag,
        },
    }
}

fn pick_compat(option: Option<bool>, flag: &str) -> (r: String)
    ensures
        r@ == compat_after(option, flag@),
{
    match option {
        Some(true) => "1.1".to_owned(),
        Some(false) => "0.10".to_owned(),
        None => flag.to_owned(),
    }
}

fn pick_subformat(vhd: Option<u8>, vmdk: Option<u8>, flag: &str) -> (r: String)
    ensures
        r@ == subformat_after(vhd, vmdk, flag@),
{
    match vhd {
        Some(code) => {
            if code == 1 {
                "fixed".to_owned()
            } else {
                "dynamic".to_owned()
            }
        },
        None => match vmdk {
            Some(code) => {
                if code == 1 {
                    "streamOptimized".to_owned()
                } else if code == 2 {
                    "monolithicFlat".to_owned()
                } else {
                    "monolithicSparse".to_owned()
                }
            },
            None => flag.to_owned(),
        },
    }
}

fn pick_name(option: Option<&'static str>, flag: &str) -> (r: String)
    ensures
        r@ == or_flag(name_text(option), flag@),
{
    match option {
        Some(v) => v.to_owned(),
        None => flag.to_owned(),
    }
}

fn pick_size(option: Option<u64>, flag: &Option<String>) -> (r: Option<String>)
    ensures
        name_of(r) == match option {
            Some(v) => Some(dec(v as int)),
            None => name_of(*flag),
        },
{
    match option {
        Some(v) => {
            let mut text = String::new();
            push_dec(&mut text, v);
            assert(text@ =~= dec(v as int));
            Some(text)
        },
        None => copied(flag),
    }
}

fn pick_format(option: Option<&'static str>, flag: &Option<String>) -> (r: Option<String>)
    ensures
        name_of(r) == overridden_name(name_text(option), name_of(*flag)),
{
    match option {
        Some(v) => Some(v.to_owned()),
        None => copied(flag),
    }
}

/// Puts the values of `-o` in the place of those of the flags.
pub fn apply_create_overrides(args: &mut CreateArgs, overrides: CreateOptionOverrides)
    ensures
        are_overridden(*final(args), *old(args), overrides@),
{
    args.cluster_size = pick_u32(overrides.cluster_size, args.cluster_size);
    args.refcount_bits = pick_u8(overrides.refcount_bits, args.refcount_bits);
    args.extended_l2 = pick_bool(overrides.extended_l2, args.extended_l2);
    args.lazy_refcounts = pick_bool(overrides.lazy_refcounts, args.lazy_refcounts);
    args.compat = pick_compat(overrides.compat_v3, args.compat.as_str());
    args.subformat = pick_subformat(
        overrides.vhd_subformat,
        overrides.vmdk_subformat,
        args.subformat.as_str(),
    );
    args.grain_size = pick_u32(overrides.grain_size, args.grain_size);
    args.block_size = pick_u32(overrides.block_size, args.block_size);
    args.preallocation = pick_name(overrides.preallocation, args.preallocation.as_str());
    args.size = pick_size(overrides.size, &args.size);
    args.backing_format = pick_format(overrides.backing_fmt, &args.backing_format);
    if overrides.backing_file.is_some() {
        args.backing = overrides.backing_file;
    }
}

// ---------------------------------------------------------------------------
// Validation
// ---------------------------------------------------------------------------

/// What is wrong with the sizes of units. 0 leaves a size to the format.
pub open spec fn unit_refusal(args: CreateArgs) -> Option<Seq<char>> {
    if args.sector_size != 512 {
        Some(
            "create: --sector-size must be 512 in phase 3 (larger sector sizes are deferred — see PLAN-create.md phase 5; got "@
                + dec(args.sector_size as int) + ")"@,
        )
    } else if args.cluster_size != 0 && !(512 <= args.cluster_size <= 0x20_0000 && power_of_two(
        args.cluster_size as int,
    )) {
        Some(
            "create: --cluster-size must be a power of 2 in 512..=2 MiB (got "@ + dec(
                args.cluster_size as int,
            ) + ")"@,
        )
    } else if args.refcount_bits != 0 && !refcount_width(args.refcount_bits) {
        Some(
            "create: --refcount-bits must be one of 1,2,4,8,16,32,64 (got "@ + dec(
                args.refcount_bits as int,
            ) + ")"@,
        )
    } else if args.grain_size != 0 && !(4096 <= args.grain_size <= 65536 && power_of_two(
        args.grain_size as int,
    )) {
        Some(
            "create: --grain-size must be a power of 2 in [4 KiB, 64 KiB] (got "@ + dec(
                args.grain_size as int,
            ) + ")"@,
        )
    } else if args.block_size != 0 && !power_of_two(args.block_size as int) {
        Some("create: --block-size must be a power of 2 (got "@ + dec(args.block_size as int) + ")"@)
    } else {
        None
    }
}

fn check_units(args: &CreateArgs) -> (r: Result<(), String>)
    ensures
        match unit_refusal(*args) {
            Some(e) => r is Err && r->Err_0@ == e,
            None => r is Ok,
        },
{
    if args.sector_size != 512 {
        return Err(
            number_between(
                "create: --sector-size must be 512 in phase 3 (larger sector sizes are deferred — see PLAN-create.md phase 5; got ",
                args.sector_size as u64,
                ")",
            ),
        );
    }
    let cluster: u32 = args.cluster_size;
    if cluster != 0 && !(512 <= cluster && cluster <= 0x20_0000 && is_power_of_two(cluster as u64)) {
        return Err(
            number_between(
                "create: --cluster-size must be a power of 2 in 512..=2 MiB (got ",
                cluster as u64,
                ")",
            ),
        );
    }
    let bits: u8 = args.refcount_bits;
    if bits != 0 && !(bits == 1 || bits == 2 || bits == 4 || bits == 8 || bits == 16 || bits == 32
        || bits == 64) {
        return Err(
            number_between(
                "create: --refcount-bits must be one of 1,2,4,8,16,32,64 (got ",
                bits as u64,
                ")",
            ),
        );
    }
    let grain: u32 = args.grain_size;
    if grain != 0 && !(4096 <= grain && grain <= 65536 && is_power_of_two(grain as u64)) {
        return Err(
            number_between(
                "create: --grain-size must be a power of 2 in [4 KiB, 64 KiB] (got ",
                grain as u64,
                ")",
            ),
        );
    }
    let block: u32 = args.block_size;
    if block != 0 && !is_power_of_two(block as u64) {
        return Err(
            number_between("create: --block-size must be a power of 2 (got ", block as u64, ")"),
        );
    }
    Ok(())
}

/// What is wrong with the subformat.
pub open spec fn subformat_refusal(target: Seq<char>, s: Seq<char>) -> Option<Seq<char>> {
    if target == "vmdk"@ {
        if s == "monolithicFlat"@ {
            Some(
                "create: vmdk monolithicFlat is not yet supported (multi-file subformats land in phase 5 of PLAN-create.md; use instar convert -O vmdk for now)"@,
            )
        } else if s.len() == 0 || s == "monolithicSparse"@ || s == "streamOptimized"@ {
            None
        } else {
            Some(
                "create: --subformat '"@ + s
                    + "' is not valid for vmdk (expected monolithicSparse, streamOptimized, or monolithicFlat)"@,
            )
        }
    } else if target == "vpc"@ {
        if s.len() == 0 || s == "dynamic"@ || s == "fixed"@ {
            None
        } else {
            Some("create: --subformat '"@ + s + "' is not valid for vpc (expected dynamic or fixed)"@)
        }
    } else if s.len() > 0 {
        Some(
            "create: --subformat is only valid with -f vmdk or -f vpc (got -f "@ + target + ")"@,
        )
    } else {
        None
    }
}

fn check_subformat(target: &str, s: &str) -> (r: Result<(), String>)
    ensures
        match subformat_refusal(target@, s@) {
            Some(e) => r is Err && r->Err_0@ == e,
            None => r is Ok,
        },
{
    if same(target, "vmdk") {
        if same(s, "monolithicFlat") {
            return Err(
                "create: vmdk monolithicFlat is not yet supported (multi-file subformats land in phase 5 of PLAN-create.md; use instar convert -O vmdk for now)".to_owned(),
            );
        }
        if s.is_empty() || same(s, "monolithicSparse") || same(s, "streamOptimized") {
            return Ok(());
        }
        return Err(
            between(
                "create: --subformat '",
                s,
                "' is not valid for vmdk (expected monolithicSparse, streamOptimized, or monolithicFlat)",
            ),
        );
    }
    if same(target, "vpc") {
        if s.is_empty() || same(s, "dynamic") || same(s, "fixed") {
            return Ok(());
        }
        return Err(
            between(
                "create: --subformat '",
                s,
                "' is not valid for vpc (expected dynamic or fixed)",
            ),
        );
    }
    if !s.is_empty() {
        return Err(
            between("create: --subformat is only valid with -f vmdk or -f vpc (got -f ", target, ")"),
        );
    }
    Ok(())
}

/// What is wrong with the preallocation mode: metadata is preallocated for
/// qcow2 alone, and space for raw and qcow2.
pub open spec fn preallocation_refusal(target: Seq<char>, mode: Seq<char>) -> Option<Seq<char>> {
    let known = mode == "metadata"@ || mode == "falloc"@ || mode == "full"@;
    if mode == "off"@ {
        None
    } else if target == "raw"@ && mode == "metadata"@ {
        Some(
            "create: --preallocation=metadata is not valid for raw (raw has no metadata to preallocate)"@,
        )
    } else if (target == "raw"@ || target == "qcow2"@) && known {
        None
    } else if (target == "vmdk"@ || target == "vpc"@ || target == "vhdx"@) && known {
        Some(
            "create: --preallocation="@ + mode + " is not yet supported for "@ + target
                + " (non-qcow2 preallocation is future work — see PLAN-create.md)"@,
        )
    } else {
        Some("create: unknown --preallocation '"@ + mode + "'"@)
    }
}

fn check_preallocation(target: &str, mode: &str) -> (r: Result<(), String>)
    ensures
        match preallocation_refusal(target@, mode@) {
            Some(e) => r is Err && r->Err_0@ == e,
            None => r is Ok,
        },
{
    let known = same(mode, "metadata") || same(mode, "falloc") || same(mode, "full");
    if same(mode, "off") {
        return Ok(());
    }
    if same(target, "raw") && same(mode, "metadata") {
        return Err(
            "create: --preallocation=metadata is not valid for raw (raw has no metadata to preallocate)".to_owned(),
        );
    }
    if (same(target, "raw") || same(target, "qcow2")) && known {
        return Ok(());
    }
    if (same(target, "vmdk") || same(target, "vpc") || same(target, "vhdx")) && known {
        let mut e = "create: --preallocation=".to_owned();
        e.append(mode);
        e.append(" is not yet supported for ");
        e.append(target);
        e.append(" (non-qcow2 preallocation is future work — see PLAN-create.md)");
        return Err(e);
    }
    Err(between("create: unknown --preallocation '", mode, "'"))
}

/// What is wrong with the backing file.
pub open spec fn backing_refusal(args: CreateArgs) -> Option<Seq<char>> {
    if args.target_format@ == "raw"@ && args.backing is Some {
        Some(
            "create: -f raw does not support -b BACKING (raw images have no backing-file concept)"@,
        )
    } else if args.backing is Some && args.backing_format is None && !args.backing_unsafe {
        Some(
            "create: -b BACKING requires either -F BACKING_FORMAT or -u (backing-unsafe). Refusing to guess the backing format matches modern qemu-img."@,
        )
    } else {
        None
    }
}

/// What is wrong with the size: it must be one that a file can have.
pub open spec fn size_refusal(size: Option<Seq<char>>) -> Option<Seq<char>> {
    match size {
        None => None,
        Some(s) => match memory_size(s) {
            Err(e) => Some(e),
            Ok(n) => if n == 0 {
                Some("create: SIZE must be greater than zero"@)
            } else if n > i64::MAX {
                Some(
                    "create: SIZE "@ + dec(n as int)
                        + " exceeds the maximum representable size (9223372036854775807)"@,
                )
            } else {
                None
            },
        },
    }
}

fn check_size(size: &Option<String>) -> (r: Result<(), String>)
    ensures
        match size_refusal(name_of(*size)) {
            Some(e) => r is Err && r->Err_0@ == e,
            None => r is Ok,
        },
{
    let text = match size {
        Some(s) => s,
        None => return Ok(()),
    };
    let n: u64 = match parse_memory_size(text.as_str()) {
        Ok(n) => n,
        Err(e) => return Err(e),
    };
    if n == 0 {
        return Err("create: SIZE must be greater than zero".to_owned());
    }
    if n > 0x7fff_ffff_ffff_ffff {
        return Err(
            number_between(
                "create: SIZE ",
                n,
                " exceeds the maximum representable size (9223372036854775807)",
            ),
        );
    }
    Ok(())
}

/// Why arguments are refused.
pub open spec fn create_refusal(args: CreateArgs) -> Option<Seq<char>> {
    if args.filename@.len() == 0 {
        Some("create: FILENAME is required"@)
    } else if args.size is None && args.backing is None {
        Some("create: either SIZE or -b BACKING must be provided"@)
    } else if unit_refusal(args) is Some {
        unit_refusal(args)
    } else if subformat_refusal(args.target_format@, args.subformat@) is Some {
        subformat_refusal(args.target_format@, args.subformat@)
    } else if preallocation_refusal(args.target_format@, args.preallocation@) is Some {
        preallocation_refusal(args.target_format@, args.preallocation@)
    } else if backing_refusal(args) is Some {
        backing_refusal(args)
    } else {
        size_refusal(name_of(args.size))
    }
}

/// Checks the arguments of `create`.
pub fn validate_create_args(args: &CreateArgs) -> (r: Result<(), String>)
    ensures
        match create_refusal(*args) {
            Some(e) => r is Err && r->Err_0@ == e,
            None => r is Ok,
        },
{
    if args.filename.as_str().is_empty() {
        return Err("create: FILENAME is required".to_owned());
    }
    if args.size.is_none() && args.backing.is_none() {
        return Err("create: either SIZE or -b BACKING must be provided".to_owned());
    }
    match check_units(args) {
        Ok(()) => {},
        Err(e) => return Err(e),
    }
    match check_subformat(args.target_format.as_str(), args.subformat.as_str()) {
        Ok(()) => {},
        Err(e) => return Err(e),
    }
    match check_preallocation(args.target_format.as_str(), args.preallocation.as_str()) {
        Ok(()) => {},
        Err(e) => return Err(e),
    }
    if same(args.target_format.as_str(), "raw") && args.backing.is_some() {
        return Err(
            "create: -f raw does not support -b BACKING (raw images have no backing-file concept)".to_owned(),
        );
    }
    if args.backing.is_some() && args.backing_format.is_none() && !args.backing_unsafe {
        return Err(
            "create: -b BACKING requires either -F BACKING_FORMAT or -u (backing-unsafe). Refusing to guess the backing format matches modern qemu-img.".to_owned(),
        );
    }
    check_size(&args.size)
}

/// Reads the options of `-o`, puts them in the place of the flags, and checks
/// what comes of it.
pub fn prepare_create(args: &mut CreateArgs, option: &[String]) -> (r: Result<(), String>)
    ensures
        match create_options(old(args).target_format@, option@) {
            Err(e) => r is Err && r->Err_0@ == e && *final(args) == *old(args),
            Ok(o) => are_overridden(*final(args), *old(args), o) && match create_refusal(
                *final(args),
            ) {
                Some(e) => r is Err && r->Err_0@ == e,
                None => r is Ok,
            },
        },
{
    match parse_create_o_options(args.target_format.as_str(), option) {
        Err(e) => Err(e),
        Ok(overrides) => {
            apply_create_overrides(args, overrides);
            validate_create_args(args)
        },
    }
}

// ---------------------------------------------------------------------------
// Raw images
// ---------------------------------------------------------------------------

/// The size of a raw image.
pub open spec fn raw_size(args: CreateArgs) -> Result<u64, Seq<char>> {
    match name_of(args.size) {
        None => Err("create: -f raw requires SIZE"@),
        Some(s) => memory_size(s),
    }
}

/// Finds the size of a raw image, which is made without a guest: its length is
/// set, what the mode asks for is preallocated, and it is synced.
pub fn plan_raw(args: &CreateArgs) -> (r: Result<u64, String>)
    ensures
        outcome(r) == raw_size(*args),
{
    match &args.size {
        None => Err("create: -f raw requires SIZE".to_owned()),
        Some(s) => parse_memory_size(s.as_str()),
    }
}

/// A step in making a raw image that may fail.
#[derive(Debug, Clone, Copy, PartialEq, Eq, Structural)]
pub enum RawStep {
    Open,
    SetLength,
    Sync,
}

/// The error of a step that failed.
pub open spec fn raw_failure(step: RawStep, filename: Seq<char>, cause: Seq<char>) -> Seq<char> {
    match step {
        RawStep::Open => "create: open '"@ + filename + "' failed: "@ + cause,
        RawStep::SetLength => "create: ftruncate failed: "@ + cause,
        RawStep::Sync => "create: sync failed: "@ + cause,
    }
}

/// Says that a step failed.
pub fn raw_error(step: RawStep, filename: &str, cause: &str) -> (r: String)
    ensures
        r@ == raw_failure(step, filename@, cause@),
{
    let mut e = match step {
        RawStep::Open => between("create: open '", filename, "' failed: "),
        RawStep::SetLength => "create: ftruncate failed: ".to_owned(),
        RawStep::Sync => "create: sync failed: ".to_owned(),
    };
    e.append(cause);
    e
}

// ---------------------------------------------------------------------------
// The backing file
// ---------------------------------------------------------------------------

/// The code of the format that the user says the backing file has.
pub open spec fn backing_code(name: Seq<char>) -> Result<u32, Seq<char>> {
    if name.len() == 0 {
        Ok(IMAGE_FORMAT_UNKNOWN)
    } else if name == "raw"@ {
        Ok(IMAGE_FORMAT_RAW)
    } else if name == "qcow2"@ {
        Ok(IMAGE_FORMAT_QCOW2)
    } else if name == "vmdk"@ {
        Ok(IMAGE_FORMAT_VMDK4)
    } else if name == "vpc"@ || name == "vhd"@ {
        Ok(IMAGE_FORMAT_VHD)
    } else if name == "vhdx"@ {
        Ok(IMAGE_FORMAT_VHDX)
    } else {
        Err(
            "create: -F "@ + name
                + " is not a recognised backing format (expected raw, qcow2, vmdk, vpc, or vhdx)"@,
        )
    }
}

/// Reads the format that the user says the backing file has.
pub fn create_backing_format_code(name: &str) -> (r: Result<u32, String>)
    ensures
        outcome(r) == backing_code(name@),
{
    if name.is_empty() {
        Ok(IMAGE_FORMAT_UNKNOWN)
    } else if same(name, "raw") {
        Ok(IMAGE_FORMAT_RAW)
    } else if same(name, "qcow2") {
        Ok(IMAGE_FORMAT_QCOW2)
    } else if same(name, "vmdk") {
        Ok(IMAGE_FORMAT_VMDK4)
    } else if same(name, "vpc") || same(name, "vhd") {
        Ok(IMAGE_FORMAT_VHD)
    } else if same(name, "vhdx") {
        Ok(IMAGE_FORMAT_VHDX)
    } else {
        Err(
            between(
                "create: -F ",
                name,
                " is not a recognised backing format (expected raw, qcow2, vmdk, vpc, or vhdx)",
            ),
        )
    }
}

/// Where the backing file is, as seen from the directory of the new image.
pub fn resolve_backing(typed: &str, output_dir: &str) -> (r: String)
    ensures
        r@ == joined(output_dir@, typed@),
{
    join(output_dir, typed)
}

/// What the system says of the backing file.
#[derive(Debug)]
pub struct BackingFacts {
    /// Whether it is a regular file, and its size, where it is accessible.
    pub found: Option<(bool, u64)>,
    /// The error of opening it, where that failed.
    pub open_error: Option<String>,
}

/// Where a guest finds the backing file.
#[derive(Debug, Clone, Copy, PartialEq, Eq, Structural)]
pub enum BackingInput {
    /// On a device of that size.
    Device { capacity: u64 },
    /// Nowhere; the user said that it need not be accessible.
    Absent,
}

/// Where a guest finds the backing file, or why it is refused.
pub open spec fn backing_input(
    args: CreateArgs,
    typed: Seq<char>,
    resolved: Seq<char>,
    facts: BackingFacts,
) -> Result<BackingInput, Seq<char>> {
    if !args.backing_unsafe && facts.found is None {
        Err(
            "create: backing file '"@ + typed + "' (resolved to '"@ + resolved
                + "') not accessible (pass -u to skip this check)"@,
        )
    } else if !args.backing_unsafe && !facts.found->Some_0.0 {
        Err("create: backing path '"@ + resolved + "' is not a regular file"@)
    } else if facts.open_error is Some && !args.backing_unsafe {
        Err("create: open backing '"@ + resolved + "' failed: "@ + facts.open_error->Some_0@)
    } else if byte_len(typed) > CREATE_CONFIG_MAX_BACKING_FILE {
        Err("create: backing path too long ("@ + dec(byte_len(typed) as int) + " bytes; max 1024)"@)
    } else if facts.open_error is Some {
        Ok(BackingInput::Absent)
    } else {
        Ok(
            BackingInput::Device {
                capacity: match facts.found {
                    Some((_, size)) => size,
                    None => 0,
                },
            },
        )
    }
}

/// Checks the backing file.
pub fn check_backing(args: &CreateArgs, typed: &str, resolved: &str, facts: &BackingFacts) -> (r:
    Result<BackingInput, String>)
    ensures
        outcome(r) == backing_input(*args, typed@, resolved@, *facts),
{
    if !args.backing_unsafe {
        match facts.found {
            None => {
                let mut e = "create: backing file '".to_owned();
                e.append(typed);
                e.append("' (resolved to '");
                e.append(resolved);
                e.append("') not accessible (pass -u to skip this check)");
                return Err(e);
            },
            Some((is_file, _)) => {
                if !is_file {
                    return Err(
                        between("create: backing path '", resolved, "' is not a regular file"),
                    );
                }
            },
        }
        match &facts.open_error {
            Some(cause) => {
                let mut e = "create: open backing '".to_owned();
                e.append(resolved);
                e.append("' failed: ");
                e.append(cause.as_str());
                return Err(e);
            },
            None => {},
        }
    }
    let len: usize = byte_length(typed);
    if len > CREATE_CONFIG_MAX_BACKING_FILE {
        return Err(
            number_between("create: backing path too long (", len as u64, " bytes; max 1024)"),
        );
    }
    if facts.open_error.is_some() {
        return Ok(BackingInput::Absent);
    }
    Ok(
        BackingInput::Device {
            capacity: match facts.found {
                Some((_, size)) => size,
                None => 0,
            },
        },
    )
}

// ---------------------------------------------------------------------------
// The guest
// ---------------------------------------------------------------------------

/// The code of the target format.
pub open spec fn target_code(name: Seq<char>) -> Result<u32, Seq<char>> {
    match output_code(name) {
        Some(c) => Ok(c),
        None => Err("create: unsupported target format '"@ + name + "'"@),
    }
}

/// Reads the target format.
pub fn create_target_format(name: &str) -> (r: Result<u32, String>)
    ensures
        outcome(r) == target_code(name@),
{
    if same(name, "raw") {
        Ok(IMAGE_FORMAT_RAW)
    } else if same(name, "qcow2") {
        Ok(IMAGE_FORMAT_QCOW2)
    } else if same(name, "vmdk") {
        Ok(IMAGE_FORMAT_VMDK4)
    } else if same(name, "vpc") {
        Ok(IMAGE_FORMAT_VHD)
    } else if same(name, "vhdx") {
        Ok(IMAGE_FORMAT_VHDX)
    } else {
        Err(between("create: unsupported target format '", name, "'"))
    }
}

/// The bits that stand for a preallocation mode.
pub open spec fn prealloc_bits(mode: Seq<char>) -> u32 {
    if mode == "metadata"@ {
        CREATE_CONFIG_PREALLOC_METADATA
    } else if mode == "falloc"@ {
        CREATE_CONFIG_PREALLOC_FALLOC
    } else if mode == "full"@ {
        CREATE_CONFIG_PREALLOC_FULL
    } else {
        CREATE_CONFIG_PREALLOC_OFF
    }
}

fn mode_bits(mode: &str) -> (r: u32)
    ensures
        r == prealloc_bits(mode@),
{
    if same(mode, "metadata") {
        CREATE_CONFIG_PREALLOC_METADATA
    } else if same(mode, "falloc") {
        CREATE_CONFIG_PREALLOC_FALLOC
    } else if same(mode, "full") {
        CREATE_CONFIG_PREALLOC_FULL
    } else {
        CREATE_CONFIG_PREALLOC_OFF
    }
}

/// The flags for the guest.
pub open spec fn create_flags(args: CreateArgs) -> u32 {
    bit(args.extended_l2, CREATE_CONFIG_FLAG_EXTENDED_L2) | bit(
        args.lazy_refcounts,
        CREATE_CONFIG_FLAG_LAZY_REFCOUNTS,
    ) | bit(args.compat@ == "1.1"@, CREATE_CONFIG_FLAG_COMPAT_V3) | bit(
        args.backing_unsafe,
        CREATE_CONFIG_FLAG_BACKING_UNSAFE,
    ) | prealloc_bits(args.preallocation@)
}

/// What the guest is told of the new image.
#[derive(Debug)]
pub struct CreateConfig {
    pub target_format: u32,
    pub flags: u32,
    pub sector_size: u32,
    /// 0 takes that of the backing file.
    pub virtual_size: u64,
    pub qcow2_cluster_size: u32,
    pub qcow2_refcount_bits: u8,
    pub vmdk_subformat: u8,
    pub vhd_subformat: u8,
    pub vmdk_grain_size: u32,
    pub block_size: u32,
    pub backing_file_len: u32,
    pub backing_file: Vec<u8>,
    pub backing_format: u32,
}

impl CreateConfig {
    /// The texts fit in their fields.
    pub open spec fn wf(self) -> bool {
        self.backing_file@.len() <= 1024
    }
}

/// The bytes of the configuration, as the guest reads them.
pub open spec fn create_config_bytes(c: CreateConfig) -> Seq<u8> {
    le_bytes(CREATE_CONFIG_MAGIC as int, 4)
        + le_bytes(c.target_format as int, 4)
        + le_bytes(c.flags as int, 4)
        + le_bytes(c.sector_size as int, 4)
        + le_bytes(c.virtual_size as int, 8)
        + le_bytes(c.qcow2_cluster_size as int, 4)
        + le_bytes(c.qcow2_refcount_bits as int, 1)
        + le_bytes(c.vmdk_subformat as int, 1)
        + le_bytes(c.vhd_subformat as int, 1)
        + zeros(1)
        + le_bytes(c.vmdk_grain_size as int, 4)
        + le_bytes(c.block_size as int, 4)
        + le_bytes(c.backing_file_len as int, 4)
        + padded(c.backing_file@, 1024)
        + le_bytes(c.backing_format as int, 4)
        + zeros(64)
}

/// Writes the configuration.
pub fn write_create_config(c: &CreateConfig) -> (b: Vec<u8>)
    requires
        c.wf(),
    ensures
        b@ == create_config_bytes(*c),
{
    let mut b: Vec<u8> = Vec::new();
    push_u32(&mut b, CREATE_CONFIG_MAGIC);
    assert(b@ =~= le_bytes(CREATE_CONFIG_MAGIC as int, 4));
    push_u32(&mut b, c.target_format);
    push_u32(&mut b, c.flags);
    push_u32(&mut b, c.sector_size);
    push_u64(&mut b, c.virtual_size);
    push_u32(&mut b, c.qcow2_cluster_size);
    push_u8(&mut b, c.qcow2_refcount_bits);
    push_u8(&mut b, c.vmdk_subformat);
    push_u8(&mut b, c.vhd_subformat);
    push_zeros(&mut b, 1);
    push_u32(&mut b, c.vmdk_grain_size);
    push_u32(&mut b, c.block_size);
    push_u32(&mut b, c.backing_file_len);
    push_padded(&mut b, c.backing_file.as_slice(), 1024);
    push_u32(&mut b, c.backing_format);
    push_zeros(&mut b, 64);
    b
}

/// Each field of the configuration stands at its offset.
pub proof fn law_create_config_layout(c: CreateConfig)
    requires
        c.wf(),
    ensures
        create_config_bytes(c).len() == 1136,
        create_config_bytes(c).subrange(0, 4) == le_bytes(0x43524541, 4),
        create_config_bytes(c).subrange(4, 8) == le_bytes(c.target_format as int, 4),
        create_config_bytes(c).subrange(8, 12) == le_bytes(c.flags as int, 4),
        create_config_bytes(c).subrange(12, 16) == le_bytes(c.sector_size as int, 4),
        create_config_bytes(c).subrange(16, 24) == le_bytes(c.virtual_size as int, 8),
        create_config_bytes(c).subrange(24, 28) == le_bytes(c.qcow2_cluster_size as int, 4),
        create_config_bytes(c).subrange(28, 29) == le_bytes(c.qcow2_refcount_bits as int, 1),
        create_config_bytes(c).subrange(29, 30) == le_bytes(c.vmdk_subformat as int, 1),
        create_config_bytes(c).subrange(30, 31) == le_bytes(c.vhd_subformat as int, 1),
        create_config_bytes(c).subrange(32, 36) == le_bytes(c.vmdk_grain_size as int, 4),
        create_config_bytes(c).subrange(36, 40) == le_bytes(c.block_size as int, 4),
        create_config_bytes(c).subrange(40, 44) == le_bytes(c.backing_file_len as int, 4),
        create_config_bytes(c).subrange(44, 1068) == padded(c.backing_file@, 1024),
        create_config_bytes(c).subrange(1068, 1072) == le_bytes(c.backing_format as int, 4),
{
    broadcast use lemma_le_bytes_len;

    let b = create_config_bytes(c);
    assert(b.subrange(0, 4) =~= le_bytes(CREATE_CONFIG_MAGIC as int, 4));
    assert(b.subrange(4, 8) =~= le_bytes(c.target_format as int, 4));
    assert(b.subrange(8, 12) =~= le_bytes(c.flags as int, 4));
    assert(b.subrange(12, 16) =~= le_bytes(c.sector_size as int, 4));
    assert(b.subrange(16, 24) =~= le_bytes(c.virtual_size as int, 8));
    assert(b.subrange(24, 28) =~= le_bytes(c.qcow2_cluster_size as int, 4));
    assert(b.subrange(28, 29) =~= le_bytes(c.qcow2_refcount_bits as int, 1));
    assert(b.subrange(29, 30) =~= le_bytes(c.vmdk_subformat as int, 1));
    assert(b.subrange(30, 31) =~= le_bytes(c.vhd_subformat as int, 1));
    assert(b.subrange(32, 36) =~= le_bytes(c.vmdk_grain_size as int, 4));
    assert(b.subrange(36, 40) =~= le_bytes(c.block_size as int, 4));
    assert(b.subrange(40, 44) =~= le_bytes(c.backing_file_len as int, 4));
    assert(b.subrange(44, 1068) =~= padded(c.backing_file@, 1024));
    assert(b.subrange(1068, 1072) =~= le_bytes(c.backing_format as int, 4));
}

/// How an image is made by a guest.
#[derive(Debug)]
pub struct CreatePlan {
    /// How large the output seems to the guest.
    pub output_capacity: u64,
    pub config: CreateConfig,
}

/// The room that metadata may take in a new image.
pub const METADATA_ROOM: u64 = 0x400_0000;

/// The virtual size that the user asks for, or 0.
pub open spec fn asked_size(size: Option<Seq<char>>) -> Result<u64, Seq<char>> {
    match size {
        None => Ok(0),
        Some(s) => memory_size(s),
    }
}

/// The code of the backing format: it counts only where there is a backing
/// file.
pub open spec fn asked_backing_code(args: CreateArgs) -> Result<u32, Seq<char>> {
    if args.backing is Some && args.backing_format is Some {
        backing_code(args.backing_format->Some_0@)
    } else {
        Ok(IMAGE_FORMAT_UNKNOWN)
    }
}

/// Whether a plan is the plan for a request.
pub open spec fn is_create_plan(plan: CreatePlan, args: CreateArgs, target: u32, size: u64) -> bool {
    let c = plan.config;
    &&& plan.output_capacity == capped(size + METADATA_ROOM)
    &&& c.wf()
    &&& c.target_format == target
    &&& c.flags == create_flags(args)
    &&& c.sector_size == args.sector_size
    &&& c.virtual_size == size
    &&& c.qcow2_cluster_size == args.cluster_size
    &&& c.qcow2_refcount_bits == args.refcount_bits
    &&& c.vmdk_subformat == if args.subformat@ == "streamOptimized"@ {
        1u8
    } else {
        0u8
    }
    &&& c.vhd_subformat == if args.subformat@ == "fixed"@ {
        1u8
    } else {
        0u8
    }
    &&& c.vmdk_grain_size == args.grain_size
    &&& c.block_size == args.block_size
    &&& c.backing_file@ == passphrase_bytes(name_of(args.backing))
    &&& c.backing_file_len == passphrase_bytes(name_of(args.backing)).len()
    &&& asked_backing_code(args) == Ok::<u32, Seq<char>>(c.backing_format)
}

/// Why a request cannot be planned.
pub open spec fn plan_refusal(args: CreateArgs) -> Option<Seq<char>> {
    if target_code(args.target_format@) is Err {
        Some(target_code(args.target_format@)->Err_0)
    } else if asked_size(name_of(args.size)) is Err {
        Some(asked_size(name_of(args.size))->Err_0)
    } else if asked_backing_code(args) is Err {
        Some(asked_backing_code(args)->Err_0)
    } else {
        None
    }
}

/// Plans an image that is made by a guest. The path of the backing file stands
/// in the new image as the user typed it.
pub fn plan_create(args: &CreateArgs) -> (r: Result<CreatePlan, String>)
    requires
        passphrase_bytes(name_of(args.backing)).len() <= CREATE_CONFIG_MAX_BACKING_FILE,
    ensures
        match plan_refusal(*args) {
            Some(e) => r is Err && r->Err_0@ == e,
            None => r is Ok && is_create_plan(
                r->Ok_0,
                *args,
                target_code(args.target_format@)->Ok_0,
                asked_size(name_of(args.size))->Ok_0,
            ),
        },
{
    let target: u32 = match create_target_format(args.target_format.as_str()) {
        Ok(t) => t,
        Err(e) => return Err(e),
    };
    let size: u64 = match &args.size {
        Some(s) => match parse_memory_size(s.as_str()) {
            Ok(n) => n,
            Err(e) => return Err(e),
        },
        None => 0,
    };
    let mut backing: Vec<u8> = Vec::new();
    let mut backing_format: u32 = IMAGE_FORMAT_UNKNOWN;
    match &args.backing {
        Some(typed) => {
            push_bytes(&mut backing, typed.as_str().as_bytes());
            match &args.backing_format {
                Some(f) => match create_backing_format_code(f.as_str()) {
                    Ok(c) => backing_format = c,
                    Err(e) => return Err(e),
                },
                None => {},
            }
        },
        None => {},
    }
    assert(backing@ =~= passphrase_bytes(name_of(args.backing)));
    let len: usize = backing.len();
    let flags: u32 = bit_if(args.extended_l2, CREATE_CONFIG_FLAG_EXTENDED_L2) | bit_if(
        args.lazy_refcounts,
        CREATE_CONFIG_FLAG_LAZY_REFCOUNTS,
    ) | bit_if(same(args.compat.as_str(), "1.1"), CREATE_CONFIG_FLAG_COMPAT_V3) | bit_if(
        args.backing_unsafe,
        CREATE_CONFIG_FLAG_BACKING_UNSAFE,
    ) | mode_bits(args.preallocation.as_str());
    Ok(
        CreatePlan {
            output_capacity: size.saturating_add(METADATA_ROOM),
            config: CreateConfig {
                target_format: target,
                flags,
                sector_size: args.sector_size,
                virtual_size: size,
                qcow2_cluster_size: args.cluster_size,
                qcow2_refcount_bits: args.refcount_bits,
                vmdk_subformat: if same(args.subformat.as_str(), "streamOptimized") {
                    1
                } else {
                    0
                },
                vhd_subformat: if same(args.subformat.as_str(), "fixed") {
                    1
                } else {
                    0
                },
                vmdk_grain_size: args.grain_size,
                block_size: args.block_size,
                backing_file_len: len as u32,
                backing_file: backing,
                backing_format,
            },
        },
    )
}

/// Says that the output could not be opened.
pub fn output_error(filename: &str, cause: &str) -> (r: String)
    ensures
        r@ == "create: open '"@ + filename@ + "' for write failed: "@ + cause@,
{
    let mut e = between("create: open '", filename, "' for write failed: ");
    e.append(cause);
    e
}

/// What the guest's result comes to.
#[derive(Debug, Clone, Copy, PartialEq, Eq, Structural)]
pub struct CreateRunResult {
    pub resolved_virtual_size: u64,
    pub metadata_bytes_written: u64,
    pub file_size_after: u64,
    pub resolved_unit_size: u32,
    pub error: u32,
}

/// Keeps what the guest reported.
pub fn harvest_create(m: &CreateResultMessage) -> (r: CreateRunResult)
    ensures
        r == (CreateRunResult {
            resolved_virtual_size: m.resolved_virtual_size,
            metadata_bytes_written: m.metadata_bytes_written,
            file_size_after: m.file_size_after,
            resolved_unit_size: m.resolved_unit_size,
            error: m.error,
        }),
{
    CreateRunResult {
        resolved_virtual_size: m.resolved_virtual_size,
        metadata_bytes_written: m.metadata_bytes_written,
        file_size_after: m.file_size_after,
        resolved_unit_size: m.resolved_unit_size,
        error: m.error,
    }
}

/// What an error code of the guest means.
pub open spec fn create_error(code: u32) -> Seq<char> {
    if code == CREATE_RESULT_ERROR_INVALID_OPTION {
        "invalid option for target format"@
    } else if code == CREATE_RESULT_ERROR_INVALID_SIZE {
        "virtual size out of range for format"@
    } else if code == CREATE_RESULT_ERROR_SCRATCH_TOO_SMALL {
        "option combination exceeds guest scratch (try a larger cluster size)"@
    } else if code == CREATE_RESULT_ERROR_BACKING_READ_FAILED {
        "failed to read backing file header"@
    } else if code == CREATE_RESULT_ERROR_BACKING_PARSE_FAILED {
        "backing file header could not be parsed (file may be truncated, corrupted, or an unrecognised format)"@
    } else if code == CREATE_RESULT_ERROR_BACKING_TOO_LONG {
        "backing file path too long (max 1024 bytes)"@
    } else if code == CREATE_RESULT_ERROR_WRITE_FAILED {
        "write to output device failed"@
    } else if code == CREATE_RESULT_ERROR_UNSUPPORTED_FORMAT {
        "target format not supported"@
    } else if code == CREATE_RESULT_ERROR_BACKING_FORMAT_UNSUPPORTED {
        "backing file format is recognised but virtual_size extraction is not yet implemented for it"@
    } else if code == CREATE_RESULT_ERROR_BACKING_SIZE_TOO_LARGE {
        "backing file is too large for the target format with the requested options (try a larger cluster size, switch to a target format with greater virtual-size headroom, or pass an explicit SIZE that fits)"@
    } else {
        "unknown error"@
    }
}

/// What an error code of the guest means.
pub fn create_error_detail(code: u32) -> (r: &'static str)
    ensures
        r@ == create_error(code),
{
    if code == CREATE_RESULT_ERROR_INVALID_OPTION {
        "invalid option for target format"
    } else if code == CREATE_RESULT_ERROR_INVALID_SIZE {
        "virtual size out of range for format"
    } else if code == CREATE_RESULT_ERROR_SCRATCH_TOO_SMALL {
        "option combination exceeds guest scratch (try a larger cluster size)"
    } else if code == CREATE_RESULT_ERROR_BACKING_READ_FAILED {
        "failed to read backing file header"
    } else if code == CREATE_RESULT_ERROR_BACKING_PARSE_FAILED {
        "backing file header could not be parsed (file may be truncated, corrupted, or an unrecognised format)"
    } else if code == CREATE_RESULT_ERROR_BACKING_TOO_LONG {
        "backing file path too long (max 1024 bytes)"
    } else if code == CREATE_RESULT_ERROR_WRITE_FAILED {
        "write to output device failed"
    } else if code == CREATE_RESULT_ERROR_UNSUPPORTED_FORMAT {
        "target format not supported"
    } else if code == CREATE_RESULT_ERROR_BACKING_FORMAT_UNSUPPORTED {
        "backing file format is recognised but virtual_size extraction is not yet implemented for it"
    } else if code == CREATE_RESULT_ERROR_BACKING_SIZE_TOO_LARGE {
        "backing file is too large for the target format with the requested options (try a larger cluster size, switch to a target format with greater virtual-size headroom, or pass an explicit SIZE that fits)"
    } else {
        "unknown error"
    }
}

/// What a run of the guest came to.
pub open spec fn create_outcome(result: Option<CreateRunResult>) -> Result<
    CreateRunResult,
    Seq<char>,
> {
    match result {
        None => Err("create: guest did not return a result"@),
        Some(r) => if r.error != CREATE_RESULT_ERROR_OK {
            Err("create failed: "@ + create_error(r.error))
        } else {
            Ok(r)
        },
    }
}

/// Decides what a run of the guest came to. Where it failed, the output is
/// removed.
pub fn finish_create(result: Option<CreateRunResult>) -> (r: Result<CreateRunResult, String>)
    ensures
        outcome(r) == create_outcome(result),
{
    let result = match result {
        Some(r) => r,
        None => return Err("create: guest did not return a result".to_owned()),
    };
    if result.error != CREATE_RESULT_ERROR_OK {
        let mut e = "create failed: ".to_owned();
        e.append(create_error_detail(result.error));
        return Err(e);
    }
    Ok(result)
}

// ---------------------------------------------------------------------------
// Preallocation of the data region
// ---------------------------------------------------------------------------

/// The largest virtual size that is believed of a guest.
pub const VIRTUAL_SIZE_CEILING: u64 = 0x200_0000_0000_0000;

/// Decides whether the data region of the new image is preallocated.
pub fn preallocates_data(args: &CreateArgs) -> (r: bool)
    ensures
        r == (args.target_format@ == "qcow2"@ && (args.preallocation@ == "falloc"@
            || args.preallocation@ == "full"@)),
{
    same(args.target_format.as_str(), "qcow2") && (same(args.preallocation.as_str(), "falloc")
        || same(args.preallocation.as_str(), "full"))
}

/// The virtual size that is believed: the host's own, and else what the guest
/// reports as far as it is plausible.
pub open spec fn trusted_size(asked: u64, reported: u64) -> Result<u64, Seq<char>> {
    if asked != 0 {
        Ok(asked)
    } else if reported > VIRTUAL_SIZE_CEILING {
        Err(
            "create: guest reported resolved_virtual_size="@ + dec(reported as int)
                + " exceeding the sanity ceiling (144115188075855872 bytes); refusing preallocation"@,
        )
    } else {
        Ok(reported)
    }
}

/// Picks the virtual size that is believed.
pub fn trusted_virtual_size(asked: u64, reported: u64) -> (r: Result<u64, String>)
    ensures
        outcome(r) == trusted_size(asked, reported),
{
    if asked != 0 {
        return Ok(asked);
    }
    if reported > VIRTUAL_SIZE_CEILING {
        return Err(
            number_between(
                "create: guest reported resolved_virtual_size=",
                reported,
                " exceeding the sanity ceiling (144115188075855872 bytes); refusing preallocation",
            ),
        );
    }
    Ok(reported)
}

/// The size of the clusters of a qcow2 image where none is asked for.
pub const DEFAULT_CLUSTER_SIZE: u32 = 0x1_0000;

/// The unit of the data region: a cluster.
pub open spec fn data_unit(cluster_size: u32) -> int {
    if cluster_size == 0 {
        DEFAULT_CLUSTER_SIZE as int
    } else {
        cluster_size as int
    }
}

fn unit_of_data(cluster_size: u32) -> (r: u64)
    ensures
        r == data_unit(cluster_size),
{
    if cluster_size == 0 {
        DEFAULT_CLUSTER_SIZE as u64
    } else {
        cluster_size as u64
    }
}

/// The length of the data region: the virtual size in whole clusters.
pub open spec fn data_length(virtual_size: u64, cluster_size: u32) -> u64 {
    let unit = data_unit(cluster_size);
    capped((virtual_size + unit - 1) / unit * unit)
}

/// What is preallocated of a file of a given size. The data region ends where
/// the file does, and at least one cluster of metadata comes before it.
pub open spec fn data_preallocation(
    mode: Seq<char>,
    virtual_size: u64,
    cluster_size: u32,
    file_size: u64,
) -> Result<Preallocation, Seq<char>> {
    let length = data_length(virtual_size, cluster_size);
    let unit = data_unit(cluster_size);
    if length > file_size {
        Err(
            "create: preallocation range [0, "@ + dec(length as int)
                + ") exceeds observed file size "@ + dec(file_size as int) + "; refusing"@,
        )
    } else if file_size - length < unit {
        Err(
            "create: preallocation data_offset ("@ + dec(file_size - length)
                + ") below minimum metadata footprint ("@ + dec(unit)
                + "); the guest may have emitted a short file. Refusing to preallocate."@,
        )
    } else {
        Ok(asked_of_data(mode, (file_size - length) as u64, length))
    }
}

fn length_of_data(virtual_size: u64, cluster_size: u32) -> (r: u64)
    ensures
        r == data_length(virtual_size, cluster_size),
{
    let unit: u64 = unit_of_data(cluster_size);
    let ghost u = unit as int;
    let ghost v = virtual_size as int;
    let whole: u64 = virtual_size / unit;
    let count: u128 = if virtual_size % unit == 0 {
        whole as u128
    } else {
        whole as u128 + 1
    };
    proof {
        assert(count == (v + u - 1) / u) by (nonlinear_arith)
            requires
                u >= 1,
                v >= 0,
                whole == v / u,
                count == if v % u == 0 {
                    v / u
                } else {
                    v / u + 1
                },
        ;
        assert(0 <= count * u <= 0x1_0000_0000_0000_0000 * 0x1_0000_0000) by (nonlinear_arith)
            requires
                0 <= count <= 0x1_0000_0000_0000_0000,
                1 <= u <= 0xffff_ffff,
        ;
    }
    let n: u128 = count * unit as u128;
    if n > 0xffff_ffff_ffff_ffff {
        0xffff_ffff_ffff_ffff
    } else {
        n as u64
    }
}

/// Decides what is preallocated of the new image's data region.
pub fn plan_data_preallocation(
    mode: &str,
    virtual_size: u64,
    cluster_size: u32,
    file_size: u64,
) -> (r: Result<Preallocation, String>)
    ensures
        outcome(r) == data_preallocation(mode@, virtual_size, cluster_size, file_size),
{
    let length: u64 = length_of_data(virtual_size, cluster_size);
    let unit: u64 = unit_of_data(cluster_size);
    if length > file_size {
        let mut e = "create: preallocation range [0, ".to_owned();
        push_dec(&mut e, length);
        e.append(") exceeds observed file size ");
        push_dec(&mut e, file_size);
        e.append("; refusing");
        return Err(e);
    }
    let offset: u64 = file_size - length;
    if offset < unit {
        let mut e = "create: preallocation data_offset (".to_owned();
        push_dec(&mut e, offset);
        e.append(") below minimum metadata footprint (");
        push_dec(&mut e, unit);
        e.append("); the guest may have emitted a short file. Refusing to preallocate.");
        return Err(e);
    }
    Ok(apply_preallocation(mode, offset, length))
}

/// A step around preallocation that may fail.
#[derive(Debug, Clone, Copy, PartialEq, Eq, Structural)]
pub enum DataStep {
    Reopen,
    Stat,
    Sync,
}

/// The error of a step that failed.
pub open spec fn data_failure(step: DataStep, cause: Seq<char>) -> Seq<char> {
    match step {
        DataStep::Reopen => "create: reopen for preallocation failed: "@ + cause,
        DataStep::Stat => "create: stat for preallocation bounds failed: "@ + cause,
        DataStep::Sync => "create: sync after preallocation failed: "@ + cause,
    }
}

/// Says that a step failed.
pub fn data_error(step: DataStep, cause: &str) -> (r: String)
    ensures
        r@ == data_failure(step, cause@),
{
    let mut e = match step {
        DataStep::Reopen => "create: reopen for preallocation failed: ".to_owned(),
        DataStep::Stat => "create: stat for preallocation bounds failed: ".to_owned(),
        DataStep::Sync => "create: sync after preallocation failed: ".to_owned(),
    };
    e.append(cause);
    e
}

// ---------------------------------------------------------------------------
// Report
// ---------------------------------------------------------------------------

/// The report of a new image as JSON.
pub open spec fn create_json(
    args: CreateArgs,
    virtual_size: u64,
    metadata_bytes_written: u64,
    file_size_after: u64,
    resolved_unit_size: u32,
) -> Seq<char> {
    "{\n    \"filename\": \""@
        + escaped(args.filename@, EscapeStyle::Filename)
        + "\",\n    \"format\": \""@
        + args.target_format@
        + "\",\n    \"virtual_size\": "@
        + dec(virtual_size as int)
        + ",\n    \"metadata_bytes_written\": "@
        + dec(metadata_bytes_written as int)
        + ",\n    \"file_size_after\": "@
        + dec(file_size_after as int)
        + ",\n    \"resolved_unit_size\": "@
        + dec(resolved_unit_size as int)
        + "\n}\n"@
}

/// The report of a new image as JSON.
pub fn render_create_success_json(
    args: &CreateArgs,
    virtual_size: u64,
    metadata_bytes_written: u64,
    file_size_after: u64,
    resolved_unit_size: u32,
) -> (r: String)
    ensures
        r@ == create_json(*args, virtual_size, metadata_bytes_written, file_size_after, resolved_unit_size),
{
    let mut s = "{\n    \"filename\": \"".to_owned();
    s.append(json_escape_string(args.filename.as_str()).as_str());
    s.append("\",\n    \"format\": \"");
    s.append(args.target_format.as_str());
    s.append("\",\n    \"virtual_size\": ");
    push_dec(&mut s, virtual_size);
    s.append(",\n    \"metadata_bytes_written\": ");
    push_dec(&mut s, metadata_bytes_written);
    s.append(",\n    \"file_size_after\": ");
    push_dec(&mut s, file_size_after);
    s.append(",\n    \"resolved_unit_size\": ");
    push_dec(&mut s, resolved_unit_size as u64);
    s.append("\n}\n");
    s
}

/// What the unit of allocation of a format is called.
pub open spec fn unit_name(target_format: Seq<char>) -> Seq<char> {
    if target_format == "qcow2"@ {
        "cluster_size"@
    } else {
        "unit_size"@
    }
}

fn unit_label(target_format: &str) -> (r: &'static str)
    ensures
        r@ == unit_name(target_format@),
{
    if same(target_format, "qcow2") {
        "cluster_size"
    } else {
        "unit_size"
    }
}

/// The report of a new image for people.
pub open spec fn create_line(args: CreateArgs, virtual_size: u64, resolved_unit_size: u32) -> Seq<char> {
    let head = "Created: "@ + args.filename@ + " (format="@ + args.target_format@
        + ", virtual_size="@ + dec(virtual_size as int);
    if resolved_unit_size == 0 {
        head + ")\n"@
    } else {
        head + ", "@ + unit_name(args.target_format@) + "="@ + dec(resolved_unit_size as int)
            + ")\n"@
    }
}

/// The report of a new image. The user can silence the line for people, not
/// the JSON.
pub open spec fn create_report(
    args: CreateArgs,
    virtual_size: u64,
    metadata_bytes_written: u64,
    file_size_after: u64,
    resolved_unit_size: u32,
) -> Seq<char> {
    if args.output@ == "json"@ {
        create_json(args, virtual_size, metadata_bytes_written, file_size_after, resolved_unit_size)
    } else if args.quiet {
        ""@
    } else {
        create_line(args, virtual_size, resolved_unit_size)
    }
}

/// Reports a new image.
pub fn render_create_success(
    args: &CreateArgs,
    virtual_size: u64,
    metadata_bytes_written: u64,
    file_size_after: u64,
    resolved_unit_size: u32,
) -> (r: String)
    ensures
        r@ == create_report(
            *args,
            virtual_size,
            metadata_bytes_written,
            file_size_after,
            resolved_unit_size,
        ),
{
    if same(args.output.as_str(), "json") {
        return render_create_success_json(
            args,
            virtual_size,
            metadata_bytes_written,
            file_size_after,
            resolved_unit_size,
        );
    }
    if args.quiet {
        return "".to_owned();
    }
    let mut s = "Created: ".to_owned();
    s.append(args.filename.as_str());
    s.append(" (format=");
    s.append(args.target_format.as_str());
    s.append(", virtual_size=");
    push_dec(&mut s, virtual_size);
    if resolved_unit_size == 0 {
        s.append(")\n");
    } else {
        s.append(", ");
        s.append(unit_label(args.target_format.as_str()));
        s.append("=");
        push_dec(&mut s, resolved_unit_size as u64);
        s.append(")\n");
    }
    s
}

// ---------------------------------------------------------------------------
// Laws
// ---------------------------------------------------------------------------

/// A size that is given by `-o` is the size that is made: it reads back from
/// the text that takes the place of the flag's.
pub proof fn law_overriding_size_is_used(after: CreateArgs, before: CreateArgs, o: CreateOverrides, v: u64)
    requires
        are_overridden(after, before, o),
        o.size == Some(v),
    ensures
        asked_size(name_of(after.size)) == Ok::<u64, Seq<char>>(v),
        raw_size(after) == Ok::<u64, Seq<char>>(v),
{
    law_decimal_size_reads_back(v);
}

/// Without `-o`, the flags count as they are.
pub proof fn law_no_options_change_nothing(after: CreateArgs, before: CreateArgs, o: CreateOverrides)
    requires
        are_overridden(after, before, o),
        o == crate::create_options::no_create_overrides(),
    ensures
        create_refusal(after) == create_refusal(before),
        create_flags(after) == create_flags(before),
{
}

/// What is preallocated lies at the end of the file and never reaches into
/// the first cluster, where the header is.
pub proof fn law_preallocation_spares_the_header(
    mode: Seq<char>,
    virtual_size: u64,
    cluster_size: u32,
    file_size: u64,
)
    requires
        data_preallocation(mode, virtual_size, cluster_size, file_size) is Ok,
    ensures
        match data_preallocation(mode, virtual_size, cluster_size, file_size)->Ok_0 {
            Preallocation::Nothing => true,
            Preallocation::Reserve { offset, length } => offset >= data_unit(cluster_size)
                && offset + length == file_size,
            Preallocation::Zero { offset, length } => offset >= data_unit(cluster_size) && offset
                + length == file_size,
        },
{
}

/// The data region holds the whole virtual disk, and wastes less than a
/// cluster.
pub proof fn law_data_region_holds_the_disk(virtual_size: u64, cluster_size: u32)
    requires
        virtual_size <= i64::MAX,
    ensures
        virtual_size <= data_length(virtual_size, cluster_size) < virtual_size + data_unit(
            cluster_size,
        ),
{
    let u = data_unit(cluster_size);
    let v = virtual_size as int;
    assert(v <= (v + u - 1) / u * u < v + u) by (nonlinear_arith)
        requires
            u >= 1,
            v >= 0,
    ;
}

/// A raw image that passes the checks has a size that a file can have.
pub proof fn law_checked_raw_image_has_a_size(args: CreateArgs)
    requires
        create_refusal(args) is None,
        args.target_format@ == "raw"@,
    ensures
        raw_size(args) is Ok,
        0 < raw_size(args)->Ok_0 <= i64::MAX,
{
}

/// Each flag reads back from the flags.
pub proof fn law_create_flags_read_back(args: CreateArgs)
    ensures
        create_flags(args) & CREATE_CONFIG_FLAG_EXTENDED_L2 != 0 <==> args.extended_l2,
        create_flags(args) & CREATE_CONFIG_FLAG_LAZY_REFCOUNTS != 0 <==> args.lazy_refcounts,
        create_flags(args) & CREATE_CONFIG_FLAG_COMPAT_V3 != 0 <==> args.compat@ == "1.1"@,
        create_flags(args) & CREATE_CONFIG_FLAG_BACKING_UNSAFE != 0 <==> args.backing_unsafe,
        create_flags(args) & 0x30 == prealloc_bits(args.preallocation@),
{
    let x = bit(args.extended_l2, CREATE_CONFIG_FLAG_EXTENDED_L2);
    let l = bit(args.lazy_refcounts, CREATE_CONFIG_FLAG_LAZY_REFCOUNTS);
    let v = bit(args.compat@ == "1.1"@, CREATE_CONFIG_FLAG_COMPAT_V3);
    let u = bit(args.backing_unsafe, CREATE_CONFIG_FLAG_BACKING_UNSAFE);
    let p = prealloc_bits(args.preallocation@);
    assert((x | l | v | u | p) & 1 == x && (x | l | v | u | p) & 2 == l && (x | l | v | u | p) & 4
        == v && (x | l | v | u | p) & 8 == u && (x | l | v | u | p) & 0x30 == p) by (bit_vector)
        requires
            x == 0 || x == 1,
            l == 0 || l == 2,
            v == 0 || v == 4,
            u == 0 || u == 8,
            p == 0 || p == 0x10 || p == 0x20 || p == 0x30,
    ;
}

/// The format that the guest is told to create is the one that the user named:
/// its code has that name, and each format that can be named can be created.
pub proof fn law_named_target_is_created(name: &str, r: Result<u32, String>)
    requires
        call_ensures(create_target_format, (name,), r),
    ensures
        r matches Ok(code) ==> format_name(code) == name@ && code != IMAGE_FORMAT_VMDK3,
        r is Ok <==> name@ == "raw"@ || name@ == "qcow2"@ || name@ == "vmdk"@ || name@ == "vpc"@
            || name@ == "vhdx"@,
{
}

/// The format that the user says a backing file has is the one that the guest
/// is told. VHD goes by two names, and no name leaves it open.
pub proof fn law_named_backing_format_is_told(name: &str, r: Result<u32, String>)
    requires
        call_ensures(create_backing_format_code, (name,), r),
    ensures
        r matches Ok(code) ==> {
            &&& name@.len() == 0 ==> code == 0
            &&& name@ == "vhd"@ ==> format_name(code) == "vpc"@
            &&& name@.len() > 0 && name@ != "vhd"@ ==> format_name(code) == name@
            &&& code != IMAGE_FORMAT_VMDK3
        },
        r is Ok <==> name@.len() == 0 || name@ == "raw"@ || name@ == "qcow2"@ || name@ == "vmdk"@
            || name@ == "vpc"@ || name@ == "vhd"@ || name@ == "vhdx"@,
{
    lemma_format_names_differ();
    reveal_strlit("vhd");
}

/// What the guest is told is what the user asked for: the format by its name,
/// the size, the sizes of units, the backing file with its format, and the
/// switches, each in its own bit.
pub proof fn law_guest_is_told_what_was_asked(args: &CreateArgs, r: Result<CreatePlan, String>)
    requires
        call_ensures(plan_create, (args,), r),
        r is Ok,
    ensures
        ({
            let plan = r->Ok_0;
            let c = plan.config;
            &&& format_name(c.target_format) == args.target_format@
            &&& c.target_format != IMAGE_FORMAT_VMDK3
            &&& c.sector_size == args.sector_size
            &&& c.qcow2_cluster_size == args.cluster_size
            &&& c.qcow2_refcount_bits == args.refcount_bits
            &&& c.vmdk_grain_size == args.grain_size
            &&& c.block_size == args.block_size
            &&& args.size is None ==> c.virtual_size == 0
            &&& args.size matches Some(s) ==> memory_size(s@) == Ok::<u64, Seq<char>>(
                c.virtual_size,
            )
            &&& plan.output_capacity >= c.virtual_size
            &&& c.virtual_size + 0x400_0000 <= u64::MAX ==> plan.output_capacity == c.virtual_size
                + 0x400_0000
            &&& c.vmdk_subformat == 1 <==> args.subformat@ == "streamOptimized"@
            &&& c.vhd_subformat == 1 <==> args.subformat@ == "fixed"@
            &&& c.vmdk_subformat <= 1 && c.vhd_subformat <= 1
            &&& args.backing matches Some(b) ==> vstd::utf8::decode_utf8(c.backing_file@) == b@
            &&& args.backing is None ==> c.backing_file@.len() == 0
            &&& c.backing_file_len == c.backing_file@.len()
            &&& args.backing is None || args.backing_format is None ==> c.backing_format == 0
        }),
{
    if args.backing is Some {
        vstd::utf8::encode_utf8_decode_utf8(args.backing->0@);
    }
}

/// The backing format in a plan is the one that the user named for a backing
/// file.
pub proof fn law_backing_format_is_planned(
    args: &CreateArgs,
    name: &str,
    r: Result<CreatePlan, String>,
    s: Result<u32, String>,
)
    requires
        call_ensures(plan_create, (args,), r),
        call_ensures(create_backing_format_code, (name,), s),
        args.backing is Some,
        name_of(args.backing_format) == Some(name@),
        r is Ok,
    ensures
        s is Ok,
        r->Ok_0.config.backing_format == s->Ok_0,
{
}

/// The switches that the guest is told are those that the user gave, and the
/// preallocation mode is the one that the user named.
pub proof fn law_switches_are_told(args: &CreateArgs, r: Result<CreatePlan, String>)
    requires
        call_ensures(plan_create, (args,), r),
        r is Ok,
    ensures
        ({
            let flags = r->Ok_0.config.flags;
            &&& flags & 1 != 0 <==> args.extended_l2
            &&& flags & 2 != 0 <==> args.lazy_refcounts
            &&& flags & 4 != 0 <==> args.compat@ == "1.1"@
            &&& flags & 8 != 0 <==> args.backing_unsafe
            &&& args.preallocation@ == "off"@ ==> flags & 0x30 == 0
            &&& args.preallocation@ == "metadata"@ ==> flags & 0x30 == 0x10
            &&& args.preallocation@ == "falloc"@ ==> flags & 0x30 == 0x20
            &&& args.preallocation@ == "full"@ ==> flags & 0x30 == 0x30
        }),
{
    law_create_flags_read_back(*args);
    lemma_modes_differ();
}

/// An image is planned exactly where its format, its size and the format of
/// its backing file can be read.
pub proof fn law_create_is_planned_where_it_can_be(args: &CreateArgs, r: Result<CreatePlan, String>)
    requires
        call_ensures(plan_create, (args,), r),
    ensures
        r is Ok <==> {
            let t = args.target_format@;
            &&& t == "raw"@ || t == "qcow2"@ || t == "vmdk"@ || t == "vpc"@ || t == "vhdx"@
            &&& args.size matches Some(s) ==> memory_size(s@) is Ok
            &&& args.backing is Some && args.backing_format is Some ==> {
                let f = args.backing_format->0@;
                f.len() == 0 || f == "raw"@ || f == "qcow2"@ || f == "vmdk"@ || f == "vpc"@ || f
                    == "vhd"@ || f == "vhdx"@
            }
        },
{
}

/// A raw image has the size that a guest would be told, and must be given one.
pub proof fn law_raw_image_has_the_asked_size(
    args: &CreateArgs,
    r: Result<u64, String>,
    s: Result<CreatePlan, String>,
)
    requires
        call_ensures(plan_raw, (args,), r),
        call_ensures(plan_create, (args,), s),
    ensures
        r is Ok <==> (args.size matches Some(t) && memory_size(t@) is Ok),
        r is Ok && s is Ok ==> r->Ok_0 == s->Ok_0.config.virtual_size,
{
}

/// Arguments pass exactly where there is a name and a size or a backing file,
/// units have sizes that their formats allow, the subformat and the
/// preallocation mode are ones of the format, the backing file's format need
/// not be guessed, and a file can have the size.
pub proof fn law_arguments_pass_where_they_are_sound(args: &CreateArgs, r: Result<(), String>)
    requires
        call_ensures(validate_create_args, (args,), r),
    ensures
        r is Ok <==> {
            let t = args.target_format@;
            let s = args.subformat@;
            let p = args.preallocation@;
            let cluster = args.cluster_size as int;
            let grain = args.grain_size as int;
            let width = args.refcount_bits;
            &&& args.filename@.len() > 0
            &&& args.size is Some || args.backing is Some
            &&& args.sector_size == 512
            &&& cluster == 0 || (512 <= cluster <= 2 * 1024 * 1024 && power_of_two(cluster))
            &&& width == 0 || width == 1 || width == 2 || width == 4 || width == 8 || width == 16
                || width == 32 || width == 64
            &&& grain == 0 || (4 * 1024 <= grain <= 64 * 1024 && power_of_two(grain))
            &&& args.block_size == 0 || power_of_two(args.block_size as int)
            &&& s.len() > 0 ==> (t == "vmdk"@ && (s == "monolithicSparse"@ || s
                == "streamOptimized"@)) || (t == "vpc"@ && (s == "dynamic"@ || s == "fixed"@))
            &&& p == "off"@ || ((t == "raw"@ || t == "qcow2"@) && (p == "falloc"@ || p
                == "full"@)) || (t == "qcow2"@ && p == "metadata"@)
            &&& args.backing is Some ==> t != "raw"@ && (args.backing_format is Some
                || args.backing_unsafe)
            &&& args.size matches Some(size) ==> memory_size(size@) is Ok && 0 < memory_size(
                size@,
            )->Ok_0 <= 0x7fff_ffff_ffff_ffff
        },
{
    lemma_format_names_differ();
    lemma_modes_differ();
    lemma_subformats_differ();
    reveal_strlit("monolithicFlat");
}

/// A mode that is known is refused as one that the target cannot have, and any
/// other as unknown.
pub proof fn law_unknown_modes_are_called_so(args: &CreateArgs, r: Result<(), String>)
    requires
        call_ensures(validate_create_args, (args,), r),
        create_refusal(*args) == preallocation_refusal(args.target_format@, args.preallocation@),
        r is Err,
    ensures
        ({
            let t = args.target_format@;
            let p = args.preallocation@;
            let known = p == "metadata"@ || p == "falloc"@ || p == "full"@;
            &&& known && (t == "vmdk"@ || t == "vpc"@ || t == "vhdx"@) ==> holds_part(
                r->Err_0@,
                "create: --preallocation="@ + p,
            ) && holds_part(r->Err_0@, " is not yet supported for "@ + t)
            &&& !known ==> holds_part(r->Err_0@, "create: unknown --preallocation '"@ + p)
        }),
{
    broadcast use {lemma_part_stays, lemma_last_part, lemma_first_part};

    lemma_format_names_differ();
    lemma_modes_differ();
}

/// A value that `-o` gives goes before that of a flag, and reaches the guest.
pub proof fn law_options_reach_the_guest(
    after: &CreateArgs,
    before: CreateArgs,
    o: CreateOverrides,
    r: Result<CreatePlan, String>,
)
    requires
        are_overridden(*after, before, o),
        call_ensures(plan_create, (after,), r),
        r is Ok,
    ensures
        ({
            let c = r->Ok_0.config;
            &&& o.cluster_size matches Some(n) ==> c.qcow2_cluster_size == n
            &&& o.cluster_size is None ==> c.qcow2_cluster_size == before.cluster_size
            &&& o.refcount_bits matches Some(n) ==> c.qcow2_refcount_bits == n
            &&& o.refcount_bits is None ==> c.qcow2_refcount_bits == before.refcount_bits
            &&& o.grain_size matches Some(n) ==> c.vmdk_grain_size == n
            &&& o.grain_size is None ==> c.vmdk_grain_size == before.grain_size
            &&& o.block_size matches Some(n) ==> c.block_size == n
            &&& o.block_size is None ==> c.block_size == before.block_size
            &&& o.size matches Some(n) ==> c.virtual_size == n
            &&& o.extended_l2 matches Some(b) ==> (c.flags & 1 != 0 <==> b)
            &&& o.extended_l2 is None ==> (c.flags & 1 != 0 <==> before.extended_l2)
            &&& o.lazy_refcounts matches Some(b) ==> (c.flags & 2 != 0 <==> b)
            &&& o.lazy_refcounts is None ==> (c.flags & 2 != 0 <==> before.lazy_refcounts)
            &&& o.compat_v3 matches Some(b) ==> (c.flags & 4 != 0 <==> b)
            &&& o.compat_v3 is None ==> (c.flags & 4 != 0 <==> before.compat@ == "1.1"@)
            &&& c.flags & 8 != 0 <==> before.backing_unsafe
            &&& o.vhd_subformat matches Some(n) ==> (c.vhd_subformat == 1 <==> n == 1)
            &&& o.vhd_subformat is None && o.vmdk_subformat is Some ==> (c.vmdk_subformat == 1
                <==> o.vmdk_subformat == Some(1u8))
            &&& o.backing_file matches Some(b) ==> vstd::utf8::decode_utf8(c.backing_file@) == b
            &&& format_name(c.target_format) == before.target_format@
            &&& c.sector_size == before.sector_size
        }),
{
    law_create_flags_read_back(*after);
    law_guest_is_told_what_was_asked(after, r);
    lemma_subformats_differ();
    if o.size is Some {
        law_overriding_size_is_used(*after, before, o, o.size->0);
    }
}

/// Options do not touch what they cannot name.
pub proof fn law_options_leave_the_rest(after: CreateArgs, before: CreateArgs, o: CreateOverrides)
    requires
        are_overridden(after, before, o),
    ensures
        after.filename@ == before.filename@,
        after.quiet == before.quiet,
        after.output@ == before.output@,
        after.backing_unsafe == before.backing_unsafe,
        o.size is None ==> name_of(after.size) == name_of(before.size),
        o.backing_file is None ==> name_of(after.backing) == name_of(before.backing),
        o.backing_fmt is None ==> name_of(after.backing_format) == name_of(before.backing_format),
        o.backing_fmt is Some ==> name_of(after.backing_format) == o.backing_fmt,
        o.preallocation is None ==> after.preallocation@ == before.preallocation@,
        o.preallocation is Some ==> after.preallocation@ == o.preallocation->0,
        o.vhd_subformat is None && o.vmdk_subformat is None ==> after.subformat@
            == before.subformat@,
        o.vhd_subformat is None && o.vmdk_subformat == Some(0u8) ==> after.subformat@
            == "monolithicSparse"@,
        o.vhd_subformat is None && o.vmdk_subformat == Some(2u8) ==> after.subformat@
            == "monolithicFlat"@,
        o.vhd_subformat == Some(0u8) ==> after.subformat@ == "dynamic"@,
{
}

/// A backing file is accepted exactly where it is a regular file that can be
/// opened, or the user says not to look, and its path fits. The guest gets it
/// at its size, or not at all where it cannot be opened.
pub proof fn law_backing_is_checked_unless_trusted(
    args: &CreateArgs,
    typed: &str,
    resolved: &str,
    facts: &BackingFacts,
    r: Result<BackingInput, String>,
)
    requires
        call_ensures(check_backing, (args, typed, resolved, facts), r),
    ensures
        r is Ok <==> byte_len(typed@) <= 1024 && (args.backing_unsafe || (facts.found is Some
            && (facts.found->0).0 && facts.open_error is None)),
        r matches Ok(input) ==> {
            &&& facts.open_error is Some <==> input is Absent
            &&& facts.open_error is None && facts.found is Some ==> input->capacity == (
            facts.found->0).1
            &&& facts.open_error is None && facts.found is None ==> input->capacity == 0
        },
{
}

/// What the guest reported is kept.
pub proof fn law_create_report_is_kept(m: &CreateResultMessage, r: CreateRunResult)
    requires
        call_ensures(harvest_create, (m,), r),
    ensures
        r.resolved_virtual_size == m.resolved_virtual_size,
        r.metadata_bytes_written == m.metadata_bytes_written,
        r.file_size_after == m.file_size_after,
        r.resolved_unit_size == m.resolved_unit_size,
        r.error == m.error,
{
}

/// An image was created exactly where the guest reports no error, and then is
/// what the guest reported.
pub proof fn law_create_succeeds_without_an_error(
    result: Option<CreateRunResult>,
    r: Result<CreateRunResult, String>,
)
    requires
        call_ensures(finish_create, (result,), r),
    ensures
        r is Ok <==> result is Some && result->0.error == 0,
        r is Ok ==> Some(r->Ok_0) == result,
{
}

/// The host believes its own size before the guest's, and the guest's only up
/// to a ceiling.
pub proof fn law_own_size_is_believed_first(asked: u64, reported: u64, r: Result<u64, String>)
    requires
        call_ensures(trusted_virtual_size, (asked, reported), r),
    ensures
        asked != 0 ==> r is Ok && r->Ok_0 == asked,
        asked == 0 ==> (r is Ok <==> reported <= 0x200_0000_0000_0000),
        asked == 0 && r is Ok ==> r->Ok_0 == reported,
{
}

/// Data is preallocated for qcow2 images alone, and only where space is asked
/// for.
pub proof fn law_only_qcow2_data_is_preallocated(args: &CreateArgs, r: bool)
    requires
        call_ensures(preallocates_data, (args,), r),
    ensures
        r ==> args.target_format@ == "qcow2"@ && args.preallocation@ != "off"@
            && args.preallocation@ != "metadata"@,
        args.target_format@ == "qcow2"@ && (args.preallocation@ == "falloc"@
            || args.preallocation@ == "full"@) ==> r,
{
    lemma_modes_differ();
}

/// What is preallocated is a whole number of clusters that holds the virtual
/// disk and wastes less than one, at the end of the file and behind the first
/// cluster: space is reserved for `falloc` and zeros are written for `full`.
pub proof fn law_preallocated_data_holds_the_disk(
    mode: &str,
    virtual_size: u64,
    cluster_size: u32,
    file_size: u64,
    r: Result<Preallocation, String>,
)
    requires
        call_ensures(plan_data_preallocation, (mode, virtual_size, cluster_size, file_size), r),
        0 < virtual_size <= i64::MAX,
        r is Ok,
    ensures
        ({
            let unit = if cluster_size == 0 {
                0x1_0000int
            } else {
                cluster_size as int
            };
            let fits = |offset: u64, length: u64|
                offset >= unit && offset + length == file_size && length as int % unit == 0
                    && virtual_size <= length < virtual_size + unit;
            &&& mode@ == "falloc"@ ==> (r->Ok_0 matches Preallocation::Reserve { offset, length }
                && fits(offset, length))
            &&& mode@ == "full"@ ==> (r->Ok_0 matches Preallocation::Zero { offset, length }
                && fits(offset, length))
            &&& mode@ != "falloc"@ && mode@ != "full"@ ==> r->Ok_0 is Nothing
        }),
{
    lemma_modes_differ();
    law_data_region_holds_the_disk(virtual_size, cluster_size);
    let unit = data_unit(cluster_size);
    let units = (virtual_size + unit - 1) / unit;
    assert((units * unit) % unit == 0) by (nonlinear_arith)
        requires
            unit > 0,
    ;
}

/// Preallocation is planned exactly where the file has room for the data and
/// a cluster before it.
pub proof fn law_preallocation_needs_room(
    mode: &str,
    virtual_size: u64,
    cluster_size: u32,
    file_size: u64,
    larger: u64,
    r: Result<Preallocation, String>,
    s: Result<Preallocation, String>,
)
    requires
        call_ensures(plan_data_preallocation, (mode, virtual_size, cluster_size, file_size), r),
        call_ensures(plan_data_preallocation, (mode, virtual_size, cluster_size, larger), s),
        virtual_size <= i64::MAX,
        file_size <= larger,
    ensures
        r is Ok ==> s is Ok,
        r is Ok ==> file_size >= virtual_size + (if cluster_size == 0 {
            0x1_0000int
        } else {
            cluster_size as int
        }),
        file_size >= virtual_size + 2 * (if cluster_size == 0 {
            0x1_0000int
        } else {
            cluster_size as int
        }) ==> r is Ok,
{
    law_data_region_holds_the_disk(virtual_size, cluster_size);
}

/// The report as JSON holds each number beside its name, and the image's name
/// and format.
pub proof fn law_create_json_holds_the_numbers(
    args: &CreateArgs,
    virtual_size: u64,
    metadata_bytes_written: u64,
    file_size_after: u64,
    resolved_unit_size: u32,
    r: String,
)
    requires
        call_ensures(
            render_create_success_json,
            (args, virtual_size, metadata_bytes_written, file_size_after, resolved_unit_size),
            r,
        ),
    ensures
        holds_part(r@, "{\n    \"filename\": \""@ + escaped(args.filename@, EscapeStyle::Filename)),
        holds_part(r@, "\",\n    \"format\": \""@ + args.target_format@),
        holds_part(r@, "\",\n    \"virtual_size\": "@ + dec(virtual_size as int)),
        holds_part(
            r@,
            ",\n    \"metadata_bytes_written\": "@ + dec(metadata_bytes_written as int),
        ),
        holds_part(r@, ",\n    \"file_size_after\": "@ + dec(file_size_after as int)),
        holds_part(r@, ",\n    \"resolved_unit_size\": "@ + dec(resolved_unit_size as int)),
{
    broadcast use {lemma_part_stays, lemma_last_part, lemma_first_part};

}

/// JSON is reported whenever it is asked for; a user that wants quiet is told
/// nothing else; and the line for people holds the name, the format, the size
/// and the unit where it is known.
pub proof fn law_create_report_is_the_asked_one(
    args: &CreateArgs,
    virtual_size: u64,
    metadata_bytes_written: u64,
    file_size_after: u64,
    resolved_unit_size: u32,
    r: String,
    json: String,
)
    requires
        call_ensures(
            render_create_success,
            (args, virtual_size, metadata_bytes_written, file_size_after, resolved_unit_size),
            r,
        ),
        call_ensures(
            render_create_success_json,
            (args, virtual_size, metadata_bytes_written, file_size_after, resolved_unit_size),
            json,
        ),
    ensures
        args.output@ == "json"@ ==> r@ == json@,
        args.output@ != "json"@ && args.quiet ==> r@.len() == 0,
        args.output@ != "json"@ && !args.quiet ==> {
            &&& holds_part(r@, "Created: "@ + args.filename@)
            &&& holds_part(r@, " (format="@ + args.target_format@)
            &&& holds_part(r@, ", virtual_size="@ + dec(virtual_size as int))
            &&& resolved_unit_size > 0 ==> holds_part(r@, "="@ + dec(resolved_unit_size as int))
            &&& resolved_unit_size > 0 && args.target_format@ == "qcow2"@ ==> holds_part(
                r@,
                ", "@ + "cluster_size"@,
            )
            &&& resolved_unit_size > 0 && args.target_format@ != "qcow2"@ ==> holds_part(
                r@,
                ", "@ + "unit_size"@,
            )
        },
{
    broadcast use {lemma_part_stays, lemma_last_part, lemma_first_part};

    reveal_strlit("");
}

/// Each error number of the guest is explained by what went wrong.
pub proof fn law_error_numbers_are_explained(code: u32, r: &'static str)
    requires
        call_ensures(create_error_detail, (code,), r),
    ensures
        code == 1 ==> r@ == "invalid option for target format"@,
        code == 2 ==> r@ == "virtual size out of range for format"@,
        code == 3 ==> r@ == "option combination exceeds guest scratch (try a larger cluster size)"@,
        code == 4 ==> r@ == "failed to read backing file header"@,
        code == 5 ==> r@
            == "backing file header could not be parsed (file may be truncated, corrupted, or an unrecognised format)"@,
        code == 6 ==> r@ == "backing file path too long (max 1024 bytes)"@,
        code == 7 ==> r@ == "write to output device failed"@,
        code == 8 ==> r@ == "target format not supported"@,
        code == 9 ==> r@
            == "backing file format is recognised but virtual_size extraction is not yet implemented for it"@,
        code == 10 ==> r@
            == "backing file is too large for the target format with the requested options (try a larger cluster size, switch to a target format with greater virtual-size headroom, or pass an explicit SIZE that fits)"@,
        code > 10 ==> r@ == "unknown error"@,
{
}

/// A failed creation is told what the guest's number means.
pub proof fn law_failed_creation_is_told_why(
    result: CreateRunResult,
    r: Result<CreateRunResult, String>,
    detail: &'static str,
)
    requires
        call_ensures(finish_create, (Some(result),), r),
        call_ensures(create_error_detail, (result.error,), detail),
    ensures
        r matches Err(e) ==> e@ == "create failed: "@ + detail@,
{
}

/// The options of `-o` take the place of the flags, and only where they are
/// read: where they are not, nothing changes. What comes of it is checked as
/// any arguments are.
pub proof fn law_prepared_arguments_are_checked(
    args: &mut CreateArgs,
    option: &[String],
    r: Result<(), String>,
    after: &CreateArgs,
    checked: Result<(), String>,
    target: &str,
    options: Result<CreateOptionOverrides, String>,
)
    requires
        target@ == old(args).target_format@,
        call_ensures(prepare_create, (args, option), r),
        call_ensures(parse_create_o_options, (target, option), options),
        *after == *final(args),
        call_ensures(validate_create_args, (after,), checked),
    ensures
        options is Err ==> r is Err && r->Err_0@ == options->Err_0@ && *after == *old(args),
        options is Ok ==> are_overridden(*after, *old(args), options->Ok_0@) && outcome(r)
            == outcome(checked),
{
}

/// The path of a backing file is as seen from the new image's directory, and a
/// step that fails is told with its cause.
pub proof fn law_failures_tell_their_cause(
    typed: &str,
    dir: &str,
    resolved: String,
    joined_path: String,
    filename: &str,
    cause: &str,
    a: String,
    b: String,
    c: String,
    d: String,
)
    requires
        call_ensures(resolve_backing, (typed, dir), resolved),
        call_ensures(join, (dir, typed), joined_path),
        call_ensures(raw_error, (RawStep::Open, filename, cause), a),
        call_ensures(output_error, (filename, cause), b),
        call_ensures(raw_error, (RawStep::SetLength, filename, cause), c),
        call_ensures(raw_error, (RawStep::Sync, filename, cause), d),
    ensures
        resolved@ == joined_path@,
        holds_part(a@, "create: open '"@ + filename@),
        holds_part(a@, "' failed: "@ + cause@),
        holds_part(b@, "create: open '"@ + filename@),
        holds_part(b@, "' for write failed: "@ + cause@),
        c@ == "create: ftruncate failed: "@ + cause@,
        d@ == "create: sync failed: "@ + cause@,
{
    broadcast use {lemma_part_stays, lemma_last_part, lemma_first_part};

}

/// A refused backing file is told what is wrong with it: that it is not there,
/// that it is no regular file, that it cannot be opened and why, or that its
/// path is too long.
pub proof fn law_refused_backing_is_told_why(
    args: &CreateArgs,
    typed: &str,
    resolved: &str,
    facts: &BackingFacts,
    r: Result<BackingInput, String>,
)
    requires
        call_ensures(check_backing, (args, typed, resolved, facts), r),
        r is Err,
    ensures
        ({
            let e = r->Err_0@;
            &&& !args.backing_unsafe && facts.found is None ==> holds_part(
                e,
                "create: backing file '"@ + typed@,
            ) && holds_part(e, "' (resolved to '"@ + resolved@)
            &&& !args.backing_unsafe && facts.found is Some && !(facts.found->0).0 ==> e
                == "create: backing path '"@ + resolved@ + "' is not a regular file"@
            &&& !args.backing_unsafe && facts.found is Some && (facts.found->0).0
                && facts.open_error is Some ==> e == "create: open backing '"@ + resolved@
                + "' failed: "@ + facts.open_error->0@
            &&& args.backing_unsafe ==> holds_part(
                e,
                "create: backing path too long ("@ + dec(byte_len(typed@) as int),
            )
        }),
{
    broadcast use {lemma_part_stays, lemma_last_part, lemma_first_part};

}

} // verus!
