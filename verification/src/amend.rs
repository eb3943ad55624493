//! Amending the header of a qcow2 image.
use vstd::prelude::*;
use crate::abi::{
    AMEND_CONFIG_FLAG_COMPAT_V3, AMEND_CONFIG_FLAG_LAZY_ON, AMEND_CONFIG_FLAG_QUIET,
    AMEND_CONFIG_FLAG_SET_COMPAT, AMEND_CONFIG_FLAG_SET_LAZY, AMEND_CONFIG_MAGIC,
    AMEND_RESULT_ACTION_AMENDED, AMEND_RESULT_ERROR_DIRTY,
    AMEND_RESULT_ERROR_DOWNGRADE_BLOCKED_FEATURE, AMEND_RESULT_ERROR_DOWNGRADE_REFCOUNT_WIDTH,
    AMEND_RESULT_ERROR_EXTENSION_RELOCATION_UNSUPPORTED, AMEND_RESULT_ERROR_HEADER_MISMATCH,
    AMEND_RESULT_ERROR_INTERNAL_OVERFLOW, AMEND_RESULT_ERROR_INVALID_OPTION,
    AMEND_RESULT_ERROR_LAZY_REQUIRES_V3, AMEND_RESULT_ERROR_OK, AMEND_RESULT_ERROR_PARSE_FAILED,
    AMEND_RESULT_ERROR_SCRATCH_TOO_SMALL, AMEND_RESULT_ERROR_UNSUPPORTED_FORMAT,
    AMEND_RESULT_ERROR_WRITE_FAILED, IMAGE_FORMAT_QCOW2,
};
use crate::bytes::{
    bit, bit_if, le_bytes, lemma_le_bytes_len, push_u32, push_u64, push_zeros, zeros,
};
use crate::formats::{format_name, image_format_name, ImageFormat};
use crate::json::{escaped, json_escape_string, EscapeStyle};
use crate::message::AmendResultMessage;
use crate::options::{amend_options, parse_amend_o_options, AmendOOptions};
use crate::resize::Qcow2Header;
use crate::text::{
    holds_part, lemma_first_part, lemma_last_part, lemma_part_stays, name_of, outcome, same,
};

verus! {

/// The arguments of an amendment.
#[derive(Debug)]
pub struct AmendArgs {
    pub filename: String,
    pub format: Option<String>,
    pub option: Vec<String>,
    pub quiet: bool,
    pub output: String,
}

/// What is known of the image before it is amended.
#[derive(Debug, Clone, Copy, PartialEq, Eq, Structural)]
pub struct ProbedAmendTarget {
    pub cluster_size: u32,
    pub current_version: u32,
    pub current_refcount_bits: u32,
    pub current_incompatible_features: u64,
    pub current_compatible_features: u64,
    pub virtual_size: u64,
}

/// What is known of an image, by the format that the user forces or else the
/// one that was detected. Only qcow2 images are amended.
pub open spec fn probed_target(
    forced: Option<Seq<char>>,
    detected: ImageFormat,
    header: Option<Qcow2Header>,
) -> Result<ProbedAmendTarget, Seq<char>> {
    let is_qcow2 = match forced {
        Some(n) => n == "qcow2"@,
        None => detected == ImageFormat::Qcow2,
    };
    if !is_qcow2 {
        Err("amend: only qcow2 images can be amended"@)
    } else {
        match header {
            None => Err("amend: invalid qcow2 header"@),
            Some(h) => Ok(
                ProbedAmendTarget {
                    cluster_size: h.cluster_size as u32,
                    current_version: h.version,
                    current_refcount_bits: h.refcount_bits,
                    current_incompatible_features: h.incompatible_features,
                    current_compatible_features: h.compatible_features,
                    virtual_size: h.virtual_size,
                },
            ),
        }
    }
}

/// Works out what is known of an image.
pub fn probe_amend_target(
    args: &AmendArgs,
    detected: ImageFormat,
    header: Option<Qcow2Header>,
) -> (r: Result<ProbedAmendTarget, String>)
    ensures
        outcome(r) == probed_target(name_of(args.format), detected, header),
{
    let is_qcow2 = match &args.format {
        Some(n) => same(n.as_str(), "qcow2"),
        None => detected == ImageFormat::Qcow2,
    };
    if !is_qcow2 {
        return Err("amend: only qcow2 images can be amended".to_owned());
    }
    match header {
        None => Err("amend: invalid qcow2 header".to_owned()),
        Some(h) => Ok(
            ProbedAmendTarget {
                cluster_size: h.cluster_size as u32,
                current_version: h.version,
                current_refcount_bits: h.refcount_bits,
                current_incompatible_features: h.incompatible_features,
                current_compatible_features: h.compatible_features,
                virtual_size: h.virtual_size,
            },
        ),
    }
}

/// The flags for the guest: what to set, and to what.
pub open spec fn amend_flags(o: AmendOOptions, quiet: bool) -> u32 {
    bit(o.compat_v3 is Some, AMEND_CONFIG_FLAG_SET_COMPAT) | bit(
        o.compat_v3 == Some(true),
        AMEND_CONFIG_FLAG_COMPAT_V3,
    ) | bit(o.lazy_on is Some, AMEND_CONFIG_FLAG_SET_LAZY) | bit(
        o.lazy_on == Some(true),
        AMEND_CONFIG_FLAG_LAZY_ON,
    ) | bit(quiet, AMEND_CONFIG_FLAG_QUIET)
}

fn flags_of(o: &AmendOOptions, quiet: bool) -> (r: u32)
    ensures
        r == amend_flags(*o, quiet),
{
    let (set_compat, v3) = match o.compat_v3 {
        Some(v) => (true, v),
        None => (false, false),
    };
    let (set_lazy, lazy) = match o.lazy_on {
        Some(v) => (true, v),
        None => (false, false),
    };
    bit_if(set_compat, AMEND_CONFIG_FLAG_SET_COMPAT) | bit_if(v3, AMEND_CONFIG_FLAG_COMPAT_V3)
        | bit_if(set_lazy, AMEND_CONFIG_FLAG_SET_LAZY) | bit_if(lazy, AMEND_CONFIG_FLAG_LAZY_ON)
        | bit_if(quiet, AMEND_CONFIG_FLAG_QUIET)
}

/// What the guest is told of an amendment.
#[derive(Debug, Clone, Copy)]
pub struct AmendConfig {
    pub target_format: u32,
    pub flags: u32,
    pub sector_size: u32,
    pub cluster_size: u32,
    pub current_version: u32,
    pub current_refcount_bits: u32,
    pub current_incompatible_features: u64,
    pub current_compatible_features: u64,
    pub virtual_size: u64,
}

/// The bytes of the configuration, as the guest reads them.
pub open spec fn amend_config_bytes(c: AmendConfig) -> Seq<u8> {
    le_bytes(AMEND_CONFIG_MAGIC as int, 4)
        + le_bytes(c.target_format as int, 4)
        + le_bytes(c.flags as int, 4)
        + le_bytes(c.sector_size as int, 4)
        + le_bytes(c.cluster_size as int, 4)
        + le_bytes(c.current_version as int, 4)
        + le_bytes(c.current_refcount_bits as int, 4)
        + zeros(4)
        + le_bytes(c.current_incompatible_features as int, 8)
        + le_bytes(c.current_compatible_features as int, 8)
        + le_bytes(c.virtual_size as int, 8)
        + zeros(72)
}

/// Writes the configuration.
pub fn write_amend_config(c: &AmendConfig) -> (b: Vec<u8>)
    ensures
        b@ == amend_config_bytes(*c),
{
    let mut b: Vec<u8> = Vec::new();
    push_u32(&mut b, AMEND_CONFIG_MAGIC);
    assert(b@ =~= le_bytes(AMEND_CONFIG_MAGIC as int, 4));
    push_u32(&mut b, c.target_format);
    push_u32(&mut b, c.flags);
    push_u32(&mut b, c.sector_size);
    push_u32(&mut b, c.cluster_size);
    push_u32(&mut b, c.current_version);
    push_u32(&mut b, c.current_refcount_bits);
    push_zeros(&mut b, 4);
    push_u64(&mut b, c.current_incompatible_features);
    push_u64(&mut b, c.current_compatible_features);
    push_u64(&mut b, c.virtual_size);
    push_zeros(&mut b, 72);
    b
}

/// Each field of the configuration stands at its offset.
pub proof fn law_amend_config_layout(c: AmendConfig)
    ensures
        amend_config_bytes(c).len() == 128,
        amend_config_bytes(c).subrange(0, 4) == le_bytes(0x414D4E44, 4),
        amend_config_bytes(c).subrange(4, 8) == le_bytes(c.target_format as int, 4),
        amend_config_bytes(c).subrange(8, 12) == le_bytes(c.flags as int, 4),
        amend_config_bytes(c).subrange(12, 16) == le_bytes(c.sector_size as int, 4),
        amend_config_bytes(c).subrange(16, 20) == le_bytes(c.cluster_size as int, 4),
        amend_config_bytes(c).subrange(20, 24) == le_bytes(c.current_version as int, 4),
        amend_config_bytes(c).subrange(24, 28) == le_bytes(c.current_refcount_bits as int, 4),
        amend_config_bytes(c).subrange(32, 40) == le_bytes(c.current_incompatible_features as int, 8),
        amend_config_bytes(c).subrange(40, 48) == le_bytes(c.current_compatible_features as int, 8),
        amend_config_bytes(c).subrange(48, 56) == le_bytes(c.virtual_size as int, 8),
{
    broadcast use lemma_le_bytes_len;

    let b = amend_config_bytes(c);
    assert(b.subrange(0, 4) =~= le_bytes(AMEND_CONFIG_MAGIC as int, 4));
    assert(b.subrange(4, 8) =~= le_bytes(c.target_format as int, 4));
    assert(b.subrange(8, 12) =~= le_bytes(c.flags as int, 4));
    assert(b.subrange(12, 16) =~= le_bytes(c.sector_size as int, 4));
    assert(b.subrange(16, 20) =~= le_bytes(c.cluster_size as int, 4));
    assert(b.subrange(20, 24) =~= le_bytes(c.current_version as int, 4));
    assert(b.subrange(24, 28) =~= le_bytes(c.current_refcount_bits as int, 4));
    assert(b.subrange(32, 40) =~= le_bytes(c.current_incompatible_features as int, 8));
    assert(b.subrange(40, 48) =~= le_bytes(c.current_compatible_features as int, 8));
    assert(b.subrange(48, 56) =~= le_bytes(c.virtual_size as int, 8));
}

/// The configuration for an amendment with the given options.
pub open spec fn planned_config(o: AmendOOptions, quiet: bool, probed: ProbedAmendTarget) -> AmendConfig {
    AmendConfig {
        target_format: IMAGE_FORMAT_QCOW2,
        flags: amend_flags(o, quiet),
        sector_size: 512,
        cluster_size: probed.cluster_size,
        current_version: probed.current_version,
        current_refcount_bits: probed.current_refcount_bits,
        current_incompatible_features: probed.current_incompatible_features,
        current_compatible_features: probed.current_compatible_features,
        virtual_size: probed.virtual_size,
    }
}

/// Plans an amendment. Its device is as large as the file: nothing is appended.
pub fn plan_amend(options: &AmendOOptions, quiet: bool, probed: &ProbedAmendTarget) -> (r: AmendConfig)
    ensures
        r == planned_config(*options, quiet, *probed),
{
    AmendConfig {
        target_format: IMAGE_FORMAT_QCOW2,
        flags: flags_of(options, quiet),
        sector_size: 512,
        cluster_size: probed.cluster_size,
        current_version: probed.current_version,
        current_refcount_bits: probed.current_refcount_bits,
        current_incompatible_features: probed.current_incompatible_features,
        current_compatible_features: probed.current_compatible_features,
        virtual_size: probed.virtual_size,
    }
}

/// Reads the options of an amendment.
pub fn amend_request(args: &AmendArgs) -> (r: Result<AmendOOptions, String>)
    ensures
        outcome(r) == amend_options(args.option@),
{
    parse_amend_o_options(args.option.as_slice())
}

/// What the guest's result comes to.
#[derive(Debug, Clone, Copy, PartialEq, Eq, Structural)]
pub struct AmendRunResult {
    pub target_format: u32,
    pub action: u32,
    pub resulting_version: u32,
    pub resulting_lazy_refcounts: u32,
    pub error: u32,
}

/// Keeps what the guest reported. The format is the one that was asked for.
pub fn harvest_amend(m: &AmendResultMessage) -> (r: AmendRunResult)
    ensures
        r == (AmendRunResult {
            target_format: IMAGE_FORMAT_QCOW2,
            action: m.action,
            resulting_version: m.resulting_version,
            resulting_lazy_refcounts: if m.lazy_refcounts {
                1
            } else {
                0
            },
            error: m.error,
        }),
{
    AmendRunResult {
        target_format: IMAGE_FORMAT_QCOW2,
        action: m.action,
        resulting_version: m.resulting_version,
        resulting_lazy_refcounts: if m.lazy_refcounts {
            1
        } else {
            0
        },
        error: m.error,
    }
}

/// What an error code of the guest means.
pub open spec fn amend_error(code: u32) -> Seq<char> {
    if code == AMEND_RESULT_ERROR_OK {
        "ok"@
    } else if code == AMEND_RESULT_ERROR_UNSUPPORTED_FORMAT {
        "only qcow2 images can be amended"@
    } else if code == AMEND_RESULT_ERROR_INVALID_OPTION {
        "an unsupported -o option reached the guest (amend changes compat and lazy_refcounts only)"@
    } else if code == AMEND_RESULT_ERROR_DOWNGRADE_BLOCKED_FEATURE {
        "cannot downgrade to compat=0.10: image uses a v3-only incompatible feature (compression, extended L2, external data, or is dirty/corrupt)"@
    } else if code == AMEND_RESULT_ERROR_DOWNGRADE_REFCOUNT_WIDTH {
        "cannot downgrade to compat=0.10: image uses refcount_bits != 16 (v2 supports 16-bit refcounts only; rewriting the refcount tree is out of scope)"@
    } else if code == AMEND_RESULT_ERROR_LAZY_REQUIRES_V3 {
        "lazy_refcounts=on requires compat=1.1 (lazy refcounts are a v3-only feature); upgrade with -o compat=1.1 first or in the same invocation"@
    } else if code == AMEND_RESULT_ERROR_HEADER_MISMATCH {
        "the image's header changed between the host's pre-probe and the guest's read, or a guest write failed; retry, or run `instar check` if the image may be corrupt"@
    } else if code == AMEND_RESULT_ERROR_PARSE_FAILED {
        "the image header could not be parsed"@
    } else if code == AMEND_RESULT_ERROR_DIRTY {
        "the image is marked dirty (another writer may hold it open); run `instar check` first"@
    } else if code == AMEND_RESULT_ERROR_EXTENSION_RELOCATION_UNSUPPORTED {
        "this compat change would have to relocate a header extension, which is not yet supported; use `qemu-img amend`"@
    } else if code == AMEND_RESULT_ERROR_SCRATCH_TOO_SMALL {
        "the image is too large for the amend scratch buffer"@
    } else if code == AMEND_RESULT_ERROR_WRITE_FAILED {
        "I/O error writing the image header"@
    } else if code == AMEND_RESULT_ERROR_INTERNAL_OVERFLOW {
        "internal size or offset computation overflowed (host or guest bug)"@
    } else {
        "unknown amend error code"@
    }
}

/// What an error code of the guest means.
pub fn map_amend_error(code: u32) -> (r: &'static str)
    ensures
        r@ == amend_error(code),
{
    if code == AMEND_RESULT_ERROR_OK {
        "ok"
    } else if code == AMEND_RESULT_ERROR_UNSUPPORTED_FORMAT {
        "only qcow2 images can be amended"
    } else if code == AMEND_RESULT_ERROR_INVALID_OPTION {
        "an unsupported -o option reached the guest (amend changes compat and lazy_refcounts only)"
    } else if code == AMEND_RESULT_ERROR_DOWNGRADE_BLOCKED_FEATURE {
        "cannot downgrade to compat=0.10: image uses a v3-only incompatible feature (compression, extended L2, external data, or is dirty/corrupt)"
    } else if code == AMEND_RESULT_ERROR_DOWNGRADE_REFCOUNT_WIDTH {
        "cannot downgrade to compat=0.10: image uses refcount_bits != 16 (v2 supports 16-bit refcounts only; rewriting the refcount tree is out of scope)"
    } else if code == AMEND_RESULT_ERROR_LAZY_REQUIRES_V3 {
        "lazy_refcounts=on requires compat=1.1 (lazy refcounts are a v3-only feature); upgrade with -o compat=1.1 first or in the same invocation"
    } else if code == AMEND_RESULT_ERROR_HEADER_MISMATCH {
        "the image's header changed between the host's pre-probe and the guest's read, or a guest write failed; retry, or run `instar check` if the image may be corrupt"
    } else if code == AMEND_RESULT_ERROR_PARSE_FAILED {
        "the image header could not be parsed"
    } else if code == AMEND_RESULT_ERROR_DIRTY {
        "the image is marked dirty (another writer may hold it open); run `instar check` first"
    } else if code == AMEND_RESULT_ERROR_EXTENSION_RELOCATION_UNSUPPORTED {
        "this compat change would have to relocate a header extension, which is not yet supported; use `qemu-img amend`"
    } else if code == AMEND_RESULT_ERROR_SCRATCH_TOO_SMALL {
        "the image is too large for the amend scratch buffer"
    } else if code == AMEND_RESULT_ERROR_WRITE_FAILED {
        "I/O error writing the image header"
    } else if code == AMEND_RESULT_ERROR_INTERNAL_OVERFLOW {
        "internal size or offset computation overflowed (host or guest bug)"
    } else {
        "unknown amend error code"
    }
}

/// How an image is finished after its guest ran.
#[derive(Debug, Clone, Copy, PartialEq, Eq, Structural)]
pub struct AmendFinish {
    pub result: AmendRunResult,
    /// Whether the file is to be synced: only where it was written.
    pub sync: bool,
}

/// What a run of the guest came to.
pub open spec fn amend_outcome(result: Option<AmendRunResult>) -> Result<AmendFinish, Seq<char>> {
    match result {
        None => Err("amend: guest did not return a result"@),
        Some(r) => if r.error != AMEND_RESULT_ERROR_OK {
            Err("amend: "@ + amend_error(r.error))
        } else {
            Ok(AmendFinish { result: r, sync: r.action == AMEND_RESULT_ACTION_AMENDED })
        },
    }
}

/// Decides what a run of the guest came to.
pub fn finish_amend(result: Option<AmendRunResult>) -> (r: Result<AmendFinish, String>)
    ensures
        outcome(r) == amend_outcome(result),
{
    let result = match result {
        Some(r) => r,
        None => return Err("amend: guest did not return a result".to_owned()),
    };
    if result.error != AMEND_RESULT_ERROR_OK {
        let mut e = "amend: ".to_owned();
        e.append(map_amend_error(result.error));
        return Err(e);
    }
    Ok(AmendFinish { result, sync: result.action == AMEND_RESULT_ACTION_AMENDED })
}

/// One of two words.
pub open spec fn either(first: bool, a: Seq<char>, b: Seq<char>) -> Seq<char> {
    if first {
        a
    } else {
        b
    }
}

fn pick(first: bool, a: &'static str, b: &'static str) -> (r: String)
    ensures
        r@ == either(first, a@, b@),
{
    if first {
        a.to_owned()
    } else {
        b.to_owned()
    }
}

/// The report of an amendment as JSON.
pub open spec fn amend_json(args: AmendArgs, result: AmendRunResult) -> Seq<char> {
    "{\n  \"filename\": \""@
        + escaped(args.filename@, EscapeStyle::Filename)
        + "\",\n  \"format\": \""@
        + format_name(result.target_format)
        + "\",\n  \"action\": \""@
        + either(result.action == AMEND_RESULT_ACTION_AMENDED, "amended"@, "noop"@)
        + "\",\n  \"compat\": \""@
        + either(result.resulting_version == 3, "1.1"@, "0.10"@)
        + "\",\n  \"lazy_refcounts\": \""@
        + either(result.resulting_lazy_refcounts != 0, "on"@, "off"@)
        + "\"\n}\n"@
}

/// The report of an amendment as JSON.
fn format_amend_json(args: &AmendArgs, result: &AmendRunResult) -> (r: String)
    ensures
        r@ == amend_json(*args, *result),
{
    let mut s = "{\n  \"filename\": \"".to_owned();
    s.append(json_escape_string(args.filename.as_str()).as_str());
    s.append("\",\n  \"format\": \"");
    s.append(image_format_name(result.target_format).to_owned().as_str());
    s.append("\",\n  \"action\": \"");
    s.append(pick(result.action == AMEND_RESULT_ACTION_AMENDED, "amended", "noop").as_str());
    s.append("\",\n  \"compat\": \"");
    s.append(pick(result.resulting_version == 3, "1.1", "0.10").as_str());
    s.append("\",\n  \"lazy_refcounts\": \"");
    s.append(pick(result.resulting_lazy_refcounts != 0, "on", "off").as_str());
    s.append("\"\n}\n");
    s
}

/// The report of an amendment.
pub open spec fn amend_report(args: AmendArgs, result: AmendRunResult) -> Seq<char> {
    if args.quiet {
        ""@
    } else if args.output@ == "json"@ {
        amend_json(args, result)
    } else if result.action == AMEND_RESULT_ACTION_AMENDED {
        "Image amended.\n"@
    } else {
        "No change.\n"@
    }
}

/// Reports an amendment.
pub fn render_amend_success(args: &AmendArgs, result: &AmendRunResult) -> (r: String)
    ensures
        r@ == amend_report(*args, *result),
{
    if args.quiet {
        return "".to_owned();
    }
    if same(args.output.as_str(), "json") {
        format_amend_json(args, result)
    } else if result.action == AMEND_RESULT_ACTION_AMENDED {
        "Image amended.\n".to_owned()
    } else {
        "No change.\n".to_owned()
    }
}

// ---------------------------------------------------------------------------
// Laws
// ---------------------------------------------------------------------------

/// The guest reads from the flags exactly what the options say.
pub proof fn law_amend_flags_read_back(o: AmendOOptions, quiet: bool)
    ensures
        o.compat_v3 == if amend_flags(o, quiet) & AMEND_CONFIG_FLAG_SET_COMPAT != 0 {
            Some(amend_flags(o, quiet) & AMEND_CONFIG_FLAG_COMPAT_V3 != 0)
        } else {
            None
        },
        o.lazy_on == if amend_flags(o, quiet) & AMEND_CONFIG_FLAG_SET_LAZY != 0 {
            Some(amend_flags(o, quiet) & AMEND_CONFIG_FLAG_LAZY_ON != 0)
        } else {
            None
        },
        amend_flags(o, quiet) & AMEND_CONFIG_FLAG_QUIET != 0 <==> quiet,
{
    let a = bit(o.compat_v3 is Some, AMEND_CONFIG_FLAG_SET_COMPAT);
    let b = bit(o.compat_v3 == Some(true), AMEND_CONFIG_FLAG_COMPAT_V3);
    let c = bit(o.lazy_on is Some, AMEND_CONFIG_FLAG_SET_LAZY);
    let d = bit(o.lazy_on == Some(true), AMEND_CONFIG_FLAG_LAZY_ON);
    let q = bit(quiet, AMEND_CONFIG_FLAG_QUIET);
    assert((a | b | c | d | q) & 1 == a && (a | b | c | d | q) & 2 == b && (a | b | c | d | q) & 4
        == c && (a | b | c | d | q) & 8 == d && (a | b | c | d | q) & 16 == q) by (bit_vector)
        requires
            a == 0 || a == 1,
            b == 0 || b == 2,
            c == 0 || c == 4,
            d == 0 || d == 8,
            q == 0 || q == 16,
    ;
}

/// An image is amended exactly where it is taken for qcow2, by the user or
/// else by its header, and its header is read; what is known of it is what
/// its header says.
pub proof fn law_only_qcow2_is_amended(
    args: &AmendArgs,
    detected: ImageFormat,
    header: Option<Qcow2Header>,
    r: Result<ProbedAmendTarget, String>,
)
    requires
        call_ensures(probe_amend_target, (args, detected, header), r),
    ensures
        args.format is Some ==> (r is Ok <==> args.format->0@ == "qcow2"@ && header is Some),
        args.format is None ==> (r is Ok <==> detected == ImageFormat::Qcow2 && header is Some),
        r matches Ok(t) ==> {
            let h = header->0;
            &&& t.cluster_size == h.cluster_size as u32
            &&& t.current_version == h.version
            &&& t.current_refcount_bits == h.refcount_bits
            &&& t.current_incompatible_features == h.incompatible_features
            &&& t.current_compatible_features == h.compatible_features
            &&& t.virtual_size == h.virtual_size
        },
{
}

/// The guest is told of the image what was found in it, and of the options
/// what they ask for: a switch that was not named is not set.
pub proof fn law_guest_is_told_what_to_amend(
    options: &AmendOOptions,
    quiet: bool,
    probed: &ProbedAmendTarget,
    r: AmendConfig,
)
    requires
        call_ensures(plan_amend, (options, quiet, probed), r),
    ensures
        format_name(r.target_format) == "qcow2"@,
        r.sector_size == 512,
        r.cluster_size == probed.cluster_size,
        r.current_version == probed.current_version,
        r.current_refcount_bits == probed.current_refcount_bits,
        r.current_incompatible_features == probed.current_incompatible_features,
        r.current_compatible_features == probed.current_compatible_features,
        r.virtual_size == probed.virtual_size,
        r.flags & 1 != 0 <==> options.compat_v3 is Some,
        r.flags & 2 != 0 <==> options.compat_v3 == Some(true),
        r.flags & 4 != 0 <==> options.lazy_on is Some,
        r.flags & 8 != 0 <==> options.lazy_on == Some(true),
        r.flags & 0x10 != 0 <==> quiet,
{
    law_amend_flags_read_back(*options, quiet);
    let o = *options;
    let a = bit(o.compat_v3 is Some, AMEND_CONFIG_FLAG_SET_COMPAT);
    let b = bit(o.compat_v3 == Some(true), AMEND_CONFIG_FLAG_COMPAT_V3);
    let c = bit(o.lazy_on is Some, AMEND_CONFIG_FLAG_SET_LAZY);
    let d = bit(o.lazy_on == Some(true), AMEND_CONFIG_FLAG_LAZY_ON);
    let q = bit(quiet, AMEND_CONFIG_FLAG_QUIET);
    assert((a | b | c | d | q) & 2 == b && (a | b | c | d | q) & 8 == d) by (bit_vector)
        requires
            a == 0 || a == 1,
            b == 0 || b == 2,
            c == 0 || c == 4,
            d == 0 || d == 8,
            q == 0 || q == 0x10,
    ;
}

/// What the guest reported is kept.
pub proof fn law_amend_report_is_kept(m: &AmendResultMessage, r: AmendRunResult)
    requires
        call_ensures(harvest_amend, (m,), r),
    ensures
        format_name(r.target_format) == "qcow2"@,
        r.action == m.action,
        r.resulting_version == m.resulting_version,
        r.resulting_lazy_refcounts == 1 <==> m.lazy_refcounts,
        r.resulting_lazy_refcounts == 0 <==> !m.lazy_refcounts,
        r.error == m.error,
{
}

/// An amendment succeeds exactly where the guest reports no error; the file is
/// synced exactly where the guest wrote it.
pub proof fn law_amended_image_is_synced(
    result: Option<AmendRunResult>,
    r: Result<AmendFinish, String>,
)
    requires
        call_ensures(finish_amend, (result,), r),
    ensures
        r is Ok <==> result is Some && result->0.error == 0,
        r matches Ok(f) ==> Some(f.result) == result && (f.sync <==> result->0.action == 1),
{
}

/// A quiet user is told nothing; people are told whether anything changed;
/// JSON holds the image's name and format and what its header says now.
pub proof fn law_amend_report_holds_the_header(args: &AmendArgs, result: &AmendRunResult, r: String)
    requires
        call_ensures(render_amend_success, (args, result), r),
    ensures
        args.quiet ==> r@.len() == 0,
        !args.quiet && args.output@ != "json"@ ==> r@ == if result.action == 1 {
            "Image amended.\n"@
        } else {
            "No change.\n"@
        },
        !args.quiet && args.output@ == "json"@ ==> {
            &&& holds_part(
                r@,
                "{\n  \"filename\": \""@ + escaped(args.filename@, EscapeStyle::Filename),
            )
            &&& holds_part(r@, "\",\n  \"format\": \""@ + format_name(result.target_format))
            &&& result.action == 1 ==> holds_part(r@, "\",\n  \"action\": \""@ + "amended"@)
            &&& result.action != 1 ==> holds_part(r@, "\",\n  \"action\": \""@ + "noop"@)
            &&& result.resulting_version == 3 ==> holds_part(r@, "\",\n  \"compat\": \""@ + "1.1"@)
            &&& result.resulting_version != 3 ==> holds_part(r@, "\",\n  \"compat\": \""@ + "0.10"@)
            &&& result.resulting_lazy_refcounts != 0 ==> holds_part(
                r@,
                "\",\n  \"lazy_refcounts\": \""@ + "on"@,
            )
            &&& result.resulting_lazy_refcounts == 0 ==> holds_part(
                r@,
                "\",\n  \"lazy_refcounts\": \""@ + "off"@,
            )
        },
{
    broadcast use {lemma_part_stays, lemma_last_part, lemma_first_part};

    reveal_strlit("");
}

/// Each error number of the guest is explained by what went wrong.
pub proof fn law_error_numbers_are_explained(code: u32, r: &'static str)
    requires
        call_ensures(map_amend_error, (code,), r),
    ensures
        code == 0 ==> r@ == "ok"@,
        code == 1 ==> r@ == "only qcow2 images can be amended"@,
        code == 2 ==> r@
            == "an unsupported -o option reached the guest (amend changes compat and lazy_refcounts only)"@,
        code == 3 ==> r@
            == "cannot downgrade to compat=0.10: image uses a v3-only incompatible feature (compression, extended L2, external data, or is dirty/corrupt)"@,
        code == 4 ==> r@
            == "cannot downgrade to compat=0.10: image uses refcount_bits != 16 (v2 supports 16-bit refcounts only; rewriting the refcount tree is out of scope)"@,
        code == 5 ==> r@
            == "lazy_refcounts=on requires compat=1.1 (lazy refcounts are a v3-only feature); upgrade with -o compat=1.1 first or in the same invocation"@,
        code == 6 ==> r@
            == "the image's header changed between the host's pre-probe and the guest's read, or a guest write failed; retry, or run `instar check` if the image may be corrupt"@,
        code == 7 ==> r@ == "the image header could not be parsed"@,
        code == 8 ==> r@
            == "the image is marked dirty (another writer may hold it open); run `instar check` first"@,
        code == 9 ==> r@
            == "this compat change would have to relocate a header extension, which is not yet supported; use `qemu-img amend`"@,
        code == 10 ==> r@ == "the image is too large for the amend scratch buffer"@,
        code == 11 ==> r@ == "I/O error writing the image header"@,
        code == 12 ==> r@ == "internal size or offset computation overflowed (host or guest bug)"@,
        code > 12 ==> r@ == "unknown amend error code"@,
{
}

/// A failed amendment is told what the guest's number means.
pub proof fn law_failed_amendment_is_told_why(
    result: AmendRunResult,
    r: Result<AmendFinish, String>,
    detail: &'static str,
)
    requires
        call_ensures(finish_amend, (Some(result),), r),
        call_ensures(map_amend_error, (result.error,), detail),
    ensures
        r matches Err(e) ==> e@ == "amend: "@ + detail@,
{
}

/// The options of an amendment are read from its `-o` arguments.
pub proof fn law_amendment_is_read_from_its_options(
    args: &AmendArgs,
    raw: &[String],
    r: Result<AmendOOptions, String>,
    s: Result<AmendOOptions, String>,
)
    requires
        raw@ == args.option@,
        call_ensures(amend_request, (args,), r),
        call_ensures(parse_amend_o_options, (raw,), s),
    ensures
        outcome(r) == outcome(s),
{
}

} // verus!
