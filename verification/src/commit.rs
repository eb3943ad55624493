//! Committing the data of an overlay into its backing file.
use vstd::prelude::*;
use crate::abi::{
    COMMIT_CONFIG_FLAG_QUIET, COMMIT_CONFIG_MAGIC, COMMIT_RESULT_ERROR_BACKING_CORRUPT,
    COMMIT_RESULT_ERROR_BACKING_TOO_SMALL, COMMIT_RESULT_ERROR_EXTERNAL_DATA_FILE,
    COMMIT_RESULT_ERROR_HEADER_MISMATCH, COMMIT_RESULT_ERROR_INTERNAL_OVERFLOW,
    COMMIT_RESULT_ERROR_LUKS_UNSUPPORTED, COMMIT_RESULT_ERROR_NO_BACKING,
    COMMIT_RESULT_ERROR_OK, COMMIT_RESULT_ERROR_OVERLAY_CORRUPT,
    COMMIT_RESULT_ERROR_OVERLAY_LARGER_THAN_BACKING, COMMIT_RESULT_ERROR_PARSE_FAILED,
    COMMIT_RESULT_ERROR_REFCOUNT_EXHAUSTED, COMMIT_RESULT_ERROR_SCRATCH_TOO_SMALL,
    COMMIT_RESULT_ERROR_UNSUPPORTED_FORMAT, IMAGE_FORMAT_QCOW2, IMAGE_FORMAT_VMDK3,
    IMAGE_FORMAT_VMDK4, MAX_CHAIN_DEVICES,
};
use crate::bytes::{
    bit, bit_if, le_bytes, lemma_le_bytes_len, push_u32, push_u64, push_zeros, zeros,
};
use crate::capacity::{doubled, doubled_capacity};
use crate::chain::{
    device_total, law_device_total, lemma_devices_of_part, total_devices, ChainImage,
    InfoOperationResult,
};
use crate::formats::{
    echoed_format, format_name, format_of_code, image_format_from_u32, image_format_name,
    law_named_format_is_echoed, lemma_format_names_differ, read_echoed_format, ImageFormat,
};
use crate::json::{escaped, json_escape_string, EscapeStyle};
use crate::message::CommitResultMessage;
use crate::paths::{join, joined};
use crate::text::{
    between, dec, holds_part, lemma_first_part, lemma_last_part, lemma_part_stays, name_of,
    number_between, outcome, push_dec, same,
};

verus! {

/// The arguments of a commit.
#[derive(Debug)]
pub struct CommitArgs {
    pub filename: String,
    pub format: Option<String>,
    /// The backing file; where it is missing, the one that the overlay names.
    pub base: Option<String>,
    pub quiet: bool,
    pub output: String,
}

/// What is known of an image before a commit.
#[derive(Debug)]
pub struct ProbedCommitTarget {
    pub format: u32,
    pub virtual_size: u64,
    pub cluster_size: u32,
    pub backing_file_raw: Option<String>,
}

// ---------------------------------------------------------------------------
// The two images
// ---------------------------------------------------------------------------

/// Refuses an overlay that is not there.
pub fn check_commit_overlay(args: &CommitArgs, found: bool) -> (r: Result<(), String>)
    ensures
        outcome(r) == if found {
            Ok(())
        } else {
            Err("commit: overlay '"@ + args.filename@ + "' does not exist"@)
        },
{
    if found {
        Ok(())
    } else {
        Err(between("commit: overlay '", args.filename.as_str(), "' does not exist"))
    }
}

/// An error about one of the two images.
pub open spec fn image_error(label: Seq<char>, cause: Seq<char>) -> Seq<char> {
    "commit: "@ + label + ": "@ + cause
}

/// The format of an image: the one that the user forces, else the one that
/// was found. Only qcow2 and VMDK can be committed.
pub open spec fn commit_format(forced: Option<Seq<char>>, found: Seq<char>) -> Result<
    u32,
    Seq<char>,
> {
    match forced {
        Some(n) => if n == "qcow2"@ {
            Ok(IMAGE_FORMAT_QCOW2)
        } else if n == "vmdk"@ {
            Ok(IMAGE_FORMAT_VMDK4)
        } else {
            Err("format '"@ + n + "' is not supported (qcow2 and vmdk only)"@)
        },
        None => if found == "qcow2"@ {
            Ok(IMAGE_FORMAT_QCOW2)
        } else if found == "vmdk"@ {
            Ok(IMAGE_FORMAT_VMDK4)
        } else {
            Err("format '"@ + found + "' does not support commit (qcow2 and vmdk only)"@)
        },
    }
}

fn read_commit_format(forced: &Option<String>, found: &str) -> (r: Result<u32, String>)
    ensures
        outcome(r) == commit_format(name_of(*forced), found@),
{
    match forced {
        Some(n) => {
            if same(n.as_str(), "qcow2") {
                Ok(IMAGE_FORMAT_QCOW2)
            } else if same(n.as_str(), "vmdk") {
                Ok(IMAGE_FORMAT_VMDK4)
            } else {
                Err(between("format '", n.as_str(), "' is not supported (qcow2 and vmdk only)"))
            }
        },
        None => {
            if same(found, "qcow2") {
                Ok(IMAGE_FORMAT_QCOW2)
            } else if same(found, "vmdk") {
                Ok(IMAGE_FORMAT_VMDK4)
            } else {
                Err(between("format '", found, "' does not support commit (qcow2 and vmdk only)"))
            }
        },
    }
}

/// Works out what is known of one of the two images from what a guest reported
/// of it, or why it cannot take part in a commit.
pub fn probe_commit_target(
    info: Result<InfoOperationResult, String>,
    forced: &Option<String>,
    label: &str,
) -> (r: Result<ProbedCommitTarget, String>)
    ensures
        match info {
            Err(e) => r is Err && r->Err_0@ == image_error(label@, e@),
            Ok(i) => match commit_format(name_of(*forced), i.format@) {
                Err(e) => r is Err && r->Err_0@ == image_error(label@, e),
                Ok(code) => r is Ok && r->Ok_0.format == code && r->Ok_0.virtual_size
                    == i.virtual_size && r->Ok_0.cluster_size == i.cluster_size
                    && r->Ok_0.backing_file_raw == i.backing_file,
            },
        },
{
    let cause: String = match info {
        Err(e) => e,
        Ok(i) => match read_commit_format(forced, i.format.as_str()) {
            Err(e) => e,
            Ok(code) => {
                return Ok(
                    ProbedCommitTarget {
                        format: code,
                        virtual_size: i.virtual_size,
                        cluster_size: i.cluster_size,
                        backing_file_raw: i.backing_file,
                    },
                );
            },
        },
    };
    let mut e = "commit: ".to_owned();
    e.append(label);
    e.append(": ");
    e.append(cause.as_str());
    Err(e)
}

/// The backing file that the overlay itself names, where it names one.
pub open spec fn recorded(overlay: ProbedCommitTarget) -> Option<Seq<char>> {
    match overlay.backing_file_raw {
        Some(b) if b@.len() > 0 => Some(b@),
        _ => None,
    }
}

/// The backing file that the overlay itself names, as seen from its directory.
pub fn recorded_backing(overlay: &ProbedCommitTarget, overlay_dir: &str) -> (r: Option<String>)
    ensures
        name_of(r) == match recorded(*overlay) {
            Some(b) => Some(joined(overlay_dir@, b)),
            None => None,
        },
{
    match &overlay.backing_file_raw {
        Some(b) => {
            if b.as_str().is_empty() {
                None
            } else {
                Some(join(overlay_dir, b.as_str()))
            }
        },
        None => None,
    }
}

/// The backing file to commit into: the one that the user names, else the one
/// that the overlay names.
pub open spec fn commit_backing(
    base: Option<Seq<char>>,
    recorded: Option<Seq<char>>,
    overlay_dir: Seq<char>,
) -> Result<Seq<char>, Seq<char>> {
    match base {
        Some(b) => Ok(joined(overlay_dir, b)),
        None => match recorded {
            Some(b) => Ok(joined(overlay_dir, b)),
            None => Err("commit: overlay has no recorded backing file; pass -b BASE to name one"@),
        },
    }
}

/// Finds the backing file to commit into.
pub fn resolve_commit_backing(
    args: &CommitArgs,
    overlay: &ProbedCommitTarget,
    overlay_dir: &str,
) -> (r: Result<String, String>)
    ensures
        match commit_backing(name_of(args.base), recorded(*overlay), overlay_dir@) {
            Ok(p) => r is Ok && r->Ok_0@ == p,
            Err(e) => r is Err && r->Err_0@ == e,
        },
{
    match &args.base {
        Some(b) => Ok(join(overlay_dir, b.as_str())),
        None => match recorded_backing(overlay, overlay_dir) {
            Some(p) => Ok(p),
            None => Err(
                "commit: overlay has no recorded backing file; pass -b BASE to name one".to_owned(),
            ),
        },
    }
}

/// Refuses a backing file that is not there or cannot be written.
pub fn check_backing_file(path: &str, found: bool, writable: bool) -> (r: Result<(), String>)
    ensures
        outcome(r) == if !found {
            Err("commit: backing file '"@ + path@ + "' does not exist"@)
        } else if !writable {
            Err("commit: backing file '"@ + path@ + "' is not writable"@)
        } else {
            Ok(())
        },
{
    if !found {
        return Err(between("commit: backing file '", path, "' does not exist"));
    }
    if !writable {
        return Err(between("commit: backing file '", path, "' is not writable"));
    }
    Ok(())
}

/// Why an overlay cannot be committed into a backing file.
pub open spec fn pair_refusal(overlay: ProbedCommitTarget, backing: ProbedCommitTarget) -> Option<
    Seq<char>,
> {
    if overlay.format != backing.format {
        Some(
            "commit: cross-format commit is not yet supported (overlay is "@ + format_name(
                overlay.format,
            ) + ", backing is "@ + format_name(backing.format) + ")"@,
        )
    } else if overlay.cluster_size != 0 && backing.cluster_size != 0 && overlay.cluster_size
        != backing.cluster_size {
        Some(
            "commit: cluster-size mismatch is not yet supported (overlay "@ + dec(
                overlay.cluster_size as int,
            ) + " B, backing "@ + dec(backing.cluster_size as int) + " B)"@,
        )
    } else if backing.virtual_size < overlay.virtual_size {
        Some(
            "commit: overlay virtual size ("@ + dec(overlay.virtual_size as int)
                + " B) exceeds backing virtual size ("@ + dec(backing.virtual_size as int)
                + " B)"@,
        )
    } else {
        None
    }
}

/// Checks that an overlay can be committed into a backing file.
pub fn check_commit_pair(overlay: &ProbedCommitTarget, backing: &ProbedCommitTarget) -> (r: Result<
    (),
    String,
>)
    ensures
        match pair_refusal(*overlay, *backing) {
            Some(e) => r is Err && r->Err_0@ == e,
            None => r is Ok,
        },
{
    if overlay.format != backing.format {
        let mut e = "commit: cross-format commit is not yet supported (overlay is ".to_owned();
        e.append(image_format_name(overlay.format));
        e.append(", backing is ");
        e.append(image_format_name(backing.format));
        e.append(")");
        return Err(e);
    }
    if overlay.cluster_size != 0 && backing.cluster_size != 0 && overlay.cluster_size
        != backing.cluster_size {
        let mut e = "commit: cluster-size mismatch is not yet supported (overlay ".to_owned();
        push_dec(&mut e, overlay.cluster_size as u64);
        e.append(" B, backing ");
        push_dec(&mut e, backing.cluster_size as u64);
        e.append(" B)");
        return Err(e);
    }
    if backing.virtual_size < overlay.virtual_size {
        let mut e = "commit: overlay virtual size (".to_owned();
        push_dec(&mut e, overlay.virtual_size);
        e.append(" B) exceeds backing virtual size (");
        push_dec(&mut e, backing.virtual_size);
        e.append(" B)");
        return Err(e);
    }
    Ok(())
}

/// Why a backing file that the user names is refused: it must be the overlay's
/// own parent. Both paths are compared in their canonical forms.
pub open spec fn base_refusal(
    resolved: Seq<char>,
    canonical_supplied: Seq<char>,
    canonical_recorded: Option<Seq<char>>,
) -> Option<Seq<char>> {
    match canonical_recorded {
        Some(recorded) => if canonical_supplied != recorded {
            Some(
                "commit: commit through an intermediate layer is not yet supported (the overlay's immediate parent is '"@
                    + recorded + "')"@,
            )
        } else {
            None
        },
        None => Some(
            "commit: overlay has no recorded backing file; '-b "@ + resolved
                + "' would be a new backing reference, which commit does not support (use `instar rebase` to set a backing)"@,
        ),
    }
}

/// Checks a backing file that the user names.
pub fn check_explicit_base(
    resolved: &str,
    canonical_supplied: &str,
    canonical_recorded: &Option<String>,
) -> (r: Result<(), String>)
    ensures
        match base_refusal(resolved@, canonical_supplied@, name_of(*canonical_recorded)) {
            Some(e) => r is Err && r->Err_0@ == e,
            None => r is Ok,
        },
{
    match canonical_recorded {
        Some(recorded) => {
            if same(canonical_supplied, recorded.as_str()) {
                Ok(())
            } else {
                Err(
                    between(
                        "commit: commit through an intermediate layer is not yet supported (the overlay's immediate parent is '",
                        recorded.as_str(),
                        "')",
                    ),
                )
            }
        },
        None => Err(
            between(
                "commit: overlay has no recorded backing file; '-b ",
                resolved,
                "' would be a new backing reference, which commit does not support (use `instar rebase` to set a backing)",
            ),
        ),
    }
}

// ---------------------------------------------------------------------------
// The guest
// ---------------------------------------------------------------------------

/// What the guest is told of a commit.
#[derive(Debug, Clone, Copy)]
pub struct CommitConfig {
    pub overlay_format: u32,
    pub backing_format: u32,
    pub flags: u32,
    pub sector_size: u32,
    pub overlay_cluster_size: u32,
    pub backing_cluster_size: u32,
    pub overlay_virtual_size: u64,
    pub backing_virtual_size: u64,
    pub backing_chain_first: u32,
    pub backing_chain_count: u32,
}

/// The bytes of the configuration, as the guest reads them.
pub open spec fn commit_config_bytes(c: CommitConfig) -> Seq<u8> {
    le_bytes(COMMIT_CONFIG_MAGIC as int, 4)
        + le_bytes(c.overlay_format as int, 4)
        + le_bytes(c.backing_format as int, 4)
        + le_bytes(c.flags as int, 4)
        + le_bytes(c.sector_size as int, 4)
        + le_bytes(c.overlay_cluster_size as int, 4)
        + le_bytes(c.backing_cluster_size as int, 4)
        + zeros(4)
        + le_bytes(c.overlay_virtual_size as int, 8)
        + le_bytes(c.backing_virtual_size as int, 8)
        + le_bytes(c.backing_chain_first as int, 4)
        + le_bytes(c.backing_chain_count as int, 4)
        + zeros(64)
}

/// Writes the configuration.
pub fn write_commit_config(c: &CommitConfig) -> (b: Vec<u8>)
    ensures
        b@ == commit_config_bytes(*c),
{
    let mut b: Vec<u8> = Vec::new();
    push_u32(&mut b, COMMIT_CONFIG_MAGIC);
    assert(b@ =~= le_bytes(COMMIT_CONFIG_MAGIC as int, 4));
    push_u32(&mut b, c.overlay_format);
    push_u32(&mut b, c.backing_format);
    push_u32(&mut b, c.flags);
    push_u32(&mut b, c.sector_size);
    push_u32(&mut b, c.overlay_cluster_size);
    push_u32(&mut b, c.backing_cluster_size);
    push_zeros(&mut b, 4);
    push_u64(&mut b, c.overlay_virtual_size);
    push_u64(&mut b, c.backing_virtual_size);
    push_u32(&mut b, c.backing_chain_first);
    push_u32(&mut b, c.backing_chain_count);
    push_zeros(&mut b, 64);
    b
}

/// Each field of the configuration stands at its offset.
pub proof fn law_commit_config_layout(c: CommitConfig)
    ensures
        commit_config_bytes(c).len() == 120,
        commit_config_bytes(c).subrange(0, 4) == le_bytes(0x434F4D4D, 4),
        commit_config_bytes(c).subrange(4, 8) == le_bytes(c.overlay_format as int, 4),
        commit_config_bytes(c).subrange(8, 12) == le_bytes(c.backing_format as int, 4),
        commit_config_bytes(c).subrange(12, 16) == le_bytes(c.flags as int, 4),
        commit_config_bytes(c).subrange(16, 20) == le_bytes(c.sector_size as int, 4),
        commit_config_bytes(c).subrange(20, 24) == le_bytes(c.overlay_cluster_size as int, 4),
        commit_config_bytes(c).subrange(24, 28) == le_bytes(c.backing_cluster_size as int, 4),
        commit_config_bytes(c).subrange(32, 40) == le_bytes(c.overlay_virtual_size as int, 8),
        commit_config_bytes(c).subrange(40, 48) == le_bytes(c.backing_virtual_size as int, 8),
        commit_config_bytes(c).subrange(48, 52) == le_bytes(c.backing_chain_first as int, 4),
        commit_config_bytes(c).subrange(52, 56) == le_bytes(c.backing_chain_count as int, 4),
{
    broadcast use lemma_le_bytes_len;

    let b = commit_config_bytes(c);
    assert(b.subrange(0, 4) =~= le_bytes(COMMIT_CONFIG_MAGIC as int, 4));
    assert(b.subrange(4, 8) =~= le_bytes(c.overlay_format as int, 4));
    assert(b.subrange(8, 12) =~= le_bytes(c.backing_format as int, 4));
    assert(b.subrange(12, 16) =~= le_bytes(c.flags as int, 4));
    assert(b.subrange(16, 20) =~= le_bytes(c.sector_size as int, 4));
    assert(b.subrange(20, 24) =~= le_bytes(c.overlay_cluster_size as int, 4));
    assert(b.subrange(24, 28) =~= le_bytes(c.backing_cluster_size as int, 4));
    assert(b.subrange(32, 40) =~= le_bytes(c.overlay_virtual_size as int, 8));
    assert(b.subrange(40, 48) =~= le_bytes(c.backing_virtual_size as int, 8));
    assert(b.subrange(48, 52) =~= le_bytes(c.backing_chain_first as int, 4));
    assert(b.subrange(52, 56) =~= le_bytes(c.backing_chain_count as int, 4));
}

/// How a commit is run. The inputs are the overlay, which is written too, and
/// the parents of the backing file; the backing file is the output.
#[derive(Debug)]
pub struct CommitPlan {
    pub capacity_hint: u64,
    pub config: CommitConfig,
    pub input_count: usize,
    pub output_slot: usize,
}

/// The refusal of a chain that is too long.
pub open spec fn too_many_devices(parents: int) -> Seq<char> {
    "commit: combined chain length (overlay + "@ + dec(parents)
        + " backing parents) exceeds the 16-device limit"@
}

/// Whether a plan is the plan for a request.
pub open spec fn is_commit_plan(
    plan: CommitPlan,
    args: CommitArgs,
    overlay: ProbedCommitTarget,
    backing: ProbedCommitTarget,
    parents: Seq<ChainImage>,
    backing_file_size: u64,
) -> bool {
    let c = plan.config;
    &&& c.overlay_format == overlay.format
    &&& c.backing_format == backing.format
    &&& c.flags == bit(args.quiet, COMMIT_CONFIG_FLAG_QUIET)
    &&& c.sector_size == 512
    &&& c.overlay_cluster_size == overlay.cluster_size
    &&& c.backing_cluster_size == backing.cluster_size
    &&& c.overlay_virtual_size == overlay.virtual_size
    &&& c.backing_virtual_size == backing.virtual_size
    &&& c.backing_chain_first == 1
    &&& c.backing_chain_count == device_total(parents)
    &&& plan.capacity_hint == doubled(backing_file_size)
    &&& plan.input_count == 1 + device_total(parents)
    &&& plan.output_slot == plan.input_count
}

/// Plans a commit. It is refused only where the devices are too many.
pub fn plan_commit(
    args: &CommitArgs,
    overlay: &ProbedCommitTarget,
    backing: &ProbedCommitTarget,
    parents: &Vec<ChainImage>,
    backing_file_size: u64,
) -> (r: Result<CommitPlan, String>)
    requires
        device_total(parents@) <= usize::MAX,
    ensures
        match r {
            Ok(plan) => 1 + device_total(parents@) <= MAX_CHAIN_DEVICES && is_commit_plan(
                plan,
                *args,
                *overlay,
                *backing,
                parents@,
                backing_file_size,
            ),
            Err(e) => 1 + device_total(parents@) > MAX_CHAIN_DEVICES && e@ == too_many_devices(
                device_total(parents@),
            ),
        },
{
    let count: usize = total_devices(parents);
    if count >= MAX_CHAIN_DEVICES {
        return Err(
            number_between(
                "commit: combined chain length (overlay + ",
                count as u64,
                " backing parents) exceeds the 16-device limit",
            ),
        );
    }
    Ok(
        CommitPlan {
            capacity_hint: doubled_capacity(backing_file_size),
            config: CommitConfig {
                overlay_format: overlay.format,
                backing_format: backing.format,
                flags: bit_if(args.quiet, COMMIT_CONFIG_FLAG_QUIET),
                sector_size: 512,
                overlay_cluster_size: overlay.cluster_size,
                backing_cluster_size: backing.cluster_size,
                overlay_virtual_size: overlay.virtual_size,
                backing_virtual_size: backing.virtual_size,
                backing_chain_first: 1,
                backing_chain_count: count as u32,
            },
            input_count: 1 + count,
            output_slot: 1 + count,
        },
    )
}

/// The input chain of a commit: the overlay, then the parents of the backing
/// file. Only the device 0, the overlay, is opened for writing. The overlay's
/// code for guests is that of the format that its own code names.
pub fn commit_chain(
    overlay: &ProbedCommitTarget,
    path: &str,
    format_code: u32,
    format_label: &str,
    file_size: u64,
    parents: Vec<ChainImage>,
) -> (r: Vec<ChainImage>)
    ensures
        r@.len() == 1 + parents@.len(),
        r@.skip(1) == parents@,
        ({
            let image = r@[0];
            &&& image.path@ == path@
            &&& image.format == format_of_code(overlay.format)
            &&& image.format_code == format_code
            &&& image.format_label@ == format_label@
            &&& image.virtual_size == overlay.virtual_size
            &&& image.actual_size == file_size
            &&& image.cluster_size == overlay.cluster_size
            &&& image.backing_file_raw is None
            &&& image.flags == 0
            &&& image.external_data_files@.len() == 0
        }),
        device_total(r@) == 1 + device_total(parents@),
{
    let mut r = crate::chain::create_single_image_chain(
        path,
        image_format_from_u32(overlay.format),
        format_code,
        format_label,
        overlay.virtual_size,
        file_size,
        overlay.cluster_size,
        0,
    );
    let ghost first = r@;
    let mut parents = parents;
    let ghost rest = parents@;
    r.append(&mut parents);
    proof {
        assert(r@ =~= first + rest);
        assert(r@.skip(1) =~= rest);
        lemma_devices_of_part(first, rest);
        assert(first.drop_last() =~= Seq::<ChainImage>::empty());
        assert(device_total(first) == 1) by {
            reveal_with_fuel(device_total, 2);
        }
    }
    r
}

/// What the guest's result comes to.
#[derive(Debug, Clone, Copy, PartialEq, Eq, Structural)]
pub struct CommitRunResult {
    pub overlay_format: u32,
    pub backing_format: u32,
    pub clusters_committed: u64,
    pub bytes_committed: u64,
    pub overlay_clusters_cleared: u64,
    pub error: u32,
}

/// Keeps what the guest reported.
pub fn harvest_commit(m: &CommitResultMessage, overlay_format: u32, backing_format: u32) -> (r:
    CommitRunResult)
    ensures
        r == (CommitRunResult {
            overlay_format: echoed_format(m.overlay_format@, overlay_format),
            backing_format: echoed_format(m.backing_format@, backing_format),
            clusters_committed: m.clusters_committed,
            bytes_committed: m.bytes_committed,
            overlay_clusters_cleared: m.overlay_clusters_cleared,
            error: m.error,
        }),
{
    CommitRunResult {
        overlay_format: read_echoed_format(m.overlay_format.as_str(), overlay_format),
        backing_format: read_echoed_format(m.backing_format.as_str(), backing_format),
        clusters_committed: m.clusters_committed,
        bytes_committed: m.bytes_committed,
        overlay_clusters_cleared: m.overlay_clusters_cleared,
        error: m.error,
    }
}

/// What an error code of the guest means.
pub open spec fn commit_error(code: u32) -> Seq<char> {
    if code == COMMIT_RESULT_ERROR_OK {
        "ok"@
    } else if code == COMMIT_RESULT_ERROR_UNSUPPORTED_FORMAT {
        "format does not support commit (qcow2 and vmdk only; commit between mismatched formats or cluster sizes is not yet supported)"@
    } else if code == COMMIT_RESULT_ERROR_NO_BACKING {
        "the overlay has no recorded backing file; pass -b to name one"@
    } else if code == COMMIT_RESULT_ERROR_EXTERNAL_DATA_FILE {
        "qcow2 overlays with the external-data-file feature cannot be committed"@
    } else if code == COMMIT_RESULT_ERROR_LUKS_UNSUPPORTED {
        "LUKS-encrypted overlays and backings are not yet supported for commit"@
    } else if code == COMMIT_RESULT_ERROR_BACKING_TOO_SMALL {
        "the backing file is smaller than the overlay; cannot commit"@
    } else if code == COMMIT_RESULT_ERROR_OVERLAY_LARGER_THAN_BACKING {
        "the overlay's virtual size exceeds the backing's virtual size"@
    } else if code == COMMIT_RESULT_ERROR_HEADER_MISMATCH {
        "the overlay or backing header changed during commit, or a guest write failed; retry, or run `instar check` if the image may be corrupt"@
    } else if code == COMMIT_RESULT_ERROR_OVERLAY_CORRUPT {
        "the overlay is marked dirty or corrupt; run `instar check` first"@
    } else if code == COMMIT_RESULT_ERROR_BACKING_CORRUPT {
        "the backing is marked dirty or corrupt; run `instar check` first"@
    } else if code == COMMIT_RESULT_ERROR_SCRATCH_TOO_SMALL {
        "the overlay or backing is too large for the commit scratch buffer"@
    } else if code == COMMIT_RESULT_ERROR_REFCOUNT_EXHAUSTED {
        "the backing's refcount blocks are full; v1 doesn't append new ones. Fall back to `qemu-img commit`"@
    } else if code == COMMIT_RESULT_ERROR_PARSE_FAILED {
        "the overlay or backing header could not be parsed"@
    } else if code == COMMIT_RESULT_ERROR_INTERNAL_OVERFLOW {
        "internal size or offset computation overflowed (host or guest bug)"@
    } else {
        "unknown commit error code "@ + dec(code as int)
    }
}

/// What an error code of the guest means.
pub fn map_commit_error(code: u32) -> (r: String)
    ensures
        r@ == commit_error(code),
{
    if code == COMMIT_RESULT_ERROR_OK {
        "ok".to_owned()
    } else if code == COMMIT_RESULT_ERROR_UNSUPPORTED_FORMAT {
        "format does not support commit (qcow2 and vmdk only; commit between mismatched formats or cluster sizes is not yet supported)".to_owned()
    } else if code == COMMIT_RESULT_ERROR_NO_BACKING {
        "the overlay has no recorded backing file; pass -b to name one".to_owned()
    } else if code == COMMIT_RESULT_ERROR_EXTERNAL_DATA_FILE {
        "qcow2 overlays with the external-data-file feature cannot be committed".to_owned()
    } else if code == COMMIT_RESULT_ERROR_LUKS_UNSUPPORTED {
        "LUKS-encrypted overlays and backings are not yet supported for commit".to_owned()
    } else if code == COMMIT_RESULT_ERROR_BACKING_TOO_SMALL {
        "the backing file is smaller than the overlay; cannot commit".to_owned()
    } else if code == COMMIT_RESULT_ERROR_OVERLAY_LARGER_THAN_BACKING {
        "the overlay's virtual size exceeds the backing's virtual size".to_owned()
    } else if code == COMMIT_RESULT_ERROR_HEADER_MISMATCH {
        "the overlay or backing header changed during commit, or a guest write failed; retry, or run `instar check` if the image may be corrupt".to_owned()
    } else if code == COMMIT_RESULT_ERROR_OVERLAY_CORRUPT {
        "the overlay is marked dirty or corrupt; run `instar check` first".to_owned()
    } else if code == COMMIT_RESULT_ERROR_BACKING_CORRUPT {
        "the backing is marked dirty or corrupt; run `instar check` first".to_owned()
    } else if code == COMMIT_RESULT_ERROR_SCRATCH_TOO_SMALL {
        "the overlay or backing is too large for the commit scratch buffer".to_owned()
    } else if code == COMMIT_RESULT_ERROR_REFCOUNT_EXHAUSTED {
        "the backing's refcount blocks are full; v1 doesn't append new ones. Fall back to `qemu-img commit`".to_owned()
    } else if code == COMMIT_RESULT_ERROR_PARSE_FAILED {
        "the overlay or backing header could not be parsed".to_owned()
    } else if code == COMMIT_RESULT_ERROR_INTERNAL_OVERFLOW {
        "internal size or offset computation overflowed (host or guest bug)".to_owned()
    } else {
        let mut s = "unknown commit error code ".to_owned();
        push_dec(&mut s, code as u64);
        s
    }
}

/// What a run of the guest came to: nothing to add, or an error.
pub open spec fn commit_outcome(result: Option<CommitRunResult>) -> Result<CommitRunResult, Seq<char>> {
    match result {
        None => Err("commit: guest did not return a result"@),
        Some(r) => if r.error != COMMIT_RESULT_ERROR_OK {
            Err("commit: guest reported error "@ + dec(r.error as int) + ": "@ + commit_error(r.error))
        } else {
            Ok(r)
        },
    }
}

/// Decides what a run of the guest came to.
pub fn finish_commit(result: Option<CommitRunResult>) -> (r: Result<CommitRunResult, String>)
    ensures
        outcome(r) == commit_outcome(result),
{
    let result = match result {
        Some(r) => r,
        None => return Err("commit: guest did not return a result".to_owned()),
    };
    if result.error != COMMIT_RESULT_ERROR_OK {
        let mut e = "commit: guest reported error ".to_owned();
        push_dec(&mut e, result.error as u64);
        e.append(": ");
        e.append(map_commit_error(result.error).as_str());
        return Err(e);
    }
    Ok(result)
}

/// The report of a commit as JSON.
pub open spec fn commit_json(args: CommitArgs, backing_path: Seq<char>, result: CommitRunResult) -> Seq<char> {
    "{\n  \"overlay\": \""@
        + escaped(args.filename@, EscapeStyle::Filename)
        + "\",\n  \"overlay_format\": \""@
        + format_name(result.overlay_format)
        + "\",\n  \"backing\": \""@
        + escaped(backing_path, EscapeStyle::Filename)
        + "\",\n  \"backing_format\": \""@
        + format_name(result.backing_format)
        + "\",\n  \"clusters_committed\": "@
        + dec(result.clusters_committed as int)
        + ",\n  \"bytes_committed\": "@
        + dec(result.bytes_committed as int)
        + ",\n  \"overlay_clusters_cleared\": "@
        + dec(result.overlay_clusters_cleared as int)
        + "\n}\n"@
}

/// The report of a commit as JSON.
fn format_commit_json(args: &CommitArgs, backing_path: &str, result: &CommitRunResult) -> (r: String)
    ensures
        r@ == commit_json(*args, backing_path@, *result),
{
    let mut s = "{\n  \"overlay\": \"".to_owned();
    s.append(json_escape_string(args.filename.as_str()).as_str());
    s.append("\",\n  \"overlay_format\": \"");
    s.append(image_format_name(result.overlay_format).to_owned().as_str());
    s.append("\",\n  \"backing\": \"");
    s.append(json_escape_string(backing_path).as_str());
    s.append("\",\n  \"backing_format\": \"");
    s.append(image_format_name(result.backing_format).to_owned().as_str());
    s.append("\",\n  \"clusters_committed\": ");
    push_dec(&mut s, result.clusters_committed);
    s.append(",\n  \"bytes_committed\": ");
    push_dec(&mut s, result.bytes_committed);
    s.append(",\n  \"overlay_clusters_cleared\": ");
    push_dec(&mut s, result.overlay_clusters_cleared);
    s.append("\n}\n");
    s
}

/// The report of a commit.
pub open spec fn commit_report(
    args: CommitArgs,
    backing_path: Seq<char>,
    result: CommitRunResult,
) -> Seq<char> {
    if args.quiet {
        ""@
    } else if args.output@ == "json"@ {
        commit_json(args, backing_path, result)
    } else {
        "Image committed.\n"@
    }
}

/// Reports a commit.
pub fn render_commit_success(args: &CommitArgs, backing_path: &str, result: &CommitRunResult) -> (r:
    String)
    ensures
        r@ == commit_report(*args, backing_path@, *result),
{
    if args.quiet {
        return "".to_owned();
    }
    if same(args.output.as_str(), "json") {
        format_commit_json(args, backing_path, result)
    } else {
        "Image committed.\n".to_owned()
    }
}

// ---------------------------------------------------------------------------
// Laws
// ---------------------------------------------------------------------------

/// Whatever passes the checks has room: the two images have one format, and
/// the backing file is no smaller than the overlay.
pub proof fn law_checked_pair_has_room(overlay: ProbedCommitTarget, backing: ProbedCommitTarget)
    requires
        pair_refusal(overlay, backing) is None,
    ensures
        overlay.format == backing.format,
        overlay.virtual_size <= backing.virtual_size,
        overlay.cluster_size == backing.cluster_size || overlay.cluster_size == 0
            || backing.cluster_size == 0,
{
}

/// The backing file follows the inputs, which are all devices of the input
/// chain.
pub proof fn law_output_follows_inputs(
    plan: CommitPlan,
    args: CommitArgs,
    overlay: ProbedCommitTarget,
    backing: ProbedCommitTarget,
    parents: Seq<ChainImage>,
    backing_file_size: u64,
)
    requires
        is_commit_plan(plan, args, overlay, backing, parents, backing_file_size),
    ensures
        plan.config.backing_chain_first + plan.config.backing_chain_count == plan.output_slot,
{
    law_device_total(parents, 0);
}

/// The format of an image that is committed is the one that was forced, and
/// where none was, the one that was found in it: its code has that name. The
/// sizes and the backing file are those that were found.
pub proof fn law_probed_format_is_the_found_one(
    info: Result<InfoOperationResult, String>,
    forced: &Option<String>,
    label: &str,
    r: Result<ProbedCommitTarget, String>,
)
    requires
        call_ensures(probe_commit_target, (info, forced, label), r),
        r is Ok,
    ensures
        ({
            let target = r->Ok_0;
            &&& info is Ok
            &&& *forced matches Some(name) ==> format_name(target.format) == name@
            &&& *forced is None ==> format_name(target.format) == info->Ok_0.format@
            &&& target.format != IMAGE_FORMAT_VMDK3
            &&& target.virtual_size == info->Ok_0.virtual_size
            &&& target.cluster_size == info->Ok_0.cluster_size
            &&& target.backing_file_raw == info->Ok_0.backing_file
        }),
{
}

/// Any image takes part whose report is there and whose format, forced or
/// found, is one of the two that can be committed.
pub proof fn law_two_formats_can_be_committed(
    info: Result<InfoOperationResult, String>,
    forced: &Option<String>,
    label: &str,
    r: Result<ProbedCommitTarget, String>,
)
    requires
        call_ensures(probe_commit_target, (info, forced, label), r),
    ensures
        r is Ok <==> info is Ok && {
            let name = match *forced {
                Some(n) => n@,
                None => info->Ok_0.format@,
            };
            name == "qcow2"@ || name == "vmdk"@
        },
{
}

/// Two images whose formats were found, not forced, get the same code exactly
/// where the same name was found.
pub proof fn law_commit_formats_are_told_apart(
    info: Result<InfoOperationResult, String>,
    other: Result<InfoOperationResult, String>,
    label: &str,
    other_label: &str,
    r: Result<ProbedCommitTarget, String>,
    s: Result<ProbedCommitTarget, String>,
)
    requires
        call_ensures(probe_commit_target, (info, &None, label), r),
        call_ensures(probe_commit_target, (other, &None, other_label), s),
        r is Ok,
        s is Ok,
    ensures
        r->Ok_0.format == s->Ok_0.format <==> info->Ok_0.format@ == other->Ok_0.format@,
{
    lemma_format_names_differ();
}

/// The file that is committed into is the one that the user names, else the
/// one that the overlay records; where there is neither, nothing is.
pub proof fn law_named_base_comes_first(
    args: &CommitArgs,
    overlay: &ProbedCommitTarget,
    overlay_dir: &str,
    r: Result<String, String>,
    recorded: Option<String>,
)
    requires
        call_ensures(resolve_commit_backing, (args, overlay, overlay_dir), r),
        call_ensures(recorded_backing, (overlay, overlay_dir), recorded),
    ensures
        args.base matches Some(b) ==> r is Ok && r->Ok_0@ == joined(overlay_dir@, b@),
        args.base is None ==> (r is Ok <==> recorded is Some),
        args.base is None && r is Ok ==> r->Ok_0@ == recorded->0@,
        recorded is Some <==> (overlay.backing_file_raw matches Some(b) && b@.len() > 0),
        recorded matches Some(p) ==> p@ == joined(overlay_dir@, overlay.backing_file_raw->0@),
{
}

/// A backing file that the user names is accepted exactly where it is the one
/// that the overlay records.
pub proof fn law_named_base_is_the_parent(
    resolved: &str,
    canonical_supplied: &str,
    canonical_recorded: &Option<String>,
    r: Result<(), String>,
)
    requires
        call_ensures(check_explicit_base, (resolved, canonical_supplied, canonical_recorded), r),
    ensures
        r is Ok <==> name_of(*canonical_recorded) == Some(canonical_supplied@),
{
}

/// The overlay must be there; the backing file must be there and writable.
pub proof fn law_both_files_must_be_there(
    args: &CommitArgs,
    path: &str,
    overlay_found: bool,
    found: bool,
    writable: bool,
    r: Result<(), String>,
    s: Result<(), String>,
)
    requires
        call_ensures(check_commit_overlay, (args, overlay_found), r),
        call_ensures(check_backing_file, (path, found, writable), s),
    ensures
        r is Ok <==> overlay_found,
        s is Ok <==> found && writable,
{
}

/// A pair is accepted exactly where both images have one format, the backing
/// file is no smaller than the overlay, and no two known cluster sizes differ.
pub proof fn law_pair_is_accepted_where_it_fits(
    overlay: &ProbedCommitTarget,
    backing: &ProbedCommitTarget,
    r: Result<(), String>,
)
    requires
        call_ensures(check_commit_pair, (overlay, backing), r),
    ensures
        r is Ok <==> overlay.format == backing.format && overlay.virtual_size
            <= backing.virtual_size && (overlay.cluster_size == backing.cluster_size
            || overlay.cluster_size == 0 || backing.cluster_size == 0),
{
}

/// The guest is told of each image what was found in it. The overlay is the
/// first device, the parents of the backing file follow, and the backing file
/// itself is the last one; it may grow to no less than it has already. A
/// commit is planned exactly where the devices suffice.
pub proof fn law_guest_is_told_of_both_images(
    args: &CommitArgs,
    overlay: &ProbedCommitTarget,
    backing: &ProbedCommitTarget,
    parents: &Vec<ChainImage>,
    backing_file_size: u64,
    r: Result<CommitPlan, String>,
)
    requires
        call_ensures(plan_commit, (args, overlay, backing, parents, backing_file_size), r),
    ensures
        r is Ok <==> device_total(parents@) < 16,
        r matches Ok(plan) ==> {
            let c = plan.config;
            &&& c.overlay_format == overlay.format
            &&& c.overlay_cluster_size == overlay.cluster_size
            &&& c.overlay_virtual_size == overlay.virtual_size
            &&& c.backing_format == backing.format
            &&& c.backing_cluster_size == backing.cluster_size
            &&& c.backing_virtual_size == backing.virtual_size
            &&& c.sector_size == 512
            &&& c.flags == if args.quiet {
                1u32
            } else {
                0u32
            }
            &&& c.backing_chain_first == 1
            &&& c.backing_chain_count == device_total(parents@)
            &&& plan.output_slot == 1 + device_total(parents@)
            &&& plan.input_count == plan.output_slot
            &&& plan.capacity_hint >= backing_file_size
            &&& 0x2000_0000 <= backing_file_size <= u64::MAX / 2 ==> plan.capacity_hint == 2
                * backing_file_size
        },
{
}

/// The devices of a commit are the overlay, as it was probed, and the parents
/// of the backing file in their order.
pub proof fn law_overlay_comes_before_the_parents(
    overlay: &ProbedCommitTarget,
    path: &str,
    format_code: u32,
    format_label: &str,
    file_size: u64,
    parents: Vec<ChainImage>,
    r: Vec<ChainImage>,
)
    requires
        call_ensures(
            commit_chain,
            (overlay, path, format_code, format_label, file_size, parents),
            r,
        ),
    ensures
        r@.len() == 1 + parents@.len(),
        r@[0].path@ == path@,
        r@[0].virtual_size == overlay.virtual_size,
        r@[0].actual_size == file_size,
        r@[0].format_code == format_code,
        r@[0].format_label@ == format_label@,
        r@[0].cluster_size == overlay.cluster_size,
        r@[0].flags == 0,
        r@[0].backing_file_raw is None && r@[0].external_data_files@.len() == 0,
        overlay.format == 2 <==> r@[0].format == ImageFormat::Qcow2,
        overlay.format == 3 <==> r@[0].format == ImageFormat::Vmdk4,
        forall|i: int| 0 <= i < parents@.len() ==> r@[i + 1] == #[trigger] parents@[i],
{
    assert forall|i: int| 0 <= i < parents@.len() implies r@[i + 1] == #[trigger] parents@[i] by {
        assert(r@.skip(1)[i] == r@[i + 1]);
    }
}

/// What the guest reported is kept, each count and each format in its place.
pub proof fn law_commit_report_is_kept(
    m: &CommitResultMessage,
    overlay_format: u32,
    backing_format: u32,
    r: CommitRunResult,
)
    requires
        call_ensures(harvest_commit, (m, overlay_format, backing_format), r),
    ensures
        r.clusters_committed == m.clusters_committed,
        r.bytes_committed == m.bytes_committed,
        r.overlay_clusters_cleared == m.overlay_clusters_cleared,
        r.error == m.error,
        m.overlay_format@ == "qcow2"@ || m.overlay_format@ == "vmdk"@ ==> format_name(
            r.overlay_format,
        ) == m.overlay_format@,
        m.backing_format@ == "qcow2"@ || m.backing_format@ == "vmdk"@ ==> format_name(
            r.backing_format,
        ) == m.backing_format@,
        m.overlay_format@ == "unknown"@ ==> r.overlay_format == overlay_format,
        m.backing_format@ == "unknown"@ ==> r.backing_format == backing_format,
{
    lemma_format_names_differ();
    law_named_format_is_echoed(m.overlay_format@, overlay_format);
    law_named_format_is_echoed(m.backing_format@, backing_format);
}

/// A commit succeeds exactly where the guest reports no error, and then gives
/// what the guest reported.
pub proof fn law_commit_succeeds_without_an_error(
    result: Option<CommitRunResult>,
    r: Result<CommitRunResult, String>,
)
    requires
        call_ensures(finish_commit, (result,), r),
    ensures
        r is Ok <==> result is Some && result->0.error == 0,
        r is Ok ==> Some(r->Ok_0) == result,
{
}

/// A quiet user is told nothing, people one line; JSON holds the names and
/// formats of both images and each count beside its name.
pub proof fn law_commit_report_holds_the_counts(
    args: &CommitArgs,
    backing_path: &str,
    result: &CommitRunResult,
    r: String,
)
    requires
        call_ensures(render_commit_success, (args, backing_path, result), r),
    ensures
        args.quiet ==> r@.len() == 0,
        !args.quiet && args.output@ != "json"@ ==> r@ == "Image committed.\n"@,
        !args.quiet && args.output@ == "json"@ ==> {
            &&& holds_part(
                r@,
                "{\n  \"overlay\": \""@ + escaped(args.filename@, EscapeStyle::Filename),
            )
            &&& holds_part(r@, "\",\n  \"overlay_format\": \""@ + format_name(result.overlay_format))
            &&& holds_part(
                r@,
                "\",\n  \"backing\": \""@ + escaped(backing_path@, EscapeStyle::Filename),
            )
            &&& holds_part(r@, "\",\n  \"backing_format\": \""@ + format_name(result.backing_format))
            &&& holds_part(
                r@,
                "\",\n  \"clusters_committed\": "@ + dec(result.clusters_committed as int),
            )
            &&& holds_part(r@, ",\n  \"bytes_committed\": "@ + dec(result.bytes_committed as int))
            &&& holds_part(
                r@,
                ",\n  \"overlay_clusters_cleared\": "@ + dec(
                    result.overlay_clusters_cleared as int,
                ),
            )
        },
{
    broadcast use {lemma_part_stays, lemma_last_part, lemma_first_part};

    reveal_strlit("");
}

/// Each error number of the guest is explained by what went wrong.
pub proof fn law_error_numbers_are_explained(code: u32, r: String)
    requires
        call_ensures(map_commit_error, (code,), r),
    ensures
        code == 0 ==> r@ == "ok"@,
        code == 1 ==> r@
            == "format does not support commit (qcow2 and vmdk only; commit between mismatched formats or cluster sizes is not yet supported)"@,
        code == 2 ==> r@ == "the overlay has no recorded backing file; pass -b to name one"@,
        code == 3 ==> r@
            == "qcow2 overlays with the external-data-file feature cannot be committed"@,
        code == 4 ==> r@
            == "LUKS-encrypted overlays and backings are not yet supported for commit"@,
        code == 5 ==> r@ == "the backing file is smaller than the overlay; cannot commit"@,
        code == 6 ==> r@ == "the overlay's virtual size exceeds the backing's virtual size"@,
        code == 7 ==> r@
            == "the overlay or backing header changed during commit, or a guest write failed; retry, or run `instar check` if the image may be corrupt"@,
        code == 8 ==> r@ == "the overlay is marked dirty or corrupt; run `instar check` first"@,
        code == 9 ==> r@ == "the backing is marked dirty or corrupt; run `instar check` first"@,
        code == 10 ==> r@ == "the overlay or backing is too large for the commit scratch buffer"@,
        code == 11 ==> r@
            == "the backing's refcount blocks are full; v1 doesn't append new ones. Fall back to `qemu-img commit`"@,
        code == 12 ==> r@ == "the overlay or backing header could not be parsed"@,
        code == 13 ==> r@ == "internal size or offset computation overflowed (host or guest bug)"@,
        code > 13 ==> r@ == "unknown commit error code "@ + dec(code as int),
{
}

/// A refused pair is told what does not fit, with what each of the two images
/// has.
pub proof fn law_refused_pair_is_told_why(
    overlay: &ProbedCommitTarget,
    backing: &ProbedCommitTarget,
    r: Result<(), String>,
)
    requires
        call_ensures(check_commit_pair, (overlay, backing), r),
        r is Err,
    ensures
        ({
            let e = r->Err_0@;
            let clusters = overlay.cluster_size != 0 && backing.cluster_size != 0
                && overlay.cluster_size != backing.cluster_size;
            &&& overlay.format != backing.format ==> holds_part(
                e,
                "commit: cross-format commit is not yet supported (overlay is "@ + format_name(
                    overlay.format,
                ),
            ) && holds_part(e, ", backing is "@ + format_name(backing.format))
            &&& overlay.format == backing.format && clusters ==> holds_part(
                e,
                "commit: cluster-size mismatch is not yet supported (overlay "@ + dec(
                    overlay.cluster_size as int,
                ),
            ) && holds_part(e, " B, backing "@ + dec(backing.cluster_size as int))
            &&& overlay.format == backing.format && !clusters ==> holds_part(
                e,
                "commit: overlay virtual size ("@ + dec(overlay.virtual_size as int),
            ) && holds_part(
                e,
                " B) exceeds backing virtual size ("@ + dec(backing.virtual_size as int),
            )
        }),
{
    broadcast use {lemma_part_stays, lemma_last_part, lemma_first_part};

}

/// A failed commit is told the guest's number and what it means; a refused
/// file is named.
pub proof fn law_failed_commit_is_told_why(
    result: CommitRunResult,
    r: Result<CommitRunResult, String>,
    detail: String,
    path: &str,
    found: bool,
    s: Result<(), String>,
)
    requires
        call_ensures(finish_commit, (Some(result),), r),
        call_ensures(map_commit_error, (result.error,), detail),
        call_ensures(check_backing_file, (path, found, false), s),
    ensures
        r matches Err(e) ==> e@ == "commit: guest reported error "@ + dec(result.error as int)
            + ": "@ + detail@,
        s is Err,
        holds_part(s->Err_0@, "commit: backing file '"@ + path@),
        found ==> holds_part(s->Err_0@, path@ + "' is not writable"@),
        !found ==> holds_part(s->Err_0@, path@ + "' does not exist"@),
{
    broadcast use {lemma_part_stays, lemma_last_part, lemma_first_part};

}

} // verus!
