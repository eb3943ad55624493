//! Changing the backing file that an overlay refers to.
use vstd::prelude::*;
use crate::abi::{
    IMAGE_FORMAT_QCOW2, IMAGE_FORMAT_RAW, IMAGE_FORMAT_VMDK3, IMAGE_FORMAT_VMDK4, MAX_CHAIN_DEVICES,
    REBASE_CONFIG_FLAG_DETACH, REBASE_CONFIG_FLAG_QUIET, REBASE_CONFIG_FLAG_UNSAFE,
    REBASE_CONFIG_MAGIC, REBASE_CONFIG_MAX_BACKING, REBASE_RESULT_ERROR_BACKING_PATH_TOO_LONG,
    REBASE_RESULT_ERROR_CHAIN_DEPTH, REBASE_RESULT_ERROR_DESCRIPTOR_TOO_LARGE,
    REBASE_RESULT_ERROR_EXTERNAL_DATA_FILE, REBASE_RESULT_ERROR_HEADER_MISMATCH,
    REBASE_RESULT_ERROR_INTERNAL_OVERFLOW, REBASE_RESULT_ERROR_LUKS_UNSUPPORTED,
    REBASE_RESULT_ERROR_NEW_BACKING_INCOMPATIBLE, REBASE_RESULT_ERROR_OK,
    REBASE_RESULT_ERROR_OVERLAY_CORRUPT, REBASE_RESULT_ERROR_PARSE_FAILED,
    REBASE_RESULT_ERROR_REFCOUNT_EXHAUSTED, REBASE_RESULT_ERROR_SCRATCH_TOO_SMALL,
    REBASE_RESULT_ERROR_UNSUPPORTED_FORMAT,
};
use crate::bytes::{
    bit, bit_if, le_bytes, lemma_le_bytes_len, padded, push_bytes, push_padded, push_u32, push_u64,
    push_zeros, zeros,
};
use crate::capacity::{doubled, doubled_capacity};
use crate::chain::{device_total, lemma_devices_of_part, total_devices, ChainImage};
use crate::formats::{
    echoed_format, format_name, format_of_code, image_format_name, law_named_format_is_echoed,
    lemma_format_names_differ, read_echoed_format, ImageFormat,
};
use crate::json::{escaped, json_escape_string, EscapeStyle};
use crate::message::RebaseResultMessage;
use crate::paths::{join, joined};
use crate::resize::HeaderFacts;
use crate::text::{
    between, byte_len, byte_length, dec, holds_part, lemma_first_part, lemma_last_part,
    lemma_part_stays, name_of, number_between, outcome, push_dec, same,
};

verus! {

/// The arguments of a rebase.
#[derive(Debug)]
pub struct RebaseArgs {
    pub filename: String,
    pub format: Option<String>,
    /// The new backing file; an empty one detaches the overlay.
    pub backing: String,
    pub backing_format: Option<String>,
    pub unsafe_mode: bool,
    pub quiet: bool,
    pub output: String,
}

impl RebaseArgs {
    /// Whether the overlay is to lose its backing file.
    pub open spec fn detaches(self) -> bool {
        self.backing@.len() == 0
    }
}

/// What is known of the overlay before it is rebased.
#[derive(Debug, Clone, Copy, PartialEq, Eq, Structural)]
pub struct ProbedRebaseTarget {
    pub format: u32,
    pub current_virtual_size: u64,
    pub current_file_size: u64,
    pub overlay_cluster_size: u32,
}

// ---------------------------------------------------------------------------
// The overlay
// ---------------------------------------------------------------------------

/// Refuses an overlay that is not there.
pub fn check_rebase_overlay(args: &RebaseArgs, found: bool) -> (r: Result<(), String>)
    ensures
        outcome(r) == if found {
            Ok(())
        } else {
            Err("rebase: overlay '"@ + args.filename@ + "' does not exist"@)
        },
{
    if found {
        Ok(())
    } else {
        Err(between("rebase: overlay '", args.filename.as_str(), "' does not exist"))
    }
}

/// The format that the user forces, or none.
pub open spec fn forced_format(name: Option<Seq<char>>) -> Result<Option<ImageFormat>, Seq<char>> {
    match name {
        None => Ok(None),
        Some(n) => if n == "qcow2"@ {
            Ok(Some(ImageFormat::Qcow2))
        } else if n == "vmdk"@ {
            Ok(Some(ImageFormat::Vmdk4))
        } else {
            Err("rebase: format '"@ + n + "' is not supported (qcow2 and vmdk only)"@)
        },
    }
}

/// Reads the format that the user forces.
pub fn forced_rebase_format(args: &RebaseArgs) -> (r: Result<Option<ImageFormat>, String>)
    ensures
        outcome(r) == forced_format(name_of(args.format)),
{
    match &args.format {
        None => Ok(None),
        Some(n) => {
            if same(n.as_str(), "qcow2") {
                Ok(Some(ImageFormat::Qcow2))
            } else if same(n.as_str(), "vmdk") {
                Ok(Some(ImageFormat::Vmdk4))
            } else {
                Err(
                    between(
                        "rebase: format '",
                        n.as_str(),
                        "' is not supported (qcow2 and vmdk only)",
                    ),
                )
            }
        },
    }
}

/// What is known of an overlay of a detected format, or why it cannot be
/// rebased.
pub open spec fn probed_target(
    detected: ImageFormat,
    name: Seq<char>,
    file_size: u64,
    facts: HeaderFacts,
) -> Result<ProbedRebaseTarget, Seq<char>> {
    match detected {
        ImageFormat::Qcow2 => match facts.qcow2 {
            None => Err("rebase: failed to parse qcow2 header"@),
            Some(h) => Ok(
                ProbedRebaseTarget {
                    format: IMAGE_FORMAT_QCOW2,
                    current_virtual_size: h.virtual_size,
                    current_file_size: file_size,
                    overlay_cluster_size: h.cluster_size as u32,
                },
            ),
        },
        ImageFormat::Vmdk4 => match facts.vmdk_virtual_size {
            None => Err("rebase: failed to parse vmdk header"@),
            Some(v) => Ok(
                ProbedRebaseTarget {
                    format: IMAGE_FORMAT_VMDK4,
                    current_virtual_size: v,
                    current_file_size: file_size,
                    overlay_cluster_size: 0,
                },
            ),
        },
        _ => Err("rebase: format '"@ + name + "' does not support rebase (qcow2 and vmdk only)"@),
    }
}

/// Works out what is known of an overlay. `name` is the format's name in an
/// error.
pub fn probe_rebase_target(
    detected: ImageFormat,
    name: &str,
    file_size: u64,
    facts: &HeaderFacts,
) -> (r: Result<ProbedRebaseTarget, String>)
    ensures
        outcome(r) == probed_target(detected, name@, file_size, *facts),
{
    match detected {
        ImageFormat::Qcow2 => match facts.qcow2 {
            None => Err("rebase: failed to parse qcow2 header".to_owned()),
            Some(h) => Ok(
                ProbedRebaseTarget {
                    format: IMAGE_FORMAT_QCOW2,
                    current_virtual_size: h.virtual_size,
                    current_file_size: file_size,
                    overlay_cluster_size: h.cluster_size as u32,
                },
            ),
        },
        ImageFormat::Vmdk4 => match facts.vmdk_virtual_size {
            None => Err("rebase: failed to parse vmdk header".to_owned()),
            Some(v) => Ok(
                ProbedRebaseTarget {
                    format: IMAGE_FORMAT_VMDK4,
                    current_virtual_size: v,
                    current_file_size: file_size,
                    overlay_cluster_size: 0,
                },
            ),
        },
        _ => Err(
            between("rebase: format '", name, "' does not support rebase (qcow2 and vmdk only)"),
        ),
    }
}

// ---------------------------------------------------------------------------
// The new backing file
// ---------------------------------------------------------------------------

/// The path of the new backing file as seen from the overlay's directory, or
/// none where the overlay is detached.
pub fn new_backing_path(args: &RebaseArgs, overlay_dir: &str) -> (r: Option<String>)
    ensures
        name_of(r) == if args.detaches() {
            None
        } else {
            Some(joined(overlay_dir@, args.backing@))
        },
{
    if args.backing.as_str().is_empty() {
        None
    } else {
        Some(join(overlay_dir, args.backing.as_str()))
    }
}

/// Why a new backing file is refused: it is not there, and the user did not
/// say to trust them; or its path does not fit in the configuration.
pub open spec fn backing_refusal(
    args: RebaseArgs,
    resolved: Option<Seq<char>>,
    found: bool,
) -> Option<Seq<char>> {
    match resolved {
        Some(path) if !args.unsafe_mode && !found => Some(
            "rebase: new backing file '"@ + path
                + "' does not exist; pass -u to skip this check"@,
        ),
        _ => if byte_len(args.backing@) > REBASE_CONFIG_MAX_BACKING {
            Some(
                "rebase: backing path is "@ + dec(byte_len(args.backing@) as int)
                    + " bytes; maximum is 1024"@,
            )
        } else {
            None
        },
    }
}

/// Checks the new backing file.
pub fn check_new_backing(args: &RebaseArgs, resolved: &Option<String>, found: bool) -> (r: Result<
    (),
    String,
>)
    ensures
        match backing_refusal(*args, name_of(*resolved), found) {
            Some(e) => r is Err && r->Err_0@ == e,
            None => r is Ok,
        },
{
    match resolved {
        Some(path) => {
            if !args.unsafe_mode && !found {
                return Err(
                    between(
                        "rebase: new backing file '",
                        path.as_str(),
                        "' does not exist; pass -u to skip this check",
                    ),
                );
            }
        },
        None => {},
    }
    let len: usize = byte_length(args.backing.as_str());
    if len > REBASE_CONFIG_MAX_BACKING {
        return Err(number_between("rebase: backing path is ", len as u64, " bytes; maximum is 1024"));
    }
    Ok(())
}

/// The code of the backing format that the user names; 0 leaves it to the
/// guest to find out.
pub open spec fn backing_format_code(name: Option<Seq<char>>) -> Result<u32, Seq<char>> {
    match name {
        None => Ok(0),
        Some(n) => if n == "qcow2"@ {
            Ok(IMAGE_FORMAT_QCOW2)
        } else if n == "vmdk"@ {
            Ok(IMAGE_FORMAT_VMDK4)
        } else if n == "raw"@ {
            Ok(IMAGE_FORMAT_RAW)
        } else {
            Err("rebase: backing format '"@ + n + "' is not supported (qcow2, vmdk, raw only)"@)
        },
    }
}

fn read_backing_format(name: &Option<String>) -> (r: Result<u32, String>)
    ensures
        outcome(r) == backing_format_code(name_of(*name)),
{
    match name {
        None => Ok(0),
        Some(n) => {
            if same(n.as_str(), "qcow2") {
                Ok(IMAGE_FORMAT_QCOW2)
            } else if same(n.as_str(), "vmdk") {
                Ok(IMAGE_FORMAT_VMDK4)
            } else if same(n.as_str(), "raw") {
                Ok(IMAGE_FORMAT_RAW)
            } else {
                Err(
                    between(
                        "rebase: backing format '",
                        n.as_str(),
                        "' is not supported (qcow2, vmdk, raw only)",
                    ),
                )
            }
        },
    }
}

/// Says that a chain could not be discovered.
pub fn chain_failure(op: &str, cause: &str) -> (r: String)
    ensures
        r@ == op@ + ": "@ + cause@,
{
    between(op, ": ", cause)
}

// ---------------------------------------------------------------------------
// The guest
// ---------------------------------------------------------------------------

/// What the guest is told of a rebase.
#[derive(Debug)]
pub struct RebaseConfig {
    pub overlay_format: u32,
    /// 0 leaves it to the guest to find out.
    pub new_backing_format: u32,
    pub flags: u32,
    pub sector_size: u32,
    pub overlay_cluster_size: u32,
    pub overlay_virtual_size: u64,
    pub old_chain_first: u32,
    pub old_chain_count: u32,
    pub new_chain_first: u32,
    pub new_chain_count: u32,
    pub new_backing_path: Vec<u8>,
    pub new_backing_path_len: u32,
}

impl RebaseConfig {
    /// The texts fit in their fields.
    pub open spec fn wf(self) -> bool {
        self.new_backing_path@.len() <= 1024
    }
}

/// The bytes of the configuration, as the guest reads them.
pub open spec fn rebase_config_bytes(c: RebaseConfig) -> Seq<u8> {
    le_bytes(REBASE_CONFIG_MAGIC as int, 4)
        + le_bytes(c.overlay_format as int, 4)
        + le_bytes(c.new_backing_format as int, 4)
        + le_bytes(c.flags as int, 4)
        + le_bytes(c.sector_size as int, 4)
        + le_bytes(c.overlay_cluster_size as int, 4)
        + le_bytes(c.overlay_virtual_size as int, 8)
        + le_bytes(c.old_chain_first as int, 4)
        + le_bytes(c.old_chain_count as int, 4)
        + le_bytes(c.new_chain_first as int, 4)
        + le_bytes(c.new_chain_count as int, 4)
        + padded(c.new_backing_path@, 1024)
        + le_bytes(c.new_backing_path_len as int, 4)
        + zeros(60)
}

/// Writes the configuration.
pub fn write_rebase_config(c: &RebaseConfig) -> (b: Vec<u8>)
    requires
        c.wf(),
    ensures
        b@ == rebase_config_bytes(*c),
{
    let mut b: Vec<u8> = Vec::new();
    push_u32(&mut b, REBASE_CONFIG_MAGIC);
    assert(b@ =~= le_bytes(REBASE_CONFIG_MAGIC as int, 4));
    push_u32(&mut b, c.overlay_format);
    push_u32(&mut b, c.new_backing_format);
    push_u32(&mut b, c.flags);
    push_u32(&mut b, c.sector_size);
    push_u32(&mut b, c.overlay_cluster_size);
    push_u64(&mut b, c.overlay_virtual_size);
    push_u32(&mut b, c.old_chain_first);
    push_u32(&mut b, c.old_chain_count);
    push_u32(&mut b, c.new_chain_first);
    push_u32(&mut b, c.new_chain_count);
    push_padded(&mut b, c.new_backing_path.as_slice(), 1024);
    push_u32(&mut b, c.new_backing_path_len);
    push_zeros(&mut b, 60);
    b
}

/// Each field of the configuration stands at its offset.
pub proof fn law_rebase_config_layout(c: RebaseConfig)
    requires
        c.wf(),
    ensures
        rebase_config_bytes(c).len() == 1136,
        rebase_config_bytes(c).subrange(0, 4) == le_bytes(0x52454241, 4),
        rebase_config_bytes(c).subrange(4, 8) == le_bytes(c.overlay_format as int, 4),
        rebase_config_bytes(c).subrange(8, 12) == le_bytes(c.new_backing_format as int, 4),
        rebase_config_bytes(c).subrange(12, 16) == le_bytes(c.flags as int, 4),
        rebase_config_bytes(c).subrange(16, 20) == le_bytes(c.sector_size as int, 4),
        rebase_config_bytes(c).subrange(20, 24) == le_bytes(c.overlay_cluster_size as int, 4),
        rebase_config_bytes(c).subrange(24, 32) == le_bytes(c.overlay_virtual_size as int, 8),
        rebase_config_bytes(c).subrange(32, 36) == le_bytes(c.old_chain_first as int, 4),
        rebase_config_bytes(c).subrange(36, 40) == le_bytes(c.old_chain_count as int, 4),
        rebase_config_bytes(c).subrange(40, 44) == le_bytes(c.new_chain_first as int, 4),
        rebase_config_bytes(c).subrange(44, 48) == le_bytes(c.new_chain_count as int, 4),
        rebase_config_bytes(c).subrange(48, 1072) == padded(c.new_backing_path@, 1024),
        rebase_config_bytes(c).subrange(1072, 1076) == le_bytes(c.new_backing_path_len as int, 4),
{
    broadcast use lemma_le_bytes_len;

    let b = rebase_config_bytes(c);
    assert(b.subrange(0, 4) =~= le_bytes(REBASE_CONFIG_MAGIC as int, 4));
    assert(b.subrange(4, 8) =~= le_bytes(c.overlay_format as int, 4));
    assert(b.subrange(8, 12) =~= le_bytes(c.new_backing_format as int, 4));
    assert(b.subrange(12, 16) =~= le_bytes(c.flags as int, 4));
    assert(b.subrange(16, 20) =~= le_bytes(c.sector_size as int, 4));
    assert(b.subrange(20, 24) =~= le_bytes(c.overlay_cluster_size as int, 4));
    assert(b.subrange(24, 32) =~= le_bytes(c.overlay_virtual_size as int, 8));
    assert(b.subrange(32, 36) =~= le_bytes(c.old_chain_first as int, 4));
    assert(b.subrange(36, 40) =~= le_bytes(c.old_chain_count as int, 4));
    assert(b.subrange(40, 44) =~= le_bytes(c.new_chain_first as int, 4));
    assert(b.subrange(44, 48) =~= le_bytes(c.new_chain_count as int, 4));
    assert(b.subrange(48, 1072) =~= padded(c.new_backing_path@, 1024));
    assert(b.subrange(1072, 1076) =~= le_bytes(c.new_backing_path_len as int, 4));
}

/// How a rebase is run. The inputs are the overlay's old parents, then the new
/// chain; the overlay itself is the output.
#[derive(Debug)]
pub struct RebasePlan {
    pub capacity_hint: u64,
    pub config: RebaseConfig,
    /// Whether a device that holds nothing stands in for the inputs.
    pub stub_input: bool,
    pub input_count: usize,
    pub output_slot: usize,
}

/// The parents of an overlay: its chain without itself.
pub open spec fn parents(chain: Seq<ChainImage>) -> Seq<ChainImage> {
    if chain.len() == 0 {
        chain
    } else {
        chain.skip(1)
    }
}

/// The images of a chain that may be missing.
pub open spec fn chain_or_none(chain: Option<Vec<ChainImage>>) -> Seq<ChainImage> {
    match chain {
        Some(c) => c@,
        None => Seq::empty(),
    }
}

/// Leaves the overlay itself out of its chain.
pub fn without_overlay(chain: Vec<ChainImage>) -> (r: Vec<ChainImage>)
    ensures
        r@ == parents(chain@),
{
    let mut chain = chain;
    if chain.len() > 0 {
        let ghost before = chain@;
        chain.remove(0);
        assert(chain@ =~= before.skip(1));
    }
    chain
}

/// Puts the parents of the overlay and the new chain together, in the order in
/// which their devices are attached.
pub fn combined_chain(parents: Vec<ChainImage>, new_chain: Option<Vec<ChainImage>>) -> (r: Vec<
    ChainImage,
>)
    ensures
        r@ == parents@ + chain_or_none(new_chain),
{
    let mut all = parents;
    let ghost before = all@;
    match new_chain {
        Some(c) => {
            let mut c = c;
            all.append(&mut c);
        },
        None => {},
    }
    assert(all@ =~= before + chain_or_none(new_chain));
    all
}

/// The refusal of chains that are too long together.
pub open spec fn too_many_devices(parents: int, new: int) -> Seq<char> {
    "rebase: combined chain length ("@ + dec(parents) + " parents + "@ + dec(new)
        + " new chain) exceeds the 16-device limit"@
}

/// The flags for the guest.
pub open spec fn rebase_flags(args: RebaseArgs) -> u32 {
    bit(args.unsafe_mode, REBASE_CONFIG_FLAG_UNSAFE) | bit(args.quiet, REBASE_CONFIG_FLAG_QUIET)
        | bit(args.detaches(), REBASE_CONFIG_FLAG_DETACH)
}

/// Why a rebase with these chains is refused.
pub open spec fn plan_refusal(args: RebaseArgs, parents: Seq<ChainImage>, new: Seq<ChainImage>) -> Option<
    Seq<char>,
> {
    if parents.len() + device_total(new) > MAX_CHAIN_DEVICES {
        Some(too_many_devices(parents.len() as int, device_total(new)))
    } else {
        match backing_format_code(name_of(args.backing_format)) {
            Err(e) => Some(e),
            Ok(_) => None,
        }
    }
}

/// Whether a plan is the plan for a request.
pub open spec fn is_rebase_plan(
    plan: RebasePlan,
    args: RebaseArgs,
    probed: ProbedRebaseTarget,
    parents: Seq<ChainImage>,
    new: Seq<ChainImage>,
) -> bool {
    let old_count = device_total(parents);
    let new_count = device_total(new);
    let c = plan.config;
    &&& c.wf()
    &&& c.overlay_format == probed.format
    &&& backing_format_code(name_of(args.backing_format)) == Ok::<u32, Seq<char>>(
        c.new_backing_format,
    )
    &&& c.flags == rebase_flags(args)
    &&& c.sector_size == 512
    &&& c.overlay_cluster_size == probed.overlay_cluster_size
    &&& c.overlay_virtual_size == probed.current_virtual_size
    &&& c.old_chain_first == 0
    &&& c.old_chain_count == old_count
    &&& c.new_chain_first == old_count
    &&& c.new_chain_count == new_count
    &&& c.new_backing_path@ == vstd::utf8::encode_utf8(args.backing@)
    &&& c.new_backing_path_len == byte_len(args.backing@)
    &&& plan.capacity_hint == doubled(probed.current_file_size)
    &&& plan.stub_input == (old_count + new_count == 0)
    &&& plan.input_count == if old_count + new_count == 0 {
        1
    } else {
        old_count + new_count
    }
    &&& plan.output_slot == plan.input_count
}

/// Plans a rebase. Where there is no input at all, a device that holds nothing
/// stands in for one, because a guest always looks at its first device.
pub fn plan_rebase(
    args: &RebaseArgs,
    probed: &ProbedRebaseTarget,
    parents: &Vec<ChainImage>,
    new_chain: &Option<Vec<ChainImage>>,
) -> (r: Result<RebasePlan, String>)
    requires
        byte_len(args.backing@) <= REBASE_CONFIG_MAX_BACKING,
        device_total(parents@) + device_total(chain_or_none(*new_chain)) <= u32::MAX,
    ensures
        match plan_refusal(*args, parents@, chain_or_none(*new_chain)) {
            Some(e) => r is Err && r->Err_0@ == e,
            None => r is Ok && is_rebase_plan(
                r->Ok_0,
                *args,
                *probed,
                parents@,
                chain_or_none(*new_chain),
            ),
        },
{
    proof {
        crate::chain::law_device_total(parents@, 0);
        crate::chain::law_device_total(chain_or_none(*new_chain), 0);
    }
    let old_count: usize = total_devices(parents);
    let new_count: usize = match new_chain {
        Some(c) => total_devices(c),
        None => 0,
    };
    if parents.len() + new_count > MAX_CHAIN_DEVICES {
        let mut e = "rebase: combined chain length (".to_owned();
        push_dec(&mut e, parents.len() as u64);
        e.append(" parents + ");
        push_dec(&mut e, new_count as u64);
        e.append(" new chain) exceeds the 16-device limit");
        return Err(e);
    }
    let new_backing_format: u32 = match read_backing_format(&args.backing_format) {
        Ok(c) => c,
        Err(e) => return Err(e),
    };
    let backing = args.backing.as_str();
    let flags: u32 = bit_if(args.unsafe_mode, REBASE_CONFIG_FLAG_UNSAFE) | bit_if(
        args.quiet,
        REBASE_CONFIG_FLAG_QUIET,
    ) | bit_if(backing.is_empty(), REBASE_CONFIG_FLAG_DETACH);
    let mut path: Vec<u8> = Vec::new();
    push_bytes(&mut path, backing.as_bytes());
    assert(path@ =~= vstd::utf8::encode_utf8(args.backing@));
    let len: usize = path.len();
    let total: usize = old_count + new_count;
    let input_count: usize = if total == 0 {
        1
    } else {
        total
    };
    Ok(
        RebasePlan {
            capacity_hint: doubled_capacity(probed.current_file_size),
            config: RebaseConfig {
                overlay_format: probed.format,
                new_backing_format,
                flags,
                sector_size: 512,
                overlay_cluster_size: probed.overlay_cluster_size,
                overlay_virtual_size: probed.current_virtual_size,
                old_chain_first: 0,
                old_chain_count: old_count as u32,
                new_chain_first: old_count as u32,
                new_chain_count: new_count as u32,
                new_backing_path: path,
                new_backing_path_len: len as u32,
            },
            stub_input: total == 0,
            input_count,
            output_slot: input_count,
        },
    )
}

/// How data is carried over in a rebase.
#[derive(Debug, Clone, Copy, PartialEq, Eq, Structural)]
pub enum RebaseMode {
    Safe,
    Unsafe,
}

/// What the guest's result comes to.
#[derive(Debug, Clone, Copy, PartialEq, Eq, Structural)]
pub struct RebaseRunResult {
    pub overlay_format: u32,
    pub mode: RebaseMode,
    pub clusters_copied: u64,
    pub bytes_copied: u64,
    pub error: u32,
}

/// The mode that the guest names.
pub open spec fn echoed_mode(name: Seq<char>) -> RebaseMode {
    if name == "unsafe"@ {
        RebaseMode::Unsafe
    } else {
        RebaseMode::Safe
    }
}

/// Keeps what the guest reported.
pub fn harvest_rebase(m: &RebaseResultMessage, overlay_format: u32) -> (r: RebaseRunResult)
    ensures
        r == (RebaseRunResult {
            overlay_format: echoed_format(m.overlay_format@, overlay_format),
            mode: echoed_mode(m.mode@),
            clusters_copied: m.clusters_copied,
            bytes_copied: m.bytes_copied,
            error: m.error,
        }),
{
    RebaseRunResult {
        overlay_format: read_echoed_format(m.overlay_format.as_str(), overlay_format),
        mode: if same(m.mode.as_str(), "unsafe") {
            RebaseMode::Unsafe
        } else {
            RebaseMode::Safe
        },
        clusters_copied: m.clusters_copied,
        bytes_copied: m.bytes_copied,
        error: m.error,
    }
}

/// What an error code of the guest means.
pub open spec fn rebase_error(code: u32) -> Seq<char> {
    if code == REBASE_RESULT_ERROR_OK {
        "ok"@
    } else if code == REBASE_RESULT_ERROR_UNSUPPORTED_FORMAT {
        "format does not support rebase in this mode (qcow2 and vmdk only; safe mode for qcow2 only; vmdk safe mode not yet supported -- try -u)"@
    } else if code == REBASE_RESULT_ERROR_NEW_BACKING_INCOMPATIBLE {
        "new backing is incompatible with the overlay (virtual size too small or format unsupported)"@
    } else if code == REBASE_RESULT_ERROR_EXTERNAL_DATA_FILE {
        "qcow2 overlays with the external-data-file feature cannot be rebased"@
    } else if code == REBASE_RESULT_ERROR_LUKS_UNSUPPORTED {
        "LUKS-encrypted overlays and backings are not yet supported for rebase"@
    } else if code == REBASE_RESULT_ERROR_CHAIN_DEPTH {
        "the combined old and new backing chains exceed the maximum depth"@
    } else if code == REBASE_RESULT_ERROR_HEADER_MISMATCH {
        "the overlay's header changed during rebase, or a guest write failed; retry, or run `instar check` if the image may be corrupt"@
    } else if code == REBASE_RESULT_ERROR_OVERLAY_CORRUPT {
        "the overlay is marked dirty or corrupt; run `instar check` first"@
    } else if code == REBASE_RESULT_ERROR_BACKING_PATH_TOO_LONG {
        "the new backing path is longer than the overlay's existing slot, and long-path relocation is not yet supported in this release"@
    } else if code == REBASE_RESULT_ERROR_SCRATCH_TOO_SMALL {
        "the overlay is too large for the rebase scratch buffer"@
    } else if code == REBASE_RESULT_ERROR_REFCOUNT_EXHAUSTED {
        "the overlay's refcount blocks are full; v1 doesn't append new ones. Fall back to -u or use `qemu-img rebase`"@
    } else if code == REBASE_RESULT_ERROR_DESCRIPTOR_TOO_LARGE {
        "the vmdk descriptor slot is too small for the new backing reference"@
    } else if code == REBASE_RESULT_ERROR_PARSE_FAILED {
        "the overlay's header could not be parsed"@
    } else if code == REBASE_RESULT_ERROR_INTERNAL_OVERFLOW {
        "internal size or offset computation overflowed (host or guest bug)"@
    } else {
        "unknown rebase error code "@ + dec(code as int)
    }
}

/// What an error code of the guest means.
pub fn map_rebase_error(code: u32) -> (r: String)
    ensures
        r@ == rebase_error(code),
{
    if code == REBASE_RESULT_ERROR_OK {
        "ok".to_owned()
    } else if code == REBASE_RESULT_ERROR_UNSUPPORTED_FORMAT {
        "format does not support rebase in this mode (qcow2 and vmdk only; safe mode for qcow2 only; vmdk safe mode not yet supported -- try -u)".to_owned()
    } else if code == REBASE_RESULT_ERROR_NEW_BACKING_INCOMPATIBLE {
        "new backing is incompatible with the overlay (virtual size too small or format unsupported)".to_owned()
    } else if code == REBASE_RESULT_ERROR_EXTERNAL_DATA_FILE {
        "qcow2 overlays with the external-data-file feature cannot be rebased".to_owned()
    } else if code == REBASE_RESULT_ERROR_LUKS_UNSUPPORTED {
        "LUKS-encrypted overlays and backings are not yet supported for rebase".to_owned()
    } else if code == REBASE_RESULT_ERROR_CHAIN_DEPTH {
        "the combined old and new backing chains exceed the maximum depth".to_owned()
    } else if code == REBASE_RESULT_ERROR_HEADER_MISMATCH {
        "the overlay's header changed during rebase, or a guest write failed; retry, or run `instar check` if the image may be corrupt".to_owned()
    } else if code == REBASE_RESULT_ERROR_OVERLAY_CORRUPT {
        "the overlay is marked dirty or corrupt; run `instar check` first".to_owned()
    } else if code == REBASE_RESULT_ERROR_BACKING_PATH_TOO_LONG {
        "the new backing path is longer than the overlay's existing slot, and long-path relocation is not yet supported in this release".to_owned()
    } else if code == REBASE_RESULT_ERROR_SCRATCH_TOO_SMALL {
        "the overlay is too large for the rebase scratch buffer".to_owned()
    } else if code == REBASE_RESULT_ERROR_REFCOUNT_EXHAUSTED {
        "the overlay's refcount blocks are full; v1 doesn't append new ones. Fall back to -u or use `qemu-img rebase`".to_owned()
    } else if code == REBASE_RESULT_ERROR_DESCRIPTOR_TOO_LARGE {
        "the vmdk descriptor slot is too small for the new backing reference".to_owned()
    } else if code == REBASE_RESULT_ERROR_PARSE_FAILED {
        "the overlay's header could not be parsed".to_owned()
    } else if code == REBASE_RESULT_ERROR_INTERNAL_OVERFLOW {
        "internal size or offset computation overflowed (host or guest bug)".to_owned()
    } else {
        let mut s = "unknown rebase error code ".to_owned();
        push_dec(&mut s, code as u64);
        s
    }
}

/// What a run of the guest came to: nothing to add, or an error.
pub open spec fn rebase_outcome(result: Option<RebaseRunResult>) -> Result<RebaseRunResult, Seq<char>> {
    match result {
        None => Err("rebase: guest did not return a result"@),
        Some(r) => if r.error != REBASE_RESULT_ERROR_OK {
            Err("rebase: guest reported error "@ + dec(r.error as int) + ": "@ + rebase_error(r.error))
        } else {
            Ok(r)
        },
    }
}

/// Decides what a run of the guest came to.
pub fn finish_rebase(result: Option<RebaseRunResult>) -> (r: Result<RebaseRunResult, String>)
    ensures
        outcome(r) == rebase_outcome(result),
{
    let result = match result {
        Some(r) => r,
        None => return Err("rebase: guest did not return a result".to_owned()),
    };
    if result.error != REBASE_RESULT_ERROR_OK {
        let mut e = "rebase: guest reported error ".to_owned();
        push_dec(&mut e, result.error as u64);
        e.append(": ");
        e.append(map_rebase_error(result.error).as_str());
        return Err(e);
    }
    Ok(result)
}

/// The name of a mode.
pub open spec fn mode_name(mode: RebaseMode) -> Seq<char> {
    match mode {
        RebaseMode::Safe => "safe"@,
        RebaseMode::Unsafe => "unsafe"@,
    }
}

fn format_mode(mode: RebaseMode) -> (r: &'static str)
    ensures
        r@ == mode_name(mode),
{
    match mode {
        RebaseMode::Safe => "safe",
        RebaseMode::Unsafe => "unsafe",
    }
}

/// The part of the JSON report that every rebase has.
pub open spec fn rebase_json_head(args: RebaseArgs, result: RebaseRunResult) -> Seq<char> {
    "{\n  \"overlay\": \""@
        + escaped(args.filename@, EscapeStyle::Filename)
        + "\",\n  \"overlay_format\": \""@
        + format_name(result.overlay_format)
        + "\",\n  \"mode\": \""@
        + mode_name(result.mode)
        + "\",\n  \"clusters_copied\": "@
        + dec(result.clusters_copied as int)
        + ",\n  \"bytes_copied\": "@
        + dec(result.bytes_copied as int)
        + ",\n"@
}

/// The part of the JSON report that every rebase has.
fn format_rebase_json_head(args: &RebaseArgs, result: &RebaseRunResult) -> (r: String)
    ensures
        r@ == rebase_json_head(*args, *result),
{
    let mut s = "{\n  \"overlay\": \"".to_owned();
    s.append(json_escape_string(args.filename.as_str()).as_str());
    s.append("\",\n  \"overlay_format\": \"");
    s.append(image_format_name(result.overlay_format).to_owned().as_str());
    s.append("\",\n  \"mode\": \"");
    s.append(format_mode(result.mode).to_owned().as_str());
    s.append("\",\n  \"clusters_copied\": ");
    push_dec(&mut s, result.clusters_copied);
    s.append(",\n  \"bytes_copied\": ");
    push_dec(&mut s, result.bytes_copied);
    s.append(",\n");
    s
}

/// The report of a rebase.
pub open spec fn rebase_report(args: RebaseArgs, result: RebaseRunResult) -> Seq<char> {
    if args.quiet {
        ""@
    } else if args.output@ == "json"@ {
        if args.detaches() {
            rebase_json_head(args, result) + "  \"detached\": true\n}\n"@
        } else {
            rebase_json_head(args, result) + "  \"new_backing\": \""@ + escaped(
                args.backing@,
                EscapeStyle::Filename,
            ) + "\"\n}\n"@
        }
    } else if args.detaches() {
        "Image detached.\n"@
    } else {
        "Image rebased.\n"@
    }
}

/// Reports a rebase.
pub fn render_rebase_success(args: &RebaseArgs, result: &RebaseRunResult) -> (r: String)
    ensures
        r@ == rebase_report(*args, *result),
{
    if args.quiet {
        return "".to_owned();
    }
    let detaches = args.backing.as_str().is_empty();
    if same(args.output.as_str(), "json") {
        let mut s = format_rebase_json_head(args, result);
        if detaches {
            s.append("  \"detached\": true\n}\n");
        } else {
            s.append("  \"new_backing\": \"");
            s.append(json_escape_string(args.backing.as_str()).as_str());
            s.append("\"\n}\n");
        }
        s
    } else if detaches {
        "Image detached.\n".to_owned()
    } else {
        "Image rebased.\n".to_owned()
    }
}

// ---------------------------------------------------------------------------
// Laws
// ---------------------------------------------------------------------------

/// The old chain and the new one lie side by side in the numbering of the
/// devices, and the overlay follows them.
pub proof fn law_chains_lie_side_by_side(
    plan: RebasePlan,
    args: RebaseArgs,
    probed: ProbedRebaseTarget,
    parents: Seq<ChainImage>,
    new: Seq<ChainImage>,
)
    requires
        is_rebase_plan(plan, args, probed, parents, new),
        device_total(parents) + device_total(new) > 0,
    ensures
        plan.config.old_chain_first + plan.config.old_chain_count == plan.config.new_chain_first,
        plan.config.new_chain_first + plan.config.new_chain_count == plan.output_slot,
        device_total(parents + new) == plan.input_count,
{
    lemma_devices_of_part(parents, new);
}

/// Each flag reads back from the flags.
pub proof fn law_rebase_flags_read_back(args: RebaseArgs)
    ensures
        rebase_flags(args) & REBASE_CONFIG_FLAG_UNSAFE != 0 <==> args.unsafe_mode,
        rebase_flags(args) & REBASE_CONFIG_FLAG_QUIET != 0 <==> args.quiet,
        rebase_flags(args) & REBASE_CONFIG_FLAG_DETACH != 0 <==> args.detaches(),
{
    let u = bit(args.unsafe_mode, REBASE_CONFIG_FLAG_UNSAFE);
    let q = bit(args.quiet, REBASE_CONFIG_FLAG_QUIET);
    let d = bit(args.detaches(), REBASE_CONFIG_FLAG_DETACH);
    assert((u | q | d) & 1 == u && (u | q | d) & 2 == q && (u | q | d) & 4 == d) by (bit_vector)
        requires
            u == 0 || u == 1,
            q == 0 || q == 2,
            d == 0 || d == 4,
    ;
}

/// The format that a user names with `-F` is the one that the guest is told:
/// its code has that name, so that different names give different codes, and
/// without `-F` there is no code.
pub proof fn law_named_backing_format_is_planned(
    args: &RebaseArgs,
    probed: &ProbedRebaseTarget,
    parents: &Vec<ChainImage>,
    new_chain: &Option<Vec<ChainImage>>,
    r: Result<RebasePlan, String>,
)
    requires
        call_ensures(plan_rebase, (args, probed, parents, new_chain), r),
        r is Ok,
    ensures
        match args.backing_format {
            Some(name) => format_name(r->Ok_0.config.new_backing_format) == name@
                && r->Ok_0.config.new_backing_format != IMAGE_FORMAT_VMDK3,
            None => r->Ok_0.config.new_backing_format == 0,
        },
{
}

/// Two requests that are planned with the same backing format named the same
/// one.
pub proof fn law_backing_formats_are_told_apart(
    args: &RebaseArgs,
    other: &RebaseArgs,
    probed: &ProbedRebaseTarget,
    parents: &Vec<ChainImage>,
    new_chain: &Option<Vec<ChainImage>>,
    r: Result<RebasePlan, String>,
    s: Result<RebasePlan, String>,
)
    requires
        call_ensures(plan_rebase, (args, probed, parents, new_chain), r),
        call_ensures(plan_rebase, (other, probed, parents, new_chain), s),
        r is Ok,
        s is Ok,
        r->Ok_0.config.new_backing_format == s->Ok_0.config.new_backing_format,
    ensures
        name_of(args.backing_format) == name_of(other.backing_format),
{
    lemma_format_names_differ();
}

/// A rebase is planned exactly where the devices suffice and the backing
/// format is one that the guest can write down, or left open.
pub proof fn law_rebase_is_planned_where_it_fits(
    args: &RebaseArgs,
    probed: &ProbedRebaseTarget,
    parents: &Vec<ChainImage>,
    new_chain: &Option<Vec<ChainImage>>,
    r: Result<RebasePlan, String>,
)
    requires
        call_ensures(plan_rebase, (args, probed, parents, new_chain), r),
    ensures
        r is Ok <==> parents@.len() + device_total(chain_or_none(*new_chain)) <= 16 && (
        args.backing_format matches Some(name) ==> name@ == "qcow2"@ || name@ == "vmdk"@ || name@
            == "raw"@),
{
}

/// The guest is told of the overlay what was found in it, of the new backing
/// file the path that the user typed, and how many devices each chain has. The
/// output may grow to no less than the overlay has already.
pub proof fn law_guest_is_told_of_the_overlay(
    args: &RebaseArgs,
    probed: &ProbedRebaseTarget,
    parents: &Vec<ChainImage>,
    new_chain: &Option<Vec<ChainImage>>,
    r: Result<RebasePlan, String>,
)
    requires
        call_ensures(plan_rebase, (args, probed, parents, new_chain), r),
        r is Ok,
    ensures
        ({
            let plan = r->Ok_0;
            let c = plan.config;
            let inputs = device_total(parents@) + device_total(chain_or_none(*new_chain));
            &&& c.overlay_format == probed.format
            &&& c.overlay_virtual_size == probed.current_virtual_size
            &&& c.overlay_cluster_size == probed.overlay_cluster_size
            &&& c.sector_size == 512
            &&& vstd::utf8::decode_utf8(c.new_backing_path@) == args.backing@
            &&& c.new_backing_path_len == c.new_backing_path@.len()
            &&& c.old_chain_first == 0
            &&& c.old_chain_count == device_total(parents@)
            &&& c.new_chain_first == c.old_chain_count
            &&& c.new_chain_count == device_total(chain_or_none(*new_chain))
            &&& c.flags & 1 != 0 <==> args.unsafe_mode
            &&& c.flags & 2 != 0 <==> args.quiet
            &&& c.flags & 4 != 0 <==> args.backing@.len() == 0
            &&& plan.capacity_hint >= probed.current_file_size
            &&& 0x2000_0000 <= probed.current_file_size <= u64::MAX / 2 ==> plan.capacity_hint
                == 2 * probed.current_file_size
            &&& plan.stub_input <==> inputs == 0
            &&& inputs > 0 ==> plan.input_count == inputs
            &&& inputs == 0 ==> plan.input_count == 1
            &&& plan.output_slot == plan.input_count
        }),
{
    law_rebase_flags_read_back(*args);
    vstd::utf8::encode_utf8_decode_utf8(args.backing@);
}

/// An overlay is taken for what was detected: its code is that format's, and
/// its sizes are those that the header of that format gives. Only an overlay
/// of a format that can be rebased and whose header is read is taken at all.
pub proof fn law_overlay_is_taken_as_detected(
    detected: ImageFormat,
    name: &str,
    file_size: u64,
    facts: &HeaderFacts,
    r: Result<ProbedRebaseTarget, String>,
)
    requires
        call_ensures(probe_rebase_target, (detected, name, file_size, facts), r),
    ensures
        r is Ok <==> (detected == ImageFormat::Qcow2 && facts.qcow2 is Some) || (detected
            == ImageFormat::Vmdk4 && facts.vmdk_virtual_size is Some),
        r matches Ok(t) ==> {
            &&& format_of_code(t.format) == detected
            &&& t.current_file_size == file_size
            &&& detected == ImageFormat::Qcow2 ==> t.current_virtual_size
                == facts.qcow2->0.virtual_size && t.overlay_cluster_size
                == facts.qcow2->0.cluster_size as u32
            &&& detected == ImageFormat::Vmdk4 ==> Some(t.current_virtual_size)
                == facts.vmdk_virtual_size && t.overlay_cluster_size == 0
        },
{
}

/// The format that `-f` forces is the one that it names; any name but two is
/// refused, and without `-f` nothing is forced.
pub proof fn law_forced_overlay_format_is_the_named_one(
    args: &RebaseArgs,
    r: Result<Option<ImageFormat>, String>,
)
    requires
        call_ensures(forced_rebase_format, (args,), r),
    ensures
        args.format is None <==> outcome(r) == Ok::<Option<ImageFormat>, Seq<char>>(None),
        args.format is Some ==> {
            let name = args.format->0@;
            &&& name == "qcow2"@ <==> (r matches Ok(Some(f)) && f == ImageFormat::Qcow2)
            &&& name == "vmdk"@ <==> (r matches Ok(Some(f)) && f == ImageFormat::Vmdk4)
            &&& r is Err <==> name != "qcow2"@ && name != "vmdk"@
        },
{
    lemma_format_names_differ();
}

/// A new backing file must be there unless the user says to trust them, and
/// its path must fit; nothing else is asked. What is looked for is none where
/// the overlay is detached.
pub proof fn law_backing_must_be_there_or_trusted(
    args: &RebaseArgs,
    overlay_dir: &str,
    resolved: &Option<String>,
    found: bool,
    r: Result<(), String>,
)
    requires
        call_ensures(new_backing_path, (args, overlay_dir), *resolved),
        call_ensures(check_new_backing, (args, resolved, found), r),
    ensures
        resolved is None <==> args.backing@.len() == 0,
        *resolved matches Some(p) ==> p@ == joined(overlay_dir@, args.backing@),
        r is Ok <==> (found || args.unsafe_mode || args.backing@.len() == 0) && byte_len(
            args.backing@,
        ) <= 1024,
{
}

/// An overlay that is not there is refused, and no other.
pub proof fn law_missing_overlay_is_refused(args: &RebaseArgs, found: bool, r: Result<(), String>)
    requires
        call_ensures(check_rebase_overlay, (args, found), r),
    ensures
        r is Ok <==> found,
{
}

/// What the guest reported is kept: its counts, its error and the mode and the
/// format that it names.
pub proof fn law_rebase_report_is_kept(
    m: &RebaseResultMessage,
    overlay_format: u32,
    r: RebaseRunResult,
)
    requires
        call_ensures(harvest_rebase, (m, overlay_format), r),
    ensures
        r.clusters_copied == m.clusters_copied,
        r.bytes_copied == m.bytes_copied,
        r.error == m.error,
        r.mode == RebaseMode::Unsafe <==> m.mode@ == "unsafe"@,
        m.overlay_format@ == "qcow2"@ || m.overlay_format@ == "vmdk"@ || m.overlay_format@
            == "raw"@ ==> format_name(r.overlay_format) == m.overlay_format@,
        m.overlay_format@ != "qcow2"@ && m.overlay_format@ != "vmdk"@ && m.overlay_format@
            != "raw"@ ==> r.overlay_format == overlay_format,
{
    law_named_format_is_echoed(m.overlay_format@, overlay_format);
}

/// A rebase succeeds exactly where the guest reports no error, and then gives
/// what the guest reported.
pub proof fn law_rebase_succeeds_without_an_error(
    result: Option<RebaseRunResult>,
    r: Result<RebaseRunResult, String>,
)
    requires
        call_ensures(finish_rebase, (result,), r),
    ensures
        r is Ok <==> result is Some && result->0.error == 0,
        r is Ok ==> Some(r->Ok_0) == result,
{
}

/// The overlay is left out of its own chain and nothing else is, and the new
/// chain stands behind what is left, in order.
pub proof fn law_parents_come_before_the_new_chain(
    chain: Vec<ChainImage>,
    parents: Vec<ChainImage>,
    new_chain: Option<Vec<ChainImage>>,
    all: Vec<ChainImage>,
)
    requires
        chain@.len() > 0,
        call_ensures(without_overlay, (chain,), parents),
        call_ensures(combined_chain, (parents, new_chain), all),
    ensures
        all@.len() == chain@.len() - 1 + chain_or_none(new_chain).len(),
        forall|i: int| 0 < i < chain@.len() ==> all@[i - 1] == #[trigger] chain@[i],
        forall|i: int|
            0 <= i < chain_or_none(new_chain).len() ==> all@[chain@.len() - 1 + i]
                == #[trigger] chain_or_none(new_chain)[i],
{
}

/// A quiet user is told nothing; people are told whether the image was rebased
/// or detached; JSON holds the image's name and format, the mode, each count
/// beside its name, and the new backing file where there is one.
pub proof fn law_rebase_report_holds_the_counts(
    args: &RebaseArgs,
    result: &RebaseRunResult,
    r: String,
)
    requires
        call_ensures(render_rebase_success, (args, result), r),
    ensures
        args.quiet ==> r@.len() == 0,
        !args.quiet && args.output@ != "json"@ ==> r@ == if args.backing@.len() == 0 {
            "Image detached.\n"@
        } else {
            "Image rebased.\n"@
        },
        !args.quiet && args.output@ == "json"@ ==> {
            &&& holds_part(
                r@,
                "{\n  \"overlay\": \""@ + escaped(args.filename@, EscapeStyle::Filename),
            )
            &&& holds_part(r@, "\",\n  \"overlay_format\": \""@ + format_name(result.overlay_format))
            &&& result.mode == RebaseMode::Safe ==> holds_part(r@, "\",\n  \"mode\": \""@ + "safe"@)
            &&& result.mode == RebaseMode::Unsafe ==> holds_part(
                r@,
                "\",\n  \"mode\": \""@ + "unsafe"@,
            )
            &&& holds_part(
                r@,
                "\",\n  \"clusters_copied\": "@ + dec(result.clusters_copied as int),
            )
            &&& holds_part(r@, ",\n  \"bytes_copied\": "@ + dec(result.bytes_copied as int))
            &&& args.backing@.len() > 0 ==> holds_part(
                r@,
                "  \"new_backing\": \""@ + escaped(args.backing@, EscapeStyle::Filename),
            )
            &&& args.backing@.len() == 0 ==> holds_part(r@, ",\n"@ + "  \"detached\": true\n}\n"@)
        },
{
    broadcast use {lemma_part_stays, lemma_last_part, lemma_first_part};

    reveal_strlit("");
}

/// Each error number of the guest is explained by what went wrong.
pub proof fn law_error_numbers_are_explained(code: u32, r: String)
    requires
        call_ensures(map_rebase_error, (code,), r),
    ensures
        code == 0 ==> r@ == "ok"@,
        code == 1 ==> r@
            == "format does not support rebase in this mode (qcow2 and vmdk only; safe mode for qcow2 only; vmdk safe mode not yet supported -- try -u)"@,
        code == 2 ==> r@
            == "new backing is incompatible with the overlay (virtual size too small or format unsupported)"@,
        code == 3 ==> r@ == "qcow2 overlays with the external-data-file feature cannot be rebased"@,
        code == 4 ==> r@
            == "LUKS-encrypted overlays and backings are not yet supported for rebase"@,
        code == 5 ==> r@ == "the combined old and new backing chains exceed the maximum depth"@,
        code == 6 ==> r@
            == "the overlay's header changed during rebase, or a guest write failed; retry, or run `instar check` if the image may be corrupt"@,
        code == 7 ==> r@ == "the overlay is marked dirty or corrupt; run `instar check` first"@,
        code == 8 ==> r@
            == "the new backing path is longer than the overlay's existing slot, and long-path relocation is not yet supported in this release"@,
        code == 9 ==> r@ == "the overlay is too large for the rebase scratch buffer"@,
        code == 10 ==> r@
            == "the overlay's refcount blocks are full; v1 doesn't append new ones. Fall back to -u or use `qemu-img rebase`"@,
        code == 11 ==> r@ == "the vmdk descriptor slot is too small for the new backing reference"@,
        code == 12 ==> r@ == "the overlay's header could not be parsed"@,
        code == 13 ==> r@ == "internal size or offset computation overflowed (host or guest bug)"@,
        code > 13 ==> r@ == "unknown rebase error code "@ + dec(code as int),
{
}

/// A failed rebase is told the guest's number and what it means.
pub proof fn law_failed_rebase_is_told_why(
    result: RebaseRunResult,
    r: Result<RebaseRunResult, String>,
    detail: String,
)
    requires
        call_ensures(finish_rebase, (Some(result),), r),
        call_ensures(map_rebase_error, (result.error,), detail),
    ensures
        r matches Err(e) ==> e@ == "rebase: guest reported error "@ + dec(result.error as int)
            + ": "@ + detail@,
{
}

/// A rebase with too many devices is told how many each side has.
pub proof fn law_long_chains_are_counted(
    args: &RebaseArgs,
    probed: &ProbedRebaseTarget,
    parents: &Vec<ChainImage>,
    new_chain: &Option<Vec<ChainImage>>,
    r: Result<RebasePlan, String>,
)
    requires
        call_ensures(plan_rebase, (args, probed, parents, new_chain), r),
        parents@.len() + device_total(chain_or_none(*new_chain)) > 16,
    ensures
        r is Err,
        holds_part(
            r->Err_0@,
            "rebase: combined chain length ("@ + dec(parents@.len() as int),
        ),
        holds_part(
            r->Err_0@,
            " parents + "@ + dec(device_total(chain_or_none(*new_chain))),
        ),
{
    broadcast use {lemma_part_stays, lemma_last_part, lemma_first_part};

}

} // verus!
