//! Converting an image to another format.
use vstd::arithmetic::power2::pow2;
use vstd::prelude::*;
use crate::abi::{
    CONVERT_CONFIG_FLAG_COMPRESS, CONVERT_CONFIG_FLAG_ENCRYPT_LUKS,
    CONVERT_CONFIG_FLAG_EXTENDED_L2, CONVERT_CONFIG_FLAG_SKIP_ZEROS,
    CONVERT_CONFIG_FLAG_VERBOSE, CONVERT_CONFIG_MAGIC, GUEST_MEM_SIZE, IMAGE_FORMAT_QCOW2,
    IMAGE_FORMAT_RAW, IMAGE_FORMAT_VHD, IMAGE_FORMAT_VHDX, IMAGE_FORMAT_VMDK3,
    IMAGE_FORMAT_VMDK4, MAX_CHAIN_DEVICES, MAX_CLUSTER_SIZE,
};
use crate::bytes::{
    bit, bit_if, le_bytes, lemma_le_bytes_len, padded, push_bytes, push_padded, push_u32, push_u64,
    push_zeros, zeros,
};
use crate::chain::{device_total, total_devices, ChainImage};
use crate::formats::{format_name, lemma_format_names_differ, ImageFormat};
use crate::info::passphrase_bytes;
use crate::limits::{
    check_sector_size, is_power_of_two, power_exponent, power_of_two, sector_check,
    valid_sector_size,
};
use crate::luks::{KEY_BYTES, LUKS_DATA_BYTES};
use crate::message::CompleteMessage;
use crate::options::lemma_subformats_differ;
use crate::passphrase::{first_of, pick_passphrase, MAX_PASSPHRASE};
use crate::text::{between, byte_len, dec, name_of, number_between, outcome, push_dec, same};

verus! {

/// The arguments of a conversion.
#[derive(Debug)]
pub struct ConvertArgs {
    pub input: String,
    pub output: String,
    pub output_format: String,
    pub sector_size: u32,
    pub cluster_size: u32,
    pub compress: bool,
    pub skip_zeros: bool,
    pub no_skip_zeros: bool,
    pub progress_percent: u32,
    pub no_create: bool,
    pub extended_l2: bool,
    pub luks_encrypt_iterations: u32,
    pub snapshot: Option<String>,
    pub subformat: String,
    pub grain_size: u32,
    pub block_size: u32,
}

// ---------------------------------------------------------------------------
// The request
// ---------------------------------------------------------------------------

/// The code of an output format.
pub open spec fn output_code(name: Seq<char>) -> Option<u32> {
    if name == "raw"@ {
        Some(IMAGE_FORMAT_RAW)
    } else if name == "qcow2"@ {
        Some(IMAGE_FORMAT_QCOW2)
    } else if name == "vmdk"@ {
        Some(IMAGE_FORMAT_VMDK4)
    } else if name == "vpc"@ {
        Some(IMAGE_FORMAT_VHD)
    } else if name == "vhdx"@ {
        Some(IMAGE_FORMAT_VHDX)
    } else {
        None
    }
}

fn read_output_format(name: &str) -> (r: Option<u32>)
    ensures
        r == output_code(name@),
{
    if same(name, "raw") {
        Some(IMAGE_FORMAT_RAW)
    } else if same(name, "qcow2") {
        Some(IMAGE_FORMAT_QCOW2)
    } else if same(name, "vmdk") {
        Some(IMAGE_FORMAT_VMDK4)
    } else if same(name, "vpc") {
        Some(IMAGE_FORMAT_VHD)
    } else if same(name, "vhdx") {
        Some(IMAGE_FORMAT_VHDX)
    } else {
        None
    }
}

/// Whether a size is a power of two within bounds.
pub open spec fn sized(n: u32, least: u32, most: u32) -> bool {
    least <= n <= most && power_of_two(n as int)
}

fn is_sized(n: u32, least: u32, most: u32) -> (r: bool)
    ensures
        r == sized(n, least, most),
{
    least <= n && n <= most && is_power_of_two(n as u64)
}

/// What is wrong with the clusters, compression and grains that a conversion
/// asks for.
pub open spec fn unit_refusal(args: ConvertArgs, target: u32) -> Option<Seq<char>> {
    if target == IMAGE_FORMAT_QCOW2 && !sized(args.cluster_size, 512, 2097152) {
        Some(
            "cluster size must be a power of 2, 512 to 2097152 (got "@ + dec(
                args.cluster_size as int,
            ) + ")"@,
        )
    } else if args.compress && target != IMAGE_FORMAT_QCOW2 && target != IMAGE_FORMAT_VMDK4 {
        Some(
            "compression (-c) is only supported with QCOW2 (-O qcow2) or VMDK (-O vmdk) output"@,
        )
    } else if args.extended_l2 && target != IMAGE_FORMAT_QCOW2 {
        Some("--extended-l2 is only supported with QCOW2 (-O qcow2) output"@)
    } else if target == IMAGE_FORMAT_VMDK4 && !sized(args.grain_size, 4096, 65536) {
        Some(
            "grain size must be a power of 2, 4096 to 65536 (got "@ + dec(args.grain_size as int)
                + ")"@,
        )
    } else if args.grain_size != 65536 && target != IMAGE_FORMAT_VMDK4 {
        Some("--grain-size is only supported with VMDK (-O vmdk) output"@)
    } else {
        None
    }
}

fn check_units(args: &ConvertArgs, target: u32) -> (r: Result<(), String>)
    ensures
        match unit_refusal(*args, target) {
            Some(e) => r is Err && r->Err_0@ == e,
            None => r is Ok,
        },
{
    if target == IMAGE_FORMAT_QCOW2 && !is_sized(args.cluster_size, 512, 2097152) {
        return Err(
            number_between(
                "cluster size must be a power of 2, 512 to 2097152 (got ",
                args.cluster_size as u64,
                ")",
            ),
        );
    }
    if args.compress && target != IMAGE_FORMAT_QCOW2 && target != IMAGE_FORMAT_VMDK4 {
        return Err(
            "compression (-c) is only supported with QCOW2 (-O qcow2) or VMDK (-O vmdk) output".to_owned(),
        );
    }
    if args.extended_l2 && target != IMAGE_FORMAT_QCOW2 {
        return Err("--extended-l2 is only supported with QCOW2 (-O qcow2) output".to_owned());
    }
    if target == IMAGE_FORMAT_VMDK4 && !is_sized(args.grain_size, 4096, 65536) {
        return Err(
            number_between(
                "grain size must be a power of 2, 4096 to 65536 (got ",
                args.grain_size as u64,
                ")",
            ),
        );
    }
    if args.grain_size != 65536 && target != IMAGE_FORMAT_VMDK4 {
        return Err("--grain-size is only supported with VMDK (-O vmdk) output".to_owned());
    }
    Ok(())
}

/// Whether a subformat puts the data of a VMDK image in a file of its own.
pub open spec fn is_flat(subformat: Seq<char>) -> bool {
    subformat.len() > 0 && subformat == "monolithicFlat"@
}

/// What is wrong with the VMDK subformat that a conversion asks for.
pub open spec fn subformat_refusal(args: ConvertArgs, target: u32) -> Option<Seq<char>> {
    let s = args.subformat@;
    if s.len() == 0 {
        None
    } else if target != IMAGE_FORMAT_VMDK4 {
        Some("--subformat is only supported with VMDK (-O vmdk) output"@)
    } else if s == "monolithicFlat"@ {
        if args.compress {
            Some("compression (-c) is not supported with monolithicFlat subformat"@)
        } else {
            None
        }
    } else if s == "monolithicSparse"@ || s == "streamOptimized"@ {
        None
    } else {
        Some(
            "unsupported VMDK subformat '"@ + s
                + "' (supported: 'monolithicSparse', 'streamOptimized', 'monolithicFlat')"@,
        )
    }
}

fn check_subformat(args: &ConvertArgs, target: u32) -> (r: Result<bool, String>)
    ensures
        match subformat_refusal(*args, target) {
            Some(e) => r is Err && r->Err_0@ == e,
            None => r == Ok::<bool, String>(is_flat(args.subformat@)),
        },
{
    let s = args.subformat.as_str();
    if s.is_empty() {
        return Ok(false);
    }
    if target != IMAGE_FORMAT_VMDK4 {
        return Err("--subformat is only supported with VMDK (-O vmdk) output".to_owned());
    }
    if same(s, "monolithicFlat") {
        if args.compress {
            return Err(
                "compression (-c) is not supported with monolithicFlat subformat".to_owned(),
            );
        }
        return Ok(true);
    }
    if same(s, "monolithicSparse") || same(s, "streamOptimized") {
        return Ok(false);
    }
    Err(
        between(
            "unsupported VMDK subformat '",
            s,
            "' (supported: 'monolithicSparse', 'streamOptimized', 'monolithicFlat')",
        ),
    )
}

/// What is wrong with the block size that a conversion asks for; 0 leaves it
/// to the format.
pub open spec fn block_refusal(size: u32, target: u32) -> Option<Seq<char>> {
    if size == 0 {
        None
    } else if target != IMAGE_FORMAT_VHD && target != IMAGE_FORMAT_VHDX {
        Some("--block-size is only supported with VHD (-O vpc) or VHDX (-O vhdx) output"@)
    } else if !power_of_two(size as int) {
        Some("block size must be a power of 2 (got "@ + dec(size as int) + ")"@)
    } else if target == IMAGE_FORMAT_VHD && (size < 524288 || size > 268435456) {
        Some("VHD block size must be 524288 to 268435456 (got "@ + dec(size as int) + ")"@)
    } else if target == IMAGE_FORMAT_VHDX && (size < 1048576 || size > 268435456) {
        Some("VHDX block size must be 1048576 to 268435456 (got "@ + dec(size as int) + ")"@)
    } else {
        None
    }
}

fn check_block_size(size: u32, target: u32) -> (r: Result<(), String>)
    ensures
        match block_refusal(size, target) {
            Some(e) => r is Err && r->Err_0@ == e,
            None => r is Ok,
        },
{
    if size == 0 {
        return Ok(());
    }
    if target != IMAGE_FORMAT_VHD && target != IMAGE_FORMAT_VHDX {
        return Err(
            "--block-size is only supported with VHD (-O vpc) or VHDX (-O vhdx) output".to_owned(),
        );
    }
    if !is_power_of_two(size as u64) {
        return Err(number_between("block size must be a power of 2 (got ", size as u64, ")"));
    }
    if target == IMAGE_FORMAT_VHD && (size < 524288 || size > 268435456) {
        return Err(
            number_between("VHD block size must be 524288 to 268435456 (got ", size as u64, ")"),
        );
    }
    if target == IMAGE_FORMAT_VHDX && (size < 1048576 || size > 268435456) {
        return Err(
            number_between("VHDX block size must be 1048576 to 268435456 (got ", size as u64, ")"),
        );
    }
    Ok(())
}

/// What a conversion makes.
#[derive(Debug, Clone, Copy, PartialEq, Eq, Structural)]
pub struct ConvertTarget {
    pub format: u32,
    /// Whether the data goes to a file of its own.
    pub flat: bool,
}

/// What a conversion makes, or why it is refused.
pub open spec fn convert_target(args: ConvertArgs) -> Result<ConvertTarget, Seq<char>> {
    match output_code(args.output_format@) {
        None => Err(
            "unsupported output format '"@ + args.output_format@
                + "' (supported: 'raw', 'qcow2', 'vmdk', 'vpc', 'vhdx')"@,
        ),
        Some(target) => match sector_check(""@, args.sector_size) {
            Err(e) => Err(e),
            Ok(()) => match unit_refusal(args, target) {
                Some(e) => Err(e),
                None => match subformat_refusal(args, target) {
                    Some(e) => Err(e),
                    None => match block_refusal(args.block_size, target) {
                        Some(e) => Err(e),
                        None => Ok(
                            ConvertTarget { format: target, flat: is_flat(args.subformat@) },
                        ),
                    },
                },
            },
        },
    }
}

/// Reads the request of a conversion.
pub fn read_convert_target(args: &ConvertArgs) -> (r: Result<ConvertTarget, String>)
    ensures
        outcome(r) == convert_target(*args),
{
    let target: u32 = match read_output_format(args.output_format.as_str()) {
        Some(t) => t,
        None => return Err(
            between(
                "unsupported output format '",
                args.output_format.as_str(),
                "' (supported: 'raw', 'qcow2', 'vmdk', 'vpc', 'vhdx')",
            ),
        ),
    };
    match check_sector_size("", args.sector_size) {
        Ok(()) => {},
        Err(e) => return Err(e),
    }
    match check_units(args, target) {
        Ok(()) => {},
        Err(e) => return Err(e),
    }
    let flat = match check_subformat(args, target) {
        Ok(f) => f,
        Err(e) => return Err(e),
    };
    match check_block_size(args.block_size, target) {
        Ok(()) => {},
        Err(e) => return Err(e),
    }
    Ok(ConvertTarget { format: target, flat })
}

/// Refuses to encrypt what cannot be encrypted.
pub fn check_encryption(target: ConvertTarget, compress: bool, encrypts: bool) -> (r: Result<
    (),
    String,
>)
    ensures
        outcome(r) == if encrypts && target.format != IMAGE_FORMAT_QCOW2 {
            Err("--luks-encrypt-passphrase is only supported with QCOW2 (-O qcow2) output"@)
        } else if encrypts && compress {
            Err("--luks-encrypt-passphrase cannot be combined with -c (compression)"@)
        } else {
            Ok(())
        },
{
    if encrypts && target.format != IMAGE_FORMAT_QCOW2 {
        return Err(
            "--luks-encrypt-passphrase is only supported with QCOW2 (-O qcow2) output".to_owned(),
        );
    }
    if encrypts && compress {
        return Err(
            "--luks-encrypt-passphrase cannot be combined with -c (compression)".to_owned(),
        );
    }
    Ok(())
}

/// Decides whether zeros are left out: the command line goes before the
/// configuration, and by default they are.
pub fn skips_zeros(args: &ConvertArgs, configured: Option<bool>) -> (r: bool)
    ensures
        r == if args.no_skip_zeros {
            false
        } else if args.skip_zeros {
            true
        } else {
            configured != Some(false)
        },
{
    if args.no_skip_zeros {
        false
    } else if args.skip_zeros {
        true
    } else {
        match configured {
            Some(b) => b,
            None => true,
        }
    }
}

// ---------------------------------------------------------------------------
// The input
// ---------------------------------------------------------------------------

/// Whether the clusters of an image are larger than a guest can read. The
/// blocks of VHD and VHDX images, which may be, are read otherwise.
pub open spec fn too_coarse(image: ChainImage) -> bool {
    image.format != ImageFormat::Vhd && image.format != ImageFormat::Vhdx && image.cluster_size
        > MAX_CLUSTER_SIZE
}

/// The refusal of an image whose clusters are too large.
pub open spec fn coarse_refusal(image: ChainImage) -> Seq<char> {
    "cluster size "@ + dec((image.cluster_size / 1024) as int) + "KB in "@ + image.path@
        + " exceeds maximum supported 2048KB"@
}

/// The first image of a chain whose clusters are too large, or its length.
pub open spec fn first_coarse(images: Seq<ChainImage>) -> int
    decreases images.len(),
{
    if images.len() == 0 || too_coarse(images.first()) {
        0
    } else {
        1 + first_coarse(images.drop_first())
    }
}

/// The virtual size of what a chain holds, or why it cannot be converted.
pub open spec fn convert_input(images: Seq<ChainImage>) -> Result<u64, Seq<char>> {
    let count = device_total(images);
    let coarse = first_coarse(images);
    if count + 1 > MAX_CHAIN_DEVICES {
        Err("chain depth "@ + dec(count) + " plus output device exceeds maximum of 16 devices"@)
    } else if coarse < images.len() {
        Err(coarse_refusal(images[coarse]))
    } else if images[0].virtual_size == 0 {
        Err("input image has zero virtual size"@)
    } else {
        Ok(images[0].virtual_size)
    }
}

proof fn lemma_first_coarse(images: Seq<ChainImage>, i: int)
    requires
        0 <= i <= images.len(),
        forall|k: int| 0 <= k < i ==> !too_coarse(#[trigger] images[k]),
    ensures
        first_coarse(images) >= i,
        i < images.len() && too_coarse(images[i]) ==> first_coarse(images) == i,
        first_coarse(images) <= images.len(),
    decreases images.len(),
{
    if images.len() > 0 {
        let rest = images.drop_first();
        if i > 0 {
            assert forall|k: int| 0 <= k < i - 1 implies !too_coarse(#[trigger] rest[k]) by {
                assert(rest[k] == images[k + 1]);
            }
            lemma_first_coarse(rest, i - 1);
            assert(!too_coarse(images[0]));
        } else {
            lemma_first_coarse(rest, 0);
        }
    }
}

/// Checks the chain that is converted, and finds its virtual size.
pub fn check_convert_input(images: &Vec<ChainImage>) -> (r: Result<u64, String>)
    requires
        images@.len() > 0,
        device_total(images@) <= usize::MAX,
    ensures
        outcome(r) == convert_input(images@),
{
    let count: usize = total_devices(images);
    if count >= MAX_CHAIN_DEVICES {
        return Err(
            number_between(
                "chain depth ",
                count as u64,
                " plus output device exceeds maximum of 16 devices",
            ),
        );
    }
    let mut i: usize = 0;
    while i < images.len()
        invariant
            i <= images@.len(),
            count < MAX_CHAIN_DEVICES,
            count == device_total(images@),
            forall|k: int| 0 <= k < i ==> !too_coarse(#[trigger] images@[k]),
        decreases images.len() - i,
    {
        let image = &images[i];
        if image.format != ImageFormat::Vhd && image.format != ImageFormat::Vhdx
            && image.cluster_size as usize > MAX_CLUSTER_SIZE {
            proof {
                lemma_first_coarse(images@, i as int);
            }
            let mut e = "cluster size ".to_owned();
            push_dec(&mut e, (image.cluster_size / 1024) as u64);
            e.append("KB in ");
            e.append(image.path.as_str());
            e.append(" exceeds maximum supported 2048KB");
            return Err(e);
        }
        i = i + 1;
    }
    proof {
        lemma_first_coarse(images@, i as int);
    }
    let size: u64 = images[0].virtual_size;
    if size == 0 {
        return Err("input image has zero virtual size".to_owned());
    }
    Ok(size)
}

// ---------------------------------------------------------------------------
// The output
// ---------------------------------------------------------------------------

/// A number, or the largest there is where it is larger.
pub open spec fn capped(n: int) -> u64 {
    if n > u64::MAX {
        u64::MAX
    } else {
        n as u64
    }
}

/// The blocks of a VHDX image.
pub const VHDX_BLOCK: u64 = 0x200_0000;

/// The room that metadata may take.
pub const METADATA_ROOM: u64 = 0xa0_0000;

/// Whether the output has a structure of its own, beside the data.
pub open spec fn structured(target: ConvertTarget) -> bool {
    target.format != IMAGE_FORMAT_RAW && !target.flat
}

/// How large the output may become: the data, and room for metadata where the
/// format has any. VHDX data comes in whole blocks.
pub open spec fn output_capacity(target: ConvertTarget, virtual_size: u64) -> u64 {
    if target.format == IMAGE_FORMAT_VHDX {
        let blocks = (virtual_size + VHDX_BLOCK - 1) / (VHDX_BLOCK as int);
        capped(blocks * VHDX_BLOCK + METADATA_ROOM)
    } else if structured(target) {
        capped(virtual_size + virtual_size / 100 + METADATA_ROOM)
    } else {
        virtual_size
    }
}

fn capacity_of(target: ConvertTarget, virtual_size: u64) -> (r: u64)
    ensures
        r == output_capacity(target, virtual_size),
{
    if target.format == IMAGE_FORMAT_VHDX {
        let whole: u64 = virtual_size / VHDX_BLOCK;
        let blocks: u64 = if virtual_size % VHDX_BLOCK == 0 {
            whole
        } else {
            whole + 1
        };
        assert(blocks == (virtual_size + VHDX_BLOCK - 1) / (VHDX_BLOCK as int));
        assert(0 <= blocks * VHDX_BLOCK <= 0x200_0000_0000_0000_0000_0000) by (nonlinear_arith)
            requires
                0 <= blocks <= 0xffff_ffff_ffff_ffff,
                VHDX_BLOCK == 0x200_0000,
        ;
        let n: u128 = blocks as u128 * VHDX_BLOCK as u128 + METADATA_ROOM as u128;
        if n > 0xffff_ffff_ffff_ffff {
            0xffff_ffff_ffff_ffff
        } else {
            n as u64
        }
    } else if target.format != IMAGE_FORMAT_RAW && !target.flat {
        let n: u128 = virtual_size as u128 + (virtual_size / 100) as u128 + METADATA_ROOM as u128;
        if n > 0xffff_ffff_ffff_ffff {
            0xffff_ffff_ffff_ffff
        } else {
            n as u64
        }
    } else {
        virtual_size
    }
}

/// How the output file is opened.
#[derive(Debug, Clone, Copy, PartialEq, Eq, Structural)]
pub enum OutputOpen {
    /// It is there already.
    Existing,
    /// It is created, and may become that large.
    Create { capacity: u64, sparse: bool },
}

/// How the output of a conversion is made.
#[derive(Debug, Clone, Copy, PartialEq, Eq, Structural)]
pub struct OutputPlan {
    /// The format that the guest writes: of a flat VMDK image, raw sectors.
    pub format: u32,
    pub capacity: u64,
    pub open: OutputOpen,
    pub sector_size: u32,
}

/// The sectors in which the output is written: small ones where compressed
/// clusters are packed, and none larger than a cluster.
pub open spec fn output_sector_size(args: ConvertArgs, target: u32) -> u32 {
    if (target == IMAGE_FORMAT_QCOW2 || target == IMAGE_FORMAT_VMDK4) && args.compress {
        512
    } else if target == IMAGE_FORMAT_QCOW2 && args.cluster_size < args.sector_size {
        args.cluster_size
    } else {
        args.sector_size
    }
}

/// How the output of a conversion is made.
pub open spec fn output_plan(
    args: ConvertArgs,
    target: ConvertTarget,
    virtual_size: u64,
    skip_zeros: bool,
) -> OutputPlan {
    let capacity = output_capacity(target, virtual_size);
    OutputPlan {
        format: if target.flat {
            IMAGE_FORMAT_RAW
        } else {
            target.format
        },
        capacity,
        open: if args.no_create {
            OutputOpen::Existing
        } else if structured(target) {
            OutputOpen::Create { capacity, sparse: true }
        } else {
            OutputOpen::Create { capacity: virtual_size, sparse: skip_zeros }
        },
        sector_size: output_sector_size(args, target.format),
    }
}

/// Plans the output of a conversion.
pub fn plan_output(
    args: &ConvertArgs,
    target: ConvertTarget,
    virtual_size: u64,
    skip_zeros: bool,
) -> (r: OutputPlan)
    ensures
        r == output_plan(*args, target, virtual_size, skip_zeros),
{
    let capacity: u64 = capacity_of(target, virtual_size);
    let sector_size: u32 = if (target.format == IMAGE_FORMAT_QCOW2 || target.format
        == IMAGE_FORMAT_VMDK4) && args.compress {
        512
    } else if target.format == IMAGE_FORMAT_QCOW2 && args.cluster_size < args.sector_size {
        args.cluster_size
    } else {
        args.sector_size
    };
    OutputPlan {
        format: if target.flat {
            IMAGE_FORMAT_RAW
        } else {
            target.format
        },
        capacity,
        open: if args.no_create {
            OutputOpen::Existing
        } else if target.format != IMAGE_FORMAT_RAW && !target.flat {
            OutputOpen::Create { capacity, sparse: true }
        } else {
            OutputOpen::Create { capacity: virtual_size, sparse: skip_zeros }
        },
        sector_size,
    }
}

/// The name of the file that holds the data of a flat VMDK image, from the
/// stem of the image's own name.
pub fn flat_extent_name(stem: Option<&str>) -> (r: String)
    ensures
        r@ == (match stem {
            Some(s) => s@,
            None => "output"@,
        }) + "-flat.vmdk"@,
{
    let mut r = match stem {
        Some(s) => s.to_owned(),
        None => "output".to_owned(),
    };
    r.append("-flat.vmdk");
    r
}

// ---------------------------------------------------------------------------
// The guest
// ---------------------------------------------------------------------------

/// What the guest is told of a conversion.
#[derive(Debug)]
pub struct ConvertConfig {
    pub flags: u32,
    pub input_device_count: u32,
    pub target_format: u32,
    pub output_cluster_bits: u32,
    pub passphrase_len: u32,
    pub passphrase: Vec<u8>,
    pub snapshot_id_len: u32,
    pub snapshot_id: Vec<u8>,
    pub argon2_mem_size: u64,
    pub luks_iterations: u32,
    pub luks_key_bytes: u32,
    /// Where the random data of the LUKS header stands.
    pub luks_data_addr: u64,
    pub luks_data_len: u64,
    pub grain_size: u32,
    pub block_size: u32,
}

impl ConvertConfig {
    /// The texts fit in their fields.
    pub open spec fn wf(self) -> bool {
        &&& self.passphrase@.len() <= 256
        &&& self.snapshot_id@.len() <= 64
    }
}

/// The bytes of the configuration, as the guest reads them.
pub open spec fn convert_config_bytes(c: ConvertConfig) -> Seq<u8> {
    le_bytes(CONVERT_CONFIG_MAGIC as int, 4)
        + le_bytes(c.flags as int, 4)
        + le_bytes(c.input_device_count as int, 4)
        + le_bytes(c.target_format as int, 4)
        + le_bytes(c.output_cluster_bits as int, 4)
        + le_bytes(c.passphrase_len as int, 4)
        + zeros(4)
        + padded(c.passphrase@, 256)
        + le_bytes(c.snapshot_id_len as int, 4)
        + zeros(4)
        + padded(c.snapshot_id@, 64)
        + zeros(4)
        + le_bytes(c.argon2_mem_size as int, 8)
        + le_bytes(c.luks_iterations as int, 4)
        + le_bytes(c.luks_key_bytes as int, 4)
        + le_bytes(c.luks_data_addr as int, 8)
        + le_bytes(c.luks_data_len as int, 8)
        + le_bytes(c.grain_size as int, 4)
        + le_bytes(c.block_size as int, 4)
}

/// Writes the configuration.
pub fn write_convert_config(c: &ConvertConfig) -> (b: Vec<u8>)
    requires
        c.wf(),
    ensures
        b@ == convert_config_bytes(*c),
{
    let mut b: Vec<u8> = Vec::new();
    push_u32(&mut b, CONVERT_CONFIG_MAGIC);
    assert(b@ =~= le_bytes(CONVERT_CONFIG_MAGIC as int, 4));
    push_u32(&mut b, c.flags);
    push_u32(&mut b, c.input_device_count);
    push_u32(&mut b, c.target_format);
    push_u32(&mut b, c.output_cluster_bits);
    push_u32(&mut b, c.passphrase_len);
    push_zeros(&mut b, 4);
    push_padded(&mut b, c.passphrase.as_slice(), 256);
    push_u32(&mut b, c.snapshot_id_len);
    push_zeros(&mut b, 4);
    push_padded(&mut b, c.snapshot_id.as_slice(), 64);
    push_zeros(&mut b, 4);
    push_u64(&mut b, c.argon2_mem_size);
    push_u32(&mut b, c.luks_iterations);
    push_u32(&mut b, c.luks_key_bytes);
    push_u64(&mut b, c.luks_data_addr);
    push_u64(&mut b, c.luks_data_len);
    push_u32(&mut b, c.grain_size);
    push_u32(&mut b, c.block_size);
    b
}

/// Each field of the configuration stands at its offset.
pub proof fn law_convert_config_layout(c: ConvertConfig)
    requires
        c.wf(),
    ensures
        convert_config_bytes(c).len() == 400,
        convert_config_bytes(c).subrange(0, 4) == le_bytes(0x434F4E56, 4),
        convert_config_bytes(c).subrange(4, 8) == le_bytes(c.flags as int, 4),
        convert_config_bytes(c).subrange(8, 12) == le_bytes(c.input_device_count as int, 4),
        convert_config_bytes(c).subrange(12, 16) == le_bytes(c.target_format as int, 4),
        convert_config_bytes(c).subrange(16, 20) == le_bytes(c.output_cluster_bits as int, 4),
        convert_config_bytes(c).subrange(20, 24) == le_bytes(c.passphrase_len as int, 4),
        convert_config_bytes(c).subrange(28, 284) == padded(c.passphrase@, 256),
        convert_config_bytes(c).subrange(284, 288) == le_bytes(c.snapshot_id_len as int, 4),
        convert_config_bytes(c).subrange(292, 356) == padded(c.snapshot_id@, 64),
        convert_config_bytes(c).subrange(360, 368) == le_bytes(c.argon2_mem_size as int, 8),
        convert_config_bytes(c).subrange(368, 372) == le_bytes(c.luks_iterations as int, 4),
        convert_config_bytes(c).subrange(372, 376) == le_bytes(c.luks_key_bytes as int, 4),
        convert_config_bytes(c).subrange(376, 384) == le_bytes(c.luks_data_addr as int, 8),
        convert_config_bytes(c).subrange(384, 392) == le_bytes(c.luks_data_len as int, 8),
        convert_config_bytes(c).subrange(392, 396) == le_bytes(c.grain_size as int, 4),
        convert_config_bytes(c).subrange(396, 400) == le_bytes(c.block_size as int, 4),
{
    broadcast use lemma_le_bytes_len;

    let b = convert_config_bytes(c);
    assert(b.subrange(0, 4) =~= le_bytes(CONVERT_CONFIG_MAGIC as int, 4));
    assert(b.subrange(4, 8) =~= le_bytes(c.flags as int, 4));
    assert(b.subrange(8, 12) =~= le_bytes(c.input_device_count as int, 4));
    assert(b.subrange(12, 16) =~= le_bytes(c.target_format as int, 4));
    assert(b.subrange(16, 20) =~= le_bytes(c.output_cluster_bits as int, 4));
    assert(b.subrange(20, 24) =~= le_bytes(c.passphrase_len as int, 4));
    assert(b.subrange(28, 284) =~= padded(c.passphrase@, 256));
    assert(b.subrange(284, 288) =~= le_bytes(c.snapshot_id_len as int, 4));
    assert(b.subrange(292, 356) =~= padded(c.snapshot_id@, 64));
    assert(b.subrange(360, 368) =~= le_bytes(c.argon2_mem_size as int, 8));
    assert(b.subrange(368, 372) =~= le_bytes(c.luks_iterations as int, 4));
    assert(b.subrange(372, 376) =~= le_bytes(c.luks_key_bytes as int, 4));
    assert(b.subrange(376, 384) =~= le_bytes(c.luks_data_addr as int, 8));
    assert(b.subrange(384, 392) =~= le_bytes(c.luks_data_len as int, 8));
    assert(b.subrange(392, 396) =~= le_bytes(c.grain_size as int, 4));
    assert(b.subrange(396, 400) =~= le_bytes(c.block_size as int, 4));
}

/// The flags for the guest.
pub open spec fn convert_flags(args: ConvertArgs, skip_zeros: bool, verbose: bool, encrypts: bool) -> u32 {
    bit(skip_zeros, CONVERT_CONFIG_FLAG_SKIP_ZEROS) | bit(
        args.compress,
        CONVERT_CONFIG_FLAG_COMPRESS,
    ) | bit(verbose, CONVERT_CONFIG_FLAG_VERBOSE) | bit(
        args.extended_l2,
        CONVERT_CONFIG_FLAG_EXTENDED_L2,
    ) | bit(encrypts, CONVERT_CONFIG_FLAG_ENCRYPT_LUKS)
}

/// The secrets of a conversion: those that open the input, and the one that
/// closes the output.
#[derive(Debug)]
pub struct ConvertSecrets {
    pub qcow2: Option<String>,
    pub luks: Option<String>,
    pub encrypt: Option<String>,
}

impl ConvertSecrets {
    /// What opens the input: a qcow2 password goes before a LUKS passphrase.
    pub open spec fn opens(self) -> Option<Seq<char>> {
        first_of(name_of(self.qcow2), name_of(self.luks))
    }
}

/// The bytes in the passphrase field: of the passphrase that closes the output
/// as many as fit, else those of the one that opens the input.
pub open spec fn secret_bytes(s: ConvertSecrets) -> Seq<u8> {
    match s.encrypt {
        Some(p) => {
            let bytes = vstd::utf8::encode_utf8(p@);
            if bytes.len() > MAX_PASSPHRASE {
                bytes.take(MAX_PASSPHRASE as int)
            } else {
                bytes
            }
        },
        None => passphrase_bytes(s.opens()),
    }
}

/// Why a conversion with these texts is refused.
pub open spec fn texts_refusal(s: ConvertSecrets, snapshot: Option<Seq<char>>) -> Option<
    Seq<char>,
> {
    if passphrase_bytes(s.opens()).len() > MAX_PASSPHRASE {
        Some("passphrase too long (max 256 bytes)"@)
    } else if passphrase_bytes(snapshot).len() > 64 {
        Some("Snapshot ID too long (max 64 bytes)"@)
    } else {
        None
    }
}

/// Whether a configuration is the one for a conversion.
pub open spec fn is_convert_config(
    c: ConvertConfig,
    args: ConvertArgs,
    target: ConvertTarget,
    skip_zeros: bool,
    verbose: bool,
    device_count: int,
    memory: u64,
    secrets: ConvertSecrets,
    luks_data_addr: u64,
) -> bool {
    let encrypts = secrets.encrypt is Some;
    &&& c.wf()
    &&& c.flags == convert_flags(args, skip_zeros, verbose, encrypts)
    &&& c.input_device_count == device_count
    &&& c.target_format == if target.flat {
        IMAGE_FORMAT_RAW
    } else {
        target.format
    }
    &&& if target.format == IMAGE_FORMAT_QCOW2 {
        pow2(c.output_cluster_bits as nat) == args.cluster_size
    } else {
        c.output_cluster_bits == 0
    }
    &&& c.passphrase@ == secret_bytes(secrets)
    &&& c.passphrase_len == secret_bytes(secrets).len()
    &&& c.snapshot_id@ == passphrase_bytes(name_of(args.snapshot))
    &&& c.snapshot_id_len == passphrase_bytes(name_of(args.snapshot)).len()
    &&& c.argon2_mem_size == if memory >= GUEST_MEM_SIZE {
        memory - GUEST_MEM_SIZE
    } else {
        0
    }
    &&& if encrypts {
        &&& c.luks_iterations == args.luks_encrypt_iterations
        &&& c.luks_key_bytes == KEY_BYTES
        &&& c.luks_data_addr == luks_data_addr
        &&& c.luks_data_len == LUKS_DATA_BYTES
    } else {
        &&& c.luks_iterations == 0
        &&& c.luks_key_bytes == 0
        &&& c.luks_data_addr == 0
        &&& c.luks_data_len == 0
    }
    &&& c.grain_size == args.grain_size
    &&& c.block_size == args.block_size
}

fn text_bytes(text: &Option<String>) -> (r: Vec<u8>)
    ensures
        r@ == passphrase_bytes(name_of(*text)),
{
    let mut r: Vec<u8> = Vec::new();
    match text {
        Some(t) => {
            push_bytes(&mut r, t.as_str().as_bytes());
        },
        None => {},
    }
    assert(r@ =~= passphrase_bytes(name_of(*text)));
    r
}

/// Plans what the guest is told. The user gives a passphrase that opens the
/// input or one that closes the output, not both.
pub fn plan_convert(
    args: &ConvertArgs,
    target: ConvertTarget,
    skip_zeros: bool,
    verbose: bool,
    device_count: usize,
    memory: u64,
    secrets: &ConvertSecrets,
    luks_data_addr: u64,
) -> (r: Result<ConvertConfig, String>)
    requires
        device_count < MAX_CHAIN_DEVICES,
        target.format == IMAGE_FORMAT_QCOW2 ==> power_of_two(args.cluster_size as int),
        secrets.encrypt is Some ==> secrets.opens() is None,
    ensures
        match texts_refusal(*secrets, name_of(args.snapshot)) {
            Some(e) => r is Err && r->Err_0@ == e,
            None => r is Ok && is_convert_config(
                r->Ok_0,
                *args,
                target,
                skip_zeros,
                verbose,
                device_count as int,
                memory,
                *secrets,
                luks_data_addr,
            ),
        },
{
    let opens = pick_passphrase(&secrets.qcow2, &secrets.luks);
    let mut passphrase = text_bytes(&opens);
    if passphrase.len() > MAX_PASSPHRASE {
        return Err("passphrase too long (max 256 bytes)".to_owned());
    }
    let snapshot_id = text_bytes(&args.snapshot);
    if snapshot_id.len() > 64 {
        return Err("Snapshot ID too long (max 64 bytes)".to_owned());
    }
    let encrypts = secrets.encrypt.is_some();
    if encrypts {
        passphrase = text_bytes(&secrets.encrypt);
        if passphrase.len() > MAX_PASSPHRASE {
            passphrase.truncate(MAX_PASSPHRASE);
        }
    }
    let passphrase_len: u32 = passphrase.len() as u32;
    let snapshot_id_len: u32 = snapshot_id.len() as u32;
    let output_cluster_bits: u32 = if target.format == IMAGE_FORMAT_QCOW2 {
        power_exponent(args.cluster_size as u64)
    } else {
        0
    };
    Ok(
        ConvertConfig {
            flags: bit_if(skip_zeros, CONVERT_CONFIG_FLAG_SKIP_ZEROS) | bit_if(
                args.compress,
                CONVERT_CONFIG_FLAG_COMPRESS,
            ) | bit_if(verbose, CONVERT_CONFIG_FLAG_VERBOSE) | bit_if(
                args.extended_l2,
                CONVERT_CONFIG_FLAG_EXTENDED_L2,
            ) | bit_if(encrypts, CONVERT_CONFIG_FLAG_ENCRYPT_LUKS),
            input_device_count: device_count as u32,
            target_format: if target.flat {
                IMAGE_FORMAT_RAW
            } else {
                target.format
            },
            output_cluster_bits,
            passphrase_len,
            passphrase,
            snapshot_id_len,
            snapshot_id,
            argon2_mem_size: memory.saturating_sub(GUEST_MEM_SIZE),
            luks_iterations: if encrypts {
                args.luks_encrypt_iterations
            } else {
                0
            },
            luks_key_bytes: if encrypts {
                KEY_BYTES as u32
            } else {
                0
            },
            luks_data_addr: if encrypts {
                luks_data_addr
            } else {
                0
            },
            luks_data_len: if encrypts {
                LUKS_DATA_BYTES as u64
            } else {
                0
            },
            grain_size: args.grain_size,
            block_size: args.block_size,
        },
    )
}

/// Decides whether a message says that the conversion failed.
pub fn reports_failure(m: &CompleteMessage) -> (r: bool)
    ensures
        r == (m.operation@ == "convert"@ && !m.success),
{
    same(m.operation.as_str(), "convert") && !m.success
}

/// How the files are finished after the guest ran.
#[derive(Debug, Clone, Copy, PartialEq, Eq, Structural)]
pub struct ConvertFinish {
    /// The sectors that the descriptor of a flat VMDK image speaks of.
    pub descriptor_sectors: Option<u64>,
    /// The length that the image file is given, where it is given one.
    pub output_length: Option<u64>,
    /// The length that the data file of a flat VMDK image is given.
    pub extent_length: Option<u64>,
}

/// How the files are finished. A raw image whose zeros were left out would end
/// at its last data, so it is given its full length.
pub open spec fn convert_finish(target: ConvertTarget, skip_zeros: bool, virtual_size: u64) -> ConvertFinish {
    ConvertFinish {
        descriptor_sectors: if target.flat {
            Some(virtual_size / 512)
        } else {
            None
        },
        output_length: if skip_zeros && !structured(target) && !target.flat {
            Some(virtual_size)
        } else {
            None
        },
        extent_length: if target.flat {
            Some(virtual_size)
        } else {
            None
        },
    }
}

/// Decides how the files are finished; a conversion that the guest reports as
/// failed has failed.
pub fn finish_convert(
    target: ConvertTarget,
    skip_zeros: bool,
    virtual_size: u64,
    failed: bool,
) -> (r: Result<ConvertFinish, String>)
    ensures
        outcome(r) == if failed {
            Err("convert operation failed"@)
        } else {
            Ok(convert_finish(target, skip_zeros, virtual_size))
        },
{
    if failed {
        return Err("convert operation failed".to_owned());
    }
    Ok(
        ConvertFinish {
            descriptor_sectors: if target.flat {
                Some(virtual_size / 512)
            } else {
                None
            },
            output_length: if skip_zeros && target.format == IMAGE_FORMAT_RAW && !target.flat {
                Some(virtual_size)
            } else {
                None
            },
            extent_length: if target.flat {
                Some(virtual_size)
            } else {
                None
            },
        },
    )
}

// ---------------------------------------------------------------------------
// Laws
// ---------------------------------------------------------------------------

/// The output always has room for the data.
pub proof fn law_output_has_room(target: ConvertTarget, virtual_size: u64)
    ensures
        output_capacity(target, virtual_size) >= virtual_size,
{
    let b = VHDX_BLOCK as int;
    let v = virtual_size as int;
    assert((v + b - 1) / b * b >= v) by (nonlinear_arith)
        requires
            b > 0,
            v >= 0,
    ;
}

/// What passes the checks can be planned: the clusters of a qcow2 image are a
/// power of two, and its sectors are no larger than they.
pub proof fn law_checked_request_can_be_planned(args: ConvertArgs)
    requires
        convert_target(args) is Ok,
    ensures
        ({
            let target = convert_target(args)->Ok_0;
            &&& target.format == IMAGE_FORMAT_QCOW2 ==> power_of_two(args.cluster_size as int)
                && output_sector_size(args, target.format) <= args.cluster_size
            &&& args.compress ==> target.format == IMAGE_FORMAT_QCOW2 || target.format
                == IMAGE_FORMAT_VMDK4
            &&& target.flat ==> target.format == IMAGE_FORMAT_VMDK4 && !args.compress
        }),
{
}

/// Each flag reads back from the flags.
pub proof fn law_convert_flags_read_back(
    args: ConvertArgs,
    skip_zeros: bool,
    verbose: bool,
    encrypts: bool,
)
    ensures
        ({
            let f = convert_flags(args, skip_zeros, verbose, encrypts);
            &&& f & CONVERT_CONFIG_FLAG_SKIP_ZEROS != 0 <==> skip_zeros
            &&& f & CONVERT_CONFIG_FLAG_COMPRESS != 0 <==> args.compress
            &&& f & CONVERT_CONFIG_FLAG_VERBOSE != 0 <==> verbose
            &&& f & CONVERT_CONFIG_FLAG_EXTENDED_L2 != 0 <==> args.extended_l2
            &&& f & CONVERT_CONFIG_FLAG_ENCRYPT_LUKS != 0 <==> encrypts
        }),
{
    let s = bit(skip_zeros, CONVERT_CONFIG_FLAG_SKIP_ZEROS);
    let c = bit(args.compress, CONVERT_CONFIG_FLAG_COMPRESS);
    let v = bit(verbose, CONVERT_CONFIG_FLAG_VERBOSE);
    let x = bit(args.extended_l2, CONVERT_CONFIG_FLAG_EXTENDED_L2);
    let e = bit(encrypts, CONVERT_CONFIG_FLAG_ENCRYPT_LUKS);
    assert((s | c | v | x | e) & 1 == s && (s | c | v | x | e) & 2 == c && (s | c | v | x | e)
        & 0x8000_0000 == v && (s | c | v | x | e) & 8 == x && (s | c | v | x | e) & 16 == e)
        by (bit_vector)
        requires
            s == 0 || s == 1,
            c == 0 || c == 2,
            v == 0 || v == 0x8000_0000,
            x == 0 || x == 8,
            e == 0 || e == 16,
    ;
}

/// What is converted is the image that the user named: whatever sizes the
/// images behind it have, the output is as large as the first of the chain.
pub proof fn law_output_is_as_large_as_the_named_image(
    images: &Vec<ChainImage>,
    others: &Vec<ChainImage>,
    r: Result<u64, String>,
    s: Result<u64, String>,
)
    requires
        images@.len() > 0,
        others@.len() > 0,
        images@[0] == others@[0],
        call_ensures(check_convert_input, (images,), r),
        call_ensures(check_convert_input, (others,), s),
    ensures
        r is Ok ==> r->Ok_0 == images@[0].virtual_size && r->Ok_0 > 0,
        r is Ok && s is Ok ==> r->Ok_0 == s->Ok_0,
{
}

/// The format that is written is the one that the user named, and the data of
/// a VMDK image goes to a file of its own exactly where the user says so.
pub proof fn law_named_format_is_written(args: &ConvertArgs, r: Result<ConvertTarget, String>)
    requires
        call_ensures(read_convert_target, (args,), r),
        r is Ok,
    ensures
        format_name(r->Ok_0.format) == args.output_format@,
        r->Ok_0.format != IMAGE_FORMAT_VMDK3,
        r->Ok_0.flat <==> args.subformat@ == "monolithicFlat"@,
{
    reveal_strlit("monolithicFlat");
}

/// A request is accepted exactly where the format is known, sectors have a size
/// that devices can have, and each option goes with the format: clusters and
/// extended entries with qcow2, grains and subformats with VMDK, compression
/// with these two, blocks with VHD and VHDX, each within the format's bounds.
pub proof fn law_request_is_accepted_where_it_fits(
    args: &ConvertArgs,
    r: Result<ConvertTarget, String>,
)
    requires
        call_ensures(read_convert_target, (args,), r),
    ensures
        r is Ok <==> {
            let f = args.output_format@;
            let s = args.subformat@;
            let cluster = args.cluster_size as int;
            let grain = args.grain_size as int;
            let block = args.block_size as int;
            &&& f == "raw"@ || f == "qcow2"@ || f == "vmdk"@ || f == "vpc"@ || f == "vhdx"@
            &&& valid_sector_size(args.sector_size)
            &&& f == "qcow2"@ ==> 512 <= cluster <= 0x20_0000 && power_of_two(cluster)
            &&& args.compress ==> f == "qcow2"@ || (f == "vmdk"@ && s != "monolithicFlat"@)
            &&& args.extended_l2 ==> f == "qcow2"@
            &&& f == "vmdk"@ ==> 0x1000 <= grain <= 0x1_0000 && power_of_two(grain)
            &&& f != "vmdk"@ ==> grain == 0x1_0000 && s.len() == 0
            &&& s.len() > 0 ==> s == "monolithicSparse"@ || s == "streamOptimized"@ || s
                == "monolithicFlat"@
            &&& block != 0 ==> power_of_two(block) && block <= 0x1000_0000 && ((f == "vpc"@
                && block >= 0x8_0000) || (f == "vhdx"@ && block >= 0x10_0000))
        },
{
    lemma_format_names_differ();
    lemma_subformats_differ();
    reveal_strlit("monolithicFlat");
    reveal_strlit("raw");
}

/// A chain is accepted exactly where its devices leave one for the output, a
/// guest can read the clusters of each image, and the named image is not
/// empty.
pub proof fn law_chain_is_accepted_where_it_can_be_read(
    images: &Vec<ChainImage>,
    r: Result<u64, String>,
)
    requires
        images@.len() > 0,
        call_ensures(check_convert_input, (images,), r),
    ensures
        r is Ok <==> {
            &&& device_total(images@) < 16
            &&& images@[0].virtual_size > 0
            &&& forall|i: int|
                0 <= i < images@.len() ==> (#[trigger] images@[i]).cluster_size <= 0x20_0000
                    || images@[i].format == ImageFormat::Vhd || images@[i].format
                    == ImageFormat::Vhdx
        },
{
    let n = first_coarse(images@);
    lemma_coarse_image_is_first(images@);
    if n < images@.len() {
        assert(too_coarse(images@[n]));
    } else {
        assert forall|i: int| 0 <= i < images@.len() implies (#[trigger] images@[i]).cluster_size
            <= 0x20_0000 || images@[i].format == ImageFormat::Vhd || images@[i].format
            == ImageFormat::Vhdx by {
            assert(!too_coarse(images@[i]));
        }
    }
}

/// The first image whose clusters are too large is one, and none before it is.
proof fn lemma_coarse_image_is_first(images: Seq<ChainImage>)
    ensures
        0 <= first_coarse(images) <= images.len(),
        first_coarse(images) < images.len() ==> too_coarse(images[first_coarse(images)]),
        forall|i: int| 0 <= i < first_coarse(images) ==> !too_coarse(#[trigger] images[i]),
    decreases images.len(),
{
    if images.len() > 0 && !too_coarse(images.first()) {
        let rest = images.drop_first();
        lemma_coarse_image_is_first(rest);
        assert forall|i: int| 0 <= i < first_coarse(images) implies !too_coarse(
            #[trigger] images[i],
        ) by {
            if i > 0 {
                assert(rest[i - 1] == images[i]);
            }
        }
    }
}

/// An output is encrypted only as qcow2 and uncompressed; where nothing is
/// encrypted, nothing is asked.
pub proof fn law_only_plain_qcow2_is_encrypted(
    target: ConvertTarget,
    compress: bool,
    encrypts: bool,
    r: Result<(), String>,
)
    requires
        call_ensures(check_encryption, (target, compress, encrypts), r),
    ensures
        r is Ok <==> !encrypts || (target.format == 2 && !compress),
{
}

/// Zeros are kept where the command line says so, and left out where it says
/// so and not both; the configuration decides where it says nothing, and
/// where it is silent too they are left out.
pub proof fn law_command_line_decides_on_zeros(
    args: &ConvertArgs,
    configured: Option<bool>,
    r: bool,
)
    requires
        call_ensures(skips_zeros, (args, configured), r),
    ensures
        args.no_skip_zeros ==> !r,
        args.skip_zeros && !args.no_skip_zeros ==> r,
        !args.skip_zeros && !args.no_skip_zeros && configured is Some ==> r == configured->0,
        !args.skip_zeros && !args.no_skip_zeros && configured is None ==> r,
{
}

/// The output has room for the data. A raw or flat one has exactly that; one
/// with a structure has ten megabytes beside the data, and a hundredth of it
/// more or, for VHDX, what fills its last block of 32 megabytes.
pub proof fn law_output_is_sized_for_its_format(
    args: &ConvertArgs,
    target: ConvertTarget,
    virtual_size: u64,
    skip_zeros: bool,
    r: OutputPlan,
)
    requires
        call_ensures(plan_output, (args, target, virtual_size, skip_zeros), r),
    ensures
        r.capacity >= virtual_size,
        target.format != 6 && (target.format == 1 || target.flat) ==> r.capacity == virtual_size,
        target.format != 6 && target.format != 1 && !target.flat && r.capacity < u64::MAX
            ==> r.capacity == virtual_size + virtual_size / 100 + 0xa0_0000,
        target.format == 6 && r.capacity < u64::MAX ==> {
            let data = r.capacity - 0xa0_0000;
            data % 0x200_0000 == 0 && virtual_size <= data < virtual_size + 0x200_0000
        },
        virtual_size <= 0x4000_0000_0000_0000 ==> r.capacity < u64::MAX,
{
    law_output_has_room(target, virtual_size);
}

/// The file is made unless it is there already, at the size that it may have,
/// and with holes where its format keeps track of them or zeros are left out.
/// The guest writes raw sectors to the data file of a flat image, and else the
/// target's format.
pub proof fn law_output_is_opened_as_asked(
    args: &ConvertArgs,
    target: ConvertTarget,
    virtual_size: u64,
    skip_zeros: bool,
    r: OutputPlan,
)
    requires
        call_ensures(plan_output, (args, target, virtual_size, skip_zeros), r),
    ensures
        target.flat ==> r.format == 1,
        !target.flat ==> r.format == target.format,
        args.no_create <==> r.open is Existing,
        r.open is Create && (target.flat || target.format == 1) ==> r.open->capacity
            == virtual_size && r.open->sparse == skip_zeros,
        r.open is Create && !target.flat && target.format != 1 ==> r.open->capacity == r.capacity
            && r.open->sparse,
        args.compress && (target.format == 2 || target.format == 3) ==> r.sector_size == 512,
        !args.compress && target.format == 2 ==> r.sector_size <= args.cluster_size && (
        r.sector_size == args.cluster_size || r.sector_size == args.sector_size) && r.sector_size
            <= args.sector_size,
        target.format != 2 && (!args.compress || target.format != 3) ==> r.sector_size
            == args.sector_size,
{
}

/// The data file of a flat image is named after the image.
pub proof fn law_extent_is_named_after_the_image(stem: Option<&str>, r: String)
    requires
        call_ensures(flat_extent_name, (stem,), r),
    ensures
        stem matches Some(s) ==> s@.is_prefix_of(r@),
        stem is None ==> "output"@.is_prefix_of(r@),
        "-flat.vmdk"@.is_suffix_of(r@),
        stem matches Some(s) ==> r@.len() == s@.len() + 10,
{
    reveal_strlit("-flat.vmdk");
    if stem is Some {
        assert(r@.subrange(0, stem->0@.len() as int) =~= stem->0@);
        assert(r@.subrange(r@.len() - 10, r@.len() as int) =~= "-flat.vmdk"@);
    } else {
        reveal_strlit("output");
        assert(r@.subrange(0, 6) =~= "output"@);
        assert(r@.subrange(r@.len() - 10, r@.len() as int) =~= "-flat.vmdk"@);
    }
}

/// The guest is told what the user asked for and what is attached; the format
/// that it is told is the one that the output is planned for.
pub proof fn law_guest_is_told_of_the_conversion(
    args: &ConvertArgs,
    target: ConvertTarget,
    skip_zeros: bool,
    verbose: bool,
    device_count: usize,
    memory: u64,
    secrets: &ConvertSecrets,
    luks_data_addr: u64,
    virtual_size: u64,
    r: Result<ConvertConfig, String>,
    plan: OutputPlan,
)
    requires
        call_ensures(
            plan_convert,
            (args, target, skip_zeros, verbose, device_count, memory, secrets, luks_data_addr),
            r,
        ),
        call_ensures(plan_output, (args, target, virtual_size, skip_zeros), plan),
        r is Ok,
    ensures
        ({
            let c = r->Ok_0;
            &&& c.target_format == plan.format
            &&& c.input_device_count == device_count
            &&& c.grain_size == args.grain_size
            &&& c.block_size == args.block_size
            &&& target.format == 2 ==> pow2(c.output_cluster_bits as nat) == args.cluster_size
            &&& target.format != 2 ==> c.output_cluster_bits == 0
            &&& args.snapshot matches Some(s) ==> vstd::utf8::decode_utf8(c.snapshot_id@) == s@
            &&& args.snapshot is None ==> c.snapshot_id@.len() == 0
            &&& c.snapshot_id_len == c.snapshot_id@.len()
            &&& memory >= 0x200_0000 ==> c.argon2_mem_size + 0x200_0000 == memory
            &&& memory < 0x200_0000 ==> c.argon2_mem_size == 0
            &&& c.flags & 1 != 0 <==> skip_zeros
            &&& c.flags & 2 != 0 <==> args.compress
            &&& c.flags & 8 != 0 <==> args.extended_l2
            &&& c.flags & 0x10 != 0 <==> secrets.encrypt is Some
            &&& c.flags & 0x8000_0000 != 0 <==> verbose
        }),
{
    law_convert_flags_read_back(*args, skip_zeros, verbose, secrets.encrypt is Some);
    if args.snapshot is Some {
        vstd::utf8::encode_utf8_decode_utf8(args.snapshot->0@);
    }
}

/// The passphrase that the guest gets is the one that closes the output, where
/// the output is closed, with the data that this takes; else the qcow2
/// password, else the LUKS passphrase, else none.
pub proof fn law_guest_gets_the_right_secret(
    args: &ConvertArgs,
    target: ConvertTarget,
    skip_zeros: bool,
    verbose: bool,
    device_count: usize,
    memory: u64,
    secrets: &ConvertSecrets,
    luks_data_addr: u64,
    r: Result<ConvertConfig, String>,
)
    requires
        call_ensures(
            plan_convert,
            (args, target, skip_zeros, verbose, device_count, memory, secrets, luks_data_addr),
            r,
        ),
        r is Ok,
    ensures
        ({
            let c = r->Ok_0;
            let secret = vstd::utf8::decode_utf8(c.passphrase@);
            &&& c.passphrase_len == c.passphrase@.len() && c.passphrase_len <= 256
            &&& secrets.encrypt is Some && byte_len(secrets.encrypt->0@) <= 256 ==> secret
                == secrets.encrypt->0@
            &&& secrets.encrypt is None && secrets.qcow2 is Some ==> secret == secrets.qcow2->0@
            &&& secrets.encrypt is None && secrets.qcow2 is None && secrets.luks is Some ==> secret
                == secrets.luks->0@
            &&& secrets.encrypt is None && secrets.qcow2 is None && secrets.luks is None
                ==> c.passphrase@.len() == 0
            &&& secrets.encrypt is Some ==> c.luks_iterations == args.luks_encrypt_iterations
                && c.luks_key_bytes == 64 && c.luks_data_addr == luks_data_addr && c.luks_data_len
                == 256100
            &&& secrets.encrypt is None ==> c.luks_iterations == 0 && c.luks_key_bytes == 0
                && c.luks_data_addr == 0 && c.luks_data_len == 0
        }),
{
    if secrets.encrypt is Some {
        vstd::utf8::encode_utf8_decode_utf8(secrets.encrypt->0@);
    }
    if secrets.qcow2 is Some {
        vstd::utf8::encode_utf8_decode_utf8(secrets.qcow2->0@);
    }
    if secrets.luks is Some {
        vstd::utf8::encode_utf8_decode_utf8(secrets.luks->0@);
    }
}

/// A conversion is planned exactly where the secret that opens the input has
/// up to 256 bytes and the snapshot's name up to 64.
pub proof fn law_convert_is_planned_where_texts_fit(
    args: &ConvertArgs,
    target: ConvertTarget,
    skip_zeros: bool,
    verbose: bool,
    device_count: usize,
    memory: u64,
    secrets: &ConvertSecrets,
    luks_data_addr: u64,
    r: Result<ConvertConfig, String>,
)
    requires
        call_ensures(
            plan_convert,
            (args, target, skip_zeros, verbose, device_count, memory, secrets, luks_data_addr),
            r,
        ),
    ensures
        r is Ok <==> {
            &&& secrets.qcow2 matches Some(p) ==> byte_len(p@) <= 256
            &&& secrets.qcow2 is None && secrets.luks is Some ==> byte_len(secrets.luks->0@)
                <= 256
            &&& args.snapshot matches Some(s) ==> byte_len(s@) <= 64
        },
{
}

/// A conversion fails exactly where the guest says of it that it did. A flat
/// image's data file is as long as the disk, and its descriptor speaks of that
/// many whole sectors; a raw image whose zeros were left out is given the
/// length of the disk; every other file keeps its own.
pub proof fn law_files_are_as_long_as_the_disk(
    target: ConvertTarget,
    skip_zeros: bool,
    virtual_size: u64,
    m: &CompleteMessage,
    failed: bool,
    r: Result<ConvertFinish, String>,
)
    requires
        call_ensures(reports_failure, (m,), failed),
        call_ensures(finish_convert, (target, skip_zeros, virtual_size, failed), r),
    ensures
        r is Err <==> m.operation@ == "convert"@ && !m.success,
        r matches Ok(f) ==> {
            &&& target.flat ==> f.extent_length == Some(virtual_size) && f.output_length is None
                && f.descriptor_sectors is Some && f.descriptor_sectors->0 * 512 <= virtual_size
                < f.descriptor_sectors->0 * 512 + 512
            &&& !target.flat ==> f.extent_length is None && f.descriptor_sectors is None
            &&& !target.flat && target.format == 1 && skip_zeros ==> f.output_length == Some(
                virtual_size,
            )
            &&& target.format != 1 || !skip_zeros ==> f.output_length is None
        },
{
}

} // verus!
