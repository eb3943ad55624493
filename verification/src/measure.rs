//! Measuring the file that a conversion would make.
use vstd::prelude::*;
use crate::abi::{
    IMAGE_FORMAT_QCOW2, IMAGE_FORMAT_RAW, IMAGE_FORMAT_VHD, IMAGE_FORMAT_VHDX,
    IMAGE_FORMAT_VMDK3, IMAGE_FORMAT_VMDK4, MEASURE_CONFIG_FLAG_COMPAT_V3, MEASURE_CONFIG_FLAG_COMPRESS,
    MEASURE_CONFIG_FLAG_EXTENDED_L2, MEASURE_CONFIG_FLAG_LAZY_REFCOUNTS, MEASURE_CONFIG_MAGIC,
    MEASURE_CONFIG_PREALLOC_FALLOC, MEASURE_CONFIG_PREALLOC_FULL,
    MEASURE_CONFIG_PREALLOC_METADATA, MEASURE_CONFIG_PREALLOC_OFF,
};
use crate::bytes::{
    bit, bit_if, le_bytes, lemma_le_bytes_len, push_u32, push_u64, push_u8, push_zeros, zeros,
};
use crate::convert::output_code;
use crate::formats::format_name;
use crate::limits::{
    check_sector_size, is_power_of_two, power_of_two, sector_check, valid_sector_size,
};
use crate::measure_options::{
    measure_options, parse_o_options, MeasureOptionOverrides, MeasureOverrides,
};
use crate::options::{lemma_modes_differ, lemma_subformats_differ};
use crate::size::{memory_size, parse_memory_size};
use crate::text::{between, dec, name_of, number_between, outcome, same};

verus! {

/// The arguments of a measurement.
#[derive(Debug)]
pub struct MeasureArgs {
    pub input: Option<String>,
    pub size: Option<String>,
    pub target_format: String,
    pub output: String,
    pub sector_size: u32,
    pub cluster_size: u32,
    pub refcount_bits: u8,
    pub extended_l2: bool,
    pub lazy_refcounts: bool,
    pub compat: String,
    pub compress: bool,
    pub preallocation: String,
    pub subformat: String,
    pub grain_size: u32,
    pub block_size: u32,
    pub option: Vec<String>,
}

/// Whether a size is missing or one that a format could have.
pub open spec fn plausible_unit(n: u32) -> bool {
    n == 0 || n >= 512 && power_of_two(n as int)
}

fn is_plausible_unit(n: u32) -> (r: bool)
    ensures
        r == plausible_unit(n),
{
    n == 0 || n >= 512 && is_power_of_two(n as u64)
}

/// Whether reference counts can have that many bits.
pub open spec fn refcount_width(n: u8) -> bool {
    n == 1 || n == 2 || n == 4 || n == 8 || n == 16 || n == 32 || n == 64
}

/// What is plainly wrong with the arguments. The guest looks closer.
pub open spec fn argument_refusal(args: MeasureArgs) -> Option<Seq<char>> {
    if args.input is None && args.size is None {
        Some("measure: either --size or FILENAME must be provided"@)
    } else if sector_check(""@, args.sector_size) is Err {
        Some(sector_check(""@, args.sector_size)->Err_0)
    } else if !plausible_unit(args.cluster_size) {
        Some(
            "measure: --cluster-size must be a power of 2 >= 512 (got "@ + dec(
                args.cluster_size as int,
            ) + ")"@,
        )
    } else if args.refcount_bits != 0 && !refcount_width(args.refcount_bits) {
        Some(
            "measure: --refcount-bits must be one of 1,2,4,8,16,32,64 (got "@ + dec(
                args.refcount_bits as int,
            ) + ")"@,
        )
    } else if !plausible_unit(args.grain_size) {
        Some(
            "measure: --grain-size must be a power of 2 >= 512 (got "@ + dec(args.grain_size as int)
                + ")"@,
        )
    } else if !plausible_unit(args.block_size) {
        Some(
            "measure: --block-size must be a power of 2 >= 512 (got "@ + dec(args.block_size as int)
                + ")"@,
        )
    } else {
        None
    }
}

fn check_arguments(args: &MeasureArgs) -> (r: Result<(), String>)
    ensures
        match argument_refusal(*args) {
            Some(e) => r is Err && r->Err_0@ == e,
            None => r is Ok,
        },
{
    if args.input.is_none() && args.size.is_none() {
        return Err("measure: either --size or FILENAME must be provided".to_owned());
    }
    match check_sector_size("", args.sector_size) {
        Ok(()) => {},
        Err(e) => return Err(e),
    }
    if !is_plausible_unit(args.cluster_size) {
        return Err(
            number_between(
                "measure: --cluster-size must be a power of 2 >= 512 (got ",
                args.cluster_size as u64,
                ")",
            ),
        );
    }
    let bits: u8 = args.refcount_bits;
    if bits != 0 && !(bits == 1 || bits == 2 || bits == 4 || bits == 8 || bits == 16 || bits == 32
        || bits == 64) {
        return Err(
            number_between(
                "measure: --refcount-bits must be one of 1,2,4,8,16,32,64 (got ",
                bits as u64,
                ")",
            ),
        );
    }
    if !is_plausible_unit(args.grain_size) {
        return Err(
            number_between(
                "measure: --grain-size must be a power of 2 >= 512 (got ",
                args.grain_size as u64,
                ")",
            ),
        );
    }
    if !is_plausible_unit(args.block_size) {
        return Err(
            number_between(
                "measure: --block-size must be a power of 2 >= 512 (got ",
                args.block_size as u64,
                ")",
            ),
        );
    }
    Ok(())
}

/// The code of the target format.
pub open spec fn measure_target(name: Seq<char>) -> Result<u32, Seq<char>> {
    match output_code(name) {
        Some(c) => Ok(c),
        None => Err("measure: unsupported target format '"@ + name + "'"@),
    }
}

fn read_target(name: &str) -> (r: Result<u32, String>)
    ensures
        outcome(r) == measure_target(name@),
{
    if same(name, "raw") {
        Ok(IMAGE_FORMAT_RAW)
    } else if same(name, "qcow2") {
        Ok(IMAGE_FORMAT_QCOW2)
    } else if same(name, "vmdk") {
        Ok(IMAGE_FORMAT_VMDK4)
    } else if same(name, "vpc") {
        Ok(IMAGE_FORMAT_VHD)
    } else if same(name, "vhdx") {
        Ok(IMAGE_FORMAT_VHDX)
    } else {
        Err(between("measure: unsupported target format '", name, "'"))
    }
}

/// The bits that stand for a preallocation mode.
pub open spec fn prealloc_bits(mode: Seq<char>) -> Result<u32, Seq<char>> {
    if mode == ""@ || mode == "off"@ {
        Ok(MEASURE_CONFIG_PREALLOC_OFF)
    } else if mode == "metadata"@ {
        Ok(MEASURE_CONFIG_PREALLOC_METADATA)
    } else if mode == "falloc"@ {
        Ok(MEASURE_CONFIG_PREALLOC_FALLOC)
    } else if mode == "full"@ {
        Ok(MEASURE_CONFIG_PREALLOC_FULL)
    } else {
        Err("measure: unsupported preallocation mode '"@ + mode + "'"@)
    }
}

fn read_prealloc(mode: &str) -> (r: Result<u32, String>)
    ensures
        outcome(r) == prealloc_bits(mode@),
{
    if same(mode, "") || same(mode, "off") {
        Ok(MEASURE_CONFIG_PREALLOC_OFF)
    } else if same(mode, "metadata") {
        Ok(MEASURE_CONFIG_PREALLOC_METADATA)
    } else if same(mode, "falloc") {
        Ok(MEASURE_CONFIG_PREALLOC_FALLOC)
    } else if same(mode, "full") {
        Ok(MEASURE_CONFIG_PREALLOC_FULL)
    } else {
        Err(between("measure: unsupported preallocation mode '", mode, "'"))
    }
}

/// The code of a VMDK subformat.
pub open spec fn subformat_code(name: Seq<char>) -> Result<u8, Seq<char>> {
    if name == ""@ || name == "monolithicSparse"@ {
        Ok(0)
    } else if name == "streamOptimized"@ {
        Ok(1)
    } else if name == "monolithicFlat"@ {
        Ok(2)
    } else {
        Err("measure: unsupported vmdk subformat '"@ + name + "'"@)
    }
}

fn read_subformat(name: &str) -> (r: Result<u8, String>)
    ensures
        outcome(r) == subformat_code(name@),
{
    if same(name, "") || same(name, "monolithicSparse") {
        Ok(0)
    } else if same(name, "streamOptimized") {
        Ok(1)
    } else if same(name, "monolithicFlat") {
        Ok(2)
    } else {
        Err(between("measure: unsupported vmdk subformat '", name, "'"))
    }
}

/// A value of `-o` where there is one, else that of the flag.
pub open spec fn or_flag<T>(option: Option<T>, flag: T) -> T {
    match option {
        Some(v) => v,
        None => flag,
    }
}

/// The flags for the guest.
pub open spec fn measure_flags(args: MeasureArgs, o: MeasureOverrides, prealloc: u32) -> u32 {
    bit(or_flag(o.extended_l2, args.extended_l2), MEASURE_CONFIG_FLAG_EXTENDED_L2) | bit(
        or_flag(o.lazy_refcounts, args.lazy_refcounts),
        MEASURE_CONFIG_FLAG_LAZY_REFCOUNTS,
    ) | bit(or_flag(o.compat_v3, args.compat@ == "1.1"@), MEASURE_CONFIG_FLAG_COMPAT_V3) | bit(
        or_flag(o.compression_used, args.compress),
        MEASURE_CONFIG_FLAG_COMPRESS,
    ) | prealloc
}

/// What the guest is told of a measurement.
#[derive(Debug, Clone, Copy, PartialEq, Eq, Structural)]
pub struct MeasureConfig {
    pub target_format: u32,
    pub flags: u32,
    pub sector_size: u32,
    /// 0 has the guest scan the source.
    pub virtual_size_override: u64,
    pub qcow2_cluster_size: u32,
    pub qcow2_refcount_bits: u8,
    pub vmdk_subformat: u8,
    pub vmdk_grain_size: u32,
    pub vhd_subformat: u8,
    pub block_size: u32,
}

/// The bytes of the configuration, as the guest reads them.
pub open spec fn measure_config_bytes(c: MeasureConfig) -> Seq<u8> {
    le_bytes(MEASURE_CONFIG_MAGIC as int, 4)
        + le_bytes(c.target_format as int, 4)
        + le_bytes(c.flags as int, 4)
        + le_bytes(c.sector_size as int, 4)
        + le_bytes(c.virtual_size_override as int, 8)
        + le_bytes(c.qcow2_cluster_size as int, 4)
        + le_bytes(c.qcow2_refcount_bits as int, 1)
        + le_bytes(c.vmdk_subformat as int, 1)
        + zeros(2)
        + le_bytes(c.vmdk_grain_size as int, 4)
        + le_bytes(c.vhd_subformat as int, 1)
        + zeros(3)
        + le_bytes(c.block_size as int, 4)
        + zeros(4)
        + zeros(8)
}

/// Writes the configuration.
pub fn write_measure_config(c: &MeasureConfig) -> (b: Vec<u8>)
    ensures
        b@ == measure_config_bytes(*c),
{
    let mut b: Vec<u8> = Vec::new();
    push_u32(&mut b, MEASURE_CONFIG_MAGIC);
    assert(b@ =~= le_bytes(MEASURE_CONFIG_MAGIC as int, 4));
    push_u32(&mut b, c.target_format);
    push_u32(&mut b, c.flags);
    push_u32(&mut b, c.sector_size);
    push_u64(&mut b, c.virtual_size_override);
    push_u32(&mut b, c.qcow2_cluster_size);
    push_u8(&mut b, c.qcow2_refcount_bits);
    push_u8(&mut b, c.vmdk_subformat);
    push_zeros(&mut b, 2);
    push_u32(&mut b, c.vmdk_grain_size);
    push_u8(&mut b, c.vhd_subformat);
    push_zeros(&mut b, 3);
    push_u32(&mut b, c.block_size);
    push_zeros(&mut b, 4);
    push_zeros(&mut b, 8);
    b
}

/// Each field of the configuration stands at its offset.
pub proof fn law_measure_config_layout(c: MeasureConfig)
    ensures
        measure_config_bytes(c).len() == 56,
        measure_config_bytes(c).subrange(0, 4) == le_bytes(0x4D454153, 4),
        measure_config_bytes(c).subrange(4, 8) == le_bytes(c.target_format as int, 4),
        measure_config_bytes(c).subrange(8, 12) == le_bytes(c.flags as int, 4),
        measure_config_bytes(c).subrange(12, 16) == le_bytes(c.sector_size as int, 4),
        measure_config_bytes(c).subrange(16, 24) == le_bytes(c.virtual_size_override as int, 8),
        measure_config_bytes(c).subrange(24, 28) == le_bytes(c.qcow2_cluster_size as int, 4),
        measure_config_bytes(c).subrange(28, 29) == le_bytes(c.qcow2_refcount_bits as int, 1),
        measure_config_bytes(c).subrange(29, 30) == le_bytes(c.vmdk_subformat as int, 1),
        measure_config_bytes(c).subrange(32, 36) == le_bytes(c.vmdk_grain_size as int, 4),
        measure_config_bytes(c).subrange(36, 37) == le_bytes(c.vhd_subformat as int, 1),
        measure_config_bytes(c).subrange(40, 44) == le_bytes(c.block_size as int, 4),
{
    broadcast use lemma_le_bytes_len;

    let b = measure_config_bytes(c);
    assert(b.subrange(0, 4) =~= le_bytes(MEASURE_CONFIG_MAGIC as int, 4));
    assert(b.subrange(4, 8) =~= le_bytes(c.target_format as int, 4));
    assert(b.subrange(8, 12) =~= le_bytes(c.flags as int, 4));
    assert(b.subrange(12, 16) =~= le_bytes(c.sector_size as int, 4));
    assert(b.subrange(16, 24) =~= le_bytes(c.virtual_size_override as int, 8));
    assert(b.subrange(24, 28) =~= le_bytes(c.qcow2_cluster_size as int, 4));
    assert(b.subrange(28, 29) =~= le_bytes(c.qcow2_refcount_bits as int, 1));
    assert(b.subrange(29, 30) =~= le_bytes(c.vmdk_subformat as int, 1));
    assert(b.subrange(32, 36) =~= le_bytes(c.vmdk_grain_size as int, 4));
    assert(b.subrange(36, 37) =~= le_bytes(c.vhd_subformat as int, 1));
    assert(b.subrange(40, 44) =~= le_bytes(c.block_size as int, 4));
}

/// The virtual size that stands in for a source.
pub open spec fn size_override(size: Option<Seq<char>>) -> Result<u64, Seq<char>> {
    match size {
        Some(s) => memory_size(s),
        None => Ok(0),
    }
}

/// What the guest is told, once the options of `-o` are read. They go before
/// the flags.
pub open spec fn configured(args: MeasureArgs, target: u32, o: MeasureOverrides) -> Result<
    MeasureConfig,
    Seq<char>,
> {
    match prealloc_bits(or_flag(o.preallocation, args.preallocation@)) {
        Err(e) => Err(e),
        Ok(prealloc) => match subformat_code(args.subformat@) {
            Err(e) => Err(e),
            Ok(subformat) => match size_override(name_of(args.size)) {
                Err(e) => Err(e),
                Ok(size) => Ok(
                    MeasureConfig {
                        target_format: target,
                        flags: measure_flags(args, o, prealloc),
                        sector_size: args.sector_size,
                        virtual_size_override: size,
                        qcow2_cluster_size: or_flag(o.cluster_size, args.cluster_size),
                        qcow2_refcount_bits: or_flag(o.refcount_bits, args.refcount_bits),
                        vmdk_subformat: or_flag(o.vmdk_subformat, subformat),
                        vmdk_grain_size: or_flag(o.grain_size, args.grain_size),
                        vhd_subformat: or_flag(o.vhd_subformat, 0),
                        block_size: or_flag(o.block_size, args.block_size),
                    },
                ),
            },
        },
    }
}

/// What the guest is told of a measurement, or why it is refused.
pub open spec fn measure_plan(args: MeasureArgs) -> Result<MeasureConfig, Seq<char>> {
    match argument_refusal(args) {
        Some(e) => Err(e),
        None => match measure_target(args.target_format@) {
            Err(e) => Err(e),
            Ok(target) => match measure_options(args.target_format@, args.option@) {
                Err(e) => Err(e),
                Ok(o) => configured(args, target, o),
            },
        },
    }
}

/// Picks the value of `-o` where there is one.
pub(crate) fn pick_u32(option: Option<u32>, flag: u32) -> (r: u32)
    ensures
        r == or_flag(option, flag),
{
    match option {
        Some(v) => v,
        None => flag,
    }
}

/// Picks the value of `-o` where there is one.
pub(crate) fn pick_u8(option: Option<u8>, flag: u8) -> (r: u8)
    ensures
        r == or_flag(option, flag),
{
    match option {
        Some(v) => v,
        None => flag,
    }
}

/// Picks the value of `-o` where there is one.
pub(crate) fn pick_bool(option: Option<bool>, flag: bool) -> (r: bool)
    ensures
        r == or_flag(option, flag),
{
    match option {
        Some(v) => v,
        None => flag,
    }
}

fn configure(args: &MeasureArgs, target: u32, o: &MeasureOptionOverrides) -> (r: Result<
    MeasureConfig,
    String,
>)
    ensures
        outcome(r) == configured(*args, target, o@),
{
    let mode = match o.preallocation {
        Some(m) => m,
        None => args.preallocation.as_str(),
    };
    let prealloc: u32 = match read_prealloc(mode) {
        Ok(p) => p,
        Err(e) => return Err(e),
    };
    let subformat: u8 = match read_subformat(args.subformat.as_str()) {
        Ok(s) => s,
        Err(e) => return Err(e),
    };
    let size: u64 = match &args.size {
        Some(s) => match parse_memory_size(s.as_str()) {
            Ok(n) => n,
            Err(e) => return Err(e),
        },
        None => 0,
    };
    let v3 = same(args.compat.as_str(), "1.1");
    Ok(
        MeasureConfig {
            target_format: target,
            flags: bit_if(
                pick_bool(o.extended_l2, args.extended_l2),
                MEASURE_CONFIG_FLAG_EXTENDED_L2,
            ) | bit_if(
                pick_bool(o.lazy_refcounts, args.lazy_refcounts),
                MEASURE_CONFIG_FLAG_LAZY_REFCOUNTS,
            ) | bit_if(pick_bool(o.compat_v3, v3), MEASURE_CONFIG_FLAG_COMPAT_V3) | bit_if(
                pick_bool(o.compression_used, args.compress),
                MEASURE_CONFIG_FLAG_COMPRESS,
            ) | prealloc,
            sector_size: args.sector_size,
            virtual_size_override: size,
            qcow2_cluster_size: pick_u32(o.cluster_size, args.cluster_size),
            qcow2_refcount_bits: pick_u8(o.refcount_bits, args.refcount_bits),
            vmdk_subformat: pick_u8(o.vmdk_subformat, subformat),
            vmdk_grain_size: pick_u32(o.grain_size, args.grain_size),
            vhd_subformat: pick_u8(o.vhd_subformat, 0),
            block_size: pick_u32(o.block_size, args.block_size),
        },
    )
}

/// Plans a measurement.
pub fn plan_measure(args: &MeasureArgs) -> (r: Result<MeasureConfig, String>)
    ensures
        outcome(r) == measure_plan(*args),
{
    match check_arguments(args) {
        Ok(()) => {},
        Err(e) => return Err(e),
    }
    let target: u32 = match read_target(args.target_format.as_str()) {
        Ok(t) => t,
        Err(e) => return Err(e),
    };
    match parse_o_options(args.target_format.as_str(), args.option.as_slice()) {
        Ok(o) => configure(args, target, &o),
        Err(e) => Err(e),
    }
}

/// Refuses a source whose data lies in files of its own.
pub fn check_measure_source(is_descriptor: bool) -> (r: Result<(), String>)
    ensures
        outcome(r) == if is_descriptor {
            Err(
                "measure: monolithicFlat source images are not yet supported (use convert -f / qemu-img instead)"@,
            )
        } else {
            Ok(())
        },
{
    if is_descriptor {
        return Err(
            "measure: monolithicFlat source images are not yet supported (use convert -f / qemu-img instead)".to_owned(),
        );
    }
    Ok(())
}

/// Decides whether the report speaks of bitmaps: only where both images are
/// qcow2, and the source is of version 3.
pub fn mentions_bitmaps(args: &MeasureArgs, source_is_qcow2_v3: bool) -> (r: bool)
    ensures
        r == (args.target_format@ == "qcow2"@ && args.input is Some && source_is_qcow2_v3),
{
    same(args.target_format.as_str(), "qcow2") && args.input.is_some() && source_is_qcow2_v3
}

/// An option of `-o` goes before the flag of the same name; without one, the
/// flag counts.
pub proof fn law_options_go_before_flags(args: MeasureArgs, target: u32, o: MeasureOverrides)
    requires
        configured(args, target, o) is Ok,
    ensures
        ({
            let c = configured(args, target, o)->Ok_0;
            &&& o.cluster_size matches Some(v) ==> c.qcow2_cluster_size == v
            &&& o.cluster_size is None ==> c.qcow2_cluster_size == args.cluster_size
            &&& o.refcount_bits matches Some(v) ==> c.qcow2_refcount_bits == v
            &&& o.refcount_bits is None ==> c.qcow2_refcount_bits == args.refcount_bits
            &&& o.grain_size matches Some(v) ==> c.vmdk_grain_size == v
            &&& o.grain_size is None ==> c.vmdk_grain_size == args.grain_size
            &&& o.block_size matches Some(v) ==> c.block_size == v
            &&& o.block_size is None ==> c.block_size == args.block_size
            &&& o.extended_l2 matches Some(v) ==> (c.flags & MEASURE_CONFIG_FLAG_EXTENDED_L2 != 0
                <==> v)
            &&& o.extended_l2 is None ==> (c.flags & MEASURE_CONFIG_FLAG_EXTENDED_L2 != 0
                <==> args.extended_l2)
            &&& o.compat_v3 matches Some(v) ==> (c.flags & MEASURE_CONFIG_FLAG_COMPAT_V3 != 0
                <==> v)
        }),
{
    let p = prealloc_bits(or_flag(o.preallocation, args.preallocation@))->Ok_0;
    let x = bit(or_flag(o.extended_l2, args.extended_l2), MEASURE_CONFIG_FLAG_EXTENDED_L2);
    let l = bit(or_flag(o.lazy_refcounts, args.lazy_refcounts), MEASURE_CONFIG_FLAG_LAZY_REFCOUNTS);
    let v = bit(or_flag(o.compat_v3, args.compat@ == "1.1"@), MEASURE_CONFIG_FLAG_COMPAT_V3);
    let c = bit(or_flag(o.compression_used, args.compress), MEASURE_CONFIG_FLAG_COMPRESS);
    assert((x | l | v | c | p) & 1 == x && (x | l | v | c | p) & 4 == v) by (bit_vector)
        requires
            x == 0 || x == 1,
            l == 0 || l == 2,
            v == 0 || v == 4,
            c == 0 || c == 8,
            p == 0 || p == 0x10 || p == 0x20 || p == 0x30,
    ;
}

/// What is measured is the format that the user named, and each number that
/// the guest is told is that of the option, else that of the flag.
pub proof fn law_named_format_is_measured(args: &MeasureArgs, r: Result<MeasureConfig, String>)
    requires
        call_ensures(plan_measure, (args,), r),
        r is Ok,
    ensures
        ({
            let c = r->Ok_0;
            let options = measure_options(args.target_format@, args.option@);
            let o = options->Ok_0;
            &&& options is Ok
            &&& format_name(c.target_format) == args.target_format@
            &&& c.target_format != IMAGE_FORMAT_VMDK3
            &&& c.sector_size == args.sector_size
            &&& args.size is None ==> c.virtual_size_override == 0
            &&& args.size matches Some(s) ==> memory_size(s@) == Ok::<u64, Seq<char>>(
                c.virtual_size_override,
            )
            &&& c.qcow2_cluster_size == match o.cluster_size {
                Some(n) => n,
                None => args.cluster_size,
            }
            &&& c.qcow2_refcount_bits == match o.refcount_bits {
                Some(n) => n,
                None => args.refcount_bits,
            }
            &&& c.vmdk_grain_size == match o.grain_size {
                Some(n) => n,
                None => args.grain_size,
            }
            &&& c.block_size == match o.block_size {
                Some(n) => n,
                None => args.block_size,
            }
            &&& c.vhd_subformat == match o.vhd_subformat {
                Some(n) => n,
                None => 0u8,
            }
            &&& o.vmdk_subformat matches Some(n) ==> c.vmdk_subformat == n
            &&& o.vmdk_subformat is None ==> (c.vmdk_subformat == 1 <==> args.subformat@
                == "streamOptimized"@) && (c.vmdk_subformat == 2 <==> args.subformat@
                == "monolithicFlat"@)
        }),
{
    lemma_subformats_differ();
    reveal_strlit("");
    reveal_strlit("streamOptimized");
    reveal_strlit("monolithicFlat");
    assert(""@.len() == 0);
}

/// The switches that the guest is told are those of the options, else of the
/// flags, each in its own bit, and so is the preallocation mode.
pub proof fn law_measured_switches_are_told(args: &MeasureArgs, r: Result<MeasureConfig, String>)
    requires
        call_ensures(plan_measure, (args,), r),
        r is Ok,
    ensures
        ({
            let flags = r->Ok_0.flags;
            let o = measure_options(args.target_format@, args.option@)->Ok_0;
            let mode = match o.preallocation {
                Some(m) => m,
                None => args.preallocation@,
            };
            &&& flags & 1 != 0 <==> (match o.extended_l2 {
                Some(b) => b,
                None => args.extended_l2,
            })
            &&& flags & 2 != 0 <==> (match o.lazy_refcounts {
                Some(b) => b,
                None => args.lazy_refcounts,
            })
            &&& flags & 4 != 0 <==> (match o.compat_v3 {
                Some(b) => b,
                None => args.compat@ == "1.1"@,
            })
            &&& flags & 8 != 0 <==> (match o.compression_used {
                Some(b) => b,
                None => args.compress,
            })
            &&& mode == "off"@ ==> flags & 0x30 == 0
            &&& mode == "metadata"@ ==> flags & 0x30 == 0x10
            &&& mode == "falloc"@ ==> flags & 0x30 == 0x20
            &&& mode == "full"@ ==> flags & 0x30 == 0x30
            &&& mode.len() == 0 ==> flags & 0x30 == 0
        }),
{
    lemma_modes_differ();
    reveal_strlit("");
    reveal_strlit("off");
    reveal_strlit("metadata");
    reveal_strlit("falloc");
    reveal_strlit("full");
    assert(""@.len() == 0);
    let o = measure_options(args.target_format@, args.option@)->Ok_0;
    let p = prealloc_bits(or_flag(o.preallocation, args.preallocation@))->Ok_0;
    let e = bit(or_flag(o.extended_l2, args.extended_l2), MEASURE_CONFIG_FLAG_EXTENDED_L2);
    let l = bit(or_flag(o.lazy_refcounts, args.lazy_refcounts), MEASURE_CONFIG_FLAG_LAZY_REFCOUNTS);
    let v = bit(or_flag(o.compat_v3, args.compat@ == "1.1"@), MEASURE_CONFIG_FLAG_COMPAT_V3);
    let c = bit(or_flag(o.compression_used, args.compress), MEASURE_CONFIG_FLAG_COMPRESS);
    assert((e | l | v | c | p) & 1 == e && (e | l | v | c | p) & 2 == l && (e | l | v | c | p) & 4
        == v && (e | l | v | c | p) & 8 == c && (e | l | v | c | p) & 0x30 == p) by (bit_vector)
        requires
            e == 0 || e == 1,
            l == 0 || l == 2,
            v == 0 || v == 4,
            c == 0 || c == 8,
            p == 0 || p == 0x10 || p == 0x20 || p == 0x30,
    ;
}

/// A measurement is planned exactly where there is a size or a file, each
/// number is one that formats may have, and the names and texts can be read.
pub proof fn law_measure_is_planned_where_it_can_be(
    args: &MeasureArgs,
    r: Result<MeasureConfig, String>,
)
    requires
        call_ensures(plan_measure, (args,), r),
    ensures
        r is Ok <==> {
            let t = args.target_format@;
            let s = args.subformat@;
            let width = args.refcount_bits;
            let options = measure_options(t, args.option@);
            let mode = match options->Ok_0.preallocation {
                Some(m) => m,
                None => args.preallocation@,
            };
            &&& args.input is Some || args.size is Some
            &&& valid_sector_size(args.sector_size)
            &&& args.cluster_size == 0 || (args.cluster_size >= 512 && power_of_two(
                args.cluster_size as int,
            ))
            &&& args.grain_size == 0 || (args.grain_size >= 512 && power_of_two(
                args.grain_size as int,
            ))
            &&& args.block_size == 0 || (args.block_size >= 512 && power_of_two(
                args.block_size as int,
            ))
            &&& width == 0 || width == 1 || width == 2 || width == 4 || width == 8 || width == 16
                || width == 32 || width == 64
            &&& t == "raw"@ || t == "qcow2"@ || t == "vmdk"@ || t == "vpc"@ || t == "vhdx"@
            &&& options is Ok
            &&& mode == ""@ || mode == "off"@ || mode == "metadata"@ || mode == "falloc"@ || mode
                == "full"@
            &&& s == ""@ || s == "monolithicSparse"@ || s == "streamOptimized"@ || s
                == "monolithicFlat"@
            &&& args.size matches Some(text) ==> memory_size(text@) is Ok
        },
{
}

/// Bitmaps are mentioned exactly where a qcow2 image of version 3 is measured
/// as qcow2; only a source that is one file is measured.
pub proof fn law_bitmaps_go_from_qcow2_to_qcow2(
    args: &MeasureArgs,
    source_is_qcow2_v3: bool,
    is_descriptor: bool,
    r: bool,
    s: Result<(), String>,
)
    requires
        call_ensures(mentions_bitmaps, (args, source_is_qcow2_v3), r),
        call_ensures(check_measure_source, (is_descriptor,), s),
    ensures
        r <==> args.target_format@ == "qcow2"@ && args.input is Some && source_is_qcow2_v3,
        s is Ok <==> !is_descriptor,
{
}

} // verus!
