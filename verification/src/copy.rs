//! Copying an image sector by sector.
use vstd::prelude::*;
use crate::abi::{
    COPY_CONFIG_FLAG_SKIP_ZEROS, COPY_CONFIG_FLAG_VERBOSE, COPY_CONFIG_FLAG_VERIFY,
    COPY_CONFIG_MAGIC,
};
use crate::bytes::{bit, bit_if, le_bytes, lemma_le_bytes_len, push_u32, push_u64};
use crate::limits::{check_sector_size, sector_check, valid_sector_size};
use crate::text::outcome;

verus! {

/// The arguments of a copy.
#[derive(Debug)]
pub struct CopyArgs {
    pub input_sector_size: u32,
    pub output_sector_size: u32,
    pub max_output_size: Option<u64>,
    pub preallocate_output: bool,
    pub progress_percent: u32,
    pub verify: bool,
    pub skip_zeros: bool,
    pub start_sector: u64,
    pub sector_count: u64,
}

/// What a check of the arguments comes to: the input is looked at first.
pub open spec fn copy_check(args: CopyArgs) -> Result<(), Seq<char>> {
    match sector_check("input "@, args.input_sector_size) {
        Err(e) => Err(e),
        Ok(()) => sector_check("output "@, args.output_sector_size),
    }
}

/// Checks the arguments of a copy.
pub fn check_copy(args: &CopyArgs) -> (r: Result<(), String>)
    ensures
        outcome(r) == copy_check(*args),
{
    match check_sector_size("input ", args.input_sector_size) {
        Err(e) => Err(e),
        Ok(()) => check_sector_size("output ", args.output_sector_size),
    }
}

/// What the guest is told of a copy.
#[derive(Debug, Clone, Copy)]
pub struct CopyConfig {
    pub flags: u32,
    pub start_sector: u64,
    /// 0 copies to the end.
    pub sector_count: u64,
}

/// The bytes of the configuration, as the guest reads them.
pub open spec fn copy_config_bytes(c: CopyConfig) -> Seq<u8> {
    le_bytes(COPY_CONFIG_MAGIC as int, 4)
        + le_bytes(c.flags as int, 4)
        + le_bytes(c.start_sector as int, 8)
        + le_bytes(c.sector_count as int, 8)
}

/// Writes the configuration.
pub fn write_copy_config(c: &CopyConfig) -> (b: Vec<u8>)
    ensures
        b@ == copy_config_bytes(*c),
{
    let mut b: Vec<u8> = Vec::new();
    push_u32(&mut b, COPY_CONFIG_MAGIC);
    assert(b@ =~= le_bytes(COPY_CONFIG_MAGIC as int, 4));
    push_u32(&mut b, c.flags);
    push_u64(&mut b, c.start_sector);
    push_u64(&mut b, c.sector_count);
    b
}

/// Each field of the configuration stands at its offset.
pub proof fn law_copy_config_layout(c: CopyConfig)
    ensures
        copy_config_bytes(c).len() == 24,
        copy_config_bytes(c).subrange(0, 4) == le_bytes(0x434F5059, 4),
        copy_config_bytes(c).subrange(4, 8) == le_bytes(c.flags as int, 4),
        copy_config_bytes(c).subrange(8, 16) == le_bytes(c.start_sector as int, 8),
        copy_config_bytes(c).subrange(16, 24) == le_bytes(c.sector_count as int, 8),
{
    broadcast use lemma_le_bytes_len;

    let b = copy_config_bytes(c);
    assert(b.subrange(0, 4) =~= le_bytes(COPY_CONFIG_MAGIC as int, 4));
    assert(b.subrange(4, 8) =~= le_bytes(c.flags as int, 4));
    assert(b.subrange(8, 16) =~= le_bytes(c.start_sector as int, 8));
    assert(b.subrange(16, 24) =~= le_bytes(c.sector_count as int, 8));
}

/// How a copy is run.
#[derive(Debug, Clone, Copy)]
pub struct CopyPlan {
    /// How large the output may become.
    pub output_capacity: u64,
    /// Whether the output grows on demand.
    pub sparse_output: bool,
    pub config: CopyConfig,
}

/// The flags for the guest.
pub open spec fn copy_flags(args: CopyArgs, verbose: bool) -> u32 {
    bit(args.verify, COPY_CONFIG_FLAG_VERIFY) | bit(args.skip_zeros, COPY_CONFIG_FLAG_SKIP_ZEROS)
        | bit(verbose, COPY_CONFIG_FLAG_VERBOSE)
}

/// Plans a copy. The output may become as large as the input, unless the user
/// says otherwise.
pub fn plan_copy(args: &CopyArgs, input_size: u64, verbose: bool) -> (r: CopyPlan)
    ensures
        r == (CopyPlan {
            output_capacity: match args.max_output_size {
                Some(n) => n,
                None => input_size,
            },
            sparse_output: !args.preallocate_output,
            config: CopyConfig {
                flags: copy_flags(*args, verbose),
                start_sector: args.start_sector,
                sector_count: args.sector_count,
            },
        }),
{
    CopyPlan {
        output_capacity: match args.max_output_size {
            Some(n) => n,
            None => input_size,
        },
        sparse_output: !args.preallocate_output,
        config: CopyConfig {
            flags: bit_if(args.verify, COPY_CONFIG_FLAG_VERIFY) | bit_if(
                args.skip_zeros,
                COPY_CONFIG_FLAG_SKIP_ZEROS,
            ) | bit_if(verbose, COPY_CONFIG_FLAG_VERBOSE),
            start_sector: args.start_sector,
            sector_count: args.sector_count,
        },
    }
}

/// Each flag reads back from the flags.
pub proof fn law_copy_flags_read_back(args: CopyArgs, verbose: bool)
    ensures
        copy_flags(args, verbose) & COPY_CONFIG_FLAG_VERIFY != 0 <==> args.verify,
        copy_flags(args, verbose) & COPY_CONFIG_FLAG_SKIP_ZEROS != 0 <==> args.skip_zeros,
        copy_flags(args, verbose) & COPY_CONFIG_FLAG_VERBOSE != 0 <==> verbose,
{
    let a = bit(args.verify, COPY_CONFIG_FLAG_VERIFY);
    let b = bit(args.skip_zeros, COPY_CONFIG_FLAG_SKIP_ZEROS);
    let v = bit(verbose, COPY_CONFIG_FLAG_VERBOSE);
    assert((a | b | v) & 1 == a && (a | b | v) & 2 == b && (a | b | v) & 0x8000_0000 == v)
        by (bit_vector)
        requires
            a == 0 || a == 1,
            b == 0 || b == 2,
            v == 0 || v == 0x8000_0000,
    ;
}

/// A copy is accepted exactly where the sectors of both sides have a size that
/// devices can have.
pub proof fn law_both_sector_sizes_are_checked(args: &CopyArgs, r: Result<(), String>)
    requires
        call_ensures(check_copy, (args,), r),
    ensures
        r is Ok <==> valid_sector_size(args.input_sector_size) && valid_sector_size(
            args.output_sector_size,
        ),
{
}

/// The output may become as large as the user allows, else as large as the
/// input, and has holes unless it is preallocated; the guest copies the range
/// that the user names.
pub proof fn law_named_range_is_copied(
    args: &CopyArgs,
    input_size: u64,
    verbose: bool,
    r: CopyPlan,
)
    requires
        call_ensures(plan_copy, (args, input_size, verbose), r),
    ensures
        args.max_output_size is Some ==> r.output_capacity == args.max_output_size->0,
        args.max_output_size is None ==> r.output_capacity == input_size,
        r.sparse_output <==> !args.preallocate_output,
        r.config.start_sector == args.start_sector,
        r.config.sector_count == args.sector_count,
        r.config.flags & 1 != 0 <==> args.verify,
        r.config.flags & 2 != 0 <==> args.skip_zeros,
        r.config.flags & 0x8000_0000 != 0 <==> verbose,
{
    law_copy_flags_read_back(*args, verbose);
}

} // verus!
