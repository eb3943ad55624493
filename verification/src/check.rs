//! Checking and repairing an image.
use vstd::prelude::*;
use crate::abi::{
    CHECK_CONFIG_FLAG_CHAIN, CHECK_CONFIG_FLAG_QUIET, CHECK_CONFIG_FLAG_REPAIR,
    CHECK_CONFIG_FLAG_REPAIR_ALL, CHECK_CONFIG_FLAG_UNSAFE_QUIRKS, CHECK_CONFIG_FLAG_VERBOSE,
    CHECK_CONFIG_MAGIC, CHECK_RESULT_FLAG_NOT_SUPPORTED, CHECK_RESULT_FLAG_VALID,
};
use crate::bytes::{bit, bit_if, le_bytes, lemma_le_bytes_len, push_u32};
use crate::limits::{check_sector_size, sector_check, valid_sector_size};
use crate::message::CheckResultMessage;
use crate::text::outcome;

verus! {

/// How far a repair goes.
#[derive(Debug, Clone, Copy, PartialEq, Eq, Structural)]
pub enum RepairMode {
    /// Free clusters that nothing refers to.
    Leaks,
    /// Also correct wrong reference counts, which may lose data.
    All,
}

/// The arguments of a check.
#[derive(Debug)]
pub struct CheckArgs {
    pub input: String,
    pub sector_size: u32,
    pub output: String,
    pub quiet: bool,
    pub unsafe_quirks: bool,
    pub chain: bool,
    pub repair: Option<RepairMode>,
}

/// What a check of the arguments comes to: a repair works on a single image.
pub open spec fn check_request(args: CheckArgs) -> Result<(), Seq<char>> {
    match sector_check(""@, args.sector_size) {
        Err(e) => Err(e),
        Ok(()) => if args.repair is Some && args.chain {
            Err(
                "check: --repair cannot be combined with --chain (repair operates on a single image)"@,
            )
        } else {
            Ok(())
        },
    }
}

/// Checks the arguments of a check.
pub fn check_check(args: &CheckArgs) -> (r: Result<(), String>)
    ensures
        outcome(r) == check_request(*args),
{
    match check_sector_size("", args.sector_size) {
        Err(e) => return Err(e),
        Ok(()) => {},
    }
    if args.repair.is_some() && args.chain {
        return Err(
            "check: --repair cannot be combined with --chain (repair operates on a single image)".to_owned(),
        );
    }
    Ok(())
}

/// The warning before a repair that may lose data.
pub fn repair_warning(args: &CheckArgs) -> (r: Option<&'static str>)
    ensures
        match r {
            Some(t) => args.repair == Some(RepairMode::All) && t@
                == "warning: --repair=all rewrites image metadata in place; back up valuable images first\n"@,
            None => args.repair != Some(RepairMode::All),
        },
{
    match args.repair {
        Some(RepairMode::All) => Some(
            "warning: --repair=all rewrites image metadata in place; back up valuable images first\n",
        ),
        _ => None,
    }
}

/// How the image is attached to the guest.
#[derive(Debug, Clone, Copy, PartialEq, Eq, Structural)]
pub enum CheckDevices {
    /// All images of its chain, for reading.
    Chain,
    /// The image alone, for writing.
    Writable,
    /// The image alone, for reading.
    ReadOnly,
}

/// Decides how the image is attached. A flat VMDK descriptor takes more than
/// one device, so its chain is always followed.
pub fn check_devices(args: &CheckArgs, is_descriptor: bool) -> (r: CheckDevices)
    ensures
        r == if args.chain || is_descriptor {
            CheckDevices::Chain
        } else if args.repair is Some {
            CheckDevices::Writable
        } else {
            CheckDevices::ReadOnly
        },
{
    if args.chain || is_descriptor {
        CheckDevices::Chain
    } else if args.repair.is_some() {
        CheckDevices::Writable
    } else {
        CheckDevices::ReadOnly
    }
}

/// What the guest is told of a check.
#[derive(Debug, Clone, Copy)]
pub struct CheckConfig {
    pub flags: u32,
}

/// The bytes of the configuration, as the guest reads them.
pub open spec fn check_config_bytes(c: CheckConfig) -> Seq<u8> {
    le_bytes(CHECK_CONFIG_MAGIC as int, 4)
        + le_bytes(c.flags as int, 4)
}

/// Writes the configuration.
pub fn write_check_config(c: &CheckConfig) -> (b: Vec<u8>)
    ensures
        b@ == check_config_bytes(*c),
{
    let mut b: Vec<u8> = Vec::new();
    push_u32(&mut b, CHECK_CONFIG_MAGIC);
    assert(b@ =~= le_bytes(CHECK_CONFIG_MAGIC as int, 4));
    push_u32(&mut b, c.flags);
    b
}

/// Each field of the configuration stands at its offset.
pub proof fn law_check_config_layout(c: CheckConfig)
    ensures
        check_config_bytes(c).len() == 8,
        check_config_bytes(c).subrange(0, 4) == le_bytes(0x43484543, 4),
        check_config_bytes(c).subrange(4, 8) == le_bytes(c.flags as int, 4),
{
    broadcast use lemma_le_bytes_len;

    let b = check_config_bytes(c);
    assert(b.subrange(0, 4) =~= le_bytes(CHECK_CONFIG_MAGIC as int, 4));
    assert(b.subrange(4, 8) =~= le_bytes(c.flags as int, 4));
}

/// The flags for the guest.
pub open spec fn check_flags(args: CheckArgs, verbose: bool) -> u32 {
    bit(args.quiet, CHECK_CONFIG_FLAG_QUIET) | bit(verbose, CHECK_CONFIG_FLAG_VERBOSE) | bit(
        args.unsafe_quirks,
        CHECK_CONFIG_FLAG_UNSAFE_QUIRKS,
    ) | bit(args.chain, CHECK_CONFIG_FLAG_CHAIN) | bit(
        args.repair is Some,
        CHECK_CONFIG_FLAG_REPAIR,
    ) | bit(args.repair == Some(RepairMode::All), CHECK_CONFIG_FLAG_REPAIR_ALL)
}

/// Plans a check.
pub fn plan_check(args: &CheckArgs, verbose: bool) -> (r: CheckConfig)
    ensures
        r.flags == check_flags(*args, verbose),
{
    let all = match args.repair {
        Some(RepairMode::All) => true,
        _ => false,
    };
    CheckConfig {
        flags: bit_if(args.quiet, CHECK_CONFIG_FLAG_QUIET) | bit_if(
            verbose,
            CHECK_CONFIG_FLAG_VERBOSE,
        ) | bit_if(args.unsafe_quirks, CHECK_CONFIG_FLAG_UNSAFE_QUIRKS) | bit_if(
            args.chain,
            CHECK_CONFIG_FLAG_CHAIN,
        ) | bit_if(args.repair.is_some(), CHECK_CONFIG_FLAG_REPAIR) | bit_if(
            all,
            CHECK_CONFIG_FLAG_REPAIR_ALL,
        ),
    }
}

/// Whether a check found the image sound.
pub open spec fn passed(m: CheckResultMessage) -> bool {
    m.flags & CHECK_RESULT_FLAG_VALID != 0 && m.total_errors == 0 && m.chain_errors == 0
}

/// Decides whether a result is shown: always, but for one that passed when the
/// user wants to see errors only.
pub fn shows_check_result(args: &CheckArgs, m: &CheckResultMessage) -> (r: bool)
    ensures
        r == (!args.quiet || !passed(*m)),
{
    !args.quiet || !(m.flags & CHECK_RESULT_FLAG_VALID != 0 && m.total_errors == 0
        && m.chain_errors == 0)
}

/// What of a result decides the exit code. What a repair mended does not count.
#[derive(Debug, Clone, Copy, PartialEq, Eq, Structural)]
pub struct CheckExit {
    pub corruptions: u64,
    pub refcount_errors: u64,
    pub chain_errors: u64,
    pub leaks: u64,
    pub not_supported: bool,
}

/// Keeps what decides the exit code.
pub fn harvest_check(m: &CheckResultMessage) -> (r: CheckExit)
    ensures
        r == (CheckExit {
            corruptions: m.corruptions,
            refcount_errors: m.refcount_errors,
            chain_errors: m.chain_errors,
            leaks: m.leaks,
            not_supported: m.flags & CHECK_RESULT_FLAG_NOT_SUPPORTED != 0,
        }),
{
    CheckExit {
        corruptions: m.corruptions,
        refcount_errors: m.refcount_errors,
        chain_errors: m.chain_errors,
        leaks: m.leaks,
        not_supported: m.flags & CHECK_RESULT_FLAG_NOT_SUPPORTED != 0,
    }
}

/// The exit code of a check: 63 for a format that cannot be checked, 2 for
/// errors, 3 for leaks alone, 0 for a sound image.
pub open spec fn check_code(exit: CheckExit) -> u8 {
    if exit.not_supported {
        63
    } else if exit.corruptions > 0 || exit.refcount_errors > 0 || exit.chain_errors > 0 {
        2
    } else if exit.leaks > 0 {
        3
    } else {
        0
    }
}

/// Decides the exit code of a check; without a result it has failed.
pub fn finish_check(exit: Option<CheckExit>) -> (r: Result<u8, String>)
    ensures
        outcome(r) == match exit {
            None => Err("image check failed: no result received"@),
            Some(e) => Ok(check_code(e)),
        },
{
    let e = match exit {
        Some(e) => e,
        None => return Err("image check failed: no result received".to_owned()),
    };
    if e.not_supported {
        Ok(63)
    } else if e.corruptions > 0 || e.refcount_errors > 0 || e.chain_errors > 0 {
        Ok(2)
    } else if e.leaks > 0 {
        Ok(3)
    } else {
        Ok(0)
    }
}

// ---------------------------------------------------------------------------
// Laws
// ---------------------------------------------------------------------------

/// An image is written only by a repair, and a repair never follows a chain.
pub proof fn law_only_a_repair_writes(args: CheckArgs, verbose: bool)
    requires
        check_request(args) is Ok,
    ensures
        args.repair is Some ==> !args.chain,
        check_flags(args, verbose) & CHECK_CONFIG_FLAG_REPAIR != 0 <==> args.repair is Some,
        check_flags(args, verbose) & CHECK_CONFIG_FLAG_REPAIR_ALL != 0 ==> check_flags(args, verbose)
            & CHECK_CONFIG_FLAG_REPAIR != 0,
        check_flags(args, verbose) & CHECK_CONFIG_FLAG_REPAIR != 0 ==> check_flags(args, verbose)
            & CHECK_CONFIG_FLAG_CHAIN == 0,
{
    law_check_flags_read_back(args, verbose);
}

/// Each flag reads back from the flags.
pub proof fn law_check_flags_read_back(args: CheckArgs, verbose: bool)
    ensures
        check_flags(args, verbose) & CHECK_CONFIG_FLAG_REPAIR != 0 <==> args.repair is Some,
        check_flags(args, verbose) & CHECK_CONFIG_FLAG_REPAIR_ALL != 0 <==> args.repair == Some(
            RepairMode::All,
        ),
        check_flags(args, verbose) & CHECK_CONFIG_FLAG_CHAIN != 0 <==> args.chain,
        check_flags(args, verbose) & CHECK_CONFIG_FLAG_QUIET != 0 <==> args.quiet,
        check_flags(args, verbose) & CHECK_CONFIG_FLAG_UNSAFE_QUIRKS != 0 <==> args.unsafe_quirks,
        check_flags(args, verbose) & CHECK_CONFIG_FLAG_VERBOSE != 0 <==> verbose,
{
    let q = bit(args.quiet, CHECK_CONFIG_FLAG_QUIET);
    let v = bit(verbose, CHECK_CONFIG_FLAG_VERBOSE);
    let u = bit(args.unsafe_quirks, CHECK_CONFIG_FLAG_UNSAFE_QUIRKS);
    let c = bit(args.chain, CHECK_CONFIG_FLAG_CHAIN);
    let r = bit(args.repair is Some, CHECK_CONFIG_FLAG_REPAIR);
    let a = bit(args.repair == Some(RepairMode::All), CHECK_CONFIG_FLAG_REPAIR_ALL);
    assert((q | v | u | c | r | a) & 1 == r && (q | v | u | c | r | a) & 2 == q && (q | v | u | c
        | r | a) & 4 == u && (q | v | u | c | r | a) & 8 == c && (q | v | u | c | r | a) & 16 == a
        && (q | v | u | c | r | a) & 0x8000_0000 == v) by (bit_vector)
        requires
            q == 0 || q == 2,
            v == 0 || v == 0x8000_0000,
            u == 0 || u == 4,
            c == 0 || c == 8,
            r == 0 || r == 1,
            a == 0 || a == 16,
    ;
}

/// A check exits with 0 exactly where the format can be checked and neither
/// errors nor leaks are left.
pub proof fn law_zero_means_sound(exit: CheckExit)
    ensures
        check_code(exit) == 0 <==> !exit.not_supported && exit.corruptions == 0
            && exit.refcount_errors == 0 && exit.chain_errors == 0 && exit.leaks == 0,
        check_code(exit) == 0 || check_code(exit) == 2 || check_code(exit) == 3 || check_code(exit)
            == 63,
{
}

/// A check is accepted exactly where sectors have a size that devices can have
/// and no whole chain is to be repaired.
pub proof fn law_one_image_is_repaired(args: &CheckArgs, r: Result<(), String>)
    requires
        call_ensures(check_check, (args,), r),
    ensures
        r is Ok <==> valid_sector_size(args.sector_size) && !(args.repair is Some && args.chain),
{
}

/// The image is opened for writing only to be repaired; a chain is opened
/// where one is asked for or the image is nothing without its parts; and the
/// user is warned exactly of the repair that may lose data.
pub proof fn law_devices_are_opened_as_needed(
    args: &CheckArgs,
    is_descriptor: bool,
    r: CheckDevices,
    warning: Option<&'static str>,
)
    requires
        call_ensures(check_devices, (args, is_descriptor), r),
        call_ensures(repair_warning, (args,), warning),
    ensures
        r == CheckDevices::Writable ==> args.repair is Some,
        r == CheckDevices::Chain <==> args.chain || is_descriptor,
        r == CheckDevices::ReadOnly <==> args.repair is None && !args.chain && !is_descriptor,
        warning is Some <==> args.repair == Some(RepairMode::All),
{
}

/// The guest is told what the user asked for, each switch in its own bit.
pub proof fn law_guest_is_told_what_to_check(args: &CheckArgs, verbose: bool, r: CheckConfig)
    requires
        call_ensures(plan_check, (args, verbose), r),
    ensures
        r.flags & 1 != 0 <==> args.repair is Some,
        r.flags & 2 != 0 <==> args.quiet,
        r.flags & 4 != 0 <==> args.unsafe_quirks,
        r.flags & 8 != 0 <==> args.chain,
        r.flags & 0x10 != 0 <==> args.repair == Some(RepairMode::All),
        r.flags & 0x8000_0000 != 0 <==> verbose,
{
    law_check_flags_read_back(*args, verbose);
}

/// A result is hidden only from a user who wants quiet, and only where the
/// image passed: it was checked, and no error was found in it or its chain.
pub proof fn law_only_a_pass_is_hidden(args: &CheckArgs, m: &CheckResultMessage, r: bool)
    requires
        call_ensures(shows_check_result, (args, m), r),
    ensures
        !r ==> args.quiet && m.flags & 1 != 0 && m.total_errors == 0 && m.chain_errors == 0,
        args.quiet && m.flags & 1 != 0 && m.total_errors == 0 && m.chain_errors == 0 ==> !r,
{
}

/// The exit code follows from what the guest found: 63 where the format cannot
/// be checked, else 2 for corruption, else 3 for leaks alone, else 0. Without
/// a result there is no code.
pub proof fn law_exit_code_follows_from_the_findings(
    m: &CheckResultMessage,
    exit: CheckExit,
    r: Result<u8, String>,
    none: Result<u8, String>,
)
    requires
        call_ensures(harvest_check, (m,), exit),
        call_ensures(finish_check, (Some(exit),), r),
        call_ensures(finish_check, (None,), none),
    ensures
        none is Err,
        r is Ok,
        exit.corruptions == m.corruptions && exit.refcount_errors == m.refcount_errors,
        exit.chain_errors == m.chain_errors && exit.leaks == m.leaks,
        ({
            let unsupported = m.flags & 0x40 != 0;
            let corrupt = m.corruptions > 0 || m.refcount_errors > 0 || m.chain_errors > 0;
            &&& r->Ok_0 == 63 <==> unsupported
            &&& r->Ok_0 == 2 <==> !unsupported && corrupt
            &&& r->Ok_0 == 3 <==> !unsupported && !corrupt && m.leaks > 0
            &&& r->Ok_0 == 0 <==> !unsupported && !corrupt && m.leaks == 0
        }),
{
}

} // verus!
