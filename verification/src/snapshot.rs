//! Listing, creating, deleting and applying the snapshots of an image.
use vstd::prelude::*;
use crate::abi::{
    SNAPSHOT_CONFIG_FLAG_FORCE_SHARE, SNAPSHOT_CONFIG_FLAG_QUIET, SNAPSHOT_CONFIG_FLAG_VERBOSE,
    SNAPSHOT_CONFIG_MAGIC, SNAPSHOT_CONFIG_MODE_APPLY, SNAPSHOT_CONFIG_MODE_CREATE,
    SNAPSHOT_CONFIG_MODE_DELETE, SNAPSHOT_CONFIG_MODE_LIST, SNAPSHOT_RESULT_ERROR_NOT_FOUND,
    SNAPSHOT_RESULT_ERROR_OK,
};
use crate::bytes::{
    bit, bit_if, le_bytes, lemma_le_bytes_len, padded, push_bytes, push_padded, push_u32,
    push_zeros, zeros,
};
use crate::capacity::{doubled, doubled_capacity};
use crate::limits::{check_sector_size, sector_check, valid_sector_size};
use crate::text::{between, byte_len, byte_length, dec, number_between, outcome, same};

verus! {

/// The arguments of `snapshot`.
#[derive(Debug)]
pub struct SnapshotArgs {
    pub filename: String,
    pub list: bool,
    pub apply: Option<String>,
    pub create: Option<String>,
    pub delete: Option<String>,
    pub format: Option<String>,
    pub quiet: bool,
    pub force_share: bool,
    pub image_opts: bool,
    pub output: String,
    pub sector_size: u32,
}

/// What is to be done with a snapshot, and with which. Without a mode, the
/// snapshots are listed.
pub open spec fn snapshot_mode(args: SnapshotArgs) -> (u32, Seq<char>) {
    if args.create is Some {
        (SNAPSHOT_CONFIG_MODE_CREATE, args.create->Some_0@)
    } else if args.delete is Some {
        (SNAPSHOT_CONFIG_MODE_DELETE, args.delete->Some_0@)
    } else if args.apply is Some {
        (SNAPSHOT_CONFIG_MODE_APPLY, args.apply->Some_0@)
    } else {
        (SNAPSHOT_CONFIG_MODE_LIST, Seq::empty())
    }
}

/// The report of an error code of the guest.
pub open spec fn guest_error(error: u32) -> Seq<char> {
    "snapshot: guest reported error code "@ + dec(error as int)
}

/// Why a request is refused before the file is looked at. Creating needs a
/// name that fits in the image. A name that is too long to have been created
/// is answered as one that was not found.
pub open spec fn snapshot_refusal(args: SnapshotArgs) -> Option<Seq<char>> {
    let (mode, name) = snapshot_mode(args);
    if args.image_opts {
        Some(
            "snapshot: --image-opts is not supported (instar accepts FILENAME directly; see docs/quirks.md)"@,
        )
    } else if sector_check(""@, args.sector_size) is Err {
        Some(sector_check(""@, args.sector_size)->Err_0)
    } else if args.format is Some && args.format->Some_0@ != "qcow2"@ {
        Some(
            "snapshot: format driver '"@ + args.format->Some_0@
                + "' does not support image snapshots (qcow2 only)"@,
        )
    } else if args.force_share && mode != SNAPSHOT_CONFIG_MODE_LIST {
        Some(
            "snapshot: --force-share (-U) can only be used with read-only operations; -l is the only sharing-safe mode"@,
        )
    } else if mode == SNAPSHOT_CONFIG_MODE_CREATE && name.len() == 0 {
        Some("snapshot: -c requires a non-empty snapshot name"@)
    } else if mode == SNAPSHOT_CONFIG_MODE_CREATE && byte_len(name) > 255 {
        Some(
            "snapshot: snapshot name is "@ + dec(byte_len(name) as int)
                + " bytes; the qcow2 on-disk limit is 255 (qemu-img truncates silently; instar refuses; see docs/quirks.md)"@,
        )
    } else if mode != SNAPSHOT_CONFIG_MODE_LIST && byte_len(name) > 256 {
        Some(guest_error(SNAPSHOT_RESULT_ERROR_NOT_FOUND))
    } else {
        None
    }
}

/// Whether a refusal stands for a name that was not found, so that its message
/// is shown too.
pub open spec fn is_not_found(args: SnapshotArgs) -> bool {
    let (mode, name) = snapshot_mode(args);
    mode != SNAPSHOT_CONFIG_MODE_LIST && mode != SNAPSHOT_CONFIG_MODE_CREATE && byte_len(name) > 256
        && !args.image_opts && sector_check(""@, args.sector_size) is Ok && !(args.format is Some
        && args.format->Some_0@ != "qcow2"@) && !args.force_share
}

/// What the guest is told of a snapshot.
#[derive(Debug)]
pub struct SnapshotConfig {
    pub mode: u32,
    pub flags: u32,
    pub sector_size: u32,
    pub arg_len: u32,
    pub arg: Vec<u8>,
    pub date_sec: u32,
    pub date_nsec: u32,
}

impl SnapshotConfig {
    /// The texts fit in their fields.
    pub open spec fn wf(self) -> bool {
        self.arg@.len() <= 256
    }
}

/// The bytes of the configuration, as the guest reads them.
pub open spec fn snapshot_config_bytes(c: SnapshotConfig) -> Seq<u8> {
    le_bytes(SNAPSHOT_CONFIG_MAGIC as int, 4)
        + le_bytes(c.mode as int, 4)
        + le_bytes(c.flags as int, 4)
        + le_bytes(c.sector_size as int, 4)
        + le_bytes(c.arg_len as int, 4)
        + zeros(4)
        + padded(c.arg@, 256)
        + le_bytes(c.date_sec as int, 4)
        + le_bytes(c.date_nsec as int, 4)
        + zeros(24)
}

/// Writes the configuration.
pub fn write_snapshot_config(c: &SnapshotConfig) -> (b: Vec<u8>)
    requires
        c.wf(),
    ensures
        b@ == snapshot_config_bytes(*c),
{
    let mut b: Vec<u8> = Vec::new();
    push_u32(&mut b, SNAPSHOT_CONFIG_MAGIC);
    assert(b@ =~= le_bytes(SNAPSHOT_CONFIG_MAGIC as int, 4));
    push_u32(&mut b, c.mode);
    push_u32(&mut b, c.flags);
    push_u32(&mut b, c.sector_size);
    push_u32(&mut b, c.arg_len);
    push_zeros(&mut b, 4);
    push_padded(&mut b, c.arg.as_slice(), 256);
    push_u32(&mut b, c.date_sec);
    push_u32(&mut b, c.date_nsec);
    push_zeros(&mut b, 24);
    b
}

/// Each field of the configuration stands at its offset.
pub proof fn law_snapshot_config_layout(c: SnapshotConfig)
    requires
        c.wf(),
    ensures
        snapshot_config_bytes(c).len() == 312,
        snapshot_config_bytes(c).subrange(0, 4) == le_bytes(0x534E4150, 4),
        snapshot_config_bytes(c).subrange(4, 8) == le_bytes(c.mode as int, 4),
        snapshot_config_bytes(c).subrange(8, 12) == le_bytes(c.flags as int, 4),
        snapshot_config_bytes(c).subrange(12, 16) == le_bytes(c.sector_size as int, 4),
        snapshot_config_bytes(c).subrange(16, 20) == le_bytes(c.arg_len as int, 4),
        snapshot_config_bytes(c).subrange(24, 280) == padded(c.arg@, 256),
        snapshot_config_bytes(c).subrange(280, 284) == le_bytes(c.date_sec as int, 4),
        snapshot_config_bytes(c).subrange(284, 288) == le_bytes(c.date_nsec as int, 4),
{
    broadcast use lemma_le_bytes_len;

    let b = snapshot_config_bytes(c);
    assert(b.subrange(0, 4) =~= le_bytes(SNAPSHOT_CONFIG_MAGIC as int, 4));
    assert(b.subrange(4, 8) =~= le_bytes(c.mode as int, 4));
    assert(b.subrange(8, 12) =~= le_bytes(c.flags as int, 4));
    assert(b.subrange(12, 16) =~= le_bytes(c.sector_size as int, 4));
    assert(b.subrange(16, 20) =~= le_bytes(c.arg_len as int, 4));
    assert(b.subrange(24, 280) =~= padded(c.arg@, 256));
    assert(b.subrange(280, 284) =~= le_bytes(c.date_sec as int, 4));
    assert(b.subrange(284, 288) =~= le_bytes(c.date_nsec as int, 4));
}

/// How a request is run.
#[derive(Debug)]
pub struct SnapshotPlan {
    /// Whether the image is only read.
    pub read_only: bool,
    /// How large the device seems to the guest.
    pub capacity: u64,
    pub config: SnapshotConfig,
}

/// Why a request is refused.
#[derive(Debug)]
pub struct SnapshotRefusal {
    pub message: String,
    /// Whether the message for a name that was not found is shown too.
    pub not_found: bool,
}

/// The date of a snapshot that is created, as the image keeps it: the lowest
/// 32 bits of the seconds, and whole microseconds in nanoseconds. A clock
/// before 1970 gives none.
pub open spec fn snapshot_date(now: Option<(u64, u32)>) -> (int, int) {
    match now {
        Some((secs, usec)) => (
            secs as int % 0x1_0000_0000,
            if usec * 1000 > u32::MAX {
                u32::MAX as int
            } else {
                usec * 1000
            },
        ),
        None => (0, 0),
    }
}

/// The flags for the guest.
pub open spec fn snapshot_flags(args: SnapshotArgs, verbose: bool) -> u32 {
    bit(verbose, SNAPSHOT_CONFIG_FLAG_VERBOSE) | bit(args.quiet, SNAPSHOT_CONFIG_FLAG_QUIET) | bit(
        args.force_share,
        SNAPSHOT_CONFIG_FLAG_FORCE_SHARE,
    )
}

/// Whether a plan is the plan for a request.
pub open spec fn is_snapshot_plan(
    plan: SnapshotPlan,
    args: SnapshotArgs,
    verbose: bool,
    now: Option<(u64, u32)>,
    size: u64,
) -> bool {
    let (mode, name) = snapshot_mode(args);
    let date = if mode == SNAPSHOT_CONFIG_MODE_CREATE {
        snapshot_date(now)
    } else {
        (0, 0)
    };
    let c = plan.config;
    &&& plan.read_only == (mode == SNAPSHOT_CONFIG_MODE_LIST)
    &&& plan.capacity == if mode == SNAPSHOT_CONFIG_MODE_LIST {
        size
    } else {
        doubled(size)
    }
    &&& c.wf()
    &&& c.mode == mode
    &&& c.flags == snapshot_flags(args, verbose)
    &&& c.sector_size == args.sector_size
    &&& c.arg@ == vstd::utf8::encode_utf8(name)
    &&& c.arg_len == byte_len(name)
    &&& c.date_sec == date.0
    &&& c.date_nsec == date.1
}

fn refuse(message: String) -> (r: Result<SnapshotPlan, SnapshotRefusal>)
    ensures
        r is Err,
        r->Err_0.message@ == message@,
        !r->Err_0.not_found,
{
    Err(SnapshotRefusal { message, not_found: false })
}

fn mode_of(args: &SnapshotArgs) -> (r: (u32, &str))
    ensures
        (r.0, r.1@) == snapshot_mode(*args),
{
    match &args.create {
        Some(name) => return (SNAPSHOT_CONFIG_MODE_CREATE, name.as_str()),
        None => {},
    }
    match &args.delete {
        Some(name) => return (SNAPSHOT_CONFIG_MODE_DELETE, name.as_str()),
        None => {},
    }
    match &args.apply {
        Some(name) => return (SNAPSHOT_CONFIG_MODE_APPLY, name.as_str()),
        None => {},
    }
    proof {
        reveal_strlit("");
        assert(""@ =~= Seq::<char>::empty());
    }
    (SNAPSHOT_CONFIG_MODE_LIST, "")
}

fn date_of(now: Option<(u64, u32)>) -> (r: (u32, u32))
    ensures
        r.0 == snapshot_date(now).0,
        r.1 == snapshot_date(now).1,
{
    match now {
        Some((secs, usec)) => {
            let sec: u32 = (secs % 0x1_0000_0000) as u32;
            let nsec: u32 = if usec > 4_294_967 {
                0xffff_ffff
            } else {
                usec * 1000
            };
            (sec, nsec)
        },
        None => (0, 0),
    }
}

/// Plans a request. The file, of which the size or the error of the system is
/// given, is looked at only where nothing else is wrong; `now` is the clock in
/// seconds since 1970 and microseconds.
pub fn plan_snapshot(
    args: &SnapshotArgs,
    verbose: bool,
    now: Option<(u64, u32)>,
    file: &Result<u64, String>,
) -> (r: Result<SnapshotPlan, SnapshotRefusal>)
    ensures
        match snapshot_refusal(*args) {
            Some(e) => r is Err && r->Err_0.message@ == e && r->Err_0.not_found == is_not_found(
                *args,
            ),
            None => match *file {
                Err(e) => r is Err && r->Err_0.message@ == e@ && !r->Err_0.not_found,
                Ok(size) => r is Ok && is_snapshot_plan(r->Ok_0, *args, verbose, now, size),
            },
        },
{
    if args.image_opts {
        return refuse(
            "snapshot: --image-opts is not supported (instar accepts FILENAME directly; see docs/quirks.md)".to_owned(),
        );
    }
    match check_sector_size("", args.sector_size) {
        Ok(()) => {},
        Err(e) => return refuse(e),
    }
    match &args.format {
        Some(f) => {
            if !same(f.as_str(), "qcow2") {
                return refuse(
                    between(
                        "snapshot: format driver '",
                        f.as_str(),
                        "' does not support image snapshots (qcow2 only)",
                    ),
                );
            }
        },
        None => {},
    }
    let (mode, name) = mode_of(args);
    if args.force_share && mode != SNAPSHOT_CONFIG_MODE_LIST {
        return refuse(
            "snapshot: --force-share (-U) can only be used with read-only operations; -l is the only sharing-safe mode".to_owned(),
        );
    }
    let len: usize = byte_length(name);
    if mode == SNAPSHOT_CONFIG_MODE_CREATE {
        if name.is_empty() {
            return refuse("snapshot: -c requires a non-empty snapshot name".to_owned());
        }
        if len > 255 {
            return refuse(
                number_between(
                    "snapshot: snapshot name is ",
                    len as u64,
                    " bytes; the qcow2 on-disk limit is 255 (qemu-img truncates silently; instar refuses; see docs/quirks.md)",
                ),
            );
        }
    }
    proof {
        lemma_no_name_no_bytes();
    }
    if len > 256 {
        let message = number_between(
            "snapshot: guest reported error code ",
            SNAPSHOT_RESULT_ERROR_NOT_FOUND as u64,
            "",
        );
        proof {
            reveal_strlit("");
            assert(message@ =~= guest_error(SNAPSHOT_RESULT_ERROR_NOT_FOUND));
        }
        return Err(SnapshotRefusal { message, not_found: true });
    }
    let size: u64 = match file {
        Ok(n) => *n,
        Err(e) => return refuse(e.as_str().to_owned()),
    };
    let mut arg: Vec<u8> = Vec::new();
    push_bytes(&mut arg, name.as_bytes());
    assert(arg@ =~= vstd::utf8::encode_utf8(name@));
    let read_only = mode == SNAPSHOT_CONFIG_MODE_LIST;
    let (date_sec, date_nsec) = if mode == SNAPSHOT_CONFIG_MODE_CREATE {
        date_of(now)
    } else {
        (0, 0)
    };
    Ok(
        SnapshotPlan {
            read_only,
            capacity: if read_only {
                size
            } else {
                doubled_capacity(size)
            },
            config: SnapshotConfig {
                mode,
                flags: bit_if(verbose, SNAPSHOT_CONFIG_FLAG_VERBOSE) | bit_if(
                    args.quiet,
                    SNAPSHOT_CONFIG_FLAG_QUIET,
                ) | bit_if(args.force_share, SNAPSHOT_CONFIG_FLAG_FORCE_SHARE),
                sector_size: args.sector_size,
                arg_len: len as u32,
                arg,
                date_sec,
                date_nsec,
            },
        },
    )
}

proof fn lemma_no_name_no_bytes()
    ensures
        byte_len(Seq::empty()) == 0,
{
}

/// What a run of the guest came to. The rest of a listing is written only
/// where its reader is still there.
pub open spec fn snapshot_verdict(broken_pipe: bool, result: Option<u32>) -> Result<bool, Seq<char>> {
    if broken_pipe {
        Ok(false)
    } else {
        match result {
            None => Err("snapshot: guest returned no SnapshotResult"@),
            Some(error) => if error == SNAPSHOT_RESULT_ERROR_OK {
                Ok(true)
            } else {
                Err(guest_error(error))
            },
        }
    }
}

/// Decides what a run of the guest came to; `result` is its error code.
pub fn finish_snapshot(broken_pipe: bool, result: Option<u32>) -> (r: Result<bool, String>)
    ensures
        outcome(r) == snapshot_verdict(broken_pipe, result),
{
    if broken_pipe {
        return Ok(false);
    }
    match result {
        None => Err("snapshot: guest returned no SnapshotResult".to_owned()),
        Some(error) => {
            if error == SNAPSHOT_RESULT_ERROR_OK {
                return Ok(true);
            }
            let mut e = "snapshot: guest reported error code ".to_owned();
            crate::text::push_dec(&mut e, error as u64);
            Err(e)
        },
    }
}

// ---------------------------------------------------------------------------
// Laws
// ---------------------------------------------------------------------------

/// A shared image is never written: with `--force-share`, whatever is planned
/// only reads.
pub proof fn law_shared_images_are_only_read(
    plan: SnapshotPlan,
    args: SnapshotArgs,
    verbose: bool,
    now: Option<(u64, u32)>,
    size: u64,
)
    requires
        snapshot_refusal(args) is None,
        is_snapshot_plan(plan, args, verbose, now, size),
        args.force_share,
    ensures
        plan.read_only,
{
}

/// The name that the guest gets is the name that the user gave, whole.
pub proof fn law_names_arrive_whole(
    plan: SnapshotPlan,
    args: SnapshotArgs,
    verbose: bool,
    now: Option<(u64, u32)>,
    size: u64,
)
    requires
        snapshot_refusal(args) is None,
        is_snapshot_plan(plan, args, verbose, now, size),
    ensures
        snapshot_config_bytes(plan.config).subrange(24, 24 + plan.config.arg_len)
            == vstd::utf8::encode_utf8(snapshot_mode(args).1),
{
    law_snapshot_config_layout(plan.config);
    let field = padded(plan.config.arg@, 256);
    let all = snapshot_config_bytes(plan.config);
    assert(all.subrange(24, 280).subrange(0, plan.config.arg_len as int) =~= all.subrange(
        24,
        24 + plan.config.arg_len,
    ));
    assert(field.subrange(0, plan.config.arg_len as int) =~= plan.config.arg@);
}

/// The microseconds of a clock always fit.
pub proof fn law_dates_are_exact(secs: u64, usec: u32)
    requires
        secs <= u32::MAX,
        usec < 1_000_000,
    ensures
        snapshot_date(Some((secs, usec))) == (secs as int, usec * 1000),
{
}

/// What the guest is told to do is what the user asked for, and the name that
/// it gets is the one that came with that: `-c` creates, else `-d` deletes,
/// else `-a` applies, else the snapshots are listed. The guest knows listing
/// as 0, applying as 1, creating as 2 and deleting as 3.
pub proof fn law_asked_mode_is_planned(
    args: &SnapshotArgs,
    verbose: bool,
    now: Option<(u64, u32)>,
    file: &Result<u64, String>,
    r: Result<SnapshotPlan, SnapshotRefusal>,
)
    requires
        call_ensures(plan_snapshot, (args, verbose, now, file), r),
        r is Ok,
    ensures
        ({
            let c = r->Ok_0.config;
            let name = vstd::utf8::decode_utf8(c.arg@);
            &&& SNAPSHOT_CONFIG_MODE_LIST == 0 && SNAPSHOT_CONFIG_MODE_APPLY == 1
            &&& SNAPSHOT_CONFIG_MODE_CREATE == 2 && SNAPSHOT_CONFIG_MODE_DELETE == 3
            &&& args.create matches Some(n) ==> c.mode == SNAPSHOT_CONFIG_MODE_CREATE && name == n@
            &&& args.create is None && args.delete is Some ==> c.mode
                == SNAPSHOT_CONFIG_MODE_DELETE && name == args.delete->0@
            &&& args.create is None && args.delete is None && args.apply is Some ==> c.mode
                == SNAPSHOT_CONFIG_MODE_APPLY && name == args.apply->0@
            &&& args.create is None && args.delete is None && args.apply is None ==> c.mode
                == SNAPSHOT_CONFIG_MODE_LIST && c.arg@.len() == 0
            &&& c.arg_len == c.arg@.len()
        }),
{
    let name = snapshot_mode(*args).1;
    vstd::utf8::encode_utf8_decode_utf8(name);
}

/// A request is planned exactly where nothing speaks against it: the file is
/// there, the driver is qcow2, sectors have a size that devices can have, only
/// a listing shares the image, and the name fits. A name to create may have
/// up to 255 bytes and must not be empty, one to look up may have 256.
pub proof fn law_snapshot_is_planned_where_it_can_be(
    args: &SnapshotArgs,
    verbose: bool,
    now: Option<(u64, u32)>,
    file: &Result<u64, String>,
    r: Result<SnapshotPlan, SnapshotRefusal>,
)
    requires
        call_ensures(plan_snapshot, (args, verbose, now, file), r),
    ensures
        r is Ok <==> {
            &&& *file is Ok
            &&& !args.image_opts
            &&& valid_sector_size(args.sector_size)
            &&& args.format matches Some(f) ==> f@ == "qcow2"@
            &&& args.force_share ==> args.create is None && args.delete is None && args.apply
                is None
            &&& args.create matches Some(n) ==> n@.len() > 0 && byte_len(n@) <= 255
            &&& args.create is None && args.delete is Some ==> byte_len(args.delete->0@) <= 256
            &&& args.create is None && args.delete is None && args.apply is Some ==> byte_len(
                args.apply->0@,
            ) <= 256
        },
{
}

/// A name that is too long to be found is answered as one that was not found,
/// and nothing else is.
pub proof fn law_long_names_are_not_found(
    args: &SnapshotArgs,
    verbose: bool,
    now: Option<(u64, u32)>,
    file: &Result<u64, String>,
    r: Result<SnapshotPlan, SnapshotRefusal>,
)
    requires
        call_ensures(plan_snapshot, (args, verbose, now, file), r),
    ensures
        ({
            let looked_up = if args.delete is Some {
                args.delete->0@
            } else {
                args.apply->0@
            };
            &&& r is Err && r->Err_0.not_found <==> {
                &&& args.create is None && (args.delete is Some || args.apply is Some)
                &&& byte_len(looked_up) > 256
                &&& !args.image_opts && !args.force_share
                &&& valid_sector_size(args.sector_size)
                &&& args.format matches Some(f) ==> f@ == "qcow2"@
            }
            &&& r is Err && r->Err_0.not_found ==> r->Err_0.message@
                == "snapshot: guest reported error code "@ + dec(3)
        }),
{
}

/// Only a listing leaves the image as it is: it is read, at its own size, and
/// everything else may make it grow. Only a snapshot that is created is dated,
/// by the clock as far as the image can keep it.
pub proof fn law_only_a_listing_leaves_the_image(
    args: &SnapshotArgs,
    verbose: bool,
    now: Option<(u64, u32)>,
    file: &Result<u64, String>,
    r: Result<SnapshotPlan, SnapshotRefusal>,
)
    requires
        call_ensures(plan_snapshot, (args, verbose, now, file), r),
        r is Ok,
    ensures
        ({
            let plan = r->Ok_0;
            let c = plan.config;
            let listing = args.create is None && args.delete is None && args.apply is None;
            &&& *file is Ok
            &&& plan.read_only <==> listing
            &&& listing ==> plan.capacity == file->Ok_0
            &&& !listing ==> plan.capacity >= file->Ok_0 && plan.capacity >= 0x4000_0000
            &&& c.sector_size == args.sector_size
            &&& args.create is None || now is None ==> c.date_sec == 0 && c.date_nsec == 0
            &&& args.create is Some && now is Some ==> c.date_sec == (now->0).0 as int
                % 0x1_0000_0000
            &&& args.create is Some && now is Some && (now->0).1 * 1000 <= u32::MAX ==> c.date_nsec
                == (now->0).1 * 1000
            &&& args.create is Some && now is Some && (now->0).1 * 1000 > u32::MAX ==> c.date_nsec
                == u32::MAX
            &&& c.flags & 1 != 0 <==> args.quiet
            &&& c.flags & 2 != 0 <==> args.force_share
            &&& c.flags & 0x8000_0000 != 0 <==> verbose
        }),
{
    let v = bit(verbose, SNAPSHOT_CONFIG_FLAG_VERBOSE);
    let q = bit(args.quiet, SNAPSHOT_CONFIG_FLAG_QUIET);
    let f = bit(args.force_share, SNAPSHOT_CONFIG_FLAG_FORCE_SHARE);
    assert((v | q | f) & 1 == q && (v | q | f) & 2 == f && (v | q | f) & 0x8000_0000 == v)
        by (bit_vector)
        requires
            v == 0 || v == 0x8000_0000,
            q == 0 || q == 1,
            f == 0 || f == 2,
    ;
}

/// A closed pipe is no failure and ends the report; otherwise a run succeeds
/// exactly where the guest reports no error.
pub proof fn law_snapshot_succeeds_without_an_error(
    broken_pipe: bool,
    result: Option<u32>,
    r: Result<bool, String>,
)
    requires
        call_ensures(finish_snapshot, (broken_pipe, result), r),
    ensures
        r is Ok <==> broken_pipe || result == Some(0u32),
        r matches Ok(more) ==> more == !broken_pipe,
{
}

} // verus!
