//! Comparing two images.
use vstd::prelude::*;
use crate::abi::{
    COMPARE_CONFIG_FLAG_QUIET, COMPARE_CONFIG_FLAG_STRICT, COMPARE_CONFIG_FLAG_VERBOSE,
    COMPARE_CONFIG_MAGIC, COMPARE_RESULT_FLAG_SIZE_MISMATCH, MAX_CHAIN_DEVICES,
};
use crate::bytes::{
    bit, bit_if, le_bytes, lemma_le_bytes_len, padded, push_bytes, push_padded, push_u32,
    push_zeros, zeros,
};
use crate::chain::{
    chain_devices, chain_head, device_total, entries_bytes, fitting, law_device_total,
    lemma_devices_of_part, total_devices, write_chain_config, write_chain_device_entries,
    write_chain_head, ChainImage, DeviceEntry,
};
use crate::info::{passphrase_bytes, texts_of};
use crate::message::CompareResultMessage;
use crate::passphrase::{
    first_of, lemma_only_newlines_go, pick_passphrase, strip_newline, strip_newlines,
    without_newline, without_newlines, MAX_PASSPHRASE,
};
use crate::text::{
    byte_len, dec, holds_part, lemma_first_part, lemma_last_part, lemma_part_stays, name_of,
    outcome, push_dec,
};

verus! {

/// The arguments of a comparison.
#[derive(Debug)]
pub struct CompareArgs {
    pub image1: String,
    pub image2: String,
    pub sector_size: u32,
    pub output: String,
    pub strict: bool,
    pub quiet: bool,
    pub qcow2_password: Option<String>,
    pub qcow2_password_file: Option<String>,
    pub luks_passphrase: Option<String>,
    pub luks_passphrase_file: Option<String>,
}

/// The refusal of chains that are too long together.
pub open spec fn too_many_devices(first: int, second: int) -> Seq<char> {
    "combined chain depth "@ + dec(first + second) + " (image1: "@ + dec(first) + " + image2: "@
        + dec(second) + ") exceeds maximum of 16 devices"@
}

/// Counts the devices of the two chains, and refuses more than a guest knows.
pub fn check_compare_devices(chain1: &Vec<ChainImage>, chain2: &Vec<ChainImage>) -> (r: Result<
    usize,
    String,
>)
    requires
        device_total(chain1@) + device_total(chain2@) <= usize::MAX,
    ensures
        ({
            let first = device_total(chain1@);
            let second = device_total(chain2@);
            outcome(r) == if first + second > MAX_CHAIN_DEVICES {
                Err(too_many_devices(first, second))
            } else {
                Ok((first + second) as usize)
            }
        }),
{
    proof {
        law_device_total(chain1@, 0);
        law_device_total(chain2@, 0);
    }
    let first: usize = total_devices(chain1);
    let second: usize = total_devices(chain2);
    let total: usize = first + second;
    if total > MAX_CHAIN_DEVICES {
        let mut e = "combined chain depth ".to_owned();
        push_dec(&mut e, total as u64);
        e.append(" (image1: ");
        push_dec(&mut e, first as u64);
        e.append(" + image2: ");
        push_dec(&mut e, second as u64);
        e.append(") exceeds maximum of 16 devices");
        return Err(e);
    }
    Ok(total)
}

/// The password of a qcow2 image: the one that is given, else the content of
/// the file that is named, without the newline that ends it.
pub open spec fn qcow2_secret(
    given: Option<Seq<char>>,
    file: Option<Seq<char>>,
    content: Result<Seq<char>, Seq<char>>,
) -> Result<Option<Seq<char>>, Seq<char>> {
    match (given, file) {
        (Some(p), _) => Ok(Some(p)),
        (None, Some(_)) => match content {
            Ok(c) => Ok(Some(without_newline(c))),
            Err(e) => Err(e),
        },
        (None, None) => Ok(None),
    }
}

/// The passphrase of a LUKS image: the one that is given, else the content of
/// the file that is named, without the newlines at its end.
pub open spec fn luks_secret(
    given: Option<Seq<char>>,
    file: Option<Seq<char>>,
    content: Result<Seq<char>, Seq<char>>,
) -> Result<Option<Seq<char>>, Seq<char>> {
    match (given, file) {
        (Some(p), _) => Ok(Some(p)),
        (None, Some(path)) => match content {
            Ok(c) => Ok(Some(without_newlines(c))),
            Err(e) => Err("failed to read LUKS passphrase file '"@ + path + "': "@ + e),
        },
        (None, None) => Ok(None),
    }
}

/// Resolves the password of a qcow2 image.
pub fn resolve_qcow2_secret(
    given: &Option<String>,
    file: &Option<String>,
    content: &Result<String, String>,
) -> (r: Result<Option<String>, String>)
    ensures
        match qcow2_secret(name_of(*given), name_of(*file), texts_of(*content)) {
            Ok(p) => r is Ok && name_of(r->Ok_0) == p,
            Err(e) => r is Err && r->Err_0@ == e,
        },
{
    match given {
        Some(p) => Ok(Some(p.as_str().to_owned())),
        None => match file {
            Some(_path) => match content {
                Ok(c) => Ok(Some(strip_newline(c.as_str()))),
                Err(e) => Err(e.as_str().to_owned()),
            },
            None => Ok(None),
        },
    }
}

/// Resolves the passphrase of a LUKS image.
pub fn resolve_luks_secret(
    given: &Option<String>,
    file: &Option<String>,
    content: &Result<String, String>,
) -> (r: Result<Option<String>, String>)
    ensures
        match luks_secret(name_of(*given), name_of(*file), texts_of(*content)) {
            Ok(p) => r is Ok && name_of(r->Ok_0) == p,
            Err(e) => r is Err && r->Err_0@ == e,
        },
{
    match given {
        Some(p) => Ok(Some(p.as_str().to_owned())),
        None => match file {
            Some(path) => match content {
                Ok(c) => Ok(Some(strip_newlines(c.as_str()))),
                Err(e) => {
                    let mut m = "failed to read LUKS passphrase file '".to_owned();
                    m.append(path.as_str());
                    m.append("': ");
                    m.append(e.as_str());
                    Err(m)
                },
            },
            None => Ok(None),
        },
    }
}

/// What the guest is told of a comparison.
#[derive(Debug)]
pub struct CompareConfig {
    pub flags: u32,
    pub image1_device_count: u32,
    pub image2_device_count: u32,
    pub passphrase_len: u32,
    pub passphrase: Vec<u8>,
}

impl CompareConfig {
    /// The texts fit in their fields.
    pub open spec fn wf(self) -> bool {
        self.passphrase@.len() <= 256
    }
}

/// The bytes of the configuration, as the guest reads them.
pub open spec fn compare_config_bytes(c: CompareConfig) -> Seq<u8> {
    le_bytes(COMPARE_CONFIG_MAGIC as int, 4)
        + le_bytes(c.flags as int, 4)
        + le_bytes(c.image1_device_count as int, 4)
        + le_bytes(c.image2_device_count as int, 4)
        + le_bytes(c.passphrase_len as int, 4)
        + zeros(4)
        + padded(c.passphrase@, 256)
}

/// Writes the configuration.
pub fn write_compare_config(c: &CompareConfig) -> (b: Vec<u8>)
    requires
        c.wf(),
    ensures
        b@ == compare_config_bytes(*c),
{
    let mut b: Vec<u8> = Vec::new();
    push_u32(&mut b, COMPARE_CONFIG_MAGIC);
    assert(b@ =~= le_bytes(COMPARE_CONFIG_MAGIC as int, 4));
    push_u32(&mut b, c.flags);
    push_u32(&mut b, c.image1_device_count);
    push_u32(&mut b, c.image2_device_count);
    push_u32(&mut b, c.passphrase_len);
    push_zeros(&mut b, 4);
    push_padded(&mut b, c.passphrase.as_slice(), 256);
    b
}

/// Each field of the configuration stands at its offset.
pub proof fn law_compare_config_layout(c: CompareConfig)
    requires
        c.wf(),
    ensures
        compare_config_bytes(c).len() == 280,
        compare_config_bytes(c).subrange(0, 4) == le_bytes(0x434D5052, 4),
        compare_config_bytes(c).subrange(4, 8) == le_bytes(c.flags as int, 4),
        compare_config_bytes(c).subrange(8, 12) == le_bytes(c.image1_device_count as int, 4),
        compare_config_bytes(c).subrange(12, 16) == le_bytes(c.image2_device_count as int, 4),
        compare_config_bytes(c).subrange(16, 20) == le_bytes(c.passphrase_len as int, 4),
        compare_config_bytes(c).subrange(24, 280) == padded(c.passphrase@, 256),
{
    broadcast use lemma_le_bytes_len;

    let b = compare_config_bytes(c);
    assert(b.subrange(0, 4) =~= le_bytes(COMPARE_CONFIG_MAGIC as int, 4));
    assert(b.subrange(4, 8) =~= le_bytes(c.flags as int, 4));
    assert(b.subrange(8, 12) =~= le_bytes(c.image1_device_count as int, 4));
    assert(b.subrange(12, 16) =~= le_bytes(c.image2_device_count as int, 4));
    assert(b.subrange(16, 20) =~= le_bytes(c.passphrase_len as int, 4));
    assert(b.subrange(24, 280) =~= padded(c.passphrase@, 256));
}

/// The flags for the guest.
pub open spec fn compare_flags(args: CompareArgs, verbose: bool) -> u32 {
    bit(args.strict, COMPARE_CONFIG_FLAG_STRICT) | bit(args.quiet, COMPARE_CONFIG_FLAG_QUIET) | bit(
        verbose,
        COMPARE_CONFIG_FLAG_VERBOSE,
    )
}

/// Plans a comparison. A qcow2 password goes before a LUKS passphrase. It is
/// refused only where the secret is too long.
pub fn plan_compare(
    args: &CompareArgs,
    verbose: bool,
    chain1: &Vec<ChainImage>,
    chain2: &Vec<ChainImage>,
    qcow2_secret: &Option<String>,
    luks_secret: &Option<String>,
) -> (r: Result<CompareConfig, String>)
    requires
        device_total(chain1@) + device_total(chain2@) <= MAX_CHAIN_DEVICES,
    ensures
        ({
            let bytes = passphrase_bytes(first_of(name_of(*qcow2_secret), name_of(*luks_secret)));
            match r {
                Err(e) => bytes.len() > MAX_PASSPHRASE && e@
                    == "passphrase too long (max 256 bytes)"@,
                Ok(c) => {
                    &&& bytes.len() <= MAX_PASSPHRASE
                    &&& c.wf()
                    &&& c.flags == compare_flags(*args, verbose)
                    &&& c.image1_device_count == device_total(chain1@)
                    &&& c.image2_device_count == device_total(chain2@)
                    &&& c.passphrase_len == bytes.len()
                    &&& c.passphrase@ == bytes
                },
            }
        }),
{
    proof {
        law_device_total(chain1@, 0);
        law_device_total(chain2@, 0);
    }
    let secret = pick_passphrase(qcow2_secret, luks_secret);
    let mut bytes: Vec<u8> = Vec::new();
    match &secret {
        Some(p) => {
            push_bytes(&mut bytes, p.as_str().as_bytes());
        },
        None => {},
    }
    assert(bytes@ =~= passphrase_bytes(name_of(secret)));
    let len: usize = bytes.len();
    if len > MAX_PASSPHRASE {
        return Err("passphrase too long (max 256 bytes)".to_owned());
    }
    Ok(
        CompareConfig {
            flags: bit_if(args.strict, COMPARE_CONFIG_FLAG_STRICT) | bit_if(
                args.quiet,
                COMPARE_CONFIG_FLAG_QUIET,
            ) | bit_if(verbose, COMPARE_CONFIG_FLAG_VERBOSE),
            image1_device_count: total_devices(chain1) as u32,
            image2_device_count: total_devices(chain2) as u32,
            passphrase_len: len as u32,
            passphrase: bytes,
        },
    )
}

/// The description of two chains to a guest: the devices of the second follow
/// those of the first.
pub open spec fn two_chains_config(chain1: Seq<ChainImage>, chain2: Seq<ChainImage>) -> Seq<u8> {
    let first = device_total(chain1);
    chain_head(first + device_total(chain2)) + entries_bytes(chain_devices(chain1, 0))
        + entries_bytes(chain_devices(chain2, first))
}

/// Describes two chains to a guest.
pub fn write_two_chains(chain1: &Vec<ChainImage>, chain2: &Vec<ChainImage>) -> (r: Vec<u8>)
    requires
        device_total(chain1@) + device_total(chain2@) <= MAX_CHAIN_DEVICES,
    ensures
        r@ == two_chains_config(chain1@, chain2@),
{
    proof {
        law_device_total(chain1@, 0);
        law_device_total(chain2@, 0);
        law_device_total(chain2@, device_total(chain1@));
    }
    let first: usize = total_devices(chain1);
    let second: usize = total_devices(chain2);
    let mut r = write_chain_head(first + second);
    let mut entries1 = write_chain_device_entries(chain1, 0);
    let mut entries2 = write_chain_device_entries(chain2, first);
    r.append(&mut entries1);
    r.append(&mut entries2);
    proof {
        let all1 = chain_devices(chain1@, 0);
        let all2 = chain_devices(chain2@, first as int);
        assert(fitting(all1, 0) == all1);
        if first == MAX_CHAIN_DEVICES {
            assert(all2 =~= Seq::empty());
        }
        assert(fitting(all2, first as int) == all2);
    }
    r
}

/// Whether two images count as identical: where the user is strict, images of
/// different sizes never do.
pub open spec fn identical(m: CompareResultMessage, strict: bool) -> bool {
    m.identical && !(strict && m.flags & COMPARE_RESULT_FLAG_SIZE_MISMATCH != 0)
}

/// Decides whether two images count as identical.
pub fn harvest_compare(m: &CompareResultMessage, strict: bool) -> (r: bool)
    ensures
        r == identical(*m, strict),
{
    m.identical && !(strict && m.flags & COMPARE_RESULT_FLAG_SIZE_MISMATCH != 0)
}

/// Decides whether a result is shown: always, but for images that are
/// identical when the user wants to see errors only.
pub fn shows_compare_result(args: &CompareArgs, m: &CompareResultMessage) -> (r: bool)
    ensures
        r == (!args.quiet || !identical(*m, args.strict)),
{
    !args.quiet || !harvest_compare(m, args.strict)
}

/// The exit code of a comparison, 0 for identical images and 1 for others;
/// without a result it has failed.
pub fn finish_compare(identical: Option<bool>) -> (r: Result<u8, String>)
    ensures
        outcome(r) == match identical {
            None => Err("compare operation failed: no result received"@),
            Some(i) => Ok(
                if i {
                    0u8
                } else {
                    1u8
                },
            ),
        },
{
    match identical {
        None => Err("compare operation failed: no result received".to_owned()),
        Some(i) => {
            if i {
                Ok(0)
            } else {
                Ok(1)
            }
        },
    }
}

// ---------------------------------------------------------------------------
// Laws
// ---------------------------------------------------------------------------

/// Being strict only ever tells images apart.
pub proof fn law_strict_is_stricter(m: CompareResultMessage)
    ensures
        identical(m, true) ==> identical(m, false),
{
}

/// Each flag reads back from the flags.
pub proof fn law_compare_flags_read_back(args: CompareArgs, verbose: bool)
    ensures
        compare_flags(args, verbose) & COMPARE_CONFIG_FLAG_STRICT != 0 <==> args.strict,
        compare_flags(args, verbose) & COMPARE_CONFIG_FLAG_QUIET != 0 <==> args.quiet,
        compare_flags(args, verbose) & COMPARE_CONFIG_FLAG_VERBOSE != 0 <==> verbose,
{
    let s = bit(args.strict, COMPARE_CONFIG_FLAG_STRICT);
    let q = bit(args.quiet, COMPARE_CONFIG_FLAG_QUIET);
    let v = bit(verbose, COMPARE_CONFIG_FLAG_VERBOSE);
    assert((s | q | v) & 1 == s && (s | q | v) & 2 == q && (s | q | v) & 0x8000_0000 == v)
        by (bit_vector)
        requires
            s == 0 || s == 1,
            q == 0 || q == 2,
            v == 0 || v == 0x8000_0000,
    ;
}

/// Two chains are compared exactly where their devices suffice together, and
/// all of them are attached.
pub proof fn law_both_chains_are_attached(
    chain1: &Vec<ChainImage>,
    chain2: &Vec<ChainImage>,
    r: Result<usize, String>,
)
    requires
        call_ensures(check_compare_devices, (chain1, chain2), r),
    ensures
        r is Ok <==> device_total(chain1@) + device_total(chain2@) <= 16,
        r is Ok ==> r->Ok_0 == device_total(chain1@) + device_total(chain2@),
{
    law_device_total(chain1@, 0);
    law_device_total(chain2@, 0);
}

/// A password on the command line goes before one in a file, whose content is
/// not even looked at; of the file one newline is cut off the end. Without
/// either there is none.
pub proof fn law_given_password_goes_before_a_file(
    given: &Option<String>,
    file: &Option<String>,
    content: &Result<String, String>,
    r: Result<Option<String>, String>,
)
    requires
        call_ensures(resolve_qcow2_secret, (given, file, content), r),
    ensures
        given is Some ==> r is Ok && name_of(r->Ok_0) == name_of(*given),
        given is None && file is None ==> r is Ok && r->Ok_0 is None,
        given is None && file is Some ==> (r is Ok <==> *content is Ok),
        given is None && file is Some && r is Ok ==> {
            let text = content->Ok_0@;
            &&& r->Ok_0 is Some
            &&& text.len() > 0 && text.last() == '\n' ==> r->Ok_0->0@.push('\n') == text
            &&& text.len() == 0 || text.last() != '\n' ==> r->Ok_0->0@ == text
        },
{
}

/// A passphrase on the command line goes before one in a file, whose content
/// is not even looked at; of the file all newlines are cut off the end, and
/// nothing else. Without either there is none.
pub proof fn law_given_passphrase_goes_before_a_file(
    given: &Option<String>,
    file: &Option<String>,
    content: &Result<String, String>,
    r: Result<Option<String>, String>,
)
    requires
        call_ensures(resolve_luks_secret, (given, file, content), r),
    ensures
        given is Some ==> r is Ok && name_of(r->Ok_0) == name_of(*given),
        given is None && file is None ==> r is Ok && r->Ok_0 is None,
        given is None && file is Some ==> (r is Ok <==> *content is Ok),
        given is None && file is Some && r is Ok ==> {
            let text = content->Ok_0@;
            let secret = r->Ok_0->0@;
            &&& r->Ok_0 is Some
            &&& secret.is_prefix_of(text)
            &&& secret.len() == 0 || secret.last() != '\n'
            &&& forall|i: int| secret.len() <= i < text.len() ==> #[trigger] text[i] == '\n'
        },
{
    if *content is Ok {
        lemma_only_newlines_go(content->Ok_0@);
    }
}

/// The guest is told how many devices each image has, which switches are set,
/// and the qcow2 password, else the LUKS passphrase, else none. Only a secret
/// that does not fit is refused.
pub proof fn law_guest_is_told_what_to_compare(
    args: &CompareArgs,
    verbose: bool,
    chain1: &Vec<ChainImage>,
    chain2: &Vec<ChainImage>,
    qcow2_secret: &Option<String>,
    luks_secret: &Option<String>,
    r: Result<CompareConfig, String>,
)
    requires
        call_ensures(plan_compare, (args, verbose, chain1, chain2, qcow2_secret, luks_secret), r),
    ensures
        r is Ok <==> {
            &&& *qcow2_secret matches Some(p) ==> byte_len(p@) <= 256
            &&& qcow2_secret is None && luks_secret is Some ==> byte_len(luks_secret->0@) <= 256
        },
        r matches Ok(c) ==> {
            let secret = vstd::utf8::decode_utf8(c.passphrase@);
            &&& c.image1_device_count == device_total(chain1@)
            &&& c.image2_device_count == device_total(chain2@)
            &&& c.passphrase_len == c.passphrase@.len()
            &&& qcow2_secret is Some ==> secret == qcow2_secret->0@
            &&& qcow2_secret is None && luks_secret is Some ==> secret == luks_secret->0@
            &&& qcow2_secret is None && luks_secret is None ==> c.passphrase_len == 0
            &&& c.flags & 1 != 0 <==> args.strict
            &&& c.flags & 2 != 0 <==> args.quiet
            &&& c.flags & 0x8000_0000 != 0 <==> verbose
        },
{
    law_compare_flags_read_back(*args, verbose);
    if qcow2_secret is Some {
        vstd::utf8::encode_utf8_decode_utf8(qcow2_secret->0@);
    }
    if luks_secret is Some {
        vstd::utf8::encode_utf8_decode_utf8(luks_secret->0@);
    }
}

/// Two chains are described to the guest as one chain would be that has the
/// images of the first and then those of the second.
pub proof fn law_two_chains_are_described_as_one(
    chain1: &Vec<ChainImage>,
    chain2: &Vec<ChainImage>,
    all: &Vec<ChainImage>,
    r: Vec<u8>,
    s: Vec<u8>,
)
    requires
        all@ == chain1@ + chain2@,
        device_total(chain1@) + device_total(chain2@) <= 16,
        call_ensures(write_two_chains, (chain1, chain2), r),
        call_ensures(write_chain_config, (all,), s),
    ensures
        r@ == s@,
{
    lemma_devices_of_part(chain1@, chain2@);
    law_device_total(chain1@, 0);
    law_device_total(chain2@, device_total(chain1@));
    law_device_total(all@, 0);
    lemma_entries_in_a_row(chain1@, chain2@, 0);
    lemma_bytes_in_a_row(
        chain_devices(chain1@, 0),
        chain_devices(chain2@, device_total(chain1@)),
    );
}

/// The entries of two chains in a row are those of the first, then those of
/// the second with the numbers that are left.
proof fn lemma_entries_in_a_row(a: Seq<ChainImage>, b: Seq<ChainImage>, start: int)
    ensures
        chain_devices(a + b, start) == chain_devices(a, start) + chain_devices(
            b,
            start + device_total(a),
        ),
    decreases b.len(),
{
    law_device_total(a, start);
    if b.len() == 0 {
        assert(a + b =~= a);
        assert(chain_devices(a, start) + chain_devices(b, start + device_total(a))
            =~= chain_devices(a, start));
    } else {
        lemma_entries_in_a_row(a, b.drop_last(), start);
        assert((a + b).drop_last() =~= a + b.drop_last());
        assert((a + b).last() == b.last());
        assert(chain_devices(a + b, start) =~= chain_devices(a, start) + chain_devices(
            b,
            start + device_total(a),
        ));
    }
}

/// The bytes of entries in a row are those of the first, then the others.
proof fn lemma_bytes_in_a_row(a: Seq<DeviceEntry>, b: Seq<DeviceEntry>)
    ensures
        entries_bytes(a + b) == entries_bytes(a) + entries_bytes(b),
    decreases b.len(),
{
    if b.len() == 0 {
        assert(a + b =~= a);
        assert(entries_bytes(a) + entries_bytes(b) =~= entries_bytes(a));
    } else {
        lemma_bytes_in_a_row(a, b.drop_last());
        assert((a + b).drop_last() =~= a + b.drop_last());
        assert((a + b).last() == b.last());
        assert(entries_bytes(a + b) =~= entries_bytes(a) + entries_bytes(b));
    }
}

/// Images count as the same where the guest says so, and in strict mode their
/// sizes must agree too. The exit code says which, 0 for the same; a user who
/// wants quiet is told of differences alone; without a result there is no code.
pub proof fn law_strict_images_agree_in_size(
    args: &CompareArgs,
    m: &CompareResultMessage,
    same: bool,
    shown: bool,
    r: Result<u8, String>,
    none: Result<u8, String>,
)
    requires
        call_ensures(harvest_compare, (m, args.strict), same),
        call_ensures(shows_compare_result, (args, m), shown),
        call_ensures(finish_compare, (Some(same),), r),
        call_ensures(finish_compare, (None,), none),
    ensures
        same ==> m.identical && (args.strict ==> m.flags & 1 == 0),
        m.identical && (!args.strict || m.flags & 1 == 0) ==> same,
        !shown <==> args.quiet && same,
        r is Ok && (r->Ok_0 == 0 <==> same) && (r->Ok_0 == 1 <==> !same),
        none is Err,
{
}

/// Chains that are too long together are told how long each is.
pub proof fn law_long_chains_are_counted(
    chain1: &Vec<ChainImage>,
    chain2: &Vec<ChainImage>,
    r: Result<usize, String>,
)
    requires
        call_ensures(check_compare_devices, (chain1, chain2), r),
        r is Err,
    ensures
        holds_part(r->Err_0@, " (image1: "@ + dec(device_total(chain1@))),
        holds_part(r->Err_0@, " + image2: "@ + dec(device_total(chain2@))),
        holds_part(
            r->Err_0@,
            "combined chain depth "@ + dec(device_total(chain1@) + device_total(chain2@)),
        ),
{
    broadcast use {lemma_part_stays, lemma_last_part, lemma_first_part};

}

} // verus!
