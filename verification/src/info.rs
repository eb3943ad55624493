//! Asking a guest what an image is.
use vstd::prelude::*;
use crate::abi::{
    GUEST_MEM_SIZE, INFO_CONFIG_FLAG_DETAILED, INFO_CONFIG_FLAG_EXTRA_DETAIL,
    INFO_CONFIG_FLAG_SECURITY_CHECK, INFO_CONFIG_FLAG_UNSAFE_QUIRKS, INFO_CONFIG_FLAG_VERBOSE,
    INFO_CONFIG_MAGIC,
};
use crate::bytes::{
    bit, bit_if, le_bytes, lemma_le_bytes_len, padded, push_bytes, push_padded, push_u32, push_u64,
    push_zeros, zeros,
};
use crate::info_report::OutputProfile;
use crate::passphrase::{first_line, take_first_line, MAX_PASSPHRASE};
use crate::size::{memory_size, parse_memory_size};
use crate::text::{between, byte_len, dec, lemma_find, name_of, outcome, push_dec};

verus! {

/// The arguments of `info`.
#[derive(Debug)]
pub struct InfoArgs {
    pub input: String,
    pub sector_size: u32,
    pub ignore_quirks: bool,
    pub unsafe_quirks: bool,
    pub qemu_version: Option<String>,
    pub output: String,
    pub chain: bool,
    pub extra_detail: bool,
    pub luks_passphrase: Option<String>,
    pub luks_passphrase_file: Option<String>,
    pub max_guest_memory: Option<String>,
}

/// Picks the profile of the output: that of the version that the user asks
/// for, where there is one of that name, else that of the version found.
pub fn info_profile(
    args: &InfoArgs,
    asked: Option<OutputProfile>,
    found: OutputProfile,
) -> (r: Result<OutputProfile, String>)
    ensures
        outcome(r) == match args.qemu_version {
            Some(v) => match asked {
                Some(p) => Ok(p),
                None => Err("invalid qemu version '"@ + v@ + "' (expected format: X.Y)"@),
            },
            None => Ok(found),
        },
{
    match &args.qemu_version {
        Some(v) => match asked {
            Some(p) => Ok(p),
            None => Err(
                between("invalid qemu version '", v.as_str(), "' (expected format: X.Y)"),
            ),
        },
        None => Ok(found),
    }
}

/// Says that a flat VMDK descriptor could not be resolved.
pub fn descriptor_failure(cause: &str) -> (r: String)
    ensures
        r@ == "error resolving VMDK descriptor: "@ + cause@,
{
    let mut s = "error resolving VMDK descriptor: ".to_owned();
    s.append(cause);
    s
}

/// The memory of the guest: as much as the user asks for, and no less than a
/// guest needs.
pub open spec fn guest_memory(asked: Option<Seq<char>>) -> Result<u64, Seq<char>> {
    match asked {
        None => Ok(GUEST_MEM_SIZE),
        Some(text) => match memory_size(text) {
            Err(e) => Err(e),
            Ok(n) => if n < GUEST_MEM_SIZE {
                Err("--max-guest-memory must be at least 32MB (got "@ + text + ")"@)
            } else {
                Ok(n)
            },
        },
    }
}

/// Works out the memory of the guest.
pub fn guest_memory_size(asked: &Option<String>) -> (r: Result<u64, String>)
    ensures
        outcome(r) == guest_memory(name_of(*asked)),
{
    match asked {
        None => Ok(GUEST_MEM_SIZE),
        Some(text) => match parse_memory_size(text.as_str()) {
            Err(e) => Err(e),
            Ok(n) => {
                if n < GUEST_MEM_SIZE {
                    Err(
                        between(
                            "--max-guest-memory must be at least 32MB (got ",
                            text.as_str(),
                            ")",
                        ),
                    )
                } else {
                    Ok(n)
                }
            },
        },
    }
}

/// The passphrase for a LUKS image: the one that is given, else the first line
/// of the file that is named.
pub open spec fn luks_passphrase(
    given: Option<Seq<char>>,
    file: Option<Seq<char>>,
    content: Result<Seq<char>, Seq<char>>,
) -> Result<Option<Seq<char>>, Seq<char>> {
    match (given, file) {
        (Some(p), _) => Ok(Some(p)),
        (None, Some(path)) => match content {
            Ok(c) => Ok(Some(first_line(c))),
            Err(e) => Err("failed to read passphrase file '"@ + path + "': "@ + e),
        },
        (None, None) => Ok(None),
    }
}

/// What reading a file came to, as texts.
pub open spec fn texts_of(content: Result<String, String>) -> Result<Seq<char>, Seq<char>> {
    match content {
        Ok(c) => Ok(c@),
        Err(e) => Err(e@),
    }
}

/// Resolves the passphrase for a LUKS image. The content is looked at only
/// where a file is named.
pub fn resolve_luks_passphrase(args: &InfoArgs, content: &Result<String, String>) -> (r: Result<
    Option<String>,
    String,
>)
    ensures
        match luks_passphrase(
            name_of(args.luks_passphrase),
            name_of(args.luks_passphrase_file),
            texts_of(*content),
        ) {
            Ok(p) => r is Ok && name_of(r->Ok_0) == p,
            Err(e) => r is Err && r->Err_0@ == e,
        },
{
    match &args.luks_passphrase {
        Some(p) => Ok(Some(p.as_str().to_owned())),
        None => match &args.luks_passphrase_file {
            Some(path) => match content {
                Ok(c) => Ok(Some(take_first_line(c.as_str()))),
                Err(e) => {
                    let mut m = "failed to read passphrase file '".to_owned();
                    m.append(path.as_str());
                    m.append("': ");
                    m.append(e.as_str());
                    Err(m)
                },
            },
            None => Ok(None),
        },
    }
}

/// What the guest is told of the question.
#[derive(Debug)]
pub struct InfoConfig {
    pub flags: u32,
    pub passphrase_len: u32,
    pub passphrase: Vec<u8>,
    /// How much memory key derivation may take.
    pub argon2_mem_size: u64,
}

impl InfoConfig {
    /// The texts fit in their fields.
    pub open spec fn wf(self) -> bool {
        self.passphrase@.len() <= 256
    }
}

/// The bytes of the configuration, as the guest reads them.
pub open spec fn info_config_bytes(c: InfoConfig) -> Seq<u8> {
    le_bytes(INFO_CONFIG_MAGIC as int, 4)
        + le_bytes(c.flags as int, 4)
        + le_bytes(c.passphrase_len as int, 4)
        + zeros(4)
        + padded(c.passphrase@, 256)
        + le_bytes(c.argon2_mem_size as int, 8)
}

/// Writes the configuration.
pub fn write_info_config(c: &InfoConfig) -> (b: Vec<u8>)
    requires
        c.wf(),
    ensures
        b@ == info_config_bytes(*c),
{
    let mut b: Vec<u8> = Vec::new();
    push_u32(&mut b, INFO_CONFIG_MAGIC);
    assert(b@ =~= le_bytes(INFO_CONFIG_MAGIC as int, 4));
    push_u32(&mut b, c.flags);
    push_u32(&mut b, c.passphrase_len);
    push_zeros(&mut b, 4);
    push_padded(&mut b, c.passphrase.as_slice(), 256);
    push_u64(&mut b, c.argon2_mem_size);
    b
}

/// Each field of the configuration stands at its offset.
pub proof fn law_info_config_layout(c: InfoConfig)
    requires
        c.wf(),
    ensures
        info_config_bytes(c).len() == 280,
        info_config_bytes(c).subrange(0, 4) == le_bytes(0x494E464F, 4),
        info_config_bytes(c).subrange(4, 8) == le_bytes(c.flags as int, 4),
        info_config_bytes(c).subrange(8, 12) == le_bytes(c.passphrase_len as int, 4),
        info_config_bytes(c).subrange(16, 272) == padded(c.passphrase@, 256),
        info_config_bytes(c).subrange(272, 280) == le_bytes(c.argon2_mem_size as int, 8),
{
    broadcast use lemma_le_bytes_len;

    let b = info_config_bytes(c);
    assert(b.subrange(0, 4) =~= le_bytes(INFO_CONFIG_MAGIC as int, 4));
    assert(b.subrange(4, 8) =~= le_bytes(c.flags as int, 4));
    assert(b.subrange(8, 12) =~= le_bytes(c.passphrase_len as int, 4));
    assert(b.subrange(16, 272) =~= padded(c.passphrase@, 256));
    assert(b.subrange(272, 280) =~= le_bytes(c.argon2_mem_size as int, 8));
}

/// The flags for the guest.
pub open spec fn info_flags(unsafe_quirks: bool, extra_detail: bool, verbose: bool) -> u32 {
    INFO_CONFIG_FLAG_DETAILED | INFO_CONFIG_FLAG_SECURITY_CHECK | bit(
        unsafe_quirks,
        INFO_CONFIG_FLAG_UNSAFE_QUIRKS,
    ) | bit(extra_detail, INFO_CONFIG_FLAG_EXTRA_DETAIL) | bit(verbose, INFO_CONFIG_FLAG_VERBOSE)
}

fn flags_of(unsafe_quirks: bool, extra_detail: bool, verbose: bool) -> (r: u32)
    ensures
        r == info_flags(unsafe_quirks, extra_detail, verbose),
{
    INFO_CONFIG_FLAG_DETAILED | INFO_CONFIG_FLAG_SECURITY_CHECK | bit_if(
        unsafe_quirks,
        INFO_CONFIG_FLAG_UNSAFE_QUIRKS,
    ) | bit_if(extra_detail, INFO_CONFIG_FLAG_EXTRA_DETAIL) | bit_if(
        verbose,
        INFO_CONFIG_FLAG_VERBOSE,
    )
}

/// The configuration of a probe, which asks about one image of a chain.
pub fn probe_config(unsafe_quirks: bool) -> (r: InfoConfig)
    ensures
        r.wf(),
        r.flags == info_flags(unsafe_quirks, false, false),
        r.passphrase_len == 0,
        r.passphrase@ == Seq::<u8>::empty(),
        r.argon2_mem_size == 0,
{
    InfoConfig {
        flags: flags_of(unsafe_quirks, false, false),
        passphrase_len: 0,
        passphrase: Vec::new(),
        argon2_mem_size: 0,
    }
}

/// The bytes of a passphrase that may be missing.
pub open spec fn passphrase_bytes(passphrase: Option<Seq<char>>) -> Seq<u8> {
    match passphrase {
        Some(p) => vstd::utf8::encode_utf8(p),
        None => Seq::empty(),
    }
}

/// The refusal of a passphrase that is too long.
pub open spec fn passphrase_too_long(len: int) -> Seq<char> {
    "passphrase too long ("@ + dec(len) + " bytes, max 256)"@
}

/// Plans the question. It is refused only where the passphrase is too long.
pub fn plan_info(args: &InfoArgs, verbose: bool, memory: u64, passphrase: &Option<String>) -> (r:
    Result<InfoConfig, String>)
    ensures
        ({
            let bytes = passphrase_bytes(name_of(*passphrase));
            match r {
                Err(e) => bytes.len() > MAX_PASSPHRASE && e@ == passphrase_too_long(
                    bytes.len() as int,
                ),
                Ok(c) => {
                    &&& bytes.len() <= MAX_PASSPHRASE
                    &&& c.wf()
                    &&& c.flags == info_flags(args.unsafe_quirks, args.extra_detail, verbose)
                    &&& c.passphrase@ == bytes
                    &&& c.passphrase_len == bytes.len()
                    &&& c.argon2_mem_size == if memory >= GUEST_MEM_SIZE {
                        memory - GUEST_MEM_SIZE
                    } else {
                        0
                    }
                },
            }
        }),
{
    let mut bytes: Vec<u8> = Vec::new();
    match passphrase {
        Some(p) => {
            push_bytes(&mut bytes, p.as_str().as_bytes());
        },
        None => {},
    }
    assert(bytes@ =~= passphrase_bytes(name_of(*passphrase)));
    let len: usize = bytes.len();
    if len > MAX_PASSPHRASE {
        let mut e = "passphrase too long (".to_owned();
        push_dec(&mut e, len as u64);
        e.append(" bytes, max 256)");
        return Err(e);
    }
    Ok(
        InfoConfig {
            flags: flags_of(args.unsafe_quirks, args.extra_detail, verbose),
            passphrase_len: len as u32,
            passphrase: bytes,
            argon2_mem_size: memory.saturating_sub(GUEST_MEM_SIZE),
        },
    )
}

/// Every question is a detailed one with security checks, and the other flags
/// read back.
pub proof fn law_info_flags_read_back(unsafe_quirks: bool, extra_detail: bool, verbose: bool)
    ensures
        ({
            let f = info_flags(unsafe_quirks, extra_detail, verbose);
            &&& f & INFO_CONFIG_FLAG_DETAILED != 0
            &&& f & INFO_CONFIG_FLAG_SECURITY_CHECK != 0
            &&& f & INFO_CONFIG_FLAG_UNSAFE_QUIRKS != 0 <==> unsafe_quirks
            &&& f & INFO_CONFIG_FLAG_EXTRA_DETAIL != 0 <==> extra_detail
            &&& f & INFO_CONFIG_FLAG_VERBOSE != 0 <==> verbose
        }),
{
    let u = bit(unsafe_quirks, INFO_CONFIG_FLAG_UNSAFE_QUIRKS);
    let x = bit(extra_detail, INFO_CONFIG_FLAG_EXTRA_DETAIL);
    let v = bit(verbose, INFO_CONFIG_FLAG_VERBOSE);
    assert((1u32 | 2 | u | x | v) & 1 == 1 && (1u32 | 2 | u | x | v) & 2 == 2 && (1u32 | 2 | u | x
        | v) & 4 == u && (1u32 | 2 | u | x | v) & 8 == x && (1u32 | 2 | u | x | v) & 0x8000_0000
        == v) by (bit_vector)
        requires
            u == 0 || u == 4,
            x == 0 || x == 8,
            v == 0 || v == 0x8000_0000,
    ;
}

/// The output follows the version that the user names, where it can be read,
/// and the one that was found only where the user names none.
pub proof fn law_named_version_decides(
    args: &InfoArgs,
    asked: Option<OutputProfile>,
    found: OutputProfile,
    r: Result<OutputProfile, String>,
)
    requires
        call_ensures(info_profile, (args, asked, found), r),
    ensures
        args.qemu_version is None ==> r is Ok && r->Ok_0 == found,
        args.qemu_version is Some ==> (r is Ok <==> asked is Some),
        args.qemu_version is Some && r is Ok ==> Some(r->Ok_0) == asked,
{
}

/// A guest gets the memory that the user allows, which must be 32 megabytes or
/// more; it gets 32 where the user says nothing.
pub proof fn law_guest_gets_the_allowed_memory(asked: &Option<String>, r: Result<u64, String>)
    requires
        call_ensures(guest_memory_size, (asked,), r),
    ensures
        asked is None ==> r is Ok && r->Ok_0 == 32 * 1024 * 1024,
        asked is Some ==> (r is Ok <==> memory_size(asked->0@) is Ok && memory_size(
            asked->0@,
        )->Ok_0 >= 32 * 1024 * 1024),
        asked is Some && r is Ok ==> memory_size(asked->0@) == Ok::<u64, Seq<char>>(r->Ok_0),
{
}

/// A passphrase on the command line goes before one in a file, whose content
/// is not even looked at; of the file the first line counts, which ends where
/// a newline is. Without either there is none.
pub proof fn law_passphrase_is_given_or_a_first_line(
    args: &InfoArgs,
    content: &Result<String, String>,
    r: Result<Option<String>, String>,
)
    requires
        call_ensures(resolve_luks_passphrase, (args, content), r),
    ensures
        args.luks_passphrase is Some ==> r is Ok && name_of(r->Ok_0) == name_of(
            args.luks_passphrase,
        ),
        args.luks_passphrase is None && args.luks_passphrase_file is None ==> r is Ok && r->Ok_0
            is None,
        args.luks_passphrase is None && args.luks_passphrase_file is Some ==> (r is Ok <==> *content
            is Ok),
        args.luks_passphrase is None && args.luks_passphrase_file is Some && r is Ok ==> {
            let line = r->Ok_0->0@;
            &&& r->Ok_0 is Some
            &&& !line.contains('\n')
            &&& line.is_prefix_of(content->Ok_0@)
            &&& line.len() < content->Ok_0@.len() ==> content->Ok_0@[line.len() as int] == '\n'
        },
{
    if *content is Ok {
        lemma_find(content->Ok_0@, '\n');
    }
}

/// The guest is told the passphrase whole, what the user asked for, and how
/// much memory it has beside the first 32 megabytes. Only a passphrase that
/// does not fit is refused.
pub proof fn law_guest_is_told_what_to_look_for(
    args: &InfoArgs,
    verbose: bool,
    memory: u64,
    passphrase: &Option<String>,
    r: Result<InfoConfig, String>,
)
    requires
        call_ensures(plan_info, (args, verbose, memory, passphrase), r),
    ensures
        r is Ok <==> (*passphrase matches Some(p) ==> byte_len(p@) <= 256),
        r matches Ok(c) ==> {
            &&& passphrase is Some ==> vstd::utf8::decode_utf8(c.passphrase@) == passphrase->0@
            &&& passphrase is None ==> c.passphrase@.len() == 0
            &&& c.passphrase_len == c.passphrase@.len()
            &&& memory >= 0x200_0000 ==> c.argon2_mem_size + 0x200_0000 == memory
            &&& memory < 0x200_0000 ==> c.argon2_mem_size == 0
            &&& c.flags & 1 != 0 && c.flags & 2 != 0
            &&& c.flags & 4 != 0 <==> args.unsafe_quirks
            &&& c.flags & 8 != 0 <==> args.extra_detail
            &&& c.flags & 0x8000_0000 != 0 <==> verbose
        },
{
    law_info_flags_read_back(args.unsafe_quirks, args.extra_detail, verbose);
    if passphrase is Some {
        vstd::utf8::encode_utf8_decode_utf8(passphrase->0@);
    }
}

/// A probe of a chain's image asks as a user would that asks for nothing but,
/// maybe, quirks.
pub proof fn law_probe_asks_for_nothing_more(
    args: &InfoArgs,
    memory: u64,
    r: InfoConfig,
    s: Result<InfoConfig, String>,
)
    requires
        !args.extra_detail,
        memory <= 0x200_0000,
        call_ensures(probe_config, (args.unsafe_quirks,), r),
        call_ensures(plan_info, (args, false, memory, &None), s),
    ensures
        s is Ok,
        r.flags == s->Ok_0.flags,
        r.passphrase@ == s->Ok_0.passphrase@,
        r.passphrase_len == s->Ok_0.passphrase_len,
        r.argon2_mem_size == s->Ok_0.argon2_mem_size,
{
}

} // verus!
