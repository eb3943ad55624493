//! The random data of a LUKS header: keys, salts, and the UUID of the volume.
use vstd::prelude::*;

verus! {

/// How many bytes a master key for AES-256-XTS has.
pub const KEY_BYTES: usize = 64;

/// How many bytes the header takes: the master key, two salts, and the UUID.
pub const HEADER_BYTES: usize = 164;

/// Where the UUID begins.
pub const UUID_OFFSET: usize = 128;

pub const UUID_BYTES: usize = 36;

/// How many bytes the whole takes: the header, and the stripes over which the
/// key is spread but for the last.
pub const LUKS_DATA_BYTES: usize = 256100;

/// How many random bytes the digits of a UUID take.
pub const UUID_RANDOM_BYTES: usize = 32;

/// Bytes from the generator of `rand`.
///
/// `rand::rng` gives the thread's generator and `RngExt::fill` overwrites the
/// slice with its output. The bytes depend on chance: nothing is claimed of
/// them but their number. The generator is seeded from the system and panics
/// where the system has no randomness to give.
#[verifier::external_body]
fn random_bytes(n: usize) -> (r: Vec<u8>)
    ensures
        r@.len() == n,
{
    let mut bytes: Vec<u8> = vec![0u8; n];
    rand::RngExt::fill(&mut rand::rng(), &mut bytes[..]);
    bytes
}

/// The ASCII code of a hexadecimal digit.
pub open spec fn hex_code(d: int) -> u8 {
    if d < 10 {
        (48 + d) as u8
    } else {
        (87 + d) as u8
    }
}

/// Whether a UUID has a dash at a position.
pub open spec fn is_dash(i: int) -> bool {
    i == 8 || i == 13 || i == 18 || i == 23
}

/// How many random digits come before a position: all but dashes and the
/// version.
pub open spec fn digits_before(i: int) -> int {
    i - (if i > 8 {
        1int
    } else {
        0
    }) - (if i > 13 {
        1int
    } else {
        0
    }) - (if i > 14 {
        1int
    } else {
        0
    }) - (if i > 18 {
        1int
    } else {
        0
    }) - (if i > 23 {
        1int
    } else {
        0
    })
}

/// The character of a UUID at a position: a random one of version 4.
pub open spec fn uuid_char(random: Seq<u8>, i: int) -> u8 {
    if is_dash(i) {
        45
    } else if i == 14 {
        52
    } else if i == 19 {
        hex_code(8 + random[digits_before(i)] % 4)
    } else {
        hex_code((random[digits_before(i)] % 16) as int)
    }
}

/// The text of a UUID made from random bytes.
pub open spec fn uuid_text(random: Seq<u8>) -> Seq<u8> {
    Seq::new(UUID_BYTES as nat, |i: int| uuid_char(random, i))
}

/// Random data with a UUID in its place.
pub open spec fn with_uuid(random: Seq<u8>, uuid_random: Seq<u8>) -> Seq<u8> {
    random.take(UUID_OFFSET as int) + uuid_text(uuid_random) + random.skip(HEADER_BYTES as int)
}

fn hex_digit(d: u8) -> (r: u8)
    requires
        d < 16,
    ensures
        r == hex_code(d as int),
{
    if d < 10 {
        48 + d
    } else {
        87 + d
    }
}

/// Puts a UUID made from random bytes in its place in random data.
pub fn place_uuid(random: Vec<u8>, uuid_random: &Vec<u8>) -> (r: Vec<u8>)
    requires
        random@.len() >= HEADER_BYTES,
        uuid_random@.len() >= UUID_RANDOM_BYTES,
    ensures
        r@ == with_uuid(random@, uuid_random@),
{
    let ghost before = random@;
    let mut r = random;
    let mut used: usize = 0;
    let mut i: usize = 0;
    while i < UUID_BYTES
        invariant
            i <= UUID_BYTES,
            used == digits_before(i as int),
            before.len() >= HEADER_BYTES,
            uuid_random@.len() >= UUID_RANDOM_BYTES,
            r@.len() == before.len(),
            forall|k: int|
                0 <= k < r@.len() ==> #[trigger] r@[k] == if UUID_OFFSET <= k < UUID_OFFSET + i {
                    uuid_char(uuid_random@, k - UUID_OFFSET)
                } else {
                    before[k]
                },
        decreases UUID_BYTES - i,
    {
        if i == 8 || i == 13 || i == 18 || i == 23 {
            r[UUID_OFFSET + i] = 45;
        } else if i == 14 {
            r[UUID_OFFSET + i] = 52;
        } else {
            let b: u8 = uuid_random[used];
            if i == 19 {
                r[UUID_OFFSET + i] = hex_digit(8 + b % 4);
            } else {
                r[UUID_OFFSET + i] = hex_digit(b % 16);
            }
            used = used + 1;
        }
        i = i + 1;
    }
    assert(r@ =~= with_uuid(before, uuid_random@));
    r
}

/// Whether a text is that of a random UUID: digits and dashes in their places,
/// the version 4, and the variant that all such UUIDs have.
pub open spec fn is_random_uuid(text: Seq<u8>) -> bool {
    &&& text.len() == UUID_BYTES
    &&& forall|i: int|
        0 <= i < UUID_BYTES ==> {
            let c = #[trigger] text[i];
            if is_dash(i) {
                c == 45
            } else {
                48 <= c <= 57 || 97 <= c <= 102
            }
        }
    &&& text[14] == 52
    &&& text[19] == 56 || text[19] == 57 || text[19] == 97 || text[19] == 98
}

/// Random data for a LUKS header. What it holds is left to chance, but for the
/// form of the UUID.
pub fn luks_random_data() -> (r: Vec<u8>)
    ensures
        r@.len() == LUKS_DATA_BYTES,
        is_random_uuid(r@.subrange(UUID_OFFSET as int, HEADER_BYTES as int)),
{
    let random = random_bytes(LUKS_DATA_BYTES);
    let uuid_random = random_bytes(UUID_RANDOM_BYTES);
    let ghost bytes = uuid_random@;
    let r = place_uuid(random, &uuid_random);
    proof {
        law_uuid_is_random(bytes);
        assert(r@.subrange(UUID_OFFSET as int, HEADER_BYTES as int) =~= uuid_text(bytes));
    }
    r
}

/// Whatever the random bytes, they make a random UUID.
pub proof fn law_uuid_is_random(random: Seq<u8>)
    requires
        random.len() >= UUID_RANDOM_BYTES,
    ensures
        is_random_uuid(uuid_text(random)),
{
    assert forall|i: int| 0 <= i < UUID_BYTES implies {
        let c = #[trigger] uuid_text(random)[i];
        if is_dash(i) {
            c == 45
        } else {
            48 <= c <= 57 || 97 <= c <= 102
        }
    } by {
        assert(0 <= random[digits_before(i)] % 16 < 16);
        assert(0 <= random[digits_before(i)] % 4 < 4);
    }
    assert(0 <= random[digits_before(19)] % 4 < 4);
}

/// A UUID that is put in its place is one of the random kind, and changes
/// nothing else: the keys and salts before it and the stripes behind it stay.
pub proof fn law_uuid_changes_nothing_else(random: Vec<u8>, uuid_random: &Vec<u8>, r: Vec<u8>)
    requires
        random@.len() >= HEADER_BYTES,
        uuid_random@.len() >= UUID_RANDOM_BYTES,
        call_ensures(place_uuid, (random, uuid_random), r),
    ensures
        r@.len() == random@.len(),
        is_random_uuid(r@.subrange(128, 164)),
        r@[136] == 45 && r@[141] == 45 && r@[146] == 45 && r@[151] == 45,
        forall|i: int|
            0 <= i < random@.len() && !(128 <= i < 164) ==> #[trigger] r@[i] == random@[i],
{
    law_uuid_is_random(uuid_random@);
    assert(r@.subrange(128, 164) =~= uuid_text(uuid_random@));
    assert(r@[136] == r@.subrange(128, 164)[8]);
    assert(r@[141] == r@.subrange(128, 164)[13]);
    assert(r@[146] == r@.subrange(128, 164)[18]);
    assert(r@[151] == r@.subrange(128, 164)[23]);
}

/// No random byte is used for two digits of a UUID, and none beyond those that
/// are drawn.
pub proof fn law_digits_are_drawn_apart(i: int, j: int)
    requires
        0 <= i < j < 36,
        i != 8 && i != 13 && i != 14 && i != 18 && i != 23,
        j != 8 && j != 13 && j != 14 && j != 18 && j != 23,
    ensures
        0 <= digits_before(i) < digits_before(j) < 32,
{
}

} // verus!
