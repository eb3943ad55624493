//! Asking a guest which parts of an image are allocated.
use vstd::prelude::*;
use crate::abi::{
    MAP_CONFIG_FLAG_VERBOSE, MAP_CONFIG_MAGIC,
};
use crate::bytes::{
    bit, bit_if, le_bytes, lemma_le_bytes_len, push_u32, push_u64, push_zeros, zeros,
};
use crate::limits::{check_sector_size, sector_check, valid_sector_size};
use crate::measure::size_override;
use crate::size::{memory_size, parse_memory_size};
use crate::text::{name_of, outcome};

verus! {

/// The arguments of `map`.
#[derive(Debug)]
pub struct MapArgs {
    pub input: String,
    pub output: String,
    pub start_offset: Option<String>,
    pub max_length: Option<String>,
    pub sector_size: u32,
    pub image_opts: bool,
}

/// What the guest is told of the question.
#[derive(Debug, Clone, Copy, PartialEq, Eq, Structural)]
pub struct MapConfig {
    pub flags: u32,
    pub sector_size: u32,
    pub input_device_count: u32,
    pub start_offset: u64,
    /// 0 asks to the end.
    pub max_length: u64,
}

/// The bytes of the configuration, as the guest reads them.
pub open spec fn map_config_bytes(c: MapConfig) -> Seq<u8> {
    le_bytes(MAP_CONFIG_MAGIC as int, 4)
        + le_bytes(c.flags as int, 4)
        + le_bytes(c.sector_size as int, 4)
        + le_bytes(c.input_device_count as int, 4)
        + le_bytes(c.start_offset as int, 8)
        + le_bytes(c.max_length as int, 8)
        + zeros(32)
}

/// Writes the configuration.
pub fn write_map_config(c: &MapConfig) -> (b: Vec<u8>)
    ensures
        b@ == map_config_bytes(*c),
{
    let mut b: Vec<u8> = Vec::new();
    push_u32(&mut b, MAP_CONFIG_MAGIC);
    assert(b@ =~= le_bytes(MAP_CONFIG_MAGIC as int, 4));
    push_u32(&mut b, c.flags);
    push_u32(&mut b, c.sector_size);
    push_u32(&mut b, c.input_device_count);
    push_u64(&mut b, c.start_offset);
    push_u64(&mut b, c.max_length);
    push_zeros(&mut b, 32);
    b
}

/// Each field of the configuration stands at its offset.
pub proof fn law_map_config_layout(c: MapConfig)
    ensures
        map_config_bytes(c).len() == 64,
        map_config_bytes(c).subrange(0, 4) == le_bytes(0x4D41505F, 4),
        map_config_bytes(c).subrange(4, 8) == le_bytes(c.flags as int, 4),
        map_config_bytes(c).subrange(8, 12) == le_bytes(c.sector_size as int, 4),
        map_config_bytes(c).subrange(12, 16) == le_bytes(c.input_device_count as int, 4),
        map_config_bytes(c).subrange(16, 24) == le_bytes(c.start_offset as int, 8),
        map_config_bytes(c).subrange(24, 32) == le_bytes(c.max_length as int, 8),
{
    broadcast use lemma_le_bytes_len;

    let b = map_config_bytes(c);
    assert(b.subrange(0, 4) =~= le_bytes(MAP_CONFIG_MAGIC as int, 4));
    assert(b.subrange(4, 8) =~= le_bytes(c.flags as int, 4));
    assert(b.subrange(8, 12) =~= le_bytes(c.sector_size as int, 4));
    assert(b.subrange(12, 16) =~= le_bytes(c.input_device_count as int, 4));
    assert(b.subrange(16, 24) =~= le_bytes(c.start_offset as int, 8));
    assert(b.subrange(24, 32) =~= le_bytes(c.max_length as int, 8));
}

/// What the guest is told, or why the question is refused.
pub open spec fn map_plan(args: MapArgs, is_descriptor: bool, verbose: bool) -> Result<
    MapConfig,
    Seq<char>,
> {
    if args.image_opts {
        Err(
            "map: --image-opts is not supported (instar accepts FILENAME directly; see docs/quirks.md)"@,
        )
    } else if sector_check(""@, args.sector_size) is Err {
        Err(sector_check(""@, args.sector_size)->Err_0)
    } else if is_descriptor {
        Err(
            "map: monolithicFlat source images are not yet supported (use qemu-img map instead)"@,
        )
    } else {
        match size_override(name_of(args.start_offset)) {
            Err(e) => Err(e),
            Ok(start_offset) => match size_override(name_of(args.max_length)) {
                Err(e) => Err(e),
                Ok(max_length) => Ok(
                    MapConfig {
                        flags: bit(verbose, MAP_CONFIG_FLAG_VERBOSE),
                        sector_size: args.sector_size,
                        input_device_count: 1,
                        start_offset,
                        max_length,
                    },
                ),
            },
        }
    }
}

fn read_window(text: &Option<String>) -> (r: Result<u64, String>)
    ensures
        outcome(r) == size_override(name_of(*text)),
{
    match text {
        Some(s) => parse_memory_size(s.as_str()),
        None => Ok(0),
    }
}

/// Plans the question.
pub fn plan_map(args: &MapArgs, is_descriptor: bool, verbose: bool) -> (r: Result<MapConfig, String>)
    ensures
        outcome(r) == map_plan(*args, is_descriptor, verbose),
{
    if args.image_opts {
        return Err(
            "map: --image-opts is not supported (instar accepts FILENAME directly; see docs/quirks.md)".to_owned(),
        );
    }
    match check_sector_size("", args.sector_size) {
        Ok(()) => {},
        Err(e) => return Err(e),
    }
    if is_descriptor {
        return Err(
            "map: monolithicFlat source images are not yet supported (use qemu-img map instead)".to_owned(),
        );
    }
    let start_offset: u64 = match read_window(&args.start_offset) {
        Ok(n) => n,
        Err(e) => return Err(e),
    };
    let max_length: u64 = match read_window(&args.max_length) {
        Ok(n) => n,
        Err(e) => return Err(e),
    };
    Ok(
        MapConfig {
            flags: bit_if(verbose, MAP_CONFIG_FLAG_VERBOSE),
            sector_size: args.sector_size,
            input_device_count: 1,
            start_offset,
            max_length,
        },
    )
}

/// Without a window, the guest is asked about the whole image.
pub proof fn law_no_window_is_the_whole_image(args: MapArgs, verbose: bool)
    requires
        map_plan(args, false, verbose) is Ok,
        args.start_offset is None,
        args.max_length is None,
    ensures
        map_plan(args, false, verbose)->Ok_0.start_offset == 0,
        map_plan(args, false, verbose)->Ok_0.max_length == 0,
{
}

/// The guest maps the window that the user names, from its start and for its
/// length, of the one image.
pub proof fn law_named_window_is_mapped(
    args: &MapArgs,
    is_descriptor: bool,
    verbose: bool,
    r: Result<MapConfig, String>,
)
    requires
        call_ensures(plan_map, (args, is_descriptor, verbose), r),
        r is Ok,
    ensures
        ({
            let c = r->Ok_0;
            &&& args.start_offset matches Some(s) ==> memory_size(s@) == Ok::<u64, Seq<char>>(
                c.start_offset,
            )
            &&& args.start_offset is None ==> c.start_offset == 0
            &&& args.max_length matches Some(s) ==> memory_size(s@) == Ok::<u64, Seq<char>>(
                c.max_length,
            )
            &&& args.max_length is None ==> c.max_length == 0
            &&& c.sector_size == args.sector_size
            &&& c.input_device_count == 1
            &&& c.flags == if verbose {
                0x8000_0000u32
            } else {
                0u32
            }
        }),
{
}

/// A map is planned exactly where the image is one file, sectors have a size
/// that devices can have, and the window can be read.
pub proof fn law_map_is_planned_where_it_can_be(
    args: &MapArgs,
    is_descriptor: bool,
    verbose: bool,
    r: Result<MapConfig, String>,
)
    requires
        call_ensures(plan_map, (args, is_descriptor, verbose), r),
    ensures
        r is Ok <==> {
            &&& !args.image_opts && !is_descriptor
            &&& valid_sector_size(args.sector_size)
            &&& args.start_offset matches Some(s) ==> memory_size(s@) is Ok
            &&& args.max_length matches Some(s) ==> memory_size(s@) is Ok
        },
{
}

} // verus!
