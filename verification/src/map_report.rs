//! The report of `map`: one row or JSON object for each extent of an image,
//! written as the extents arrive.
use vstd::prelude::*;
use crate::abi::{
    MAP_RESULT_ERROR_HAS_BACKING, MAP_RESULT_ERROR_INVALID_OPTION, MAP_RESULT_ERROR_INVALID_SOURCE,
    MAP_RESULT_ERROR_IO, MAP_RESULT_ERROR_OK,
};
use crate::message::MapExtentMessage;
use crate::text::{
    dec, hex, holds_part, left_aligned, lemma_first_part, lemma_last_part, lemma_part_stays,
    lemma_tail_part, opt, push_dec, push_hex, push_if, push_left_aligned, same, truth, truth_word,
};

verus! {

/// What an extent's state says of it: whether it is present, reads as zeros,
/// holds data, and has an offset in the file.
pub open spec fn state_triple(state: Seq<char>) -> (bool, bool, bool, bool) {
    if state == "hole"@ {
        (false, true, false, false)
    } else if state == "zero"@ {
        (true, true, false, false)
    } else {
        (true, false, true, true)
    }
}

/// Looks up an extent's state; an unknown one counts as data.
pub fn map_state_triple(state: &str) -> (r: (bool, bool, bool, bool))
    ensures
        r == state_triple(state@),
{
    if same(state, "hole") {
        (false, true, false, false)
    } else if same(state, "zero") {
        (true, true, false, false)
    } else {
        (true, false, true, true)
    }
}

/// What an error code of `map` means; none for success.
pub open spec fn map_error(error: u32) -> Option<Seq<char>> {
    if error == MAP_RESULT_ERROR_OK {
        None
    } else if error == MAP_RESULT_ERROR_INVALID_SOURCE {
        Some("map: source format unrecognised"@)
    } else if error == MAP_RESULT_ERROR_INVALID_OPTION {
        Some("map: invalid config"@)
    } else if error == MAP_RESULT_ERROR_HAS_BACKING {
        Some(
            "map: source has a backing/parent reference; chain composition is deferred (see PLAN-map.md)"@,
        )
    } else if error == MAP_RESULT_ERROR_IO {
        Some("map: I/O failure walking the source"@)
    } else {
        Some("map: unknown error"@)
    }
}

/// Explains an error code of `map`.
pub fn map_error_message(error: u32) -> (r: Option<&'static str>)
    ensures
        match r {
            Some(t) => map_error(error) == Some(t@),
            None => map_error(error) is None,
        },
{
    if error == MAP_RESULT_ERROR_OK {
        None
    } else if error == MAP_RESULT_ERROR_INVALID_SOURCE {
        Some("map: source format unrecognised")
    } else if error == MAP_RESULT_ERROR_INVALID_OPTION {
        Some("map: invalid config")
    } else if error == MAP_RESULT_ERROR_HAS_BACKING {
        Some(
            "map: source has a backing/parent reference; chain composition is deferred (see PLAN-map.md)",
        )
    } else if error == MAP_RESULT_ERROR_IO {
        Some("map: I/O failure walking the source")
    } else {
        Some("map: unknown error")
    }
}

/// A number in hexadecimal with its prefix, but zero as a plain digit.
pub open spec fn hex_or_zero(n: u64) -> Seq<char> {
    if n == 0 {
        "0"@
    } else {
        "0x"@ + hex(n as int)
    }
}

/// Formats a number in hexadecimal, zero as a plain digit.
pub fn format_hex_or_zero(n: u64) -> (r: String)
    ensures
        r@ == hex_or_zero(n),
{
    if n == 0 {
        "0".to_owned()
    } else {
        let mut s = "0x".to_owned();
        push_hex(&mut s, n);
        s
    }
}

#[derive(Debug, Clone, Copy, PartialEq, Eq, Structural)]
pub enum MapOutputFormat {
    Human,
    Json,
}

/// The row of an extent that holds data.
pub open spec fn map_row(ext: MapExtentMessage, filename: Seq<char>) -> Seq<char> {
    left_aligned(hex_or_zero(ext.start), 16) + left_aligned(hex_or_zero(ext.length), 16)
        + left_aligned(hex_or_zero(ext.file_offset), 16) + filename + "\n"@
}

fn format_row(ext: &MapExtentMessage, filename: &str) -> (r: String)
    ensures
        r@ == map_row(*ext, filename@),
{
    let mut s = String::new();
    push_left_aligned(&mut s, format_hex_or_zero(ext.start).as_str(), 16);
    assert(s@ =~= left_aligned(hex_or_zero(ext.start), 16));
    push_left_aligned(&mut s, format_hex_or_zero(ext.length).as_str(), 16);
    push_left_aligned(&mut s, format_hex_or_zero(ext.file_offset).as_str(), 16);
    s.append(filename);
    s.append("\n");
    s
}

/// The JSON object of an extent.
pub open spec fn map_object(ext: MapExtentMessage) -> Seq<char> {
    "{ \"start\": "@
        + dec(ext.start as int)
        + ", \"length\": "@
        + dec(ext.length as int)
        + ", \"depth\": 0, \"present\": "@
        + truth(state_triple(ext.state@).0)
        + ", \"zero\": "@
        + truth(state_triple(ext.state@).1)
        + ", \"data\": "@
        + truth(state_triple(ext.state@).2)
        + ", \"compressed\": false"@
        + opt(state_triple(ext.state@).3, ", \"offset\": "@ + dec(ext.file_offset as int))
        + "}"@
}

/// The JSON object of an extent.
fn format_object(ext: &MapExtentMessage) -> (r: String)
    ensures
        r@ == map_object(*ext),
{
    let (present, zero, data, has_offset): (bool, bool, bool, bool) = map_state_triple(
        ext.state.as_str(),
    );
    let mut s = "{ \"start\": ".to_owned();
    push_dec(&mut s, ext.start);
    s.append(", \"length\": ");
    push_dec(&mut s, ext.length);
    s.append(", \"depth\": 0, \"present\": ");
    s.append(truth_word(present));
    s.append(", \"zero\": ");
    s.append(truth_word(zero));
    s.append(", \"data\": ");
    s.append(truth_word(data));
    s.append(", \"compressed\": false");
    let mut offset = ", \"offset\": ".to_owned();
    push_dec(&mut offset, ext.file_offset);
    push_if(&mut s, has_offset, offset.as_str());
    s.append("}");
    s
}

/// A renderer of an allocation map. Each method gives the text to write next.
#[derive(Debug)]
pub struct MapRenderer {
    pub output_format: MapOutputFormat,
    /// The image's name as the user typed it.
    pub filename: String,
    /// Whether no JSON object was written yet.
    pub first_extent_json: bool,
    /// How many rows or objects were written.
    pub extents_written: u64,
}

/// What stands before the first extent.
pub open spec fn map_head(format: MapOutputFormat) -> Seq<char> {
    match format {
        MapOutputFormat::Human => "Offset          Length          Mapped to       File\n"@,
        MapOutputFormat::Json => "["@,
    }
}

/// What stands after the last extent.
pub open spec fn map_tail(format: MapOutputFormat) -> Seq<char> {
    match format {
        MapOutputFormat::Human => Seq::empty(),
        MapOutputFormat::Json => "]\n"@,
    }
}

/// Whether an extent is shown: people see data only.
pub open spec fn map_shows(format: MapOutputFormat, ext: MapExtentMessage) -> bool {
    format == MapOutputFormat::Json || state_triple(ext.state@).2
}

/// The text of one extent.
pub open spec fn map_entry(
    format: MapOutputFormat,
    filename: Seq<char>,
    first: bool,
    ext: MapExtentMessage,
) -> Seq<char> {
    match format {
        MapOutputFormat::Human => opt(state_triple(ext.state@).2, map_row(ext, filename)),
        MapOutputFormat::Json => opt(!first, ",\n"@) + map_object(ext),
    }
}

impl MapRenderer {
    /// A renderer for the given output format, `json` or for people.
    pub fn new(output_format: &str, filename: String) -> (r: Self)
        ensures
            r.output_format == if output_format@ == "json"@ {
                MapOutputFormat::Json
            } else {
                MapOutputFormat::Human
            },
            r.filename == filename,
            r.first_extent_json,
            r.extents_written == 0,
    {
        let format = if same(output_format, "json") {
            MapOutputFormat::Json
        } else {
            MapOutputFormat::Human
        };
        MapRenderer {
            output_format: format,
            filename,
            first_extent_json: true,
            extents_written: 0,
        }
    }

    /// The header or the opening bracket.
    pub fn begin(&self) -> (r: String)
        ensures
            r@ == map_head(self.output_format),
    {
        match self.output_format {
            MapOutputFormat::Human => {
                "Offset          Length          Mapped to       File\n".to_owned()
            },
            MapOutputFormat::Json => "[".to_owned(),
        }
    }

    /// The text of the next extent; it is empty where the extent is not shown.
    pub fn emit_extent(&mut self, ext: &MapExtentMessage) -> (r: String)
        requires
            map_shows(old(self).output_format, *ext) ==> old(self).extents_written < u64::MAX,
        ensures
            r@ == map_entry(
                old(self).output_format,
                old(self).filename@,
                old(self).first_extent_json,
                *ext,
            ),
            final(self).output_format == old(self).output_format,
            final(self).filename == old(self).filename,
            final(self).first_extent_json == (old(self).first_extent_json
                && old(self).output_format == MapOutputFormat::Human),
            final(self).extents_written == old(self).extents_written + if map_shows(
                old(self).output_format,
                *ext,
            ) {
                1int
            } else {
                0int
            },
    {
        match self.output_format {
            MapOutputFormat::Human => {
                let (_, _, data, _) = map_state_triple(ext.state.as_str());
                if !data {
                    return String::new();
                }
                self.extents_written = self.extents_written + 1;
                format_row(ext, self.filename.as_str())
            },
            MapOutputFormat::Json => {
                let mut s = String::new();
                push_if(&mut s, !self.first_extent_json, ",\n");
                assert(s@ =~= opt(!self.first_extent_json, ",\n"@));
                self.first_extent_json = false;
                s.append(format_object(ext).as_str());
                self.extents_written = self.extents_written + 1;
                s
            },
        }
    }

    /// The closing bracket and newline, in JSON.
    pub fn finish(&self) -> (r: String)
        ensures
            r@ == map_tail(self.output_format),
    {
        match self.output_format {
            MapOutputFormat::Human => String::new(),
            MapOutputFormat::Json => "]\n".to_owned(),
        }
    }
}

/// What `map` comes to once the guest has stopped without a fault: a closed
/// pipe ends it quietly; otherwise the guest's result is owed.
pub open spec fn map_verdict(broken_pipe: bool, result: Option<u32>) -> Result<bool, Seq<char>> {
    if broken_pipe {
        Ok(false)
    } else {
        match result {
            None => Err("map: guest returned no MapResult"@),
            Some(error) => if error == MAP_RESULT_ERROR_OK {
                Ok(true)
            } else {
                Err("map: guest reported error code "@ + dec(error as int))
            },
        }
    }
}

/// Decides what `map` comes to. `Ok(true)` asks for the rest of the report,
/// `Ok(false)` for nothing more; `result` is the guest's error code.
pub fn finish_map(broken_pipe: bool, result: Option<u32>) -> (r: Result<bool, String>)
    ensures
        crate::text::outcome(r) == map_verdict(broken_pipe, result),
{
    if broken_pipe {
        return Ok(false);
    }
    match result {
        None => Err("map: guest returned no MapResult".to_owned()),
        Some(error) => if error == MAP_RESULT_ERROR_OK {
            Ok(true)
        } else {
            let mut t = "map: guest reported error code ".to_owned();
            push_dec(&mut t, error as u64);
            Err(t)
        },
    }
}

// ---------------------------------------------------------------------------
// Laws
// ---------------------------------------------------------------------------

/// What a renderer has written after `begin` and the given extents.
pub open spec fn map_written(
    format: MapOutputFormat,
    filename: Seq<char>,
    exts: Seq<MapExtentMessage>,
) -> Seq<char>
    decreases exts.len(),
{
    if exts.len() == 0 {
        map_head(format)
    } else {
        map_written(format, filename, exts.drop_last()) + map_entry(
            format,
            filename,
            exts.len() == 1,
            exts.last(),
        )
    }
}

/// The objects of the given extents, separated by a comma and a newline.
pub open spec fn map_objects(exts: Seq<MapExtentMessage>) -> Seq<char>
    decreases exts.len(),
{
    if exts.len() == 0 {
        Seq::empty()
    } else if exts.len() == 1 {
        map_object(exts[0])
    } else {
        map_objects(exts.drop_last()) + ",\n"@ + map_object(exts.last())
    }
}

/// A JSON map is an array of one object for each extent, in the order of
/// arrival, with separators between them only.
pub proof fn law_map_json_is_an_array(filename: Seq<char>, exts: Seq<MapExtentMessage>)
    ensures
        map_written(MapOutputFormat::Json, filename, exts) + map_tail(MapOutputFormat::Json)
            == "["@ + map_objects(exts) + "]\n"@,
{
    lemma_map_objects(filename, exts);
}

proof fn lemma_map_objects(filename: Seq<char>, exts: Seq<MapExtentMessage>)
    ensures
        map_written(MapOutputFormat::Json, filename, exts) == "["@ + map_objects(exts),
    decreases exts.len(),
{
    if exts.len() == 0 {
        assert("["@ + map_objects(exts) =~= "["@);
    } else {
        lemma_map_objects(filename, exts.drop_last());
        if exts.len() == 1 {
            assert(exts.drop_last().len() == 0);
            assert(exts.last() == exts[0]);
        }
        assert(map_written(MapOutputFormat::Json, filename, exts) =~= "["@ + map_objects(exts));
    }
}

/// The extents that hold data, in order.
pub open spec fn data_extents(exts: Seq<MapExtentMessage>) -> Seq<MapExtentMessage> {
    exts.filter(|e: MapExtentMessage| state_triple(e.state@).2)
}

/// A map for people shows the data extents and nothing of the others: leaving
/// the others out changes no character.
pub proof fn law_map_rows_are_data_only(filename: Seq<char>, exts: Seq<MapExtentMessage>)
    ensures
        map_written(MapOutputFormat::Human, filename, exts) == map_written(
            MapOutputFormat::Human,
            filename,
            data_extents(exts),
        ),
    decreases exts.len(),
{
    let keep = |e: MapExtentMessage| state_triple(e.state@).2;
    reveal(Seq::filter);
    if exts.len() > 0 {
        let init = exts.drop_last();
        law_map_rows_are_data_only(filename, init);
        let kept = data_extents(init);
        if keep(exts.last()) {
            assert(data_extents(exts) == kept.push(exts.last()));
            assert(kept.push(exts.last()).drop_last() =~= kept);
        } else {
            assert(data_extents(exts) == kept);
            let before = map_written(MapOutputFormat::Human, filename, init);
            assert(before + Seq::<char>::empty() =~= before);
        }
    }
}

/// The object of an extent holds its start, its length and what its state says of
/// it, each behind its name, and its offset in the file where it has one.
pub proof fn law_extent_object_holds_the_extent(ext: MapExtentMessage)
    ensures
        holds_part(map_object(ext), "{ \"start\": "@ + dec(ext.start as int)),
        holds_part(map_object(ext), ", \"length\": "@ + dec(ext.length as int)),
        holds_part(
            map_object(ext),
            ", \"depth\": 0, \"present\": "@ + truth(state_triple(ext.state@).0),
        ),
        holds_part(map_object(ext), ", \"zero\": "@ + truth(state_triple(ext.state@).1)),
        holds_part(map_object(ext), ", \"data\": "@ + truth(state_triple(ext.state@).2)),
        state_triple(ext.state@).3 ==> holds_part(
            map_object(ext),
            ", \"offset\": "@ + dec(ext.file_offset as int),
        ),
{
    broadcast use {lemma_part_stays, lemma_tail_part, lemma_last_part, lemma_first_part};

}

/// What an extent's state says of it hangs together: a hole is the one that is
/// not present; holes and zeros read as zeros, and all else is data; and data
/// is what has an offset in the file.
pub proof fn law_state_hangs_together(state: &str, r: (bool, bool, bool, bool))
    requires
        call_ensures(map_state_triple, (state,), r),
    ensures
        r.0 <==> state@ != "hole"@,
        r.1 <==> state@ == "hole"@ || state@ == "zero"@,
        r.2 <==> !r.1,
        r.3 <==> r.2,
{
    reveal_strlit("hole");
    reveal_strlit("zero");
    assert("hole"@[0] != "zero"@[0]);
}

/// The row of an extent holds its start, its length, its offset in the file and
/// the file, in that order.
pub proof fn law_row_holds_the_extent(ext: MapExtentMessage, filename: Seq<char>)
    ensures
        hex_or_zero(ext.start).is_prefix_of(map_row(ext, filename)),
        holds_part(
            map_row(ext, filename),
            left_aligned(hex_or_zero(ext.start), 16) + left_aligned(hex_or_zero(ext.length), 16),
        ),
        holds_part(
            map_row(ext, filename),
            left_aligned(hex_or_zero(ext.length), 16) + left_aligned(
                hex_or_zero(ext.file_offset),
                16,
            ),
        ),
        holds_part(map_row(ext, filename), filename + "\n"@),
{
    broadcast use {lemma_part_stays, lemma_tail_part, lemma_last_part, lemma_first_part};

    let n = hex_or_zero(ext.start).len() as int;
    assert(map_row(ext, filename).subrange(0, n) =~= hex_or_zero(ext.start));
}

/// Numbers are hexadecimal with a prefix, but zero is a plain digit.
pub proof fn law_only_zero_is_plain(n: u64, r: String)
    requires
        call_ensures(format_hex_or_zero, (n,), r),
    ensures
        n == 0 ==> r@ == "0"@,
        n > 0 ==> r@ == "0x"@ + hex(n as int),
{
}

/// People see one row for each extent that holds data and nothing of others;
/// JSON has an object for each, with a separator before all but the first.
/// What is written is counted.
pub proof fn law_extents_are_written_as_asked(
    renderer: &mut MapRenderer,
    ext: &MapExtentMessage,
    r: String,
)
    requires
        old(renderer).extents_written < u64::MAX,
        call_ensures(MapRenderer::emit_extent, (renderer, ext), r),
    ensures
        ({
            let data = ext.state@ != "hole"@ && ext.state@ != "zero"@;
            let human = old(renderer).output_format == MapOutputFormat::Human;
            let written = final(renderer).extents_written - old(renderer).extents_written;
            &&& final(renderer).output_format == old(renderer).output_format
            &&& final(renderer).filename == old(renderer).filename
            &&& human && data ==> r@ == map_row(*ext, old(renderer).filename@) && written == 1
            &&& human && !data ==> r@.len() == 0 && written == 0
            &&& !human ==> written == 1 && !final(renderer).first_extent_json
            &&& !human && old(renderer).first_extent_json ==> r@ == map_object(*ext)
            &&& !human && !old(renderer).first_extent_json ==> r@ == ",\n"@ + map_object(*ext)
        }),
{
    reveal_strlit("hole");
    reveal_strlit("zero");
    assert("hole"@[0] != "zero"@[0]);
    let o = map_object(*ext);
    assert(Seq::<char>::empty() + o =~= o);
}

/// A renderer writes JSON exactly where that is asked for, and starts with
/// nothing written; JSON is put in brackets, and people see a head.
pub proof fn law_renderer_starts_as_asked(
    output_format: &str,
    filename: String,
    r: MapRenderer,
    renderer: &MapRenderer,
    head: String,
    tail: String,
)
    requires
        call_ensures(MapRenderer::new, (output_format, filename), r),
        *renderer == r,
        call_ensures(MapRenderer::begin, (renderer,), head),
        call_ensures(MapRenderer::finish, (renderer,), tail),
    ensures
        r.output_format == MapOutputFormat::Json <==> output_format@ == "json"@,
        r.filename@ == filename@,
        r.extents_written == 0 && r.first_extent_json,
        output_format@ == "json"@ ==> head@ == "["@ && tail@ == "]\n"@,
        output_format@ != "json"@ ==> tail@.len() == 0 && head@
            == "Offset          Length          Mapped to       File\n"@,
{
}

/// A closed pipe is no failure and ends the report; otherwise a map succeeds
/// exactly where the guest reports no error, and then its rest is written.
pub proof fn law_map_succeeds_without_an_error(
    broken_pipe: bool,
    result: Option<u32>,
    r: Result<bool, String>,
)
    requires
        call_ensures(finish_map, (broken_pipe, result), r),
    ensures
        r is Ok <==> broken_pipe || result == Some(0u32),
        r matches Ok(more) ==> more == !broken_pipe,
{
}

/// Each error number of the guest is explained by what went wrong, and success
/// needs no explanation.
pub proof fn law_map_errors_are_explained(error: u32, r: Option<&'static str>)
    requires
        call_ensures(map_error_message, (error,), r),
    ensures
        error == 0 <==> r is None,
        error == 1 ==> r->0@ == "map: source format unrecognised"@,
        error == 2 ==> r->0@ == "map: invalid config"@,
        error == 3 ==> r->0@
            == "map: source has a backing/parent reference; chain composition is deferred (see PLAN-map.md)"@,
        error == 4 ==> r->0@ == "map: I/O failure walking the source"@,
        error > 4 ==> r->0@ == "map: unknown error"@,
{
}

} // verus!
