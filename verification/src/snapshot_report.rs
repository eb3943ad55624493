//! The report of `snapshot -l`, and what the guest's snapshot result codes
//! mean.
use vstd::prelude::*;
use vstd::string::*;
use crate::abi::{
    SNAPSHOT_CONFIG_MODE_APPLY, SNAPSHOT_RESULT_ERROR_ALLOCATION_FAILED,
    SNAPSHOT_RESULT_ERROR_DUPLICATE_NAME, SNAPSHOT_RESULT_ERROR_INVALID_CONFIG,
    SNAPSHOT_RESULT_ERROR_INVALID_UTF8, SNAPSHOT_RESULT_ERROR_IO,
    SNAPSHOT_RESULT_ERROR_L1_SIZE_MISMATCH, SNAPSHOT_RESULT_ERROR_NOT_FOUND,
    SNAPSHOT_RESULT_ERROR_OK, SNAPSHOT_RESULT_ERROR_PARSE_FAILED,
    SNAPSHOT_RESULT_ERROR_REFCOUNT_OVERFLOW, SNAPSHOT_RESULT_ERROR_SNAPSHOT_TABLE_FULL,
    SNAPSHOT_RESULT_ERROR_UNSUPPORTED_FEATURE, SNAPSHOT_RESULT_ERROR_UNSUPPORTED_FORMAT,
};
use crate::json::{escaped, json_escape, EscapeStyle};
use crate::message::SnapshotEntryMessage;
use crate::size::{format_size_human, human_size};
use crate::text::{
    byte_len, dec, holds_part, lemma_first_part, lemma_last_part, lemma_part_stays, lemma_tail_part,
    missing, opt, push_dec, push_if, push_repeated, push_right_aligned, push_zero_padded, repeated,
    right_aligned, same, zero_padded,
};

verus! {

/// What an error code of `snapshot` means; none for success. Applying and
/// deleting look a snapshot up in different ways, and say so.
pub open spec fn snapshot_error(mode: u32, error: u32) -> Option<Seq<char>> {
    if error == SNAPSHOT_RESULT_ERROR_OK {
        None
    } else if error == SNAPSHOT_RESULT_ERROR_UNSUPPORTED_FORMAT {
        Some("snapshot: source is not qcow2 (qemu-img refuses non-qcow2 sources too)"@)
    } else if error == SNAPSHOT_RESULT_ERROR_UNSUPPORTED_FEATURE {
        Some(
            "snapshot: this qcow2 image uses a feature instar cannot snapshot (compressed clusters, encryption, an external data file, dirty bitmaps, a dirty/corrupt header, or a refcount width other than 16 bits). List mode works regardless; the mutating modes refuse. See docs/quirks.md."@,
        )
    } else if error == SNAPSHOT_RESULT_ERROR_NOT_FOUND {
        if mode == SNAPSHOT_CONFIG_MODE_APPLY {
            Some(
                "snapshot: no snapshot with that ID or name (qemu-img 10 matches -a arguments by ID first, then by name; see docs/quirks.md)"@,
            )
        } else {
            Some(
                "snapshot: no snapshot with that name (qemu-img 10 matches -d arguments by name only, not ID; see docs/quirks.md)"@,
            )
        }
    } else if error == SNAPSHOT_RESULT_ERROR_DUPLICATE_NAME {
        Some("snapshot: a snapshot with that name already exists"@)
    } else if error == SNAPSHOT_RESULT_ERROR_REFCOUNT_OVERFLOW {
        Some(
            "snapshot: a cluster's refcount would exceed the 16-bit refcount cap (65535); the image is too heavily shared to snapshot"@,
        )
    } else if error == SNAPSHOT_RESULT_ERROR_ALLOCATION_FAILED {
        Some(
            "snapshot: no free clusters available — the refcount table is full and instar v1 does not grow it"@,
        )
    } else if error == SNAPSHOT_RESULT_ERROR_SNAPSHOT_TABLE_FULL {
        Some(
            "snapshot: the image already has 16 snapshots, the instar v1 cap (qemu allows up to 65536); delete one first. See docs/quirks.md."@,
        )
    } else if error == SNAPSHOT_RESULT_ERROR_IO {
        Some("snapshot: I/O failure reading the source"@)
    } else if error == SNAPSHOT_RESULT_ERROR_L1_SIZE_MISMATCH {
        if mode == SNAPSHOT_CONFIG_MODE_APPLY {
            Some(
                "snapshot: the snapshot's disk size or L1 geometry differs from the image's current state — the image was resized after the snapshot was taken. qemu-img truncates the image on apply; instar refuses. Resize the image back to the snapshot's size first. See docs/quirks.md."@,
            )
        } else {
            Some(
                "snapshot: target L1 size exceeds the active L1 allocation cap"@,
            )
        }
    } else if error == SNAPSHOT_RESULT_ERROR_INVALID_UTF8 {
        Some("snapshot: argument is not valid UTF-8"@)
    } else if error == SNAPSHOT_RESULT_ERROR_INVALID_CONFIG {
        Some("snapshot: invalid config (host-side bug; please report)"@)
    } else if error == SNAPSHOT_RESULT_ERROR_PARSE_FAILED {
        Some("snapshot: qcow2 header / snapshot-table parse failed"@)
    } else {
        Some("snapshot: unknown error"@)
    }
}

/// Explains an error code of `snapshot` in the given mode.
pub fn snapshot_error_message(mode: u32, error: u32) -> (r: Option<&'static str>)
    ensures
        match r {
            Some(t) => snapshot_error(mode, error) == Some(t@),
            None => snapshot_error(mode, error) is None,
        },
{
    if error == SNAPSHOT_RESULT_ERROR_OK {
        None
    } else if error == SNAPSHOT_RESULT_ERROR_UNSUPPORTED_FORMAT {
        Some("snapshot: source is not qcow2 (qemu-img refuses non-qcow2 sources too)")
    } else if error == SNAPSHOT_RESULT_ERROR_UNSUPPORTED_FEATURE {
        Some(
            "snapshot: this qcow2 image uses a feature instar cannot snapshot (compressed clusters, encryption, an external data file, dirty bitmaps, a dirty/corrupt header, or a refcount width other than 16 bits). List mode works regardless; the mutating modes refuse. See docs/quirks.md.",
        )
    } else if error == SNAPSHOT_RESULT_ERROR_NOT_FOUND {
        if mode == SNAPSHOT_CONFIG_MODE_APPLY {
            Some(
                "snapshot: no snapshot with that ID or name (qemu-img 10 matches -a arguments by ID first, then by name; see docs/quirks.md)",
            )
        } else {
            Some(
                "snapshot: no snapshot with that name (qemu-img 10 matches -d arguments by name only, not ID; see docs/quirks.md)",
            )
        }
    } else if error == SNAPSHOT_RESULT_ERROR_DUPLICATE_NAME {
        Some("snapshot: a snapshot with that name already exists")
    } else if error == SNAPSHOT_RESULT_ERROR_REFCOUNT_OVERFLOW {
        Some(
            "snapshot: a cluster's refcount would exceed the 16-bit refcount cap (65535); the image is too heavily shared to snapshot",
        )
    } else if error == SNAPSHOT_RESULT_ERROR_ALLOCATION_FAILED {
        Some(
            "snapshot: no free clusters available — the refcount table is full and instar v1 does not grow it",
        )
    } else if error == SNAPSHOT_RESULT_ERROR_SNAPSHOT_TABLE_FULL {
        Some(
            "snapshot: the image already has 16 snapshots, the instar v1 cap (qemu allows up to 65536); delete one first. See docs/quirks.md.",
        )
    } else if error == SNAPSHOT_RESULT_ERROR_IO {
        Some("snapshot: I/O failure reading the source")
    } else if error == SNAPSHOT_RESULT_ERROR_L1_SIZE_MISMATCH {
        if mode == SNAPSHOT_CONFIG_MODE_APPLY {
            Some(
                "snapshot: the snapshot's disk size or L1 geometry differs from the image's current state — the image was resized after the snapshot was taken. qemu-img truncates the image on apply; instar refuses. Resize the image back to the snapshot's size first. See docs/quirks.md.",
            )
        } else {
            Some(
                "snapshot: target L1 size exceeds the active L1 allocation cap",
            )
        }
    } else if error == SNAPSHOT_RESULT_ERROR_INVALID_UTF8 {
        Some("snapshot: argument is not valid UTF-8")
    } else if error == SNAPSHOT_RESULT_ERROR_INVALID_CONFIG {
        Some("snapshot: invalid config (host-side bug; please report)")
    } else if error == SNAPSHOT_RESULT_ERROR_PARSE_FAILED {
        Some("snapshot: qcow2 header / snapshot-table parse failed")
    } else {
        Some("snapshot: unknown error")
    }
}

/// The size of a saved machine state: as any size, but zero has its unit.
pub open spec fn vm_size(bytes: u64) -> Seq<char> {
    if bytes == 0 {
        "0 B"@
    } else {
        human_size(bytes, true)
    }
}

/// Formats the size of a saved machine state.
pub fn format_snapshot_vm_size(bytes: u64) -> (r: String)
    ensures
        r@ == vm_size(bytes),
{
    if bytes == 0 {
        "0 B".to_owned()
    } else {
        format_size_human(bytes, true)
    }
}

/// A two-digit, three-digit or four-digit decimal field.
pub open spec fn field(n: u64, width: nat) -> Seq<char> {
    zero_padded(dec(n as int), width)
}

/// A machine clock as hours, minutes, seconds and milliseconds.
pub open spec fn clock_text(nsec: u64) -> Seq<char> {
    let ms = nsec / 1_000_000;
    let s = ms / 1000;
    let m = s / 60;
    field(m / 60, 4) + ":"@ + field(m % 60, 2) + ":"@ + field(s % 60, 2) + "."@ + field(ms % 1000, 3)
}

/// Formats a machine clock as `HHHH:MM:SS.mmm`.
pub fn format_qemu_snapshot_clock(vm_clock_nsec: u64) -> (r: String)
    ensures
        r@ == clock_text(vm_clock_nsec),
{
    let ms: u64 = vm_clock_nsec / 1_000_000;
    let s: u64 = ms / 1000;
    let m: u64 = s / 60;
    let mut t = String::new();
    push_zero_padded(&mut t, m / 60, 10, 4);
    assert(t@ =~= field(m / 60, 4));
    t.append(":");
    push_zero_padded(&mut t, m % 60, 10, 2);
    t.append(":");
    push_zero_padded(&mut t, s % 60, 10, 2);
    t.append(".");
    push_zero_padded(&mut t, ms % 1000, 10, 3);
    t
}

#[derive(Debug, Clone, Copy, PartialEq, Eq, Structural)]
pub enum SnapshotOutputFormat {
    Human,
    Json,
}

/// `text` followed by spaces up to a minimum width in bytes.
pub open spec fn byte_aligned(text: Seq<char>, width: nat) -> Seq<char> {
    text + repeated(' ', missing(width, byte_len(text)))
}

fn push_byte_aligned(s: &mut String, text: &str, width: usize)
    ensures
        final(s)@ == old(s)@ + byte_aligned(text@, width as nat),
{
    let ghost before = s@;
    let len: usize = text.as_bytes().len();
    s.append(text);
    if len < width {
        push_repeated(s, ' ', width - len);
    }
    assert(s@ =~= before + byte_aligned(text@, width as nat));
}

/// The instruction count of an entry, or a word for its absence.
pub open spec fn icount_text(icount: u64, absent: Seq<char>) -> Seq<char> {
    if icount == u64::MAX {
        absent
    } else {
        dec(icount as int)
    }
}

fn format_icount(icount: u64, absent: &str) -> (r: String)
    ensures
        r@ == icount_text(icount, absent@),
{
    if icount == u64::MAX {
        absent.to_owned()
    } else {
        let mut s = String::new();
        push_dec(&mut s, icount);
        assert(s@ =~= dec(icount as int));
        s
    }
}

/// The creation time of an entry, in seconds since the epoch.
pub open spec fn date_seconds(entry: SnapshotEntryMessage) -> int {
    entry.date_sec_hi * 0x1_0000_0000 + entry.date_sec_lo
}

/// The creation time of an entry, in seconds since the epoch.
pub fn snapshot_date_seconds(entry: &SnapshotEntryMessage) -> (r: u64)
    ensures
        r == date_seconds(*entry),
{
    entry.date_sec_hi as u64 * 0x1_0000_0000 + entry.date_sec_lo as u64
}

/// The title and the column heads.
pub open spec fn table_head() -> Seq<char> {
    "Snapshot list:\nID      TAG               VM_SIZE                DATE        VM_CLOCK     ICOUNT\n"@
}

/// The row of an entry; `date` is its creation time in local time.
pub open spec fn table_row(entry: SnapshotEntryMessage, date: Seq<char>) -> Seq<char> {
    byte_aligned(entry.id@, 7) + " "@ + byte_aligned(entry.name@, 16) + " "@ + right_aligned(
        vm_size(entry.vm_state_size),
        8,
    ) + " "@ + right_aligned(date, 19) + " "@ + right_aligned(clock_text(entry.vm_clock_nsec), 15)
        + " "@ + right_aligned(icount_text(entry.icount, "--"@), 10) + "\n"@
}

fn format_row(entry: &SnapshotEntryMessage, date: &str) -> (r: String)
    ensures
        r@ == table_row(*entry, date@),
{
    let mut s = String::new();
    push_byte_aligned(&mut s, entry.id.as_str(), 7);
    assert(s@ =~= byte_aligned(entry.id@, 7));
    s.append(" ");
    push_byte_aligned(&mut s, entry.name.as_str(), 16);
    s.append(" ");
    push_right_aligned(&mut s, format_snapshot_vm_size(entry.vm_state_size).as_str(), 8);
    s.append(" ");
    push_right_aligned(&mut s, date, 19);
    s.append(" ");
    push_right_aligned(&mut s, format_qemu_snapshot_clock(entry.vm_clock_nsec).as_str(), 15);
    s.append(" ");
    push_right_aligned(&mut s, format_icount(entry.icount, "--").as_str(), 10);
    s.append("\n");
    s
}

/// The JSON object of an entry.
pub open spec fn entry_object(entry: SnapshotEntryMessage) -> Seq<char> {
    "{ \"id\": \""@
        + escaped(entry.id@, EscapeStyle::Snapshot)
        + "\", \"name\": \""@
        + escaped(entry.name@, EscapeStyle::Snapshot)
        + "\", \"vm-state-size\": "@
        + dec(entry.vm_state_size as int)
        + ", \"date\": { \"seconds\": "@
        + dec(date_seconds(entry))
        + ", \"nanoseconds\": "@
        + dec(entry.date_nsec as int)
        + " }, \"vm-clock\": { \"seconds\": "@
        + dec((entry.vm_clock_nsec / 1_000_000_000) as int)
        + ", \"nanoseconds\": "@
        + dec((entry.vm_clock_nsec % 1_000_000_000) as int)
        + " }, \"icount\": "@
        + icount_text(entry.icount, "null"@)
        + " }"@
}

/// The JSON object of an entry.
fn format_object(entry: &SnapshotEntryMessage) -> (r: String)
    ensures
        r@ == entry_object(*entry),
{
    let mut s = "{ \"id\": \"".to_owned();
    s.append(json_escape(entry.id.as_str()).as_str());
    s.append("\", \"name\": \"");
    s.append(json_escape(entry.name.as_str()).as_str());
    s.append("\", \"vm-state-size\": ");
    push_dec(&mut s, entry.vm_state_size);
    s.append(", \"date\": { \"seconds\": ");
    push_dec(&mut s, snapshot_date_seconds(entry));
    s.append(", \"nanoseconds\": ");
    push_dec(&mut s, entry.date_nsec as u64);
    s.append(" }, \"vm-clock\": { \"seconds\": ");
    push_dec(&mut s, entry.vm_clock_nsec / 1_000_000_000);
    s.append(", \"nanoseconds\": ");
    push_dec(&mut s, entry.vm_clock_nsec % 1_000_000_000);
    s.append(" }, \"icount\": ");
    s.append(format_icount(entry.icount, "null").as_str());
    s.append(" }");
    s
}

/// A renderer of a snapshot list. Each method gives the text to write next.
#[derive(Debug)]
pub struct SnapshotRenderer {
    pub output_format: SnapshotOutputFormat,
    /// Whether the table's head was written.
    pub first_entry_emitted: bool,
    /// Whether no JSON object was written yet.
    pub first_entry_json: bool,
}

/// What stands before the first entry.
pub open spec fn list_head(format: SnapshotOutputFormat) -> Seq<char> {
    match format {
        SnapshotOutputFormat::Human => Seq::empty(),
        SnapshotOutputFormat::Json => "["@,
    }
}

/// What stands after the last entry; `empty` says that there was none.
pub open spec fn list_tail(format: SnapshotOutputFormat, empty: bool) -> Seq<char> {
    match format {
        SnapshotOutputFormat::Human => Seq::empty(),
        SnapshotOutputFormat::Json => opt(!empty, "\n"@) + "]\n"@,
    }
}

/// The text of one entry; `first` says that none came before.
pub open spec fn list_entry(
    format: SnapshotOutputFormat,
    first: bool,
    entry: SnapshotEntryMessage,
    date: Seq<char>,
) -> Seq<char> {
    match format {
        SnapshotOutputFormat::Human => opt(first, table_head()) + table_row(entry, date),
        SnapshotOutputFormat::Json => (if first {
            "\n"@
        } else {
            ",\n"@
        }) + entry_object(entry),
    }
}

impl SnapshotRenderer {
    /// A renderer for the given output format, `json` or for people.
    pub fn new(output_format: &str) -> (r: Self)
        ensures
            r.output_format == if output_format@ == "json"@ {
                SnapshotOutputFormat::Json
            } else {
                SnapshotOutputFormat::Human
            },
            !r.first_entry_emitted,
            r.first_entry_json,
    {
        let format = if same(output_format, "json") {
            SnapshotOutputFormat::Json
        } else {
            SnapshotOutputFormat::Human
        };
        SnapshotRenderer { output_format: format, first_entry_emitted: false, first_entry_json: true }
    }

    /// Whether no entry was rendered yet.
    pub open spec fn is_fresh(self) -> bool {
        match self.output_format {
            SnapshotOutputFormat::Human => !self.first_entry_emitted,
            SnapshotOutputFormat::Json => self.first_entry_json,
        }
    }

    /// The opening bracket, in JSON; people see nothing of an empty list.
    pub fn begin(&self) -> (r: String)
        ensures
            r@ == list_head(self.output_format),
    {
        match self.output_format {
            SnapshotOutputFormat::Human => String::new(),
            SnapshotOutputFormat::Json => "[".to_owned(),
        }
    }

    /// The text of the next entry. `date` is its creation time in local time,
    /// which only people are shown.
    pub fn emit_snapshot(&mut self, entry: &SnapshotEntryMessage, date: &str) -> (r: String)
        ensures
            r@ == list_entry(old(self).output_format, old(self).is_fresh(), *entry, date@),
            final(self).output_format == old(self).output_format,
            !final(self).is_fresh(),
            old(self).output_format == SnapshotOutputFormat::Human ==> final(self).first_entry_json
                == old(self).first_entry_json,
            old(self).output_format == SnapshotOutputFormat::Json
                ==> final(self).first_entry_emitted == old(self).first_entry_emitted,
    {
        match self.output_format {
            SnapshotOutputFormat::Human => {
                let mut s = String::new();
                push_if(
                    &mut s,
                    !self.first_entry_emitted,
                    "Snapshot list:\nID      TAG               VM_SIZE                DATE        VM_CLOCK     ICOUNT\n",
                );
                assert(s@ =~= opt(!self.first_entry_emitted, table_head()));
                self.first_entry_emitted = true;
                s.append(format_row(entry, date).as_str());
                s
            },
            SnapshotOutputFormat::Json => {
                let mut s = if self.first_entry_json {
                    "\n".to_owned()
                } else {
                    ",\n".to_owned()
                };
                self.first_entry_json = false;
                s.append(format_object(entry).as_str());
                s
            },
        }
    }

    /// The closing bracket and newline, in JSON.
    pub fn finish(&self) -> (r: String)
        ensures
            r@ == list_tail(self.output_format, self.is_fresh()),
    {
        match self.output_format {
            SnapshotOutputFormat::Human => String::new(),
            SnapshotOutputFormat::Json => {
                let mut s = String::new();
                push_if(&mut s, !self.first_entry_json, "\n");
                assert(s@ =~= opt(!self.first_entry_json, "\n"@));
                s.append("]\n");
                s
            },
        }
    }
}

// ---------------------------------------------------------------------------
// Laws
// ---------------------------------------------------------------------------

/// What a renderer has written after `begin` and the given entries.
pub open spec fn list_written(
    format: SnapshotOutputFormat,
    entries: Seq<SnapshotEntryMessage>,
    dates: Seq<Seq<char>>,
) -> Seq<char>
    decreases entries.len(),
{
    if entries.len() == 0 {
        list_head(format)
    } else {
        list_written(format, entries.drop_last(), dates) + list_entry(
            format,
            entries.len() == 1,
            entries.last(),
            dates[entries.len() - 1],
        )
    }
}

/// The rows of the given entries.
pub open spec fn table_rows(
    entries: Seq<SnapshotEntryMessage>,
    dates: Seq<Seq<char>>,
) -> Seq<char>
    decreases entries.len(),
{
    if entries.len() == 0 {
        Seq::empty()
    } else {
        table_rows(entries.drop_last(), dates) + table_row(entries.last(), dates[entries.len() - 1])
    }
}

/// A list for people has its head exactly once, before the first row, and
/// nothing at all where there is no entry.
pub proof fn law_table_head_comes_once(entries: Seq<SnapshotEntryMessage>, dates: Seq<Seq<char>>)
    ensures
        list_written(SnapshotOutputFormat::Human, entries, dates) == opt(
            entries.len() > 0,
            table_head(),
        ) + table_rows(entries, dates),
    decreases entries.len(),
{
    let format = SnapshotOutputFormat::Human;
    if entries.len() == 0 {
        assert(list_written(format, entries, dates) =~= opt(false, table_head()) + table_rows(
            entries,
            dates,
        ));
    } else {
        law_table_head_comes_once(entries.drop_last(), dates);
        assert(list_written(format, entries, dates) =~= opt(true, table_head()) + table_rows(
            entries,
            dates,
        ));
    }
}

/// An empty snapshot list is an empty array in JSON.
pub proof fn law_empty_list_is_an_empty_array(dates: Seq<Seq<char>>)
    ensures
        list_written(SnapshotOutputFormat::Json, Seq::empty(), dates) + list_tail(
            SnapshotOutputFormat::Json,
            true,
        ) == "["@ + "]\n"@,
{
    assert(opt(false, "\n"@) + "]\n"@ =~= "]\n"@);
}

/// The objects of the given entries, separated by a comma and a newline.
pub open spec fn entry_objects(entries: Seq<SnapshotEntryMessage>) -> Seq<char>
    decreases entries.len(),
{
    if entries.len() == 0 {
        Seq::empty()
    } else if entries.len() == 1 {
        entry_object(entries[0])
    } else {
        entry_objects(entries.drop_last()) + ",\n"@ + entry_object(entries.last())
    }
}

/// A JSON list is an array of one object for each entry, in the order of
/// arrival, with separators between them only, whatever the dates.
pub proof fn law_list_json_is_an_array(entries: Seq<SnapshotEntryMessage>, dates: Seq<Seq<char>>)
    requires
        entries.len() > 0,
    ensures
        list_written(SnapshotOutputFormat::Json, entries, dates) + list_tail(
            SnapshotOutputFormat::Json,
            false,
        ) == "["@ + "\n"@ + entry_objects(entries) + ("\n"@ + "]\n"@),
{
    lemma_entry_objects(entries, dates);
}

proof fn lemma_entry_objects(entries: Seq<SnapshotEntryMessage>, dates: Seq<Seq<char>>)
    requires
        entries.len() > 0,
    ensures
        list_written(SnapshotOutputFormat::Json, entries, dates) == "["@ + "\n"@ + entry_objects(
            entries,
        ),
    decreases entries.len(),
{
    let format = SnapshotOutputFormat::Json;
    if entries.len() == 1 {
        assert(entries.last() == entries[0]);
        assert(list_written(format, entries.drop_last(), dates) == list_head(format));
    } else {
        lemma_entry_objects(entries.drop_last(), dates);
    }
    assert(list_written(format, entries, dates) =~= "["@ + "\n"@ + entry_objects(entries));
}

/// The object of a snapshot holds its names, its sizes and its times, each behind
/// its name.
pub proof fn law_entry_object_holds_the_snapshot(entry: SnapshotEntryMessage)
    ensures
        holds_part(
            entry_object(entry),
            "{ \"id\": \""@ + escaped(entry.id@, EscapeStyle::Snapshot),
        ),
        holds_part(
            entry_object(entry),
            "\", \"name\": \""@ + escaped(entry.name@, EscapeStyle::Snapshot),
        ),
        holds_part(
            entry_object(entry),
            "\", \"vm-state-size\": "@ + dec(entry.vm_state_size as int),
        ),
        holds_part(entry_object(entry), ", \"date\": { \"seconds\": "@ + dec(date_seconds(entry))),
        holds_part(entry_object(entry), ", \"nanoseconds\": "@ + dec(entry.date_nsec as int)),
        holds_part(
            entry_object(entry),
            " }, \"vm-clock\": { \"seconds\": "@ + dec((entry.vm_clock_nsec / 1_000_000_000) as int),
        ),
        holds_part(
            entry_object(entry),
            ", \"nanoseconds\": "@ + dec((entry.vm_clock_nsec % 1_000_000_000) as int),
        ),
        holds_part(entry_object(entry), " }, \"icount\": "@ + icount_text(entry.icount, "null"@)),
{
    broadcast use {lemma_part_stays, lemma_tail_part, lemma_last_part, lemma_first_part};

}

/// A clock is shown in hours, minutes, seconds and milliseconds that together
/// make up its time, each in its place and no larger than its place allows.
pub proof fn law_clock_adds_up(vm_clock_nsec: u64, r: String)
    requires
        call_ensures(format_qemu_snapshot_clock, (vm_clock_nsec,), r),
    ensures
        exists|h: u64, m: u64, s: u64, ms: u64|
            m < 60 && s < 60 && ms < 1000 && ((h * 60 + m) * 60 + s) * 1000 + ms == vm_clock_nsec
                / 1_000_000 && r@ == #[trigger] ((field(h, 4) + ":"@ + field(m, 2) + ":"@ + field(
                s,
                2,
            )) + "."@ + field(ms, 3)),
{
    let t = vm_clock_nsec / 1_000_000;
    let s = t / 1000;
    let m = s / 60;
    assert((((m / 60) * 60 + m % 60) * 60 + s % 60) * 1000 + t % 1000 == t);
    assert(r@ == ((field(m / 60, 4) + ":"@ + field(m % 60, 2) + ":"@ + field(s % 60, 2)) + "."@
        + field(t % 1000, 3)));
}

/// The seconds of a date come in two halves of 32 bits, the higher one worth
/// more.
pub proof fn law_date_is_put_together(entry: &SnapshotEntryMessage, r: u64)
    requires
        call_ensures(snapshot_date_seconds, (entry,), r),
    ensures
        r / 0x1_0000_0000 == entry.date_sec_hi,
        r % 0x1_0000_0000 == entry.date_sec_lo,
{
}

/// A machine state has the size that any size has, but for an empty one, which
/// has its unit.
pub proof fn law_empty_state_has_its_unit(bytes: u64, r: String, size: String)
    requires
        call_ensures(format_snapshot_vm_size, (bytes,), r),
        call_ensures(format_size_human, (bytes, true), size),
    ensures
        bytes == 0 ==> r@ == "0 B"@,
        bytes > 0 ==> r@ == size@,
{
}

/// The row of a snapshot holds its number, its name, the size of its machine
/// state, its date, its clock and its instruction count, in that order.
pub proof fn law_row_holds_the_snapshot(entry: SnapshotEntryMessage, date: Seq<char>)
    ensures
        entry.id@.is_prefix_of(table_row(entry, date)),
        holds_part(
            table_row(entry, date),
            byte_aligned(entry.id@, 7) + " "@ + byte_aligned(entry.name@, 16) + " "@
                + right_aligned(vm_size(entry.vm_state_size), 8),
        ),
        holds_part(
            table_row(entry, date),
            right_aligned(vm_size(entry.vm_state_size), 8) + (" "@ + right_aligned(date, 19)),
        ),
        holds_part(
            table_row(entry, date),
            right_aligned(date, 19) + (" "@ + right_aligned(clock_text(entry.vm_clock_nsec), 15)),
        ),
        entry.icount < u64::MAX ==> holds_part(
            table_row(entry, date),
            " "@ + right_aligned(dec(entry.icount as int), 10),
        ),
        entry.icount == u64::MAX ==> holds_part(
            table_row(entry, date),
            " "@ + right_aligned("--"@, 10),
        ),
{
    broadcast use {lemma_part_stays, lemma_tail_part, lemma_last_part, lemma_first_part};

    let n = entry.id@.len() as int;
    let row = table_row(entry, date);
    assert(row.subrange(0, n) =~= entry.id@);
    let size = right_aligned(vm_size(entry.vm_state_size), 8);
    let clock = right_aligned(clock_text(entry.vm_clock_nsec), 15);
    let day = right_aligned(date, 19);
    let before = byte_aligned(entry.id@, 7) + " "@ + byte_aligned(entry.name@, 16) + " "@;
    let last = " "@ + right_aligned(icount_text(entry.icount, "--"@), 10) + "\n"@;
    assert(row =~= (before + (size + (" "@ + day))) + ((" "@ + clock) + last));
    assert(row =~= ((before + size + " "@) + (day + (" "@ + clock))) + last);
}

/// A list is written as JSON exactly where that is asked for, and starts with
/// nothing written.
pub proof fn law_list_starts_as_asked(
    output_format: &str,
    r: SnapshotRenderer,
    renderer: &SnapshotRenderer,
    head: String,
    tail: String,
)
    requires
        call_ensures(SnapshotRenderer::new, (output_format,), r),
        *renderer == r,
        call_ensures(SnapshotRenderer::begin, (renderer,), head),
        call_ensures(SnapshotRenderer::finish, (renderer,), tail),
    ensures
        r.output_format == SnapshotOutputFormat::Json <==> output_format@ == "json"@,
        !r.first_entry_emitted && r.first_entry_json,
        output_format@ == "json"@ ==> head@ + tail@ == "["@ + "]\n"@,
        output_format@ != "json"@ ==> head@.len() == 0 && tail@.len() == 0,
{
    assert(Seq::<char>::empty() + "]\n"@ =~= "]\n"@);
}

/// Each snapshot is a row, with the head before the first one alone, or an
/// object, with a separator before all but the first.
pub proof fn law_snapshots_are_written_as_asked(
    renderer: &mut SnapshotRenderer,
    entry: &SnapshotEntryMessage,
    date: &str,
    r: String,
)
    requires
        call_ensures(SnapshotRenderer::emit_snapshot, (renderer, entry, date), r),
    ensures
        ({
            let human = old(renderer).output_format == SnapshotOutputFormat::Human;
            &&& final(renderer).output_format == old(renderer).output_format
            &&& human ==> final(renderer).first_entry_emitted
            &&& !human ==> !final(renderer).first_entry_json
            &&& human && old(renderer).first_entry_emitted ==> r@ == table_row(*entry, date@)
            &&& human && !old(renderer).first_entry_emitted ==> r@ == table_head() + table_row(
                *entry,
                date@,
            )
            &&& !human && old(renderer).first_entry_json ==> r@ == "\n"@ + entry_object(*entry)
            &&& !human && !old(renderer).first_entry_json ==> r@ == ",\n"@ + entry_object(*entry)
        }),
{
    let row = table_row(*entry, date@);
    assert(Seq::<char>::empty() + row =~= row);
}

/// Each error number of the guest is explained by what went wrong, and success
/// needs no explanation. A snapshot that is not found, or does not fit, is
/// explained for the mode that looked for it.
pub proof fn law_snapshot_errors_are_explained(mode: u32, error: u32, r: Option<&'static str>)
    requires
        call_ensures(snapshot_error_message, (mode, error), r),
    ensures
        error == 0 <==> r is None,
        error == 1 ==> r->0@
            == "snapshot: source is not qcow2 (qemu-img refuses non-qcow2 sources too)"@,
        error == 2 ==> r->0@
            == "snapshot: this qcow2 image uses a feature instar cannot snapshot (compressed clusters, encryption, an external data file, dirty bitmaps, a dirty/corrupt header, or a refcount width other than 16 bits). List mode works regardless; the mutating modes refuse. See docs/quirks.md."@,
        error == 3 && mode == 1 ==> r->0@
            == "snapshot: no snapshot with that ID or name (qemu-img 10 matches -a arguments by ID first, then by name; see docs/quirks.md)"@,
        error == 3 && mode != 1 ==> r->0@
            == "snapshot: no snapshot with that name (qemu-img 10 matches -d arguments by name only, not ID; see docs/quirks.md)"@,
        error == 4 ==> r->0@ == "snapshot: a snapshot with that name already exists"@,
        error == 5 ==> r->0@
            == "snapshot: a cluster's refcount would exceed the 16-bit refcount cap (65535); the image is too heavily shared to snapshot"@,
        error == 6 ==> r->0@
            == "snapshot: no free clusters available — the refcount table is full and instar v1 does not grow it"@,
        error == 7 ==> r->0@
            == "snapshot: the image already has 16 snapshots, the instar v1 cap (qemu allows up to 65536); delete one first. See docs/quirks.md."@,
        error == 8 ==> r->0@ == "snapshot: I/O failure reading the source"@,
        error == 9 && mode == 1 ==> r->0@
            == "snapshot: the snapshot's disk size or L1 geometry differs from the image's current state — the image was resized after the snapshot was taken. qemu-img truncates the image on apply; instar refuses. Resize the image back to the snapshot's size first. See docs/quirks.md."@,
        error == 9 && mode != 1 ==> r->0@
            == "snapshot: target L1 size exceeds the active L1 allocation cap"@,
        error == 10 ==> r->0@ == "snapshot: argument is not valid UTF-8"@,
        error == 11 ==> r->0@ == "snapshot: invalid config (host-side bug; please report)"@,
        error == 12 ==> r->0@ == "snapshot: qcow2 header / snapshot-table parse failed"@,
        error > 12 ==> r->0@ == "snapshot: unknown error"@,
{
}

} // verus!
