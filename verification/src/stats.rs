//! Counters of what a guest does: exits by kind, bytes and sectors moved.
use vstd::prelude::*;
use crate::rounding::{
    binary64, half_even, hundredths, lemma_u64_to_binary64, percentage, push_hundredths,
    push_tenths, ratio, round_half_even, rounded_percentage, rounded_ratio, tenths, to_binary64,
};
use crate::size::{GIB, KIB, MIB};
use crate::text::{
    between, dec, from_chars, holds_part, lemma_first_part, lemma_last_part, lemma_part_stays,
    lemma_tail_part, opt, push_dec, push_if, to_chars,
};

verus! {

/// `std::time::Instant`, carried through unread.
#[verifier::external_type_specification]
#[verifier::external_body]
pub struct ExInstant(std::time::Instant);

/// `Instant::now`: the current time; nothing is known of its value.
pub assume_specification [std::time::Instant::now] () -> (r: std::time::Instant)
;

/// `Instant::elapsed`: the time since an instant; nothing is known of its
/// value.
pub assume_specification [std::time::Instant::elapsed] (start: &std::time::Instant) -> (r:
    std::time::Duration)
;

/// `Duration::as_nanos`: the whole duration in nanoseconds, which is at most
/// what the largest duration holds.
pub assume_specification [std::time::Duration::as_nanos] (d: &std::time::Duration) -> (r: u128)
    ensures
        r <= 18_446_744_073_709_551_615_999_999_999,
;

/// The values of all counters.
#[derive(Debug, Clone, Copy, PartialEq, Eq, Structural)]
pub struct Counts {
    pub total_exits: u64,
    pub io_in_exits: u64,
    pub io_out_exits: u64,
    pub mmio_read_exits: u64,
    pub mmio_write_exits: u64,
    pub hlt_exits: u64,
    pub shutdown_exits: u64,
    pub fail_entry_exits: u64,
    pub unknown_exits: u64,
    pub bytes_read: u64,
    pub bytes_written: u64,
    pub sectors_read: u64,
    pub sectors_written: u64,
}

/// Counters that have counted nothing.
pub open spec fn no_counts() -> Counts {
    Counts {
        total_exits: 0,
        io_in_exits: 0,
        io_out_exits: 0,
        mmio_read_exits: 0,
        mmio_write_exits: 0,
        hlt_exits: 0,
        shutdown_exits: 0,
        fail_entry_exits: 0,
        unknown_exits: 0,
        bytes_read: 0,
        bytes_written: 0,
        sectors_read: 0,
        sectors_written: 0,
    }
}

/// Statistics of one run of a guest.
#[derive(Debug)]
pub struct VmmStats {
    /// When counting started.
    pub start_time: std::time::Instant,
    /// All VM exits.
    pub total_exits: u64,
    /// Port inputs.
    pub io_in_exits: u64,
    /// Port outputs.
    pub io_out_exits: u64,
    /// Device register reads.
    pub mmio_read_exits: u64,
    /// Device register writes.
    pub mmio_write_exits: u64,
    /// Halts.
    pub hlt_exits: u64,
    /// Shutdowns and triple faults.
    pub shutdown_exits: u64,
    /// Failed VM entries.
    pub fail_entry_exits: u64,
    /// Exits nothing handles.
    pub unknown_exits: u64,
    /// Bytes read from input devices.
    pub bytes_read: u64,
    /// Bytes written to the output device.
    pub bytes_written: u64,
    /// Sectors read.
    pub sectors_read: u64,
    /// Sectors written.
    pub sectors_written: u64,
}

/// The numeral `s` with a comma before every group of three digits.
pub open spec fn grouped(s: Seq<char>) -> Seq<char>
    decreases s.len(),
{
    if s.len() <= 3 {
        s
    } else {
        grouped(s.take(s.len() - 3)) + ","@ + s.skip(s.len() - 3)
    }
}

fn group(v: &Vec<char>, len: usize) -> (r: String)
    requires
        len <= v@.len(),
    ensures
        r@ == grouped(v@.take(len as int)),
    decreases len,
{
    let ghost s = v@.take(len as int);
    if len <= 3 {
        let r = from_chars(v, 0, len);
        assert(r@ =~= s);
        r
    } else {
        let mut r = group(v, len - 3);
        assert(s.take(len - 3) =~= v@.take(len - 3));
        assert(s.skip(len - 3) =~= v@.subrange(len - 3, len as int));
        r.append(",");
        r.append(from_chars(v, len - 3, len).as_str());
        r
    }
}

/// A byte count in the largest unit up to GB, with two digits after the point.
pub open spec fn byte_count(bytes: u64) -> Seq<char> {
    let x = binary64(bytes as nat) * 100;
    if bytes >= GIB {
        hundredths(round_half_even(x, GIB as nat)) + " GB"@
    } else if bytes >= MIB {
        hundredths(round_half_even(x, MIB as nat)) + " MB"@
    } else if bytes >= KIB {
        hundredths(round_half_even(x, KIB as nat)) + " KB"@
    } else {
        dec(bytes as int) + " B"@
    }
}

/// A count, with its share of the total where there is one.
pub open spec fn count_share(count: u64, total: u64) -> Seq<char> {
    if total > 0 {
        grouped(dec(count as int)) + " ("@ + tenths(percentage(count, total, 10)) + "%)"@
    } else {
        grouped(dec(count as int))
    }
}

/// A line of the summary with a count and its share of the total.
pub open spec fn share_line(label: Seq<char>, count: u64, total: u64) -> Seq<char> {
    label + count_share(count, total) + "\n"@
}

impl VmmStats {
    /// The values of all counters.
    pub open spec fn counts(self) -> Counts {
        Counts {
            total_exits: self.total_exits,
            io_in_exits: self.io_in_exits,
            io_out_exits: self.io_out_exits,
            mmio_read_exits: self.mmio_read_exits,
            mmio_write_exits: self.mmio_write_exits,
            hlt_exits: self.hlt_exits,
            shutdown_exits: self.shutdown_exits,
            fail_entry_exits: self.fail_entry_exits,
            unknown_exits: self.unknown_exits,
            bytes_read: self.bytes_read,
            bytes_written: self.bytes_written,
            sectors_read: self.sectors_read,
            sectors_written: self.sectors_written,
        }
    }

    /// Whether every exit was counted under exactly one kind.
    pub open spec fn balanced(self) -> bool {
        self.total_exits == self.io_in_exits + self.io_out_exits + self.mmio_read_exits
            + self.mmio_write_exits + self.hlt_exits + self.shutdown_exits + self.fail_entry_exits
            + self.unknown_exits
    }

    /// Starts counting at zero.
    pub fn new() -> (r: Self)
        ensures
            r.counts() == no_counts(),
            r.balanced(),
    {
        VmmStats {
            start_time: std::time::Instant::now(),
            total_exits: 0,
            io_in_exits: 0,
            io_out_exits: 0,
            mmio_read_exits: 0,
            mmio_write_exits: 0,
            hlt_exits: 0,
            shutdown_exits: 0,
            fail_entry_exits: 0,
            unknown_exits: 0,
            bytes_read: 0,
            bytes_written: 0,
            sectors_read: 0,
            sectors_written: 0,
        }
    }

    /// The time since counting started, in nanoseconds. It depends on the
    /// clock alone; only the range of a duration is known of it.
    pub fn elapsed_nanos(&self) -> (r: u128)
        ensures
            r <= 18_446_744_073_709_551_615_999_999_999,
    {
        self.start_time.elapsed().as_nanos()
    }

    /// Records a port input.
    pub fn record_io_in(&mut self)
        requires
            old(self).total_exits < u64::MAX,
            old(self).io_in_exits < u64::MAX,
        ensures
            final(self).counts() == (Counts {
                total_exits: (old(self).total_exits + 1) as u64,
                io_in_exits: (old(self).io_in_exits + 1) as u64,
                ..old(self).counts()
            }),
            final(self).start_time == old(self).start_time,
            old(self).balanced() ==> final(self).balanced(),
    {
        self.total_exits = self.total_exits + 1;
        self.io_in_exits = self.io_in_exits + 1;
    }

    /// Records a port output.
    pub fn record_io_out(&mut self)
        requires
            old(self).total_exits < u64::MAX,
            old(self).io_out_exits < u64::MAX,
        ensures
            final(self).counts() == (Counts {
                total_exits: (old(self).total_exits + 1) as u64,
                io_out_exits: (old(self).io_out_exits + 1) as u64,
                ..old(self).counts()
            }),
            final(self).start_time == old(self).start_time,
            old(self).balanced() ==> final(self).balanced(),
    {
        self.total_exits = self.total_exits + 1;
        self.io_out_exits = self.io_out_exits + 1;
    }

    /// Records a device register read.
    pub fn record_mmio_read(&mut self)
        requires
            old(self).total_exits < u64::MAX,
            old(self).mmio_read_exits < u64::MAX,
        ensures
            final(self).counts() == (Counts {
                total_exits: (old(self).total_exits + 1) as u64,
                mmio_read_exits: (old(self).mmio_read_exits + 1) as u64,
                ..old(self).counts()
            }),
            final(self).start_time == old(self).start_time,
            old(self).balanced() ==> final(self).balanced(),
    {
        self.total_exits = self.total_exits + 1;
        self.mmio_read_exits = self.mmio_read_exits + 1;
    }

    /// Records a device register write.
    pub fn record_mmio_write(&mut self)
        requires
            old(self).total_exits < u64::MAX,
            old(self).mmio_write_exits < u64::MAX,
        ensures
            final(self).counts() == (Counts {
                total_exits: (old(self).total_exits + 1) as u64,
                mmio_write_exits: (old(self).mmio_write_exits + 1) as u64,
                ..old(self).counts()
            }),
            final(self).start_time == old(self).start_time,
            old(self).balanced() ==> final(self).balanced(),
    {
        self.total_exits = self.total_exits + 1;
        self.mmio_write_exits = self.mmio_write_exits + 1;
    }

    /// Records a halt.
    pub fn record_hlt(&mut self)
        requires
            old(self).total_exits < u64::MAX,
            old(self).hlt_exits < u64::MAX,
        ensures
            final(self).counts() == (Counts {
                total_exits: (old(self).total_exits + 1) as u64,
                hlt_exits: (old(self).hlt_exits + 1) as u64,
                ..old(self).counts()
            }),
            final(self).start_time == old(self).start_time,
            old(self).balanced() ==> final(self).balanced(),
    {
        self.total_exits = self.total_exits + 1;
        self.hlt_exits = self.hlt_exits + 1;
    }

    /// Records a shutdown or triple fault.
    pub fn record_shutdown(&mut self)
        requires
            old(self).total_exits < u64::MAX,
            old(self).shutdown_exits < u64::MAX,
        ensures
            final(self).counts() == (Counts {
                total_exits: (old(self).total_exits + 1) as u64,
                shutdown_exits: (old(self).shutdown_exits + 1) as u64,
                ..old(self).counts()
            }),
            final(self).start_time == old(self).start_time,
            old(self).balanced() ==> final(self).balanced(),
    {
        self.total_exits = self.total_exits + 1;
        self.shutdown_exits = self.shutdown_exits + 1;
    }

    /// Records a failed VM entry.
    pub fn record_fail_entry(&mut self)
        requires
            old(self).total_exits < u64::MAX,
            old(self).fail_entry_exits < u64::MAX,
        ensures
            final(self).counts() == (Counts {
                total_exits: (old(self).total_exits + 1) as u64,
                fail_entry_exits: (old(self).fail_entry_exits + 1) as u64,
                ..old(self).counts()
            }),
            final(self).start_time == old(self).start_time,
            old(self).balanced() ==> final(self).balanced(),
    {
        self.total_exits = self.total_exits + 1;
        self.fail_entry_exits = self.fail_entry_exits + 1;
    }

    /// Records an exit nothing handles.
    pub fn record_unknown(&mut self)
        requires
            old(self).total_exits < u64::MAX,
            old(self).unknown_exits < u64::MAX,
        ensures
            final(self).counts() == (Counts {
                total_exits: (old(self).total_exits + 1) as u64,
                unknown_exits: (old(self).unknown_exits + 1) as u64,
                ..old(self).counts()
            }),
            final(self).start_time == old(self).start_time,
            old(self).balanced() ==> final(self).balanced(),
    {
        self.total_exits = self.total_exits + 1;
        self.unknown_exits = self.unknown_exits + 1;
    }

    /// Records bytes read from an input device.
    pub fn record_read(&mut self, bytes: u64, sectors: u64)
        requires
            old(self).bytes_read + bytes <= u64::MAX,
            old(self).sectors_read + sectors <= u64::MAX,
        ensures
            final(self).counts() == (Counts {
                bytes_read: (old(self).bytes_read + bytes) as u64,
                sectors_read: (old(self).sectors_read + sectors) as u64,
                ..old(self).counts()
            }),
            final(self).start_time == old(self).start_time,
            old(self).balanced() ==> final(self).balanced(),
    {
        self.bytes_read = self.bytes_read + bytes;
        self.sectors_read = self.sectors_read + sectors;
    }

    /// Records bytes written to the output device.
    pub fn record_write(&mut self, bytes: u64, sectors: u64)
        requires
            old(self).bytes_written + bytes <= u64::MAX,
            old(self).sectors_written + sectors <= u64::MAX,
        ensures
            final(self).counts() == (Counts {
                bytes_written: (old(self).bytes_written + bytes) as u64,
                sectors_written: (old(self).sectors_written + sectors) as u64,
                ..old(self).counts()
            }),
            final(self).start_time == old(self).start_time,
            old(self).balanced() ==> final(self).balanced(),
    {
        self.bytes_written = self.bytes_written + bytes;
        self.sectors_written = self.sectors_written + sectors;
    }

    /// All port exits.
    pub fn io_exits(&self) -> (r: u64)
        requires
            self.io_in_exits + self.io_out_exits <= u64::MAX,
        ensures
            r == self.io_in_exits + self.io_out_exits,
    {
        self.io_in_exits + self.io_out_exits
    }

    /// All device register exits.
    pub fn mmio_exits(&self) -> (r: u64)
        requires
            self.mmio_read_exits + self.mmio_write_exits <= u64::MAX,
        ensures
            r == self.mmio_read_exits + self.mmio_write_exits,
    {
        self.mmio_read_exits + self.mmio_write_exits
    }

    /// Formats a number with thousands separators.
    pub fn format_number(n: u64) -> (r: String)
        ensures
            r@ == grouped(dec(n as int)),
    {
        let mut s = String::new();
        push_dec(&mut s, n);
        assert(s@ =~= dec(n as int));
        let v = to_chars(s.as_str());
        assert(v@.take(v@.len() as int) =~= v@);
        group(&v, v.len())
    }

    /// Formats a byte count for people.
    pub fn format_bytes(bytes: u64) -> (r: String)
        ensures
            r@ == byte_count(bytes),
    {
        proof {
            lemma_u64_to_binary64(bytes);
        }
        let mut s = String::new();
        let x: u128 = to_binary64(bytes as u128) * 100;
        if bytes >= GIB {
            push_hundredths(&mut s, half_even(x, GIB as u128));
            s.append(" GB");
        } else if bytes >= MIB {
            push_hundredths(&mut s, half_even(x, MIB as u128));
            s.append(" MB");
        } else if bytes >= KIB {
            push_hundredths(&mut s, half_even(x, KIB as u128));
            s.append(" KB");
        } else {
            push_dec(&mut s, bytes);
            s.append(" B");
        }
        assert(s@ =~= byte_count(bytes));
        s
    }

    /// Formats a count with its share of all exits.
    pub fn format_count_percent(&self, count: u64) -> (r: String)
        ensures
            r@ == count_share(count, self.total_exits),
    {
        let mut s = Self::format_number(count);
        if self.total_exits > 0 {
            s.append(" (");
            push_tenths(&mut s, rounded_percentage(count, self.total_exits, 10));
            s.append("%)");
        }
        s
    }

    fn format_share_line(&self, label: &str, count: u64) -> (r: String)
        ensures
            r@ == share_line(label@, count, self.total_exits),
    {
        between(label, self.format_count_percent(count).as_str(), "\n")
    }

    /// The exits of each kind, as the summary lists them.
    pub open spec fn exits_text(self) -> Seq<char> {
        let t = self.total_exits;
        "Total exits:    "@ + grouped(dec(t as int)) + "\n"@
            + share_line("  IO in:        "@, self.io_in_exits, t)
            + share_line("  IO out:       "@, self.io_out_exits, t)
            + share_line("  MMIO read:    "@, self.mmio_read_exits, t)
            + share_line("  MMIO write:   "@, self.mmio_write_exits, t)
            + share_line("  HLT:          "@, self.hlt_exits, t)
            + opt(self.shutdown_exits > 0, share_line("  Shutdown:     "@, self.shutdown_exits, t))
            + opt(self.fail_entry_exits > 0, share_line("  Fail entry:   "@, self.fail_entry_exits, t))
            + opt(self.unknown_exits > 0, share_line("  Unknown:      "@, self.unknown_exits, t))
    }

    /// Formats the exits of each kind; the rare kinds only where they occurred.
    pub fn format_exits(&self) -> (r: String)
        ensures
            r@ == self.exits_text(),
    {
        let mut s = "Total exits:    ".to_owned();
        s.append(Self::format_number(self.total_exits).as_str());
        s.append("\n");
        s.append(self.format_share_line("  IO in:        ", self.io_in_exits).as_str());
        s.append(self.format_share_line("  IO out:       ", self.io_out_exits).as_str());
        s.append(self.format_share_line("  MMIO read:    ", self.mmio_read_exits).as_str());
        s.append(self.format_share_line("  MMIO write:   ", self.mmio_write_exits).as_str());
        s.append(self.format_share_line("  HLT:          ", self.hlt_exits).as_str());
        let shutdown = self.format_share_line("  Shutdown:     ", self.shutdown_exits);
        push_if(&mut s, self.shutdown_exits > 0, shutdown.as_str());
        let fail = self.format_share_line("  Fail entry:   ", self.fail_entry_exits);
        push_if(&mut s, self.fail_entry_exits > 0, fail.as_str());
        let unknown = self.format_share_line("  Unknown:      ", self.unknown_exits);
        push_if(&mut s, self.unknown_exits > 0, unknown.as_str());
        s
    }

    /// What was moved, as the summary lists it.
    pub open spec fn transfer_text(self) -> Seq<char> {
        "Data transfer:\n  Bytes read:   "@ + byte_count(self.bytes_read) + " ("@ + grouped(
            dec(self.sectors_read as int),
        ) + " sectors)\n  Bytes written: "@ + byte_count(self.bytes_written) + " ("@ + grouped(
            dec(self.sectors_written as int),
        ) + " sectors)\n"@
    }

    /// Formats what was moved.
    pub fn format_transfer(&self) -> (r: String)
        ensures
            r@ == self.transfer_text(),
    {
        let mut s = "Data transfer:\n  Bytes read:   ".to_owned();
        s.append(Self::format_bytes(self.bytes_read).as_str());
        s.append(" (");
        s.append(Self::format_number(self.sectors_read).as_str());
        s.append(" sectors)\n  Bytes written: ");
        s.append(Self::format_bytes(self.bytes_written).as_str());
        s.append(" (");
        s.append(Self::format_number(self.sectors_written).as_str());
        s.append(" sectors)\n");
        s
    }

    /// How many register exits a sector took and how many bytes an exit moved,
    /// as the summary lists them.
    pub open spec fn efficiency_text(self) -> Seq<char> {
        let registers = (self.mmio_read_exits + self.mmio_write_exits) as u64;
        let sectors = (self.sectors_read + self.sectors_written) as u64;
        let bytes = (self.bytes_read + self.bytes_written) as u64;
        "  MMIO/sector:  "@ + tenths(ratio(registers, sectors, 10))
            + " exits/sector\n  Bytes/exit:   "@ + tenths(ratio(bytes, self.total_exits, 10)) + "\n"@
    }

    /// Formats the register exits of a sector and the bytes of an exit.
    pub fn format_efficiency(&self) -> (r: String)
        requires
            self.mmio_read_exits + self.mmio_write_exits <= u64::MAX,
            self.sectors_read + self.sectors_written <= u64::MAX,
            self.bytes_read + self.bytes_written <= u64::MAX,
        ensures
            r@ == self.efficiency_text(),
    {
        let sectors: u64 = self.sectors_read + self.sectors_written;
        let bytes: u64 = self.bytes_read + self.bytes_written;
        let mut s = "  MMIO/sector:  ".to_owned();
        push_tenths(&mut s, rounded_ratio(self.mmio_exits(), sectors, 10));
        s.append(" exits/sector\n  Bytes/exit:   ");
        push_tenths(&mut s, rounded_ratio(bytes, self.total_exits, 10));
        s.append("\n");
        s
    }
}

impl Default for VmmStats {
    fn default() -> (r: Self)
        ensures
            r.counts() == no_counts(),
            r.balanced(),
    {
        Self::new()
    }
}

// ---------------------------------------------------------------------------
// Laws
// ---------------------------------------------------------------------------

/// Taking the separators out of a grouped numeral gives the numeral back.
pub proof fn law_grouping_keeps_the_digits(n: u64)
    ensures
        grouped(dec(n as int)).filter(|c: char| c != ',') == dec(n as int),
{
    crate::size::lemma_dec_digits(n as nat);
    let s = dec(n as int);
    assert forall|i: int| 0 <= i < s.len() implies s[i] != ',' by {
        assert('0' <= s[i] <= '9');
    }
    lemma_ungrouped(s);
}

proof fn lemma_kept(s: Seq<char>)
    requires
        forall|i: int| 0 <= i < s.len() ==> s[i] != ',',
    ensures
        s.filter(|c: char| c != ',') == s,
    decreases s.len(),
{
    reveal(Seq::filter);
    if s.len() > 0 {
        assert forall|i: int| 0 <= i < s.drop_last().len() implies s.drop_last()[i] != ',' by {
            assert(s.drop_last()[i] == s[i]);
        }
        lemma_kept(s.drop_last());
        assert(s.drop_last().push(s.last()) =~= s);
    } else {
        assert(s.filter(|c: char| c != ',') =~= s);
    }
}

proof fn lemma_ungrouped(s: Seq<char>)
    requires
        forall|i: int| 0 <= i < s.len() ==> s[i] != ',',
    ensures
        grouped(s).filter(|c: char| c != ',') == s,
    decreases s.len(),
{
    let keep = |c: char| c != ',';
    if s.len() <= 3 {
        lemma_kept(s);
    } else {
        let head = s.take(s.len() - 3);
        let tail = s.skip(s.len() - 3);
        assert forall|i: int| 0 <= i < head.len() implies head[i] != ',' by {
            assert(head[i] == s[i]);
        }
        assert forall|i: int| 0 <= i < tail.len() implies tail[i] != ',' by {
            assert(tail[i] == s[s.len() - 3 + i]);
        }
        lemma_ungrouped(head);
        lemma_kept(tail);
        reveal_strlit(",");
        let comma = ","@;
        assert(comma.filter(keep) =~= Seq::<char>::empty()) by {
            reveal(Seq::filter);
            assert(comma.len() == 1 && comma[0] == ',');
            assert(comma.drop_last().len() == 0);
            reveal_with_fuel(Seq::filter, 2);
        }
        Seq::filter_distributes_over_add(grouped(head), comma, keep);
        Seq::filter_distributes_over_add(grouped(head) + comma, tail, keep);
        assert(head + tail =~= s);
        assert(head + Seq::<char>::empty() =~= head);
    }
}

/// Each kind of exit has its own line of the summary, with its own count;
/// the rare kinds have one where they occurred.
pub proof fn law_each_kind_has_its_line(s: &VmmStats, r: String)
    requires
        call_ensures(VmmStats::format_exits, (s,), r),
    ensures
        ({
            let share = |count: u64|
                if s.total_exits > 0 {
                    grouped(dec(count as int)) + " ("@ + tenths(
                        percentage(count, s.total_exits, 10),
                    ) + "%)"@
                } else {
                    grouped(dec(count as int))
                };
            &&& holds_part(r@, "Total exits:    "@ + grouped(dec(s.total_exits as int)))
            &&& holds_part(r@, "  IO in:        "@ + share(s.io_in_exits) + "\n"@)
            &&& holds_part(r@, "  IO out:       "@ + share(s.io_out_exits) + "\n"@)
            &&& holds_part(r@, "  MMIO read:    "@ + share(s.mmio_read_exits) + "\n"@)
            &&& holds_part(r@, "  MMIO write:   "@ + share(s.mmio_write_exits) + "\n"@)
            &&& holds_part(r@, "  HLT:          "@ + share(s.hlt_exits) + "\n"@)
            &&& s.shutdown_exits > 0 ==> holds_part(
                r@,
                "  Shutdown:     "@ + share(s.shutdown_exits) + "\n"@,
            )
            &&& s.fail_entry_exits > 0 ==> holds_part(
                r@,
                "  Fail entry:   "@ + share(s.fail_entry_exits) + "\n"@,
            )
            &&& s.unknown_exits > 0 ==> holds_part(
                r@,
                "  Unknown:      "@ + share(s.unknown_exits) + "\n"@,
            )
        }),
{
    broadcast use {lemma_part_stays, lemma_tail_part, lemma_last_part, lemma_first_part};

}

/// The summary of what was moved holds what was read beside what was read, and
/// what was written beside what was written.
pub proof fn law_transfer_holds_both_sides(s: &VmmStats, r: String)
    requires
        call_ensures(VmmStats::format_transfer, (s,), r),
    ensures
        holds_part(
            r@,
            "Data transfer:\n  Bytes read:   "@ + byte_count(s.bytes_read) + " ("@ + grouped(
                dec(s.sectors_read as int),
            ),
        ),
        holds_part(
            r@,
            " sectors)\n  Bytes written: "@ + byte_count(s.bytes_written) + " ("@ + grouped(
                dec(s.sectors_written as int),
            ),
        ),
{
    broadcast use {lemma_part_stays, lemma_last_part, lemma_first_part};

    let first = "Data transfer:\n  Bytes read:   "@ + byte_count(s.bytes_read) + " ("@ + grouped(
        dec(s.sectors_read as int),
    );
    let second = " sectors)\n  Bytes written: "@ + byte_count(s.bytes_written) + " ("@ + grouped(
        dec(s.sectors_written as int),
    );
    assert(r@ =~= (first + second) + " sectors)\n"@);
}

/// The summary of efficiency divides register exits by sectors, and bytes by
/// exits, both ways of the data taken together.
pub proof fn law_efficiency_takes_both_sides(s: &VmmStats, r: String)
    requires
        s.mmio_read_exits + s.mmio_write_exits <= u64::MAX,
        s.sectors_read + s.sectors_written <= u64::MAX,
        s.bytes_read + s.bytes_written <= u64::MAX,
        call_ensures(VmmStats::format_efficiency, (s,), r),
    ensures
        ({
            let registers = s.mmio_read_exits + s.mmio_write_exits;
            let sectors = s.sectors_read + s.sectors_written;
            let bytes = s.bytes_read + s.bytes_written;
            &&& holds_part(
                r@,
                "  MMIO/sector:  "@ + tenths(ratio(registers as u64, sectors as u64, 10)),
            )
            &&& holds_part(
                r@,
                " exits/sector\n  Bytes/exit:   "@ + tenths(
                    ratio(bytes as u64, s.total_exits, 10),
                ),
            )
        }),
{
    broadcast use {lemma_part_stays, lemma_last_part, lemma_first_part};

}

/// Port exits are those in both directions, and so are register exits.
pub proof fn law_sums_take_both_directions(s: &VmmStats, io: u64, mmio: u64)
    requires
        call_ensures(VmmStats::io_exits, (s,), io),
        call_ensures(VmmStats::mmio_exits, (s,), mmio),
    ensures
        io - s.io_in_exits == s.io_out_exits,
        mmio - s.mmio_read_exits == s.mmio_write_exits,
{
}

/// A byte count below a kilobyte is given in bytes, and else in the largest
/// unit that it fills.
pub proof fn law_byte_counts_fill_their_unit(bytes: u64, r: String)
    requires
        call_ensures(VmmStats::format_bytes, (bytes,), r),
    ensures
        bytes < 0x400 ==> r@ == dec(bytes as int) + " B"@,
        0x400 <= bytes < 0x10_0000 ==> r@.skip(r@.len() - 3) == " KB"@,
        0x10_0000 <= bytes < 0x4000_0000 ==> r@.skip(r@.len() - 3) == " MB"@,
        0x4000_0000 <= bytes ==> r@.skip(r@.len() - 3) == " GB"@,
{
    reveal_strlit(" KB");
    reveal_strlit(" MB");
    reveal_strlit(" GB");
    let x = binary64(bytes as nat) * 100;
    let kb = hundredths(round_half_even(x, KIB as nat));
    let mb = hundredths(round_half_even(x, MIB as nat));
    let gb = hundredths(round_half_even(x, GIB as nat));
    assert((kb + " KB"@).skip(kb.len() as int) =~= " KB"@);
    assert((mb + " MB"@).skip(mb.len() as int) =~= " MB"@);
    assert((gb + " GB"@).skip(gb.len() as int) =~= " GB"@);
}

/// Whether one exit of a kind was counted between two states, under that kind
/// alone: 0 to 7 for port inputs and outputs, register reads and writes,
/// halts, shutdowns, failed entries and unknown exits.
pub open spec fn one_exit_counted(a: VmmStats, b: VmmStats, kind: int) -> bool {
    let one = |k: int|
        if k == kind {
            1int
        } else {
            0int
        };
    &&& b.total_exits == a.total_exits + 1
    &&& b.io_in_exits == a.io_in_exits + one(0)
    &&& b.io_out_exits == a.io_out_exits + one(1)
    &&& b.mmio_read_exits == a.mmio_read_exits + one(2)
    &&& b.mmio_write_exits == a.mmio_write_exits + one(3)
    &&& b.hlt_exits == a.hlt_exits + one(4)
    &&& b.shutdown_exits == a.shutdown_exits + one(5)
    &&& b.fail_entry_exits == a.fail_entry_exits + one(6)
    &&& b.unknown_exits == a.unknown_exits + one(7)
    &&& b.bytes_read == a.bytes_read && b.bytes_written == a.bytes_written
    &&& b.sectors_read == a.sectors_read && b.sectors_written == a.sectors_written
    &&& b.start_time == a.start_time
}

/// Port and register exits are recorded once in all and once under their own
/// kind.
pub proof fn law_accesses_are_recorded_under_their_kind(
    a: &mut VmmStats,
    b: &mut VmmStats,
    c: &mut VmmStats,
    d: &mut VmmStats,
    r: (),
)
    requires
        old(a).balanced() && old(a).total_exits < u64::MAX,
        old(b).balanced() && old(b).total_exits < u64::MAX,
        old(c).balanced() && old(c).total_exits < u64::MAX,
        old(d).balanced() && old(d).total_exits < u64::MAX,
        call_ensures(VmmStats::record_io_in, (a,), r),
        call_ensures(VmmStats::record_io_out, (b,), r),
        call_ensures(VmmStats::record_mmio_read, (c,), r),
        call_ensures(VmmStats::record_mmio_write, (d,), r),
    ensures
        one_exit_counted(*old(a), *final(a), 0),
        one_exit_counted(*old(b), *final(b), 1),
        one_exit_counted(*old(c), *final(c), 2),
        one_exit_counted(*old(d), *final(d), 3),
{
}

/// Exits that end a run are recorded once in all and once under their own
/// kind.
pub proof fn law_ends_are_recorded_under_their_kind(
    a: &mut VmmStats,
    b: &mut VmmStats,
    c: &mut VmmStats,
    d: &mut VmmStats,
    r: (),
)
    requires
        old(a).balanced() && old(a).total_exits < u64::MAX,
        old(b).balanced() && old(b).total_exits < u64::MAX,
        old(c).balanced() && old(c).total_exits < u64::MAX,
        old(d).balanced() && old(d).total_exits < u64::MAX,
        call_ensures(VmmStats::record_hlt, (a,), r),
        call_ensures(VmmStats::record_shutdown, (b,), r),
        call_ensures(VmmStats::record_fail_entry, (c,), r),
        call_ensures(VmmStats::record_unknown, (d,), r),
    ensures
        one_exit_counted(*old(a), *final(a), 4),
        one_exit_counted(*old(b), *final(b), 5),
        one_exit_counted(*old(c), *final(c), 6),
        one_exit_counted(*old(d), *final(d), 7),
{
}

/// What was moved is recorded on its side alone, bytes as bytes and sectors as
/// sectors, and is no exit.
pub proof fn law_moves_are_recorded_on_their_side(
    a: &mut VmmStats,
    b: &mut VmmStats,
    bytes: u64,
    sectors: u64,
    r: (),
)
    requires
        old(a).bytes_read + bytes <= u64::MAX,
        old(a).sectors_read + sectors <= u64::MAX,
        old(b).bytes_written + bytes <= u64::MAX,
        old(b).sectors_written + sectors <= u64::MAX,
        call_ensures(VmmStats::record_read, (a, bytes, sectors), r),
        call_ensures(VmmStats::record_write, (b, bytes, sectors), r),
    ensures
        final(a).bytes_read == old(a).bytes_read + bytes,
        final(a).sectors_read == old(a).sectors_read + sectors,
        final(a).bytes_written == old(a).bytes_written,
        final(a).sectors_written == old(a).sectors_written,
        final(b).bytes_written == old(b).bytes_written + bytes,
        final(b).sectors_written == old(b).sectors_written + sectors,
        final(b).bytes_read == old(b).bytes_read,
        final(b).sectors_read == old(b).sectors_read,
        final(a).total_exits == old(a).total_exits && final(b).total_exits == old(b).total_exits,
{
    assert(final(a).counts().bytes_read == final(a).bytes_read);
    assert(final(b).counts().bytes_read == final(b).bytes_read);
}

/// Counting starts at nothing.
pub proof fn law_counting_starts_at_nothing(r: VmmStats)
    requires
        call_ensures(VmmStats::new, (), r),
    ensures
        r.total_exits == 0,
        r.io_in_exits == 0 && r.io_out_exits == 0,
        r.mmio_read_exits == 0 && r.mmio_write_exits == 0,
        r.hlt_exits == 0 && r.shutdown_exits == 0,
        r.fail_entry_exits == 0 && r.unknown_exits == 0,
        r.bytes_read == 0 && r.bytes_written == 0,
        r.sectors_read == 0 && r.sectors_written == 0,
{
    assert(r.counts().total_exits == r.total_exits);
}

/// The rare kinds of exits have no line where none occurred.
pub proof fn law_rare_kinds_are_left_out(s: &VmmStats, r: String)
    requires
        s.shutdown_exits == 0 && s.fail_entry_exits == 0 && s.unknown_exits == 0,
        call_ensures(VmmStats::format_exits, (s,), r),
    ensures
        exists|before: Seq<char>|
            r@ == #[trigger] (before + share_line("  HLT:          "@, s.hlt_exits, s.total_exits)),
{
    let t = s.total_exits;
    let before = "Total exits:    "@ + grouped(dec(t as int)) + "\n"@
        + share_line("  IO in:        "@, s.io_in_exits, t)
        + share_line("  IO out:       "@, s.io_out_exits, t)
        + share_line("  MMIO read:    "@, s.mmio_read_exits, t)
        + share_line("  MMIO write:   "@, s.mmio_write_exits, t);
    assert(r@ =~= before + share_line("  HLT:          "@, s.hlt_exits, t));
}

/// Separators stand before each three digits from the end, and a number of
/// three digits or fewer has none.
pub proof fn law_separators_stand_before_three_digits(n: u64, r: String)
    requires
        call_ensures(VmmStats::format_number, (n,), r),
    ensures
        ({
            let digits = dec(n as int);
            let k = digits.len();
            &&& k <= 3 ==> r@ == digits
            &&& k > 3 ==> r@ == grouped(digits.take(k - 3)) + (seq![','] + digits.skip(k - 3))
        }),
{
    reveal_strlit(",");
    assert(","@ =~= seq![',']);
    let digits = dec(n as int);
    let k = digits.len();
    if k > 3 {
        assert(r@ =~= grouped(digits.take(k - 3)) + (seq![','] + digits.skip(k - 3)));
    }
}

} // verus!
