//! Preallocation of file space: what each mode asks for, and how a range is
//! filled with zeros where the file system cannot do it at once.
use vstd::prelude::*;
use crate::options::lemma_modes_differ;
use crate::text::same;

verus! {

/// The errors by which a file system says that it cannot zero a range.
pub const EOPNOTSUPP: i32 = 95;

pub const ENOSYS: i32 = 38;

pub const EINVAL: i32 = 22;

/// How many zeros one write holds at most.
pub const ZERO_CHUNK: u64 = 65536;

/// What a preallocation mode asks of a range of a file.
#[derive(Debug, Clone, Copy, PartialEq, Eq, Structural)]
pub enum Preallocation {
    Nothing,
    /// Reserve the space.
    Reserve { offset: u64, length: u64 },
    /// Write zeros.
    Zero { offset: u64, length: u64 },
}

/// What a mode asks of a range.
pub open spec fn asked(mode: Seq<char>, offset: u64, length: u64) -> Preallocation {
    if mode == "falloc"@ {
        Preallocation::Reserve { offset, length }
    } else if mode == "full"@ {
        Preallocation::Zero { offset, length }
    } else {
        Preallocation::Nothing
    }
}

/// What a mode asks of a range that may be empty: of an empty one nothing.
pub open spec fn asked_of_data(mode: Seq<char>, offset: u64, length: u64) -> Preallocation {
    if length == 0 {
        Preallocation::Nothing
    } else {
        asked(mode, offset, length)
    }
}

/// Decides what to do with a file of which the whole is preallocated.
pub fn preallocate_file(mode: &str, length: u64) -> (r: Preallocation)
    ensures
        r == asked(mode@, 0, length),
{
    preallocate(mode, 0, length)
}

fn preallocate(mode: &str, offset: u64, length: u64) -> (r: Preallocation)
    ensures
        r == asked(mode@, offset, length),
{
    if same(mode, "falloc") {
        Preallocation::Reserve { offset, length }
    } else if same(mode, "full") {
        Preallocation::Zero { offset, length }
    } else {
        Preallocation::Nothing
    }
}

/// Decides what to do with the data region of an image.
pub fn apply_preallocation(mode: &str, data_offset: u64, data_len: u64) -> (r: Preallocation)
    ensures
        r == asked_of_data(mode@, data_offset, data_len),
{
    if data_len == 0 {
        return Preallocation::Nothing;
    }
    preallocate(mode, data_offset, data_len)
}

/// The error of a preallocation that failed.
pub open spec fn preallocation_failure(op: Seq<char>, zeroing: bool, cause: Seq<char>) -> Seq<
    char,
> {
    if zeroing {
        op + ": zero-fill failed: "@ + cause
    } else {
        op + ": posix_fallocate failed: "@ + cause
    }
}

/// Says that a preallocation failed.
pub fn preallocation_error(op: &str, zeroing: bool, cause: &str) -> (r: String)
    ensures
        r@ == preallocation_failure(op@, zeroing, cause@),
{
    let mut s = op.to_owned();
    if zeroing {
        s.append(": zero-fill failed: ");
    } else {
        s.append(": posix_fallocate failed: ");
    }
    s.append(cause);
    s
}

// ---------------------------------------------------------------------------
// Filling a range with zeros
// ---------------------------------------------------------------------------

/// How far a fill has come.
#[derive(Debug, Clone, Copy, PartialEq, Eq, Structural)]
pub enum FillPhase {
    /// The file system has not been asked yet.
    Ask,
    /// It could not; zeros are written.
    Write,
    /// The range is zero.
    Done,
}

/// What a fill does next.
#[derive(Debug, Clone, Copy, PartialEq, Eq, Structural)]
pub enum FillStep {
    Done,
    /// Ask the file system to zero the range.
    ZeroRange { offset: u64, length: u64 },
    /// Write that many zeros at that place.
    WriteZeros { offset: u64, length: u64 },
}

/// Why a fill stops with an error.
#[derive(Debug, Clone, Copy, PartialEq, Eq, Structural)]
pub enum FillError {
    /// The call failed; the number is the system's, where it gave one.
    System(Option<i32>),
    /// A write wrote nothing.
    WroteNothing,
}

/// A range that is being filled with zeros.
#[derive(Debug, Clone, Copy, PartialEq, Eq, Structural)]
pub struct ZeroFill {
    pub offset: u64,
    pub length: u64,
    pub written: u64,
    pub phase: FillPhase,
}

/// Whether an error says that the file system cannot zero a range.
pub open spec fn means_unsupported(error: Option<i32>) -> bool {
    error == Some(EOPNOTSUPP) || error == Some(ENOSYS) || error == Some(EINVAL)
}

impl ZeroFill {
    /// The range is a range of a file, and no more of it was written than
    /// there is.
    pub open spec fn wf(self) -> bool {
        &&& self.offset + self.length <= u64::MAX
        &&& self.written <= self.length
        &&& self.phase == FillPhase::Ask ==> self.written == 0 && self.length > 0
        &&& self.phase == FillPhase::Write ==> self.written < self.length
        &&& self.phase == FillPhase::Done ==> self.written == 0 || self.written == self.length
    }

    /// Starts a fill. An empty range is done at once.
    pub fn new(offset: u64, length: u64) -> (r: Self)
        requires
            offset + length <= u64::MAX,
        ensures
            r.wf(),
            r.offset == offset,
            r.length == length,
            r.written == 0,
            r.phase == if length == 0 {
                FillPhase::Done
            } else {
                FillPhase::Ask
            },
    {
        ZeroFill {
            offset,
            length,
            written: 0,
            phase: if length == 0 {
                FillPhase::Done
            } else {
                FillPhase::Ask
            },
        }
    }

    /// What to do next: writes go on where the last one ended, and stay in the
    /// range.
    pub fn next(&self) -> (r: FillStep)
        requires
            self.wf(),
        ensures
            r == match self.phase {
                FillPhase::Done => FillStep::Done,
                FillPhase::Ask => FillStep::ZeroRange { offset: self.offset, length: self.length },
                FillPhase::Write => FillStep::WriteZeros {
                    offset: (self.offset + self.written) as u64,
                    length: if self.length - self.written <= ZERO_CHUNK {
                        (self.length - self.written) as u64
                    } else {
                        ZERO_CHUNK
                    },
                },
            },
            r matches FillStep::WriteZeros { offset, length } ==> length > 0 && offset + length
                <= self.offset + self.length,
    {
        match self.phase {
            FillPhase::Done => FillStep::Done,
            FillPhase::Ask => FillStep::ZeroRange { offset: self.offset, length: self.length },
            FillPhase::Write => {
                let remaining: u64 = self.length - self.written;
                FillStep::WriteZeros {
                    offset: self.offset + self.written,
                    length: if remaining <= ZERO_CHUNK {
                        remaining
                    } else {
                        ZERO_CHUNK
                    },
                }
            },
        }
    }

    /// Takes the file system's answer. Where it cannot zero a range, zeros are
    /// written; any other error ends the fill.
    pub fn asked(&mut self, answer: Result<(), Option<i32>>) -> (r: Result<(), FillError>)
        requires
            old(self).wf(),
            old(self).phase == FillPhase::Ask,
        ensures
            final(self).wf(),
            final(self).offset == old(self).offset,
            final(self).length == old(self).length,
            final(self).written == 0,
            match answer {
                Ok(()) => r is Ok && final(self).phase == FillPhase::Done,
                Err(e) => if means_unsupported(e) {
                    r is Ok && final(self).phase == FillPhase::Write
                } else {
                    r == Err::<(), FillError>(FillError::System(e)) && final(self).phase
                        == FillPhase::Ask
                },
            },
    {
        match answer {
            Ok(()) => {
                self.phase = FillPhase::Done;
                Ok(())
            },
            Err(e) => {
                let unsupported = match e {
                    Some(n) => n == EOPNOTSUPP || n == ENOSYS || n == EINVAL,
                    None => false,
                };
                if unsupported {
                    self.phase = FillPhase::Write;
                    Ok(())
                } else {
                    Err(FillError::System(e))
                }
            },
        }
    }

    /// Takes what a write came to: the number of bytes, or the system's error.
    pub fn wrote(&mut self, answer: Result<u64, Option<i32>>) -> (r: Result<(), FillError>)
        requires
            old(self).wf(),
            old(self).phase == FillPhase::Write,
            answer matches Ok(n) ==> n <= old(self).length - old(self).written,
        ensures
            final(self).wf(),
            final(self).offset == old(self).offset,
            final(self).length == old(self).length,
            match answer {
                Ok(n) => if n == 0 {
                    r == Err::<(), FillError>(FillError::WroteNothing) && *final(self) == *old(self)
                } else {
                    r is Ok && *final(self) == after_writes(*old(self), seq![n])
                },
                Err(e) => r == Err::<(), FillError>(FillError::System(e)) && *final(self) == *old(
                    self,
                ),
            },
    {
        match answer {
            Ok(n) => {
                if n == 0 {
                    return Err(FillError::WroteNothing);
                }
                proof {
                    assert(seq![n].drop_last() =~= Seq::<u64>::empty());
                    assert(bytes_written(seq![n]) == n) by {
                        reveal_with_fuel(bytes_written, 2);
                    }
                }
                self.written = self.written + n;
                if self.written == self.length {
                    self.phase = FillPhase::Done;
                }
                Ok(())
            },
            Err(e) => Err(FillError::System(e)),
        }
    }
}

/// The text of an error that has no number of the system.
pub fn wrote_nothing_message() -> (r: &'static str)
    ensures
        r@ == "pwrite returned 0 during zero-fill"@,
{
    "pwrite returned 0 during zero-fill"
}

/// The bytes that a run of writes wrote.
pub open spec fn bytes_written(counts: Seq<u64>) -> int
    decreases counts.len(),
{
    if counts.len() == 0 {
        0
    } else {
        bytes_written(counts.drop_last()) + counts.last()
    }
}

/// The state of a fill after a run of writes that each wrote something.
pub open spec fn after_writes(fill: ZeroFill, counts: Seq<u64>) -> ZeroFill {
    let written = fill.written + bytes_written(counts);
    ZeroFill {
        written: written as u64,
        phase: if written == fill.length {
            FillPhase::Done
        } else {
            FillPhase::Write
        },
        ..fill
    }
}

/// Where the write `i` of a run begins.
pub open spec fn write_start(fill: ZeroFill, counts: Seq<u64>, i: int) -> int {
    fill.offset + fill.written + bytes_written(counts.take(i))
}

/// Whether the write `i` of a run holds a byte of the file.
pub open spec fn write_holds(fill: ZeroFill, counts: Seq<u64>, i: int, at: int) -> bool {
    0 <= i < counts.len() && write_start(fill, counts, i) <= at < write_start(fill, counts, i)
        + counts[i]
}

/// However the writes of a fill are cut, a fill that they complete has zeroed
/// its range, all of it and nothing else.
pub proof fn law_writes_cover_the_range(fill: ZeroFill, counts: Seq<u64>, at: int)
    requires
        fill.wf(),
        fill.phase == FillPhase::Write,
        fill.written == 0,
        after_writes(fill, counts).phase == FillPhase::Done,
    ensures
        (exists|i: int| #[trigger] write_holds(fill, counts, i, at)) <==> fill.offset <= at
            < fill.offset + fill.length,
{
    if fill.offset <= at < fill.offset + fill.length {
        lemma_some_write_holds(fill, counts, at);
    }
    if exists|i: int| #[trigger] write_holds(fill, counts, i, at) {
        let i = choose|i: int| #[trigger] write_holds(fill, counts, i, at);
        lemma_bytes_written(counts, i);
        lemma_bytes_written(counts, i + 1);
        assert(counts.take(i + 1).drop_last() =~= counts.take(i));
    }
}

proof fn lemma_bytes_written(counts: Seq<u64>, i: int)
    requires
        0 <= i <= counts.len(),
    ensures
        0 <= bytes_written(counts.take(i)) <= bytes_written(counts),
    decreases counts.len(),
{
    if i == counts.len() {
        assert(counts.take(i) =~= counts);
        if i > 0 {
            lemma_bytes_written(counts.drop_last(), 0);
            assert(counts.drop_last().take(0) =~= Seq::<u64>::empty());
        }
    } else {
        assert(counts.drop_last().take(i) =~= counts.take(i));
        lemma_bytes_written(counts.drop_last(), i);
    }
}

proof fn lemma_some_write_holds(fill: ZeroFill, counts: Seq<u64>, at: int)
    requires
        fill.offset + fill.written <= at < fill.offset + fill.written + bytes_written(counts),
    ensures
        exists|i: int| #[trigger] write_holds(fill, counts, i, at),
    decreases counts.len(),
{
    let shorter = counts.drop_last();
    let last = counts.len() - 1;
    assert(counts.take(last) =~= shorter);
    if at < fill.offset + fill.written + bytes_written(shorter) {
        lemma_some_write_holds(fill, shorter, at);
        let i = choose|i: int| #[trigger] write_holds(fill, shorter, i, at);
        assert(shorter.take(i) =~= counts.take(i));
        assert(write_holds(fill, counts, i, at));
    } else {
        assert(write_holds(fill, counts, last, at));
    }
}

/// Space is reserved for `falloc`, zeros are written for `full`, and nothing
/// is done in other modes: in a file over its whole length, in a data region
/// over that region, and of an empty one nothing.
pub proof fn law_mode_decides_what_is_done(
    mode: &str,
    offset: u64,
    length: u64,
    file: Preallocation,
    data: Preallocation,
)
    requires
        call_ensures(preallocate_file, (mode, length), file),
        call_ensures(apply_preallocation, (mode, offset, length), data),
    ensures
        mode@ == "falloc"@ ==> file == (Preallocation::Reserve { offset: 0, length }),
        mode@ == "full"@ ==> file == (Preallocation::Zero { offset: 0, length }),
        mode@ != "falloc"@ && mode@ != "full"@ ==> file is Nothing && data is Nothing,
        length > 0 && mode@ == "falloc"@ ==> data == (Preallocation::Reserve { offset, length }),
        length > 0 && mode@ == "full"@ ==> data == (Preallocation::Zero { offset, length }),
        length == 0 ==> data is Nothing,
{
    lemma_modes_differ();
}

/// A fill asks the file system first, for the whole range; it writes zeros
/// only where the file system says that it cannot, always behind what was
/// written and never more than 64 kilobytes at once.
pub proof fn law_fill_goes_on_where_it_stopped(fill: &ZeroFill, r: FillStep)
    requires
        fill.wf(),
        call_ensures(ZeroFill::next, (fill,), r),
    ensures
        r is Done <==> fill.phase == FillPhase::Done,
        fill.phase == FillPhase::Ask ==> r == (FillStep::ZeroRange {
            offset: fill.offset,
            length: fill.length,
        }),
        fill.phase == FillPhase::Write ==> (r matches FillStep::WriteZeros { offset, length }
            && offset == fill.offset + fill.written && 0 < length <= 0x1_0000 && offset + length
            <= fill.offset + fill.length && (length == 0x1_0000 || offset + length == fill.offset
            + fill.length)),
{
}

/// A fill is done where the file system zeroed the range; zeros are written
/// where it says that it cannot, by one of three errors; any other error ends
/// the fill.
pub proof fn law_zeros_are_written_where_they_must(
    fill: &mut ZeroFill,
    answer: Result<(), Option<i32>>,
    r: Result<(), FillError>,
)
    requires
        call_ensures(ZeroFill::asked, (fill, answer), r),
    ensures
        answer is Ok ==> r is Ok && final(fill).phase == FillPhase::Done,
        answer is Err ==> {
            let unsupported = answer->Err_0 == Some(95i32) || answer->Err_0 == Some(38i32)
                || answer->Err_0 == Some(22i32);
            &&& r is Ok <==> unsupported
            &&& unsupported ==> final(fill).phase == FillPhase::Write
            &&& !unsupported ==> r->Err_0 == FillError::System(answer->Err_0)
        },
        final(fill).offset == old(fill).offset && final(fill).length == old(fill).length,
{
}

/// What a write wrote is added to what was written; the fill is done when that
/// is the whole range; a write that writes nothing or fails ends it.
pub proof fn law_writes_add_up(
    fill: &mut ZeroFill,
    answer: Result<u64, Option<i32>>,
    r: Result<(), FillError>,
)
    requires
        old(fill).wf(),
        answer matches Ok(n) ==> n <= old(fill).length - old(fill).written,
        call_ensures(ZeroFill::wrote, (fill, answer), r),
    ensures
        r is Ok <==> answer is Ok && answer->Ok_0 > 0,
        r is Ok ==> final(fill).written == old(fill).written + answer->Ok_0,
        r is Ok ==> (final(fill).phase == FillPhase::Done <==> final(fill).written == old(
            fill,
        ).length),
        r is Err ==> *final(fill) == *old(fill),
        answer is Err ==> r->Err_0 == FillError::System(answer->Err_0),
        answer is Ok && answer->Ok_0 == 0 ==> r->Err_0 == FillError::WroteNothing,
{
    if answer is Ok {
        let counts = seq![answer->Ok_0];
        reveal_with_fuel(bytes_written, 2);
        assert(bytes_written(counts) == answer->Ok_0);
    }
}

/// An empty range needs no fill, and any other is asked for first.
pub proof fn law_fill_starts_by_asking(offset: u64, length: u64, r: ZeroFill)
    requires
        call_ensures(ZeroFill::new, (offset, length), r),
    ensures
        r.offset == offset && r.length == length && r.written == 0,
        r.phase == FillPhase::Done <==> length == 0,
        r.phase == FillPhase::Ask <==> length > 0,
{
}

/// A failure says which of the two it was that failed, for which operation and
/// why.
pub proof fn law_failure_says_what_failed(op: &str, cause: &str, zeroing: String, reserving: String)
    requires
        call_ensures(preallocation_error, (op, true, cause), zeroing),
        call_ensures(preallocation_error, (op, false, cause), reserving),
    ensures
        zeroing@ == op@ + ": zero-fill failed: "@ + cause@,
        reserving@ == op@ + ": posix_fallocate failed: "@ + cause@,
{
}

} // verus!
