//! The serial line to a guest: frames coming in, the configuration going out,
//! and the lines of the debug port.
use vstd::prelude::*;
use vstd::string::*;
use vstd::utf8::{encode_scalar, encode_utf8};
use crate::text::byte_len;
use std::collections::VecDeque;

verus! {

// ---------------------------------------------------------------------------
// Incoming frames
// ---------------------------------------------------------------------------

/// A buffer of bytes from the guest. A frame is a header, whose first two
/// bytes give the length of the message, and the message.
#[derive(Debug)]
pub struct SerialDecoder {
    pub buffer: VecDeque<u8>,
    pub header_size: usize,
    pub max_message_size: usize,
}

/// The length of the frame that a buffer starts with.
pub open spec fn frame_len(header_size: usize, b: Seq<u8>) -> int {
    header_size + b[0] + 256 * b[1]
}

impl SerialDecoder {
    /// The longest frame that is waited for.
    pub open spec fn limit(self) -> int {
        self.header_size + self.max_message_size + 256
    }

    /// The header holds the length, and the buffer is within its limit.
    pub open spec fn wf(self) -> bool {
        &&& 2 <= self.header_size
        &&& self.limit() <= usize::MAX - 0x1_0000
        &&& self.buffer@.len() < self.limit()
    }

    /// What a byte makes of the buffer: it is appended, and where the buffer
    /// then starts with a length that no message has, its first byte is lost.
    pub open spec fn received(self, byte: u8) -> Seq<u8> {
        let b = self.buffer@.push(byte);
        if b.len() >= self.header_size && frame_len(self.header_size, b) > self.limit() {
            b.drop_first()
        } else {
            b
        }
    }

    /// Whether a byte completes a frame.
    pub open spec fn completes(self, byte: u8) -> bool {
        let b = self.buffer@.push(byte);
        b.len() >= self.header_size && b.len() >= frame_len(self.header_size, b) && frame_len(
            self.header_size,
            b,
        ) <= self.limit()
    }

    /// An empty buffer for frames of the given header and message sizes.
    pub fn new(header_size: usize, max_message_size: usize) -> (r: Self)
        requires
            2 <= header_size,
            header_size + max_message_size + 256 <= usize::MAX - 0x1_0000,
        ensures
            r.wf(),
            r.buffer@ == Seq::<u8>::empty(),
            r.header_size == header_size,
            r.max_message_size == max_message_size,
    {
        SerialDecoder { buffer: VecDeque::new(), header_size, max_message_size }
    }

    /// Takes a byte. Where it returns `true` a frame may be decoded from the
    /// start of the buffer; `settle` is then owed before the next byte.
    pub fn add_byte(&mut self, byte: u8) -> (ready: bool)
        requires
            old(self).wf(),
        ensures
            final(self).buffer@ == old(self).received(byte),
            final(self).header_size == old(self).header_size,
            final(self).max_message_size == old(self).max_message_size,
            ready == old(self).completes(byte),
            ready ==> 0 < final(self).buffer@.len() <= final(self).limit(),
            !ready ==> final(self).wf(),
    {
        self.buffer.push_back(byte);
        if self.buffer.len() < self.header_size {
            return false;
        }
        let total: usize = self.header_size + self.buffer[0] as usize + 256 * (
        self.buffer[1] as usize);
        if total > self.header_size + self.max_message_size + 256 {
            let ghost b = self.buffer@;
            let _ = self.buffer.pop_front();
            assert(self.buffer@ =~= b.drop_first());
            return false;
        }
        self.buffer.len() >= total
    }

    /// Takes the outcome of decoding the buffer's start: the number of bytes a
    /// message was decoded from, or nothing where there was none.
    pub fn settle(&mut self, decoded: Option<usize>)
        requires
            2 <= old(self).header_size,
            old(self).limit() <= usize::MAX - 0x1_0000,
            0 < old(self).buffer@.len() <= old(self).limit(),
            decoded is Some ==> 0 < decoded->0 <= old(self).buffer@.len(),
        ensures
            final(self).wf(),
            final(self).buffer@ == match decoded {
                Some(n) => old(self).buffer@.skip(n as int),
                None => old(self).buffer@.drop_first(),
            },
            final(self).header_size == old(self).header_size,
            final(self).max_message_size == old(self).max_message_size,
    {
        let n: usize = match decoded {
            Some(n) => n,
            None => 1,
        };
        let ghost b = self.buffer@;
        let rest = self.buffer.split_off(n);
        self.buffer = rest;
        assert(self.buffer@ =~= b.skip(n as int));
        assert(b.skip(1) =~= b.drop_first());
    }
}

// ---------------------------------------------------------------------------
// Outgoing configuration
// ---------------------------------------------------------------------------

/// The bytes the guest has yet to read.
#[derive(Debug)]
pub struct SerialTransmitter {
    pub buffer: Vec<u8>,
    pub position: usize,
}

impl SerialTransmitter {
    /// The position lies in the buffer or at its end.
    pub open spec fn wf(self) -> bool {
        self.position <= self.buffer@.len()
    }

    /// The bytes that are still to come.
    pub open spec fn remaining(self) -> Seq<u8> {
        self.buffer@.skip(self.position as int)
    }

    /// Nothing to transmit.
    pub fn new() -> (r: Self)
        ensures
            r.wf(),
            r.remaining() == Seq::<u8>::empty(),
    {
        SerialTransmitter { buffer: Vec::new(), position: 0 }
    }

    /// Queues an encoded configuration in place of what was left; where it
    /// could not be encoded, nothing changes.
    pub fn queue_config(&mut self, encoded: Option<Vec<u8>>)
        requires
            old(self).wf(),
        ensures
            final(self).wf(),
            final(self).remaining() == match encoded {
                Some(b) => b@,
                None => old(self).remaining(),
            },
    {
        match encoded {
            Some(b) => {
                self.buffer = b;
                self.position = 0;
                assert(self.buffer@.skip(0) =~= self.buffer@);
            },
            None => {},
        }
    }

    /// The next byte, if one is left.
    pub fn next_byte(&mut self) -> (r: Option<u8>)
        requires
            old(self).wf(),
        ensures
            final(self).wf(),
            match r {
                Some(b) => old(self).remaining().len() > 0 && b == old(self).remaining()[0]
                    && final(self).remaining() == old(self).remaining().skip(1),
                None => old(self).remaining().len() == 0 && final(self).remaining() == old(
                    self,
                ).remaining(),
            },
    {
        if self.position < self.buffer.len() {
            let b: u8 = self.buffer[self.position];
            let ghost before = self.remaining();
            self.position = self.position + 1;
            assert(self.remaining() =~= before.skip(1));
            Some(b)
        } else {
            None
        }
    }

    /// Whether a byte is left.
    pub fn has_data(&self) -> (r: bool)
        requires
            self.wf(),
        ensures
            r == (self.remaining().len() > 0),
    {
        self.position < self.buffer.len()
    }
}

// ---------------------------------------------------------------------------
// Debug lines
// ---------------------------------------------------------------------------

/// The length in bytes at which a debug line is cut.
pub const MAX_DEBUG_LINE: usize = 4096;

/// A debug line of which the end has not come yet.
#[derive(Debug)]
pub struct DebugBuffer {
    pub line: String,
}

/// The width of a character in UTF-8, behind a text.
pub proof fn lemma_byte_len_push(s: Seq<char>, c: char)
    ensures
        byte_len(s.push(c)) == byte_len(s) + encode_scalar(c as u32).len(),
    decreases s.len(),
{
    let t = s.push(c);
    if s.len() == 0 {
        assert(t.drop_first() =~= Seq::<char>::empty());
        reveal_with_fuel(encode_utf8, 2);
    } else {
        assert(t.drop_first() =~= s.drop_first().push(c));
        lemma_byte_len_push(s.drop_first(), c);
    }
}

impl DebugBuffer {
    /// The line is no longer than one byte past its limit.
    pub open spec fn wf(self) -> bool {
        byte_len(self.line@) <= MAX_DEBUG_LINE + 1
    }

    /// Whether a byte ends the line: a newline does, and any byte where the
    /// line has reached its limit.
    pub open spec fn ends(self, byte: u8) -> bool {
        byte == 10 || byte_len(self.line@) >= MAX_DEBUG_LINE
    }

    /// No line begun.
    pub fn new() -> (r: Self)
        ensures
            r.wf(),
            r.line@ == Seq::<char>::empty(),
    {
        DebugBuffer { line: String::new() }
    }

    /// Takes a byte; gives the line that it ends, without a newline.
    pub fn add_byte(&mut self, byte: u8) -> (r: Option<String>)
        requires
            old(self).wf(),
        ensures
            final(self).wf(),
            match r {
                Some(t) => {
                    &&& old(self).ends(byte)
                    &&& t@ == if byte == 10 {
                        old(self).line@
                    } else {
                        old(self).line@.push(byte as char)
                    }
                    &&& final(self).line@ == Seq::<char>::empty()
                },
                None => {
                    &&& !old(self).ends(byte)
                    &&& final(self).line@ == old(self).line@.push(byte as char)
                },
            },
    {
        let full: bool = self.line.as_str().as_bytes().len() >= MAX_DEBUG_LINE;
        if byte == 10 || full {
            if byte != 10 {
                self.line.push(byte as char);
            }
            let mut out = String::new();
            std::mem::swap(&mut out, &mut self.line);
            Some(out)
        } else {
            proof {
                lemma_byte_len_push(self.line@, byte as char);
            }
            self.line.push(byte as char);
            None
        }
    }
}

// ---------------------------------------------------------------------------
// Laws
// ---------------------------------------------------------------------------

/// The bytes of a frame gather one by one behind each other, none of them is
/// lost, and none but the last completes the frame.
pub proof fn law_frame_arrives_whole(decoder: SerialDecoder, frame: Seq<u8>, i: int)
    requires
        2 <= decoder.header_size,
        frame.len() == frame_len(decoder.header_size, frame),
        frame.len() <= decoder.limit(),
        0 <= i < frame.len(),
        decoder.buffer@ == frame.take(i),
    ensures
        decoder.received(frame[i]) == frame.take(i + 1),
        decoder.completes(frame[i]) == (i + 1 == frame.len()),
{
    let b = decoder.buffer@.push(frame[i]);
    assert(b =~= frame.take(i + 1));
    if b.len() >= decoder.header_size {
        assert(b[0] == frame[0] && b[1] == frame[1]);
    }
}

/// A frame is ready exactly where its header says that it is whole: as many
/// bytes as the header itself and the message, whose length the first two
/// bytes give, lowest first.
pub proof fn law_frame_is_ready_when_whole(decoder: &mut SerialDecoder, byte: u8, ready: bool)
    requires
        call_ensures(SerialDecoder::add_byte, (decoder, byte), ready),
    ensures
        ({
            let all = old(decoder).buffer@.push(byte);
            let whole = old(decoder).header_size + all[0] + 256 * all[1];
            let most = old(decoder).header_size + old(decoder).max_message_size + 256;
            &&& ready <==> all.len() >= old(decoder).header_size && whole <= all.len() && whole
                <= most
            &&& ready ==> final(decoder).buffer@ == all
            &&& all.len() < old(decoder).header_size || whole <= most ==> final(decoder).buffer@
                == all
            &&& all.len() >= old(decoder).header_size && whole > most ==> final(decoder).buffer@
                == all.drop_first()
        }),
{
}

/// What was decoded leaves the buffer and what follows it stays; where nothing
/// was, one byte is given up.
pub proof fn law_decoded_bytes_leave_the_buffer(
    decoder: &mut SerialDecoder,
    decoded: Option<usize>,
    r: (),
)
    requires
        call_ensures(SerialDecoder::settle, (decoder, decoded), r),
        old(decoder).buffer@.len() > 0,
        decoded is Some ==> decoded->0 <= old(decoder).buffer@.len(),
    ensures
        decoded is Some ==> old(decoder).buffer@.take(decoded->0 as int) + final(decoder).buffer@
            == old(decoder).buffer@,
        decoded is None ==> seq![old(decoder).buffer@[0]] + final(decoder).buffer@
            == old(decoder).buffer@,
{
    if decoded is Some {
        let n = decoded->0 as int;
        assert(old(decoder).buffer@.take(n) + old(decoder).buffer@.skip(n)
            =~= old(decoder).buffer@);
    } else {
        assert(seq![old(decoder).buffer@[0]] + old(decoder).buffer@.drop_first()
            =~= old(decoder).buffer@);
    }
}

/// A configuration that is queued is read byte by byte from its start, and
/// there is data exactly as long as a byte is left.
pub proof fn law_bytes_leave_in_order(
    transmitter: &mut SerialTransmitter,
    before: &SerialTransmitter,
    has: bool,
    r: Option<u8>,
)
    requires
        *before == *old(transmitter),
        call_ensures(SerialTransmitter::has_data, (before,), has),
        call_ensures(SerialTransmitter::next_byte, (transmitter,), r),
    ensures
        has <==> r is Some,
        r matches Some(b) ==> seq![b] + final(transmitter).remaining() == old(
            transmitter,
        ).remaining(),
        r is None ==> final(transmitter).remaining().len() == 0,
{
    let queue = old(transmitter).remaining();
    if queue.len() > 0 {
        assert(seq![queue[0]] + queue.skip(1) =~= queue);
    }
}

/// A configuration takes the place of what was left; where there is none,
/// nothing changes.
pub proof fn law_new_configuration_takes_the_place(
    transmitter: &mut SerialTransmitter,
    encoded: Option<Vec<u8>>,
    r: (),
)
    requires
        call_ensures(SerialTransmitter::queue_config, (transmitter, encoded), r),
    ensures
        encoded is Some ==> final(transmitter).remaining() == encoded->0@,
        encoded is None ==> final(transmitter).remaining() == old(transmitter).remaining(),
{
}

/// A newline ends a debug line and is no part of it; any other byte is added
/// to it, and ends it only where it has 4096 bytes already.
pub proof fn law_newline_ends_a_debug_line(debug: &mut DebugBuffer, byte: u8, r: Option<String>)
    requires
        call_ensures(DebugBuffer::add_byte, (debug, byte), r),
    ensures
        byte == 10 ==> r is Some && r->0@ == old(debug).line@ && final(debug).line@.len() == 0,
        byte != 10 && byte_len(old(debug).line@) < 4096 ==> r is None && final(debug).line@ == old(
            debug,
        ).line@.push(byte as char),
        byte != 10 && byte_len(old(debug).line@) >= 4096 ==> r is Some && r->0@ == old(
            debug,
        ).line@.push(byte as char) && final(debug).line@.len() == 0,
{
}

/// A decoder starts empty, with the sizes of header and message that it is
/// given.
pub proof fn law_decoder_starts_empty(header_size: usize, max_message_size: usize, r: SerialDecoder)
    requires
        call_ensures(SerialDecoder::new, (header_size, max_message_size), r),
    ensures
        r.buffer@.len() == 0,
        r.header_size == header_size,
        r.max_message_size == max_message_size,
{
}

} // verus!
