//! Incremental framing of a raw byte stream into complete MIDI messages.
//!
//! The framer accumulates bytes since the last message boundary.  Each
//! incoming byte either completes a message, is kept while more bytes are
//! awaited, or reveals that the buffer cannot form any legal message, in
//! which case the whole buffer is discarded and the framer resynchronizes on
//! the next byte.  A status byte arriving before the previous message
//! legally completes is treated as a protocol violation (no running-status
//! carry-over) and likewise triggers resynchronization.

use vstd::prelude::*;

use crate::message::{
    MidiMessage,
    MsgView,
    fixed_len,
    fixed_length,
    is_complete_frame,
    is_data_byte,
    is_fixed_frame,
    is_status_byte,
    is_sysex_frame,
};

verus! {

/// The accumulation buffer is always a proper prefix of some legal message:
/// empty, or an unterminated system-exclusive block, or a fixed-length
/// message still missing data bytes.
pub open spec fn buf_wf(buf: Seq<u8>) -> bool {
    buf.len() == 0 || {
        &&& is_status_byte(buf[0])
        &&& forall|i: int| 1 <= i < buf.len() ==> is_data_byte(#[trigger] buf[i])
        &&& (buf[0] == 0xF0 || buf.len() < fixed_len(buf[0]))
    }
}

/// Feeding `b` completes a message exactly when the grown buffer is a
/// complete frame.
pub open spec fn feed_completes(buf: Seq<u8>, b: u8) -> bool {
    is_complete_frame(buf.push(b))
}

/// Feeding `b` reveals that the buffer cannot form any legal message: a
/// stray data byte, a status byte on which no message starts, or a status
/// byte arriving before the previous message legally completed.
pub open spec fn feed_invalidates(buf: Seq<u8>, b: u8) -> bool {
    if buf.len() == 0 {
        !is_status_byte(b) || (b != 0xF0 && fixed_len(b) == 0)
    } else if buf[0] == 0xF0 {
        is_status_byte(b) && b != 0xF7
    } else {
        is_status_byte(b)
    }
}

/// The buffer after feeding `b`: cleared on a complete message and on
/// invalid input, grown by `b` while more bytes are awaited.
pub open spec fn feed_buf_after(buf: Seq<u8>, b: u8) -> Seq<u8> {
    if feed_completes(buf, b) || feed_invalidates(buf, b) {
        Seq::empty()
    } else {
        buf.push(b)
    }
}

/// A complete frame that parses as a control change.
pub open spec fn is_cc_frame(f: Seq<u8>) -> bool {
    f.len() == 3 && 0xB0 <= f[0] < 0xC0
}

/// A complete frame that parses as a program change.
pub open spec fn is_pc_frame(f: Seq<u8>) -> bool {
    f.len() == 2 && 0xC0 <= f[0] < 0xD0
}

/// The frames completed while feeding `input` byte by byte into a framer
/// whose buffer holds `buf`.
pub open spec fn frames_of_run(buf: Seq<u8>, input: Seq<u8>) -> Seq<Seq<u8>>
    decreases input.len(),
{
    if input.len() == 0 {
        Seq::empty()
    } else {
        let b = input[0];
        let emitted: Seq<Seq<u8>> = if feed_completes(buf, b) {
            seq![buf.push(b)]
        } else {
            Seq::empty()
        };
        emitted + frames_of_run(feed_buf_after(buf, b), input.drop_first())
    }
}

/// The buffer left after feeding `input` byte by byte.
pub open spec fn buf_of_run(buf: Seq<u8>, input: Seq<u8>) -> Seq<u8>
    decreases input.len(),
{
    if input.len() == 0 {
        buf
    } else {
        buf_of_run(feed_buf_after(buf, input[0]), input.drop_first())
    }
}

/// Law: a framer with an empty buffer, fed one complete frame byte by
/// byte, completes exactly that frame, once, and ends with an empty buffer.
pub proof fn lemma_complete_frame_parses(f: Seq<u8>)
    requires
        is_complete_frame(f),
    ensures
        frames_of_run(Seq::empty(), f) == seq![f],
        buf_of_run(Seq::empty(), f) == Seq::<u8>::empty(),
{
    assert(f.take(0) =~= Seq::<u8>::empty());
    assert(f.skip(0) =~= f);
    lemma_run_from_prefix(f, 0);
}

/// Feeding the rest of a complete frame onto the proper prefix already
/// buffered completes the frame at its last byte and nothing earlier.
proof fn lemma_run_from_prefix(f: Seq<u8>, k: int)
    requires
        is_complete_frame(f),
        0 <= k < f.len(),
    ensures
        frames_of_run(f.take(k), f.skip(k)) == seq![f],
        buf_of_run(f.take(k), f.skip(k)) == Seq::<u8>::empty(),
    decreases f.len() - k,
{
    let buf = f.take(k);
    let input = f.skip(k);
    let b = f[k];
    assert(input[0] == b);
    assert(buf.push(b) =~= f.take(k + 1));
    if is_sysex_frame(f) {
        assert(fixed_len(f[0]) == 0);
    } else {
        assert(is_fixed_frame(f));
        assert(f[0] != 0xF0);
    }
    if k + 1 == f.len() {
        // the last byte completes the frame
        assert(f.take(k + 1) =~= f);
        assert(feed_completes(buf, b));
        assert(input.drop_first() =~= Seq::<u8>::empty());
        assert(feed_buf_after(buf, b) =~= Seq::<u8>::empty());
        assert(frames_of_run(Seq::<u8>::empty(), Seq::<u8>::empty()) =~= Seq::<Seq<u8>>::empty());
        assert(frames_of_run(buf, input) =~= seq![f]);
        assert(buf_of_run(Seq::<u8>::empty(), Seq::<u8>::empty()) == Seq::<u8>::empty());
        assert(buf_of_run(buf, input) =~= Seq::<u8>::empty());
    } else {
        // a proper prefix of a complete frame is no complete frame ...
        let part = f.take(k + 1);
        if is_sysex_frame(f) {
            if k >= 1 {
                assert(part[part.len() - 1] == f[k] && is_data_byte(f[k]));
            }
            assert(fixed_len(part[0]) == 0);
            assert(!is_sysex_frame(part) && !is_fixed_frame(part));
        } else {
            assert(fixed_len(part[0]) == f.len() && f.len() != part.len());
            if k + 1 >= 2 {
                assert(part[part.len() - 1] == f[k] && is_data_byte(f[k]));
            }
            assert(!is_sysex_frame(part) && !is_fixed_frame(part));
        }
        assert(!feed_completes(buf, b));
        // ... and its bytes never invalidate the buffer
        if k == 0 {
            if is_sysex_frame(f) {
                assert(!feed_invalidates(buf, b));
            } else {
                assert(is_status_byte(f[0]) && fixed_len(f[0]) == f.len() > 1);
                assert(!feed_invalidates(buf, b));
            }
        } else {
            assert(buf[0] == f[0]);
            assert(is_data_byte(f[k]));
            assert(!feed_invalidates(buf, b));
        }
        assert(feed_buf_after(buf, b) == f.take(k + 1));
        assert(input.drop_first() =~= f.skip(k + 1));
        lemma_run_from_prefix(f, k + 1);
        assert(frames_of_run(buf, input) =~= seq![f]);
    }
}

/// Outcome of feeding one byte to the framer.
#[derive(Debug, PartialEq, Eq)]
pub enum FeedOutcome {
    /// The byte completed this message.
    Message(MidiMessage),
    /// More bytes are needed before a message can complete.
    Incomplete,
    /// The buffer could not form any legal message and was discarded; the
    /// framer resynchronizes on the next byte.
    Invalid,
}

/// Incremental parser turning a raw byte stream, fed one byte at a time,
/// into a sequence of complete MIDI messages.
pub struct MessageFramer {
    buf: Vec<u8>,
}

impl View for MessageFramer {
    type V = Seq<u8>;

    closed spec fn view(&self) -> Seq<u8> {
        self.buf@
    }
}

impl MessageFramer {
    /// A fresh framer with an empty accumulation buffer.
    pub fn new() -> (r: Self)
        ensures
            r@ == Seq::<u8>::empty(),
    {
        MessageFramer { buf: Vec::new() }
    }

    /// Feed one byte.  The outcome says whether the byte completed a
    /// message, is awaited upon, or invalidated the buffer; a completed
    /// message re-serializes to exactly the bytes that formed it.
    pub fn feed(&mut self, byte: u8) -> (r: FeedOutcome)
        requires
            buf_wf(old(self)@),
        ensures
            buf_wf(final(self)@),
            final(self)@ == feed_buf_after(old(self)@, byte),
            match r {
                FeedOutcome::Message(m) => {
                    let frame = old(self)@.push(byte);
                    &&& feed_completes(old(self)@, byte)
                    &&& m@.wf()
                    &&& m@.bytes() == frame
                    &&& (m@ is ControlChange <==> is_cc_frame(frame))
                    &&& (m@ is ProgramChange <==> is_pc_frame(frame))
                },
                FeedOutcome::Incomplete => !feed_completes(old(self)@, byte)
                    && !feed_invalidates(old(self)@, byte),
                FeedOutcome::Invalid => feed_invalidates(old(self)@, byte) && !feed_completes(
                    old(self)@,
                    byte,
                ),
            },
    {
        let ghost frame = old(self)@.push(byte);
        self.buf.push(byte);
        let first: u8 = self.buf[0];
        if first < 0x80 {
            // a data byte with no status byte before it
            self.buf.clear();
            FeedOutcome::Invalid
        } else if first == 0xF0 {
            if byte == 0xF7 {
                // end of exclusive: the whole block is one message
                let mut bytes: Vec<u8> = Vec::new();
                core::mem::swap(&mut bytes, &mut self.buf);
                proof {
                    assert(is_sysex_frame(frame));
                }
                FeedOutcome::Message(MidiMessage::Frame { bytes })
            } else if byte >= 0x80 && self.buf.len() > 1 {
                // a status byte interrupts the exclusive block
                self.buf.clear();
                proof {
                    assert(!is_data_byte(frame[frame.len() - 1]));
                }
                FeedOutcome::Invalid
            } else {
                // the start byte itself, or one more data byte of the block
                FeedOutcome::Incomplete
            }
        } else {
            if byte >= 0x80 && self.buf.len() > 1 {
                // a status byte before the previous message completed
                self.buf.clear();
                proof {
                    assert(!is_data_byte(frame[frame.len() - 1]));
                }
                FeedOutcome::Invalid
            } else {
                let need = fixed_length(first);
                if need == 0 {
                    // no legal message starts on this status byte
                    self.buf.clear();
                    FeedOutcome::Invalid
                } else if self.buf.len() == need {
                    let msg = self.take_fixed_frame();
                    proof {
                        assert(is_fixed_frame(frame));
                        assert(!is_sysex_frame(frame));
                    }
                    FeedOutcome::Message(msg)
                } else {
                    FeedOutcome::Incomplete
                }
            }
        }
    }

    /// Parse the buffer, known to hold one complete fixed-length frame, into
    /// a message, clearing the buffer.
    fn take_fixed_frame(&mut self) -> (m: MidiMessage)
        requires
            is_fixed_frame(old(self)@),
        ensures
            final(self)@ == Seq::<u8>::empty(),
            m@.wf(),
            m@.bytes() == old(self)@,
            m@ is ControlChange <==> is_cc_frame(old(self)@),
            m@ is ProgramChange <==> is_pc_frame(old(self)@),
    {
        let first: u8 = self.buf[0];
        if 0xB0 <= first && first < 0xC0 {
            let m = MidiMessage::ControlChange {
                channel: first - 0xB0,
                control: self.buf[1],
                value: self.buf[2],
            };
            self.buf.clear();
            proof {
                assert(m@.bytes() =~= old(self)@);
            }
            m
        } else if 0xC0 <= first && first < 0xD0 {
            let m = MidiMessage::ProgramChange { channel: first - 0xC0, program: self.buf[1] };
            self.buf.clear();
            proof {
                assert(m@.bytes() =~= old(self)@);
            }
            m
        } else {
            let mut bytes: Vec<u8> = Vec::new();
            core::mem::swap(&mut bytes, &mut self.buf);
            MidiMessage::Frame { bytes }
        }
    }
}

} // verus!
