//! MIDI messages and their exact byte representation on the wire.

use vstd::prelude::*;

verus! {

/// A status byte has its top bit set.
pub open spec fn is_status_byte(b: u8) -> bool {
    b >= 0x80
}

/// A data byte has its top bit clear.
pub open spec fn is_data_byte(b: u8) -> bool {
    b < 0x80
}

/// Length of a complete message whose status byte is `s`, for the
/// fixed-length message kinds; 0 where no legal message starts with `s`
/// (the undefined system statuses 0xF4 and 0xF5, a stray end-of-exclusive
/// byte 0xF7, and the variable-length system-exclusive start 0xF0, which is
/// handled separately).
pub open spec fn fixed_len(s: u8) -> int {
    if 0x80 <= s && s < 0xC0 {
        3  // note off/on, polyphonic pressure, control change
    } else if 0xC0 <= s && s < 0xE0 {
        2  // program change, channel pressure
    } else if 0xE0 <= s && s < 0xF0 {
        3  // pitch bend
    } else if s == 0xF1 {
        2  // time-code quarter frame
    } else if s == 0xF2 {
        3  // song position pointer
    } else if s == 0xF3 {
        2  // song select
    } else if s == 0xF6 {
        1  // tune request
    } else if 0xF8 <= s {
        1  // real-time messages
    } else {
        0
    }
}

/// A complete system-exclusive frame: start byte, data bytes, end byte.
pub open spec fn is_sysex_frame(bytes: Seq<u8>) -> bool {
    &&& bytes.len() >= 2
    &&& bytes[0] == 0xF0
    &&& bytes[bytes.len() - 1] == 0xF7
    &&& forall|i: int| 1 <= i < bytes.len() - 1 ==> is_data_byte(#[trigger] bytes[i])
}

/// A complete fixed-length frame: a status byte followed by exactly its
/// expected number of data bytes.
pub open spec fn is_fixed_frame(bytes: Seq<u8>) -> bool {
    &&& bytes.len() >= 1
    &&& fixed_len(bytes[0]) == bytes.len()
    &&& forall|i: int| 1 <= i < bytes.len() ==> is_data_byte(#[trigger] bytes[i])
}

/// Any complete frame of the wire protocol.
pub open spec fn is_complete_frame(bytes: Seq<u8>) -> bool {
    is_sysex_frame(bytes) || is_fixed_frame(bytes)
}

/// A fully-parsed MIDI protocol unit, carrying enough information to be
/// re-serialized byte-exact.
#[derive(Debug, Clone, PartialEq, Eq)]
pub enum MidiMessage {
    /// Control change: controller `control` set to `value` on `channel`.
    ControlChange { channel: u8, control: u8, value: u8 },
    /// Program change: program `program` selected on `channel`.
    ProgramChange { channel: u8, program: u8 },
    /// Any other complete frame, carried byte-exact for passthrough.
    Frame { bytes: Vec<u8> },
}

/// Mathematical model of a [`MidiMessage`].
pub enum MsgView {
    ControlChange { channel: u8, control: u8, value: u8 },
    ProgramChange { channel: u8, program: u8 },
    Frame { bytes: Seq<u8> },
}

impl View for MidiMessage {
    type V = MsgView;

    open spec fn view(&self) -> MsgView {
        match self {
            MidiMessage::ControlChange { channel, control, value } => MsgView::ControlChange {
                channel: *channel,
                control: *control,
                value: *value,
            },
            MidiMessage::ProgramChange { channel, program } => MsgView::ProgramChange {
                channel: *channel,
                program: *program,
            },
            MidiMessage::Frame { bytes } => MsgView::Frame { bytes: bytes@ },
        }
    }
}

impl MsgView {
    /// Well-formedness: channels and data values fit the protocol's 4- and
    /// 7-bit ranges, and an opaque frame is a complete frame.
    pub open spec fn wf(self) -> bool {
        match self {
            MsgView::ControlChange { channel, control, value } => channel < 16 && control < 128
                && value < 128,
            MsgView::ProgramChange { channel, program } => channel < 16 && program < 128,
            MsgView::Frame { bytes } => is_complete_frame(bytes),
        }
    }

    /// Exact byte representation on the wire.
    pub open spec fn bytes(self) -> Seq<u8> {
        match self {
            MsgView::ControlChange { channel, control, value } => seq![
                (0xB0 + channel) as u8,
                control,
                value,
            ],
            MsgView::ProgramChange { channel, program } => seq![(0xC0 + channel) as u8, program],
            MsgView::Frame { bytes } => bytes,
        }
    }
}

impl MidiMessage {
    /// Serialize to the exact wire bytes.
    pub fn to_bytes(&self) -> (r: Vec<u8>)
        requires
            self@.wf(),
        ensures
            r@ == self@.bytes(),
    {
        match self {
            MidiMessage::ControlChange { channel, control, value } => {
                let mut v: Vec<u8> = Vec::new();
                v.push(0xB0 + *channel);
                v.push(*control);
                v.push(*value);
                proof {
                    assert(v@ =~= self@.bytes());
                }
                v
            },
            MidiMessage::ProgramChange { channel, program } => {
                let mut v: Vec<u8> = Vec::new();
                v.push(0xC0 + *channel);
                v.push(*program);
                proof {
                    assert(v@ =~= self@.bytes());
                }
                v
            },
            MidiMessage::Frame { bytes } => vstd::slice::slice_to_vec(bytes.as_slice()),
        }
    }

    /// Whether this message is well formed; a writer tests this before
    /// serializing a message of unknown origin.
    pub fn check_wf(&self) -> (r: bool)
        ensures
            r == self@.wf(),
    {
        match self {
            MidiMessage::ControlChange { channel, control, value } => *channel < 16 && *control
                < 128 && *value < 128,
            MidiMessage::ProgramChange { channel, program } => *channel < 16 && *program < 128,
            MidiMessage::Frame { bytes } => check_complete_frame(bytes),
        }
    }
}

/// Executable mirror of the `fixed_len` status-byte table.
pub fn fixed_length(s: u8) -> (n: usize)
    ensures
        n as int == fixed_len(s),
{
    if 0x80 <= s && s < 0xC0 {
        3
    } else if 0xC0 <= s && s < 0xE0 {
        2
    } else if 0xE0 <= s && s < 0xF0 {
        3
    } else if s == 0xF1 {
        2
    } else if s == 0xF2 {
        3
    } else if s == 0xF3 {
        2
    } else if s == 0xF6 {
        1
    } else if 0xF8 <= s {
        1
    } else {
        0
    }
}

/// All bytes of `[from, to)` are data bytes.
fn all_data(bytes: &Vec<u8>, from: usize, to: usize) -> (r: bool)
    requires
        to <= bytes@.len(),
    ensures
        r <==> (forall|i: int| from <= i < to ==> is_data_byte(#[trigger] bytes@[i])),
{
    let mut i = from;
    while i < to
        invariant
            from <= i,
            i <= to || i == from,
            to <= bytes@.len(),
            forall|j: int| from <= j < i ==> is_data_byte(#[trigger] bytes@[j]),
        decreases to - i,
    {
        if bytes[i] >= 0x80 {
            assert(!is_data_byte(bytes@[i as int]));
            return false;
        }
        i = i + 1;
    }
    true
}

/// Executable mirror of `is_complete_frame`.
pub fn check_complete_frame(bytes: &Vec<u8>) -> (r: bool)
    ensures
        r == is_complete_frame(bytes@),
{
    let n = bytes.len();
    if n == 0 {
        return false;
    }
    let first = bytes[0];
    if first == 0xF0 {
        if n < 2 || bytes[n - 1] != 0xF7 {
            return false;
        }
        all_data(bytes, 1, n - 1)
    } else {
        let need = fixed_length(first);
        if need != n {
            return false;
        }
        all_data(bytes, 1, n)
    }
}

/// The models of a sequence of messages, in order.
pub open spec fn msg_views(s: Seq<MidiMessage>) -> Seq<MsgView> {
    s.map_values(|m: MidiMessage| m@)
}

/// The byte stream produced by writing a sequence of messages one after
/// another, each one whole.
pub open spec fn stream_bytes(msgs: Seq<MsgView>) -> Seq<u8>
    decreases msgs.len(),
{
    if msgs.len() == 0 {
        Seq::empty()
    } else {
        msgs[0].bytes() + stream_bytes(msgs.drop_first())
    }
}

/// Byte offset at which message `i` starts within the stream.
pub open spec fn stream_offset(msgs: Seq<MsgView>, i: int) -> int
    decreases i,
{
    if i <= 0 {
        0
    } else {
        msgs[0].bytes().len() + stream_offset(msgs.drop_first(), i - 1)
    }
}

/// Law: when messages are serialized one after another in queue order, each
/// message's bytes occupy one contiguous range of the stream, the ranges
/// stand in the same order as the messages, and together they cover the whole
/// stream — no byte of one message lies inside another.
pub proof fn lemma_stream_no_interleaving(msgs: Seq<MsgView>, i: int)
    requires
        0 <= i < msgs.len(),
    ensures
        0 <= stream_offset(msgs, i),
        stream_offset(msgs, i) + msgs[i].bytes().len() <= stream_bytes(msgs).len(),
        stream_bytes(msgs).subrange(
            stream_offset(msgs, i),
            stream_offset(msgs, i) + msgs[i].bytes().len(),
        ) == msgs[i].bytes(),
        i + 1 < msgs.len() ==> stream_offset(msgs, i + 1) == stream_offset(msgs, i)
            + msgs[i].bytes().len(),
        i + 1 == msgs.len() ==> stream_bytes(msgs).len() == stream_offset(msgs, i)
            + msgs[i].bytes().len(),
    decreases i,
{
    if i == 0 {
        assert(stream_bytes(msgs).subrange(0, msgs[0].bytes().len() as int) =~= msgs[0].bytes());
        if 1 < msgs.len() {
            assert(stream_offset(msgs.drop_first(), 0) == 0);
        } else {
            assert(stream_bytes(msgs.drop_first()).len() == 0);
        }
    } else {
        let rest = msgs.drop_first();
        lemma_stream_no_interleaving(rest, i - 1);
        let head = msgs[0].bytes();
        let off = stream_offset(rest, i - 1);
        let len = rest[i - 1].bytes().len();
        assert(msgs[i] == rest[i - 1]);
        assert(stream_bytes(msgs).subrange(head.len() + off, head.len() + off + len) =~= stream_bytes(
            rest,
        ).subrange(off, off + len));
    }
}

} // verus!
