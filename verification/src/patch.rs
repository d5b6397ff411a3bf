//! Patches: named presets that, when selected, reconfigure a downstream
//! instrument through bank-select and program-change messages.

use vstd::prelude::*;

use crate::message::{MidiMessage, MsgView, msg_views};

verus! {

/// An immutable preset loaded from configuration.  Every optional field may
/// be absent; a patch with all four absent is legal, sends nothing, and
/// still occupies a slot.  Out-of-range values are never rejected: the
/// channel falls back to 0, data bytes are clamped to 7 bits when encoded.
#[derive(Debug, Clone)]
pub struct Patch {
    pub name: String,
    pub channel: Option<u8>,
    pub bank_msb: Option<u8>,
    pub bank_lsb: Option<u8>,
    pub program: Option<u8>,
}

/// Mathematical model of a [`Patch`].
pub struct PatchView {
    pub name: Seq<char>,
    pub channel: Option<u8>,
    pub bank_msb: Option<u8>,
    pub bank_lsb: Option<u8>,
    pub program: Option<u8>,
}

impl View for Patch {
    type V = PatchView;

    open spec fn view(&self) -> PatchView {
        PatchView {
            name: self.name@,
            channel: self.channel,
            bank_msb: self.bank_msb,
            bank_lsb: self.bank_lsb,
            program: self.program,
        }
    }
}

/// The channel a patch sends on: its own when within 0-15, else channel 0.
pub open spec fn effective_channel(p: PatchView) -> u8 {
    match p.channel {
        Some(ch) => if ch < 16 {
            ch
        } else {
            0
        },
        None => 0,
    }
}

/// The canonical message sequence a patch emits when selected, in this fixed
/// order: bank-select MSB (controller 0), bank-select LSB (controller 32),
/// program change — each only where its field is present, each on the
/// patch's channel, every data byte clamped to 7 bits.
pub open spec fn emit_spec(p: PatchView) -> Seq<MsgView> {
    let ch = effective_channel(p);
    (match p.bank_msb {
        Some(msb) => seq![MsgView::ControlChange { channel: ch, control: 0, value: msb & 0x7F }],
        None => Seq::<MsgView>::empty(),
    }) + (match p.bank_lsb {
        Some(lsb) => seq![MsgView::ControlChange { channel: ch, control: 32, value: lsb & 0x7F }],
        None => Seq::<MsgView>::empty(),
    }) + (match p.program {
        Some(prog) => seq![MsgView::ProgramChange { channel: ch, program: prog & 0x7F }],
        None => Seq::<MsgView>::empty(),
    })
}

/// Everything a patch emits is a well-formed message.
pub proof fn lemma_emit_wf(p: PatchView)
    ensures
        forall|i: int| 0 <= i < emit_spec(p).len() ==> (#[trigger] emit_spec(p)[i]).wf(),
{
    assert forall|i: int| 0 <= i < emit_spec(p).len() implies (#[trigger] emit_spec(p)[i]).wf() by {
        assert(effective_channel(p) < 16);
        assert(forall|b: u8| b & 0x7F < 128) by (bit_vector);
    }
}

impl Patch {
    /// An equal copy of this patch.
    pub fn duplicate(&self) -> (r: Patch)
        ensures
            r@ == self@,
    {
        Patch {
            name: self.name.clone(),
            channel: self.channel,
            bank_msb: self.bank_msb,
            bank_lsb: self.bank_lsb,
            program: self.program,
        }
    }

    /// The channel this patch sends on.
    pub fn send_channel(&self) -> (ch: u8)
        ensures
            ch == effective_channel(self@),
    {
        match self.channel {
            Some(ch) => if ch < 16 {
                ch
            } else {
                0
            },
            None => 0,
        }
    }

    /// Enqueue this patch's canonical message sequence, in order, on the
    /// output channel.  `ok` holds exactly when every enqueue was accepted;
    /// a refusal means the consumer half of the channel is gone, which is
    /// fatal for the producer — the relay cannot continue.  Whether the
    /// consumer lives is a fact of the run, so only the call-free case is
    /// owed: a patch with nothing to send always reports acceptance.
    pub fn send(&self, tx: &std::sync::mpsc::Sender<MidiMessage>) -> (ok: bool)
        ensures
            emit_spec(self@).len() == 0 ==> ok,
    {
        let mut msgs = self.emit();
        let mut ok = true;
        while msgs.len() > 0
            invariant
                msgs@.len() <= emit_spec(self@).len(),
                emit_spec(self@).len() == 0 ==> ok,
            decreases msgs@.len(),
        {
            let m = msgs.remove(0);
            match tx.send(m) {
                Ok(_) => {},
                Err(_) => {
                    ok = false;
                },
            }
        }
        ok
    }

    /// Build this patch's canonical message sequence.
    pub fn emit(&self) -> (r: Vec<MidiMessage>)
        ensures
            msg_views(r@) == emit_spec(self@),
            forall|i: int| 0 <= i < r@.len() ==> (#[trigger] r@[i])@.wf(),
    {
        let ch = self.send_channel();
        let mut r: Vec<MidiMessage> = Vec::new();
        if let Some(msb) = self.bank_msb {
            r.push(MidiMessage::ControlChange { channel: ch, control: 0, value: msb & 0x7F });
        }
        if let Some(lsb) = self.bank_lsb {
            r.push(MidiMessage::ControlChange { channel: ch, control: 32, value: lsb & 0x7F });
        }
        if let Some(prog) = self.program {
            r.push(MidiMessage::ProgramChange { channel: ch, program: prog & 0x7F });
        }
        proof {
            assert(msg_views(r@) =~= emit_spec(self@));
            lemma_emit_wf(self@);
            assert(forall|i: int| 0 <= i < r@.len() ==> (#[trigger] r@[i])@.wf()) by {
                assert(forall|i: int| 0 <= i < r@.len() ==> (#[trigger] r@[i])@ == msg_views(r@)[i]);
            }
        }
        r
    }
}

} // verus!
