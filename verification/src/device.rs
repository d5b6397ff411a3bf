//! The relay orchestrator: owns the patch book and one producer handle to
//! the output channel.  Navigation calls move the cursor and enqueue the
//! newly selected patch's messages; they never block on device I/O.  The
//! reader and writer threads live outside the library.
//!
//! The ghost `sent` log records, oldest first, every message this device
//! handed to its producer handle; the contracts pin it exactly, so a
//! no-op navigation is proved to enqueue nothing.

use vstd::prelude::*;

use crate::book::{PatchBook, clamped_select, clamped_step};
use crate::message::{MidiMessage, MsgView, msg_views};
use crate::patch::{Patch, PatchView, emit_spec};

verus! {

/// How a step by `delta` relates the device before and after: patches kept,
/// cursor clamped into range, and exactly the newly selected patch's
/// messages appended to the log — none on a no-op.
pub open spec fn stepped(pre: ThruDevice, post: ThruDevice, delta: int) -> bool {
    &&& post.wf()
    &&& post.patches() == pre.patches()
    &&& (post.output_live() ==> pre.output_live())
    &&& {
        let len = pre.patches().len() as int;
        let cur = pre.cursor();
        if len == 0 {
            post.cursor() == cur && post.sent() == pre.sent()
        } else {
            let t = clamped_step(len, cur, delta);
            if t == cur {
                post.cursor() == cur && post.sent() == pre.sent()
            } else {
                post.cursor() == t && post.sent() == pre.sent() + emit_spec(pre.patches()[t])
            }
        }
    }
}

/// How selecting `index` relates the device before and after.
pub open spec fn selected(pre: ThruDevice, post: ThruDevice, index: int) -> bool {
    &&& post.wf()
    &&& post.patches() == pre.patches()
    &&& (post.output_live() ==> pre.output_live())
    &&& {
        let len = pre.patches().len() as int;
        let cur = pre.cursor();
        if len == 0 {
            post.cursor() == cur && post.sent() == pre.sent()
        } else {
            let t = clamped_select(len, index);
            if t == cur {
                post.cursor() == cur && post.sent() == pre.sent()
            } else {
                post.cursor() == t && post.sent() == pre.sent() + emit_spec(pre.patches()[t])
            }
        }
    }
}

/// How a reset relates the device before and after: back to the first
/// patch, whose messages are re-sent even when it was selected already.
pub open spec fn reset_always(pre: ThruDevice, post: ThruDevice) -> bool {
    &&& post.wf()
    &&& post.patches() == pre.patches()
    &&& (post.output_live() ==> pre.output_live())
    &&& if pre.patches().len() == 0 {
        post.cursor() == pre.cursor() && post.sent() == pre.sent()
    } else {
        post.cursor() == 0 && post.sent() == pre.sent() + emit_spec(pre.patches()[0])
    }
}

/// Orchestrator of the relay: patch navigation plus one producer handle.
pub struct ThruDevice {
    patch_sender: std::sync::mpsc::Sender<MidiMessage>,
    book: PatchBook,
    output_ok: bool,
    sent: Ghost<Seq<MsgView>>,
}

impl ThruDevice {
    /// The patches, in selection order.
    pub closed spec fn patches(self) -> Seq<PatchView> {
        self.book.patch_views()
    }

    /// The current cursor.
    pub closed spec fn cursor(self) -> int {
        self.book.cursor()
    }

    /// Every message handed to the output channel by this device, oldest
    /// first.
    pub closed spec fn sent(self) -> Seq<MsgView> {
        self.sent@
    }

    /// Whether the consumer half of the channel was still alive at every
    /// enqueue so far.
    pub closed spec fn output_live(self) -> bool {
        self.output_ok
    }

    /// The cursor lies inside the patch list; with no patches it rests at 0.
    pub closed spec fn wf(self) -> bool {
        self.book.wf()
    }

    /// A device over `patches` with the cursor on the first patch, owning a
    /// producer handle of the output channel.  When any patch is loaded the
    /// first patch's messages are enqueued at once, before any thru traffic.
    pub fn new(patches: Vec<Patch>, patch_sender: std::sync::mpsc::Sender<MidiMessage>) -> (d:
        ThruDevice)
        ensures
            d.wf(),
            d.patches() == patches@.map_values(|p: Patch| p@),
            d.cursor() == 0,
            d.sent() == if patches@.len() > 0 {
                emit_spec(patches@.map_values(|p: Patch| p@)[0])
            } else {
                Seq::<MsgView>::empty()
            },
    {
        let mut d = ThruDevice {
            patch_sender,
            book: PatchBook::new(patches),
            output_ok: true,
            sent: Ghost(Seq::empty()),
        };
        d.resend_patch();
        d
    }

    /// Whether any patch is loaded.
    pub fn has_patches(&self) -> (r: bool)
        ensures
            r <==> self.patches().len() > 0,
    {
        self.book.has_patches()
    }

    /// Whether every enqueue so far was accepted; refusal means the
    /// consumer half of the channel is gone and the relay cannot continue.
    pub fn output_ok(&self) -> (r: bool)
        ensures
            r == self.output_live(),
    {
        self.output_ok
    }

    /// Step the cursor by `delta`, clamping at both ends, and enqueue the
    /// newly selected patch's messages.  `None` — with the cursor, the
    /// patches and the log untouched — reports a no-op: an empty book, or a
    /// step against a boundary.
    pub fn increment_patch(&mut self, delta: isize) -> (r: Option<(usize, Patch)>)
        requires
            old(self).wf(),
        ensures
            stepped(*old(self), *final(self), delta as int),
            ({
                let len = old(self).patches().len() as int;
                let cur = old(self).cursor();
                let t = clamped_step(len, cur, delta as int);
                if len == 0 || t == cur {
                    r is None
                } else {
                    r matches Some((n, p)) && n as int == t + 1 && p@ == old(self).patches()[t]
                }
            }),
    {
        match self.book.step(delta) {
            Some(i) => {
                self.resend_patch();
                let p = self.book.get(i).duplicate();
                Some((i + 1, p))
            },
            None => None,
        }
    }

    /// Clamp `index` into the valid range, move the cursor there and
    /// enqueue that patch's messages.  `None` — with nothing changed and
    /// nothing enqueued — reports a no-op: an empty book, or the clamped
    /// index being the current one already.
    pub fn set_patch(&mut self, index: usize) -> (r: Option<(usize, Patch)>)
        requires
            old(self).wf(),
        ensures
            selected(*old(self), *final(self), index as int),
            ({
                let len = old(self).patches().len() as int;
                let cur = old(self).cursor();
                let t = clamped_select(len, index as int);
                if len == 0 || t == cur {
                    r is None
                } else {
                    r matches Some((n, p)) && n as int == t + 1 && p@ == old(self).patches()[t]
                }
            }),
    {
        match self.book.select(index) {
            Some(i) => {
                self.resend_patch();
                let p = self.book.get(i).duplicate();
                Some((i + 1, p))
            },
            None => None,
        }
    }

    /// Select the first patch and re-send its messages even when it is
    /// already selected: the operator's known-good-state action.
    pub fn reset(&mut self) -> (r: Option<(usize, Patch)>)
        requires
            old(self).wf(),
        ensures
            reset_always(*old(self), *final(self)),
            if old(self).patches().len() == 0 {
                r is None
            } else {
                r matches Some((n, p)) && n as int == 1 && p@ == old(self).patches()[0]
            },
    {
        if !self.book.has_patches() {
            return None;
        }
        let _ = self.book.select(0);
        self.resend_patch();
        let p = self.book.get(0).duplicate();
        Some((1, p))
    }

    /// The selected patch with its 1-based display index; `None` only with
    /// no patches.
    pub fn current_patch(&self) -> (r: Option<(usize, Patch)>)
        requires
            self.wf(),
        ensures
            match r {
                Some((n, p)) => self.patches().len() > 0 && n as int == self.cursor() + 1 && n
                    as int <= self.patches().len() && p@ == self.patches()[self.cursor()],
                None => self.patches().len() == 0,
            },
    {
        if self.book.has_patches() {
            let i = self.book.position();
            let p = self.book.get(i).duplicate();
            Some((i + 1, p))
        } else {
            None
        }
    }

    /// The patch after the selected one, without moving the cursor; `None`
    /// at the last patch rather than wrapping.
    pub fn next_patch(&self) -> (r: Option<Patch>)
        requires
            self.wf(),
        ensures
            match r {
                Some(p) => self.cursor() + 1 < self.patches().len() && p@ == self.patches()[self.cursor()
                    + 1],
                None => self.cursor() + 1 >= self.patches().len(),
            },
    {
        let i = self.book.position();
        let n = self.book.length();
        if self.book.has_patches() && i < n - 1 {
            Some(self.book.get(i + 1).duplicate())
        } else {
            None
        }
    }

    /// The patch before the selected one, without moving the cursor; `None`
    /// at the first patch rather than wrapping.
    pub fn previous_patch(&self) -> (r: Option<Patch>)
        requires
            self.wf(),
        ensures
            match r {
                Some(p) => self.patches().len() > 0 && self.cursor() > 0 && p@ == self.patches()[self.cursor()
                    - 1],
                None => self.cursor() == 0,
            },
    {
        if self.book.has_patches() && self.book.position() > 0 {
            Some(self.book.get(self.book.position() - 1).duplicate())
        } else {
            None
        }
    }

    /// Enqueue the selected patch's messages again, unconditionally and
    /// without moving the cursor; with no patches, nothing.  This is the
    /// re-send that `reset` builds on.
    pub fn resend_patch(&mut self)
        requires
            old(self).wf(),
        ensures
            final(self).wf(),
            final(self).patches() == old(self).patches(),
            final(self).cursor() == old(self).cursor(),
            final(self).output_live() ==> old(self).output_live(),
            final(self).sent() == old(self).sent() + (if old(self).patches().len() > 0 {
                emit_spec(old(self).patches()[old(self).cursor()])
            } else {
                Seq::<MsgView>::empty()
            }),
    {
        if self.book.has_patches() {
            let i = self.book.position();
            let msgs = self.book.get(i).emit();
            self.push_all(msgs);
        } else {
            proof {
                assert(old(self).sent() + Seq::<MsgView>::empty() =~= old(self).sent());
            }
        }
    }

    /// Hand each message to the output channel, in order, recording every
    /// one in the ghost log.
    fn push_all(&mut self, msgs: Vec<MidiMessage>)
        ensures
            final(self).book == old(self).book,
            final(self).output_live() ==> old(self).output_live(),
            final(self).sent() == old(self).sent() + msg_views(msgs@),
    {
        let ghost all = msg_views(msgs@);
        let ghost mut k: int = 0;
        let mut rest = msgs;
        while rest.len() > 0
            invariant
                0 <= k <= all.len(),
                rest@.len() == all.len() - k,
                msg_views(rest@) == all.skip(k),
                self.sent@ == old(self).sent@ + all.take(k),
                self.book == old(self).book,
                self.patch_sender == old(self).patch_sender,
                self.output_ok ==> old(self).output_ok,
            decreases rest@.len(),
        {
            let ghost prev = rest@;
            let m = rest.remove(0);
            let ghost mv = m@;
            proof {
                assert(mv == msg_views(prev)[0]);
                assert(mv == all[k]);
            }
            match self.patch_sender.send(m) {
                Ok(_) => {},
                Err(_) => {
                    self.output_ok = false;
                },
            }
            self.sent = Ghost(self.sent@.push(mv));
            proof {
                assert(all.take(k).push(all[k]) =~= all.take(k + 1));
                assert((old(self).sent@ + all.take(k)).push(all[k]) =~= old(self).sent@ + all.take(
                    k + 1,
                ));
                assert(msg_views(rest@) =~= all.skip(k + 1)) by {
                    assert(forall|i: int|
                        0 <= i < rest@.len() ==> #[trigger] msg_views(rest@)[i] == msg_views(
                            prev,
                        )[i + 1]);
                }
                k = k + 1;
            }
        }
        proof {
            assert(all.take(k) =~= all);
            assert(msg_views(msgs@) == all);
        }
    }
}

} // verus!
