//! The patch book: an ordered list of patches with a current-selection
//! cursor.  Navigation clamps into the valid index range and reports a
//! boundary as a no-op; with no patches every call is a no-op.

use vstd::prelude::*;

use crate::patch::{Patch, PatchView};

verus! {

/// Where a select lands: indices past the end clamp to the last patch.
pub open spec fn clamped_select(len: int, target: int) -> int {
    if target >= len {
        len - 1
    } else {
        target
    }
}

/// Where a step by `delta` from `cur` lands: clamped at both ends.
pub open spec fn clamped_step(len: int, cur: int, delta: int) -> int {
    let t = cur + delta;
    if t < 0 {
        0
    } else if t >= len {
        len - 1
    } else {
        t
    }
}

/// Law: a step never produces an index outside the valid range, whatever
/// the delta.
pub proof fn lemma_step_in_range(len: int, cur: int, delta: int)
    requires
        len > 0,
        0 <= cur < len,
    ensures
        0 <= clamped_step(len, cur, delta) < len,
{
}

/// The cursor after stepping by each delta in turn, from `cur`.
pub open spec fn steps_from(len: int, cur: int, deltas: Seq<int>) -> int
    decreases deltas.len(),
{
    if deltas.len() == 0 {
        cur
    } else {
        steps_from(len, clamped_step(len, cur, deltas[0]), deltas.drop_first())
    }
}

/// Law: however long the sequence of deltas, the cursor never leaves the
/// valid range.
pub proof fn lemma_steps_stay_in_range(len: int, cur: int, deltas: Seq<int>)
    requires
        len > 0,
        0 <= cur < len,
    ensures
        0 <= steps_from(len, cur, deltas) < len,
    decreases deltas.len(),
{
    if deltas.len() > 0 {
        lemma_steps_stay_in_range(len, clamped_step(len, cur, deltas[0]), deltas.drop_first());
    }
}

/// Law: stepping forward at the last patch, or backward at the first, lands
/// on the current index again — a no-op, and so one on every repetition.
pub proof fn lemma_step_boundary_is_noop(len: int, cur: int, delta: int)
    requires
        len > 0,
        0 <= cur < len,
        (cur == len - 1 && delta >= 0) || (cur == 0 && delta <= 0),
    ensures
        clamped_step(len, cur, delta) == cur,
{
}

/// Law: any run of forward steps taken at the last patch, or of backward
/// steps taken at the first, leaves the cursor where it was: each one is a
/// no-op, however often it is repeated.
pub proof fn lemma_repeated_boundary_steps_are_noops(len: int, cur: int, deltas: Seq<int>)
    requires
        len > 0,
        (cur == len - 1 && forall|i: int| 0 <= i < deltas.len() ==> deltas[i] >= 0) || (cur == 0
            && forall|i: int| 0 <= i < deltas.len() ==> deltas[i] <= 0),
    ensures
        steps_from(len, cur, deltas) == cur,
    decreases deltas.len(),
{
    if deltas.len() > 0 {
        lemma_step_boundary_is_noop(len, cur, deltas[0]);
        assert(forall|i: int|
            0 <= i < deltas.drop_first().len() ==> deltas.drop_first()[i] == deltas[i + 1]);
        lemma_repeated_boundary_steps_are_noops(len, cur, deltas.drop_first());
    }
}

/// Law: selecting the index already selected lands on it again, so the
/// select is a no-op and nothing is emitted.
pub proof fn lemma_select_current_is_noop(len: int, cur: int)
    requires
        len > 0,
        0 <= cur < len,
    ensures
        clamped_select(len, cur) == cur,
{
}

/// Ordered sequence of patches (insertion order is selection order) with a
/// single cursor.
pub struct PatchBook {
    patches: Vec<Patch>,
    current_index: usize,
}

impl PatchBook {
    /// The patches, in selection order.
    pub closed spec fn patch_views(self) -> Seq<PatchView> {
        self.patches@.map_values(|p: Patch| p@)
    }

    /// The current cursor.
    pub closed spec fn cursor(self) -> int {
        self.current_index as int
    }

    /// Number of patches.
    pub open spec fn len(self) -> int {
        self.patch_views().len() as int
    }

    /// The cursor always lies inside the list — with no patches it rests at
    /// 0 — and the list is machine-sized.
    pub open spec fn wf(self) -> bool {
        &&& self.len() <= usize::MAX
        &&& if self.len() == 0 {
            self.cursor() == 0
        } else {
            0 <= self.cursor() < self.len()
        }
    }

    /// A book over `patches` with the cursor on the first patch.
    pub fn new(patches: Vec<Patch>) -> (r: PatchBook)
        ensures
            r.wf(),
            r.patch_views() == patches@.map_values(|p: Patch| p@),
            r.cursor() == 0,
    {
        let book = PatchBook { patches, current_index: 0 };
        proof {
            vstd::std_specs::vec::axiom_spec_len(&book.patches);
        }
        book
    }

    /// Whether any patch is loaded.
    pub fn has_patches(&self) -> (r: bool)
        ensures
            r <==> self.len() > 0,
    {
        self.patches.len() > 0
    }

    /// Number of patches.
    pub fn length(&self) -> (r: usize)
        ensures
            r as int == self.len(),
    {
        self.patches.len()
    }

    /// The current cursor position.
    pub fn position(&self) -> (r: usize)
        ensures
            r as int == self.cursor(),
    {
        self.current_index
    }

    /// The patch at index `i`.
    pub fn get(&self, i: usize) -> (r: &Patch)
        requires
            0 <= i < self.len(),
        ensures
            r@ == self.patch_views()[i as int],
    {
        &self.patches[i]
    }

    /// Clamp `target` into the valid range and move the cursor there.
    /// Reports the new index, or `None` when the move is a no-op: the book
    /// is empty, or the clamped target is the current index already.
    pub fn select(&mut self, target: usize) -> (r: Option<usize>)
        requires
            old(self).wf(),
        ensures
            final(self).wf(),
            final(self).patch_views() == old(self).patch_views(),
            ({
                let len = old(self).len();
                let cur = old(self).cursor();
                if len == 0 {
                    r is None && final(self).cursor() == cur
                } else {
                    let t = clamped_select(len, target as int);
                    if t == cur {
                        r is None && final(self).cursor() == cur
                    } else {
                        &&& r matches Some(i) && i as int == t
                        &&& final(self).cursor() == t
                    }
                }
            }),
    {
        if self.patches.len() == 0 {
            return None;
        }
        let new_index: usize = if target >= self.patches.len() {
            self.patches.len() - 1
        } else {
            target
        };
        if new_index != self.current_index {
            self.current_index = new_index;
            Some(new_index)
        } else {
            None
        }
    }

    /// Step the cursor by `delta`, clamping at both ends.  Reports the new
    /// index, or `None` for a no-op (empty book, or already at the boundary
    /// the step pushes against).
    pub fn step(&mut self, delta: isize) -> (r: Option<usize>)
        requires
            old(self).wf(),
        ensures
            final(self).wf(),
            final(self).patch_views() == old(self).patch_views(),
            ({
                let len = old(self).len();
                let cur = old(self).cursor();
                if len == 0 {
                    r is None && final(self).cursor() == cur
                } else {
                    let t = clamped_step(len, cur, delta as int);
                    if t == cur {
                        r is None && final(self).cursor() == cur
                    } else {
                        &&& r matches Some(i) && i as int == t
                        &&& final(self).cursor() == t
                    }
                }
            }),
    {
        if self.patches.len() == 0 {
            return None;
        }
        let cur = self.current_index;
        let len = self.patches.len();
        let target: usize = if delta < 0 {
            let mag: usize = if delta == isize::MIN {
                (isize::MAX as usize) + 1
            } else {
                (-delta) as usize
            };
            // a step of large magnitude clamps to the first patch
            if mag >= cur {
                0
            } else {
                cur - mag
            }
        } else {
            if (delta as usize) >= len - 1 - cur {
                len - 1
            } else {
                cur + (delta as usize)
            }
        };
        self.select(target)
    }
}

} // verus!
