//! Bounded undo/redo history of the rich text editor.
use vstd::prelude::*;

verus! {

/// How many states each of the undo and redo stacks keeps.
pub const HISTORY_LIMIT: usize = 64;

/// `s` with `d` pushed as the newest entry, forgetting the oldest entry when
/// the stack would hold more than `HISTORY_LIMIT` states.
pub open spec fn push_capped<D>(s: Seq<D>, d: D) -> Seq<D> {
    if s.len() + 1 > HISTORY_LIMIT {
        s.push(d).drop_first()
    } else {
        s.push(d)
    }
}

/// Undo, redo and current document as one value: `(undo, redo, doc)`.
pub type Timeline<D> = (Seq<D>, Seq<D>, D);

/// One step back: the newest undo state becomes the document and the
/// document goes on the redo stack. Nothing changes when undo is empty.
pub open spec fn undo_step<D>(t: Timeline<D>) -> Timeline<D> {
    let (undo, redo, doc) = t;
    if undo.len() == 0 {
        t
    } else {
        (undo.drop_last(), push_capped(redo, doc), undo.last())
    }
}

/// One step forward: the newest redo state becomes the document and the
/// document goes on the undo stack. Nothing changes when redo is empty.
pub open spec fn redo_step<D>(t: Timeline<D>) -> Timeline<D> {
    let (undo, redo, doc) = t;
    if redo.len() == 0 {
        t
    } else {
        (push_capped(undo, doc), redo.drop_last(), redo.last())
    }
}

/// The result of recording `before` as the state before an edit: it goes on
/// the undo stack and the redo stack is emptied.
pub open spec fn record_step<D>(undo: Seq<D>, before: D) -> (Seq<D>, Seq<D>) {
    (push_capped(undo, before), Seq::empty())
}

/// The two stacks of a history.
pub struct History<D> {
    undo: Vec<D>,
    redo: Vec<D>,
}

impl<D> History<D> {
    /// States that an undo brings back, oldest first.
    pub closed spec fn undo_stack(&self) -> Seq<D> {
        self.undo@
    }

    /// States that a redo brings back, oldest first.
    pub closed spec fn redo_stack(&self) -> Seq<D> {
        self.redo@
    }

    /// Neither stack holds more than `HISTORY_LIMIT` states.
    pub open spec fn wf(&self) -> bool {
        &&& self.undo_stack().len() <= HISTORY_LIMIT
        &&& self.redo_stack().len() <= HISTORY_LIMIT
    }

    /// An empty history.
    pub fn new() -> (h: Self)
        ensures
            h.wf(),
            h.undo_stack() == Seq::<D>::empty(),
            h.redo_stack() == Seq::<D>::empty(),
    {
        History { undo: Vec::new(), redo: Vec::new() }
    }

    /// Number of states that undo can bring back.
    pub fn undo_len(&self) -> (n: usize)
        ensures
            n == self.undo_stack().len(),
    {
        self.undo.len()
    }

    /// Number of states that redo can bring back.
    pub fn redo_len(&self) -> (n: usize)
        ensures
            n == self.redo_stack().len(),
    {
        self.redo.len()
    }

    /// Records `before`, the document as it was before an edit.
    pub fn push_undo(&mut self, before: D)
        requires
            old(self).wf(),
        ensures
            final(self).wf(),
            (final(self).undo_stack(), final(self).redo_stack()) == record_step(
                old(self).undo_stack(),
                before,
            ),
    {
        self.undo.push(before);
        if self.undo.len() > HISTORY_LIMIT {
            self.undo.remove(0);
            assert(self.undo@ =~= old(self).undo@.push(before).drop_first());
        }
        self.redo.clear();
    }

    /// Steps back: `current` becomes the newest undo state and its previous
    /// value goes on the redo stack. Returns whether there was a state to go
    /// back to.
    pub fn undo(&mut self, current: &mut D) -> (moved: bool)
        requires
            old(self).wf(),
        ensures
            final(self).wf(),
            moved == (old(self).undo_stack().len() > 0),
            (final(self).undo_stack(), final(self).redo_stack(), *final(current)) == undo_step(
                (old(self).undo_stack(), old(self).redo_stack(), *old(current)),
            ),
    {
        match self.undo.pop() {
            Some(prev) => {
                let mut previous = prev;
                std::mem::swap(current, &mut previous);
                let ghost redo_before = self.redo@;
                self.redo.push(previous);
                if self.redo.len() > HISTORY_LIMIT {
                    self.redo.remove(0);
                    assert(self.redo@ =~= redo_before.push(previous).drop_first());
                }
                assert(self.undo@ =~= old(self).undo@.drop_last());
                true
            },
            None => false,
        }
    }

    /// Steps forward: `current` becomes the newest redo state and its
    /// previous value goes on the undo stack. Returns whether there was a
    /// state to go forward to.
    pub fn redo(&mut self, current: &mut D) -> (moved: bool)
        requires
            old(self).wf(),
        ensures
            final(self).wf(),
            moved == (old(self).redo_stack().len() > 0),
            (final(self).undo_stack(), final(self).redo_stack(), *final(current)) == redo_step(
                (old(self).undo_stack(), old(self).redo_stack(), *old(current)),
            ),
    {
        match self.redo.pop() {
            Some(next) => {
                let mut following = next;
                std::mem::swap(current, &mut following);
                let ghost undo_before = self.undo@;
                self.undo.push(following);
                if self.undo.len() > HISTORY_LIMIT {
                    self.undo.remove(0);
                    assert(self.undo@ =~= undo_before.push(following).drop_first());
                }
                assert(self.redo@ =~= old(self).redo@.drop_last());
                true
            },
            None => false,
        }
    }
}

/// Undoing and then redoing gives back the document and both stacks of a
/// history within its bounds, as long as the redo stack was not full (a full
/// redo stack forgets its oldest state when the undone document is pushed).
pub proof fn lemma_undo_then_redo<D>(t: Timeline<D>)
    requires
        t.0.len() > 0,
        t.0.len() <= HISTORY_LIMIT,
        t.1.len() < HISTORY_LIMIT,
    ensures
        redo_step(undo_step(t)) == t,
{
    let (undo, redo, doc) = t;
    assert(redo.push(doc).drop_last() =~= redo);
    assert(undo.drop_last().push(undo.last()) =~= undo);
    let (u1, r1, d1) = undo_step(t);
    assert(push_capped(u1, d1) =~= undo);
    assert(r1.drop_last() =~= redo);
    assert(r1.last() == doc);
}

/// Redoing and then undoing gives back the document and both stacks of a
/// history within its bounds, as long as the undo stack was not full.
pub proof fn lemma_redo_then_undo<D>(t: Timeline<D>)
    requires
        t.1.len() > 0,
        t.1.len() <= HISTORY_LIMIT,
        t.0.len() < HISTORY_LIMIT,
    ensures
        undo_step(redo_step(t)) == t,
{
    let (undo, redo, doc) = t;
    assert(undo.push(doc).drop_last() =~= undo);
    assert(redo.drop_last().push(redo.last()) =~= redo);
    let (u1, r1, d1) = redo_step(t);
    assert(push_capped(r1, d1) =~= redo);
    assert(u1.drop_last() =~= undo);
    assert(u1.last() == doc);
}

/// After an edit is recorded, the state before it is what undo brings back
/// first, and there is nothing left to redo.
pub proof fn lemma_record_then_undo<D>(undo: Seq<D>, before: D, after: D)
    requires
        undo.len() <= HISTORY_LIMIT,
    ensures
        ({
            let (u, r) = record_step(undo, before);
            &&& r.len() == 0
            &&& undo_step((u, r, after)).2 == before
            &&& u.len() <= HISTORY_LIMIT
        }),
{
}

/// Each step keeps both stacks within `HISTORY_LIMIT`.
pub proof fn lemma_steps_stay_bounded<D>(t: Timeline<D>)
    requires
        t.0.len() <= HISTORY_LIMIT,
        t.1.len() <= HISTORY_LIMIT,
    ensures
        undo_step(t).0.len() <= HISTORY_LIMIT,
        undo_step(t).1.len() <= HISTORY_LIMIT,
        redo_step(t).0.len() <= HISTORY_LIMIT,
        redo_step(t).1.len() <= HISTORY_LIMIT,
{
}

} // verus!
