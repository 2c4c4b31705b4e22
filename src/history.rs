//! Linear undo/redo history of full document snapshots.
use vstd::prelude::*;

use crate::doc::{views, DeepCopy, Doc, DocView};

verus! {

#[derive(Debug, Default, Clone)]
pub struct History {
    pub undo_stack: Vec<Doc>,
    pub redo_stack: Vec<Doc>,
}

pub struct HistoryView {
    pub undo: Seq<DocView>,
    pub redo: Seq<DocView>,
}

impl View for History {
    type V = HistoryView;

    open spec fn view(&self) -> HistoryView {
        HistoryView { undo: views(self.undo_stack@), redo: views(self.redo_stack@) }
    }
}

/// The history after a snapshot of `d` is taken before an edit: `d` goes on
/// top of the undo stack and the redo stack is emptied.
pub open spec fn recorded(h: HistoryView, d: DocView) -> HistoryView {
    HistoryView { undo: h.undo.push(d), redo: Seq::empty() }
}

impl History {
    pub fn new() -> (r: Self)
        ensures
            r@.undo.len() == 0,
            r@.redo.len() == 0,
    {
        History { undo_stack: Vec::new(), redo_stack: Vec::new() }
    }

    pub fn clear(&mut self)
        ensures
            final(self)@.undo.len() == 0,
            final(self)@.redo.len() == 0,
    {
        self.undo_stack.clear();
        self.redo_stack.clear();
    }

    /// Record the current state before making a change.
    pub fn record_before_change(&mut self, current: &Doc)
        ensures
            final(self)@ == recorded(old(self)@, current@),
    {
        let snap = current.deep_copy();
        self.undo_stack.push(snap);
        self.redo_stack.clear();
        assert(final(self)@.undo =~= old(self)@.undo.push(current@));
        assert(final(self)@.redo =~= Seq::<DocView>::empty());
    }

    /// Undo into the provided doc. Returns true if a change occurred.
    pub fn undo(&mut self, doc: &mut Doc) -> (changed: bool)
        ensures
            changed == (old(self)@.undo.len() > 0),
            changed ==> {
                &&& final(doc)@ == old(self)@.undo.last()
                &&& final(self)@.undo == old(self)@.undo.drop_last()
                &&& final(self)@.redo == old(self)@.redo.push(old(doc)@)
            },
            !changed ==> final(self)@ == old(self)@ && final(doc)@ == old(doc)@,
    {
        match self.undo_stack.pop() {
            Some(prev) => {
                let mut cur = prev;
                std::mem::swap(&mut cur, doc);
                self.redo_stack.push(cur);
                assert(final(self)@.undo =~= old(self)@.undo.drop_last());
                assert(final(self)@.redo =~= old(self)@.redo.push(old(doc)@));
                true
            },
            None => false,
        }
    }

    /// Redo into the provided doc. Returns true if a change occurred.
    pub fn redo(&mut self, doc: &mut Doc) -> (changed: bool)
        ensures
            changed == (old(self)@.redo.len() > 0),
            changed ==> {
                &&& final(doc)@ == old(self)@.redo.last()
                &&& final(self)@.redo == old(self)@.redo.drop_last()
                &&& final(self)@.undo == old(self)@.undo.push(old(doc)@)
            },
            !changed ==> final(self)@ == old(self)@ && final(doc)@ == old(doc)@,
    {
        match self.redo_stack.pop() {
            Some(next) => {
                let mut cur = next;
                std::mem::swap(&mut cur, doc);
                self.undo_stack.push(cur);
                assert(final(self)@.redo =~= old(self)@.redo.drop_last());
                assert(final(self)@.undo =~= old(self)@.undo.push(old(doc)@));
                true
            },
            None => false,
        }
    }
}


/// The history and document after an undo; unchanged when there is nothing
/// to undo.
pub open spec fn undo_spec(h: HistoryView, d: DocView) -> (HistoryView, DocView) {
    if h.undo.len() > 0 {
        (HistoryView { undo: h.undo.drop_last(), redo: h.redo.push(d) }, h.undo.last())
    } else {
        (h, d)
    }
}

/// The history and document after a redo; unchanged when there is nothing
/// to redo.
pub open spec fn redo_spec(h: HistoryView, d: DocView) -> (HistoryView, DocView) {
    if h.redo.len() > 0 {
        (HistoryView { undo: h.undo.push(d), redo: h.redo.drop_last() }, h.redo.last())
    } else {
        (h, d)
    }
}

/// Undo and redo are inverses. An undo right after an edit that took
/// document `d` to `d2` brings back `d`, with `d2` ready to redo; a redo then
/// brings back `d2` and the history as the edit left it. More generally, a
/// redo after any undo that did something, and an undo after any redo that
/// did something, restore both the document and the history.
pub proof fn lemma_undo_redo_inverse(h: HistoryView, d: DocView, d2: DocView)
    ensures
        undo_spec(recorded(h, d), d2) == (HistoryView { undo: h.undo, redo: seq![d2] }, d),
        redo_spec(undo_spec(recorded(h, d), d2).0, undo_spec(recorded(h, d), d2).1) == (recorded(h, d), d2),
        h.undo.len() > 0 ==> redo_spec(undo_spec(h, d).0, undo_spec(h, d).1) == (h, d),
        h.redo.len() > 0 ==> undo_spec(redo_spec(h, d).0, redo_spec(h, d).1) == (h, d),
{
    assert(h.undo.push(d).drop_last() =~= h.undo);
    assert(Seq::<DocView>::empty().push(d2) =~= seq![d2]);
    assert(seq![d2].drop_last() =~= Seq::<DocView>::empty());
    if h.undo.len() > 0 {
        assert(h.undo.drop_last().push(h.undo.last()) =~= h.undo);
        assert(h.redo.push(d).drop_last() =~= h.redo);
    }
    if h.redo.len() > 0 {
        assert(h.redo.drop_last().push(h.redo.last()) =~= h.redo);
        assert(h.undo.push(d).drop_last() =~= h.undo);
    }
}

} // verus!
