//! The key history: recent key events, bounded by their total display width.

use std::collections::VecDeque;
use vstd::prelude::*;
use vstd::string::*;

use crate::key::{prettify, pretty, valid_event, width, KeyEvent};

verus! {

/// The total display width of a sequence of events.
pub open spec fn total_width(s: Seq<KeyEvent>) -> nat
    decreases s.len(),
{
    if s.len() == 0 {
        0
    } else {
        total_width(s.drop_last()) + width(s.last())
    }
}

/// The renderings of a sequence of events, concatenated oldest first.
pub open spec fn render_seq(s: Seq<KeyEvent>) -> Seq<char>
    decreases s.len(),
{
    if s.len() == 0 {
        Seq::empty()
    } else {
        render_seq(s.drop_last()) + pretty(s.last())
    }
}

/// Drops events from the front until the total width fits the budget.
pub open spec fn trim_front(s: Seq<KeyEvent>, budget: nat) -> Seq<KeyEvent>
    decreases s.len(),
{
    if s.len() == 0 || total_width(s) <= budget {
        s
    } else {
        trim_front(s.drop_first(), budget)
    }
}

/// The abstract state of a [`History`]: its events, oldest first, and its
/// width budget.
pub ghost struct HistoryModel {
    pub entries: Seq<KeyEvent>,
    pub budget: nat,
}

impl HistoryModel {
    pub open spec fn width(self) -> nat {
        total_width(self.entries)
    }

    pub open spec fn rendered(self) -> Seq<char> {
        render_seq(self.entries)
    }

    /// Appends an event, then evicts from the front until the budget holds.
    pub open spec fn pushed(self, e: KeyEvent) -> HistoryModel {
        HistoryModel { entries: trim_front(self.entries.push(e), self.budget), budget: self.budget }
    }

    /// Empties the history; the budget stays.
    pub open spec fn cleared(self) -> HistoryModel {
        HistoryModel { entries: Seq::empty(), budget: self.budget }
    }

    /// Sets a new budget and evicts from the front until it holds.
    pub open spec fn with_budget(self, budget: nat) -> HistoryModel {
        HistoryModel { entries: trim_front(self.entries, budget), budget }
    }
}

/// Recent key events, oldest first, whose total display width never exceeds
/// the budget.
#[derive(Debug)]
pub struct History {
    history: VecDeque<KeyEvent>,
    cur_width: usize,
    max_width: usize,
}

impl View for History {
    type V = HistoryModel;

    closed spec fn view(&self) -> HistoryModel {
        HistoryModel { entries: self.history@, budget: self.max_width as nat }
    }
}

/// The width of the first event plus that of the rest.
pub proof fn lemma_total_width_front(s: Seq<KeyEvent>)
    requires
        s.len() > 0,
    ensures
        total_width(s) == width(s[0]) + total_width(s.drop_first()),
    decreases s.len(),
{
    if s.len() > 1 {
        let dl = s.drop_last();
        let df = s.drop_first();
        lemma_total_width_front(dl);
        assert(dl.drop_first() =~= df.drop_last());
        assert(dl[0] == s[0]);
        assert(df.last() == s.last());
        assert(total_width(df) == total_width(df.drop_last()) + width(df.last()));
    } else {
        assert(s.drop_first().len() == 0);
        assert(s.drop_last().len() == 0);
        assert(total_width(s.drop_first()) == 0);
        assert(total_width(s.drop_last()) == 0);
        assert(s.last() == s[0]);
    }
}

/// Appending an event adds its width.
pub proof fn lemma_total_width_push(s: Seq<KeyEvent>, e: KeyEvent)
    ensures
        total_width(s.push(e)) == total_width(s) + width(e),
{
    assert(s.push(e).drop_last() =~= s);
}

/// Trimming yields a suffix of the input that fits the budget.
pub proof fn lemma_trim_front(s: Seq<KeyEvent>, budget: nat)
    ensures
        trim_front(s, budget).len() <= s.len(),
        trim_front(s, budget) == s.subrange(s.len() - trim_front(s, budget).len(), s.len() as int),
        total_width(trim_front(s, budget)) <= budget,
        total_width(s) <= budget ==> trim_front(s, budget) == s,
    decreases s.len(),
{
    if s.len() == 0 || total_width(s) <= budget {
        assert(s.subrange(0, s.len() as int) =~= s);
    } else {
        lemma_trim_front(s.drop_first(), budget);
        let t = trim_front(s.drop_first(), budget);
        assert(s.drop_first().subrange(s.drop_first().len() - t.len(), s.drop_first().len() as int)
            =~= s.subrange(s.len() - t.len(), s.len() as int));
    }
}

/// An event wider than the budget leaves nothing after trimming.
proof fn lemma_trim_too_wide(s: Seq<KeyEvent>, e: KeyEvent, budget: nat)
    requires
        width(e) > budget,
    ensures
        trim_front(s.push(e), budget) == Seq::<KeyEvent>::empty(),
    decreases s.len(),
{
    lemma_total_width_push(s, e);
    let p = s.push(e);
    assert(total_width(p) > budget);
    if s.len() == 0 {
        assert(p.drop_first() =~= Seq::<KeyEvent>::empty());
        assert(trim_front(p.drop_first(), budget) == p.drop_first());
    } else {
        assert(p.drop_first() =~= s.drop_first().push(e));
        lemma_trim_too_wide(s.drop_first(), e, budget);
    }
    assert(trim_front(p, budget) == trim_front(p.drop_first(), budget));
}

impl History {
    /// The history's invariant: the recorded width is the total width of
    /// the events, it fits the budget, and every event is valid.
    pub closed spec fn wf(&self) -> bool {
        &&& self.cur_width as nat == total_width(self.history@)
        &&& self.cur_width <= self.max_width
        &&& forall|i: int| 0 <= i < self.history@.len() ==> valid_event(#[trigger] self.history@[i])
    }

    /// An empty history with the given width budget.
    pub fn new(limit: usize) -> (r: History)
        ensures
            r.wf(),
            r@.entries == Seq::<KeyEvent>::empty(),
            r@.budget == limit as nat,
    {
        History { history: VecDeque::new(), cur_width: 0, max_width: limit }
    }

    /// The total display width of the events held.
    pub fn width(&self) -> (w: usize)
        requires
            self.wf(),
        ensures
            w as nat == self@.width(),
    {
        self.cur_width
    }

    /// The width budget.
    pub fn budget(&self) -> (b: usize)
        ensures
            b as nat == self@.budget,
    {
        self.max_width
    }

    /// The number of events held.
    pub fn len(&self) -> (n: usize)
        ensures
            n as nat == self@.entries.len(),
    {
        self.history.len()
    }

    /// Removes the oldest event and its width.
    fn evict_front(&mut self)
        requires
            old(self).cur_width as nat == total_width(old(self).history@),
            old(self).history@.len() > 0,
            forall|i: int|
                0 <= i < old(self).history@.len() ==> valid_event(#[trigger] old(self).history@[i]),
        ensures
            final(self).history@ == old(self).history@.drop_first(),
            forall|i: int|
                0 <= i < final(self).history@.len() ==> valid_event(
                    #[trigger] final(self).history@[i],
                ),
            final(self).cur_width as nat == total_width(final(self).history@),
            final(self).max_width == old(self).max_width,
    {
        proof {
            lemma_total_width_front(self.history@);
        }
        let ghost first = self.history@[0];
        let removed = self.history.pop_front();
        assert(valid_event(first));
        match removed {
            Some(item) => {
                let w = prettify(&item).as_str().unicode_len();
                self.cur_width = self.cur_width - w;
            },
            None => {},
        }
    }

    /// Records an event, then evicts the oldest events until the total width
    /// fits the budget. An event wider than the budget leaves the history
    /// empty.
    pub fn push(&mut self, item: KeyEvent)
        requires
            old(self).wf(),
            valid_event(item),
        ensures
            final(self).wf(),
            final(self)@ == old(self)@.pushed(item),
            final(self)@.width() <= final(self)@.budget,
    {
        let w = crate::key::display_width(&item);
        if w > self.max_width {
            proof {
                lemma_trim_too_wide(self.history@, item, self.max_width as nat);
            }
            self.history.clear();
            self.cur_width = 0;
            assert(self.history@ =~= Seq::<KeyEvent>::empty());
            return;
        }
        let room = self.max_width - w;
        while self.cur_width > room
            invariant
                self.cur_width as nat == total_width(self.history@),
                self.max_width == old(self).max_width,
                room == self.max_width - w,
                w == width(item),
                forall|i: int|
                    0 <= i < self.history@.len() ==> valid_event(#[trigger] self.history@[i]),
                trim_front(self.history@.push(item), self.max_width as nat) == trim_front(
                    old(self).history@.push(item),
                    self.max_width as nat,
                ),
            decreases self.history@.len(),
        {
            let ghost before = self.history@;
            proof {
                lemma_total_width_push(before, item);
                assert(before.push(item).drop_first() =~= before.drop_first().push(item));
            }
            self.evict_front();
        }
        proof {
            lemma_total_width_push(self.history@, item);
        }
        let ghost before = self.history@;
        self.history.push_back(item);
        self.cur_width = self.cur_width + w;
        assert forall|i: int| 0 <= i < self.history@.len() implies valid_event(
            #[trigger] self.history@[i],
        ) by {
            if i < before.len() {
                assert(self.history@[i] == before[i]);
            }
        }
    }

    /// Removes every event; the budget stays.
    pub fn clear(&mut self)
        ensures
            final(self).wf(),
            final(self)@ == old(self)@.cleared(),
    {
        self.history.clear();
        self.cur_width = 0;
        assert(self.history@ =~= Seq::<KeyEvent>::empty());
    }

    /// Sets a new width budget, evicting the oldest events until it holds.
    /// A budget at least the current width evicts nothing.
    pub fn set_budget(&mut self, new_width: usize)
        requires
            old(self).wf(),
        ensures
            final(self).wf(),
            final(self)@ == old(self)@.with_budget(new_width as nat),
    {
        self.max_width = new_width;
        while self.cur_width > self.max_width
            invariant
                self.cur_width as nat == total_width(self.history@),
                self.max_width == new_width,
                forall|i: int|
                    0 <= i < self.history@.len() ==> valid_event(#[trigger] self.history@[i]),
                trim_front(self.history@, new_width as nat) == trim_front(
                    old(self).history@,
                    new_width as nat,
                ),
            decreases self.history@.len(),
        {
            self.evict_front();
        }
    }

    /// The renderings of the events held, concatenated oldest first.
    pub fn render(&self) -> (r: String)
        requires
            self.wf(),
        ensures
            r@ == self@.rendered(),
    {
        let mut out = String::new();
        let n = self.history.len();
        let mut i: usize = 0;
        while i < n
            invariant
                self.wf(),
                n == self.history@.len(),
                i <= n,
                out@ == render_seq(self.history@.subrange(0, i as int)),
            decreases n - i,
        {
            let piece = prettify(&self.history[i]);
            proof {
                let s = self.history@.subrange(0, i as int + 1);
                assert(s.drop_last() =~= self.history@.subrange(0, i as int));
            }
            out.append(piece.as_str());
            i = i + 1;
        }
        assert(self.history@.subrange(0, n as int) =~= self.history@);
        out
    }

    /// The rendering of one event (see [`pretty`]).
    pub fn prettify_keycode(e: &KeyEvent) -> (r: String)
        requires
            valid_event(*e),
        ensures
            r@ == pretty(*e),
    {
        prettify(e)
    }
}

/// Rendering a sequence split in two renders each part in turn.
pub proof fn lemma_render_split(s: Seq<KeyEvent>, k: int)
    requires
        0 <= k <= s.len(),
    ensures
        render_seq(s) == render_seq(s.subrange(0, k)) + render_seq(s.subrange(k, s.len() as int)),
    decreases s.len(),
{
    if k == s.len() {
        assert(s.subrange(0, k) =~= s);
        assert(s.subrange(k, s.len() as int) =~= Seq::<KeyEvent>::empty());
        assert(render_seq(s) + Seq::<char>::empty() =~= render_seq(s));
    } else {
        let dl = s.drop_last();
        lemma_render_split(dl, k);
        let tail = s.subrange(k, s.len() as int);
        assert(dl.subrange(0, k) =~= s.subrange(0, k));
        assert(tail.drop_last() =~= dl.subrange(k, dl.len() as int));
        assert(tail.last() == s.last());
        assert(render_seq(s.subrange(0, k)) + render_seq(tail) =~= render_seq(s.subrange(0, k))
            + render_seq(dl.subrange(k, dl.len() as int)) + pretty(s.last()));
    }
}

/// Whatever the events held and whatever is pushed, the total display width
/// after a push is within the budget.
pub proof fn push_keeps_width_within_budget(m: HistoryModel, e: KeyEvent)
    ensures
        m.pushed(e).width() <= m.pushed(e).budget,
{
    lemma_trim_front(m.entries.push(e), m.budget);
}

/// Clearing and then rendering gives the empty text, whatever was held.
pub proof fn clear_then_render_is_empty(m: HistoryModel)
    ensures
        m.cleared().rendered() == Seq::<char>::empty(),
{
}

/// Lowering the budget below the current width evicts whole events from the
/// front only: the events that stay are a suffix of those held, in the same
/// order, and their rendering is a suffix of the earlier rendering.
pub proof fn shrinking_budget_evicts_from_front(m: HistoryModel, w: nat)
    requires
        w < m.width(),
    ensures
        m.with_budget(w).entries == m.entries.subrange(
            m.entries.len() - m.with_budget(w).entries.len(),
            m.entries.len() as int,
        ),
        m.with_budget(w).entries.len() < m.entries.len(),
        m.with_budget(w).width() <= w,
        m.with_budget(w).rendered() == m.rendered().subrange(
            m.rendered().len() - m.with_budget(w).rendered().len(),
            m.rendered().len() as int,
        ),
{
    let s = m.entries;
    lemma_trim_front(s, w);
    let t = m.with_budget(w).entries;
    let k = s.len() - t.len();
    assert(s.subrange(0, s.len() as int) =~= s);
    lemma_render_split(s, k);
    assert(s.subrange(k, s.len() as int) == t);
    let r = m.rendered();
    let head = render_seq(s.subrange(0, k));
    assert(r == head + render_seq(t));
    assert(r.subrange(head.len() as int, r.len() as int) =~= render_seq(t));
}

/// A budget at least the current width evicts nothing.
pub proof fn growing_budget_evicts_nothing(m: HistoryModel, w: nat)
    requires
        w >= m.width(),
    ensures
        m.with_budget(w).entries == m.entries,
{
    lemma_trim_front(m.entries, w);
}

} // verus!
