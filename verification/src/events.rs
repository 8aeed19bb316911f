//! The de-duplication and delayed release of game events read by polling:
//! each event id is taken in once, and taken-in events wait until they are
//! ready to be handled.
use vstd::prelude::*;
use std::collections::HashSet;

verus! {

broadcast use vstd::std_specs::hash::group_hash_axioms;

/// The items of `items` whose flag equals `want`, in their order.
pub open spec fn select<T>(items: Seq<T>, flags: Seq<bool>, want: bool) -> Seq<T>
    decreases items.len(),
{
    if items.len() == 0 {
        seq![]
    } else {
        let before = select(items.drop_last(), flags.drop_last(), want);
        if flags[items.len() - 1] == want {
            before.push(items.last())
        } else {
            before
        }
    }
}

/// The ids of id-tagged items, in order.
pub open spec fn ids_of<T>(items: Seq<(i64, T)>) -> Seq<i64> {
    items.map_values(|p: (i64, T)| p.0)
}

/// Event ids already taken in, and the items taken in that still wait, each
/// beside its id; and, for the proofs, the ids handed on so far.
pub struct EventTracker<T> {
    seen: HashSet<i64>,
    pending: Vec<(i64, T)>,
    handed: Ghost<Seq<i64>>,
}

impl<T> EventTracker<T> {
    /// The ids taken in so far.
    pub closed spec fn seen_ids(&self) -> Set<i64> {
        self.seen@
    }

    /// The items waiting to be released, oldest first, each with its id.
    pub closed spec fn waiting(&self) -> Seq<(i64, T)> {
        self.pending@
    }

    /// The ids of the waiting items, oldest first.
    pub open spec fn waiting_ids(&self) -> Seq<i64> {
        ids_of(self.waiting())
    }

    /// The ids handed on by `release` so far, in the order they left.
    pub closed spec fn handed_ids(&self) -> Seq<i64> {
        self.handed@
    }

    /// What every tracker keeps: no id waits twice or is handed on twice,
    /// each of them was taken in, and no id handed on waits again.
    pub open spec fn well_formed(&self) -> bool {
        run_invariant(self.seen_ids(), self.waiting_ids(), self.handed_ids())
    }

    /// A tracker that has seen nothing.
    pub fn new() -> (t: Self)
        ensures
            t.seen_ids() == Set::<i64>::empty(),
            t.waiting() == Seq::<(i64, T)>::empty(),
            t.handed_ids() == Seq::<i64>::empty(),
            t.well_formed(),
    {
        let t = EventTracker { seen: HashSet::new(), pending: Vec::new(), handed: Ghost(Seq::empty()) };
        assert(t.waiting_ids() =~= Seq::<i64>::empty());
        t
    }

    /// Whether the id has been taken in.
    pub fn has_seen(&self, id: i64) -> (b: bool)
        ensures
            b == self.seen_ids().contains(id),
    {
        self.seen.contains(&id)
    }

    /// The items waiting to be released, oldest first, each with its id.
    pub fn pending(&self) -> (p: &Vec<(i64, T)>)
        ensures
            p@ == self.waiting(),
    {
        &self.pending
    }

    /// Takes in an event: the first time its id comes, the item joins the
    /// waiting items and `true` is returned; an id seen before changes nothing.
    pub fn take_in(&mut self, id: i64, item: T) -> (fresh: bool)
        requires
            old(self).well_formed(),
        ensures
            final(self).well_formed(),
            final(self).handed_ids() == old(self).handed_ids(),
            fresh == !old(self).seen_ids().contains(id),
            final(self).seen_ids() == old(self).seen_ids().insert(id),
            final(self).waiting() == if fresh {
                old(self).waiting().push((id, item))
            } else {
                old(self).waiting()
            },
            final(self).waiting_ids() == if fresh {
                old(self).waiting_ids().push(id)
            } else {
                old(self).waiting_ids()
            },
    {
        if !self.seen.contains(&id) {
            self.seen.insert(id);
            self.pending.push((id, item));
            proof {
                assert(ids_of(self.pending@) =~= ids_of(old(self).pending@).push(id));
                lemma_take_in_keeps(old(self).seen@, ids_of(old(self).pending@), self.handed@, id);
            }
            true
        } else {
            proof {
                assert(self.seen@.insert(id) =~= self.seen@);
            }
            false
        }
    }

    /// Releases the waiting items whose flag is set, in order, each with its
    /// id; the others keep waiting, in order.
    pub fn release(&mut self, ready: &Vec<bool>) -> (out: Vec<(i64, T)>)
        requires
            old(self).well_formed(),
            ready@.len() == old(self).waiting().len(),
        ensures
            final(self).well_formed(),
            final(self).handed_ids() == old(self).handed_ids() + ids_of(out@),
            out@ == select(old(self).waiting(), ready@, true),
            final(self).waiting() == select(old(self).waiting(), ready@, false),
            final(self).seen_ids() == old(self).seen_ids(),
            ids_of(out@) == select(old(self).waiting_ids(), ready@, true),
            final(self).waiting_ids() == select(old(self).waiting_ids(), ready@, false),
    {
        let ghost items = self.pending@;
        let ghost seen0 = self.seen@;
        let ghost handed0 = self.handed@;
        let n: usize = self.pending.len();
        let mut stack: Vec<(i64, T)> = Vec::new();
        while self.pending.len() > 0
            invariant
                n == items.len(),
                self.seen@ == seen0,
                self.handed@ == handed0,
                stack@.len() + self.pending@.len() == n,
                self.pending@ == items.take(self.pending@.len() as int),
                forall|j: int| 0 <= j < stack@.len() ==> #[trigger] stack@[j] == items[n - 1 - j],
            decreases self.pending@.len(),
        {
            let ghost len = self.pending@.len();
            let x = self.pending.pop().unwrap();
            assert(x == items[len - 1]);
            stack.push(x);
            assert(self.pending@ =~= items.take(len - 1));
        }
        let mut out: Vec<(i64, T)> = Vec::new();
        let mut keep: Vec<(i64, T)> = Vec::new();
        let mut k: usize = 0;
        assert(items.take(0) =~= Seq::<(i64, T)>::empty());
        assert(ready@.take(0) =~= Seq::<bool>::empty());
        while k < n
            invariant
                n == items.len(),
                self.seen@ == seen0,
                self.handed@ == handed0,
                ready@.len() == n,
                k <= n,
                stack@.len() == n - k,
                forall|j: int| 0 <= j < stack@.len() ==> #[trigger] stack@[j] == items[n - 1 - j],
                out@ == select(items.take(k as int), ready@.take(k as int), true),
                keep@ == select(items.take(k as int), ready@.take(k as int), false),
            decreases n - k,
        {
            let x = stack.pop().unwrap();
            assert(x == items[k as int]);
            assert(items.take(k + 1).drop_last() =~= items.take(k as int));
            assert(ready@.take(k + 1).drop_last() =~= ready@.take(k as int));
            assert(items.take(k + 1).last() == items[k as int]);
            if ready[k] {
                out.push(x);
            } else {
                keep.push(x);
            }
            k = k + 1;
        }
        assert(items.take(n as int) =~= items);
        assert(ready@.take(n as int) =~= ready@);
        self.pending = keep;
        proof {
            lemma_select_ids(items, ready@, true);
            lemma_select_ids(items, ready@, false);
            lemma_release_keeps(seen0, ids_of(items), handed0, ready@);
        }
        self.handed = Ghost(self.handed@ + ids_of(out@));
        out
    }
}

/// Selecting id-tagged items and then taking their ids gives the ids selected
/// from the ids.
proof fn lemma_select_ids<T>(items: Seq<(i64, T)>, flags: Seq<bool>, want: bool)
    ensures
        ids_of(select(items, flags, want)) == select(ids_of(items), flags, want),
    decreases items.len(),
{
    if items.len() > 0 {
        lemma_select_ids(items.drop_last(), flags.drop_last(), want);
        assert(ids_of(items).drop_last() =~= ids_of(items.drop_last()));
        let before = select(items.drop_last(), flags.drop_last(), want);
        assert(ids_of(before.push(items.last())) =~= ids_of(before).push(items.last().0));
    }
}

/// Released and still-waiting items together are the waiting items: every
/// item leaves through exactly one of the two, and each side keeps the order.
pub proof fn law_release_partitions<T>(items: Seq<T>, flags: Seq<bool>)
    requires
        items.len() == flags.len(),
    ensures
        select(items, flags, true).len() + select(items, flags, false).len() == items.len(),
        select(items, flags, true).to_multiset().add(select(items, flags, false).to_multiset())
            == items.to_multiset(),
    decreases items.len(),
{
    broadcast use vstd::seq_lib::group_to_multiset_ensures;

    if items.len() > 0 {
        law_release_partitions(items.drop_last(), flags.drop_last());
        assert(items.drop_last().push(items.last()) =~= items);
    }
}

/// Taking in an id a second time changes nothing: an event is handled once.
pub proof fn law_take_in_once<T>(
    seen: Set<i64>,
    waiting: Seq<T>,
    id: i64,
    first: T,
    again: T,
)
    ensures
        ({
            let seen1 = seen.insert(id);
            let waiting1 = if seen.contains(id) { waiting } else { waiting.push(first) };
            &&& seen1.contains(id)
            &&& seen1.insert(id) == seen1
            &&& (if seen1.contains(id) { waiting1 } else { waiting1.push(again) }) == waiting1
        }),
{
    assert(seen.insert(id).insert(id) =~= seen.insert(id));
}

/// What a run of polls does to a tracker, told by ids: a step `(true, id, _)`
/// takes in an event with that id, a step `(false, _, flags)` releases the
/// waiting items whose flag is set. Gives the ids taken in, the ids still
/// waiting, and the ids handed on, in the order they were released.
pub open spec fn poll_run(
    seen: Set<i64>,
    waiting: Seq<i64>,
    steps: Seq<(bool, i64, Seq<bool>)>,
) -> (Set<i64>, Seq<i64>, Seq<i64>)
    decreases steps.len(),
{
    if steps.len() == 0 {
        (seen, waiting, seq![])
    } else {
        let prev = poll_run(seen, waiting, steps.drop_last());
        let step = steps.last();
        if step.0 {
            if prev.0.contains(step.1) {
                prev
            } else {
                (prev.0.insert(step.1), prev.1.push(step.1), prev.2)
            }
        } else {
            (prev.0, select(prev.1, step.2, false), prev.2 + select(prev.1, step.2, true))
        }
    }
}

/// What holds after every step of a run: no id waits twice or was handed on
/// twice, every waiting or handed-on id was taken in, and no handed-on id waits.
pub open spec fn run_invariant(seen: Set<i64>, waiting: Seq<i64>, handed: Seq<i64>) -> bool {
    &&& waiting.no_duplicates()
    &&& handed.no_duplicates()
    &&& forall|x: i64| waiting.contains(x) ==> seen.contains(x)
    &&& forall|x: i64| handed.contains(x) ==> seen.contains(x)
    &&& forall|x: i64| !(#[trigger] waiting.contains(x) && handed.contains(x))
}

/// The two sides of a release come out of the waiting ids, and, where no id
/// waits twice, neither side repeats an id and no id is on both sides.
proof fn lemma_select_parts(items: Seq<i64>, flags: Seq<bool>)
    ensures
        forall|x: i64| #[trigger] select(items, flags, true).contains(x) ==> items.contains(x),
        forall|x: i64| #[trigger] select(items, flags, false).contains(x) ==> items.contains(x),
        items.no_duplicates() ==> {
            &&& select(items, flags, true).no_duplicates()
            &&& select(items, flags, false).no_duplicates()
            &&& forall|x: i64|
                !(#[trigger] select(items, flags, true).contains(x) && select(
                    items,
                    flags,
                    false,
                ).contains(x))
        },
    decreases items.len(),
{
    if items.len() > 0 {
        let rest = items.drop_last();
        let f = flags.drop_last();
        lemma_select_parts(rest, f);
        let last = items.last();
        assert(rest.no_duplicates() || !items.no_duplicates());
        assert forall|x: i64| rest.contains(x) implies items.contains(x) by {
            let i = choose|i: int| 0 <= i < rest.len() && rest[i] == x;
            assert(items[i] == x);
        }
        assert(items.no_duplicates() ==> !rest.contains(last)) by {
            if items.no_duplicates() && rest.contains(last) {
                let i = choose|i: int| 0 <= i < rest.len() && rest[i] == last;
                assert(items[i] == items[items.len() - 1]);
            }
        }
        assert(items.contains(last)) by {
            assert(items[items.len() - 1] == last);
        }
        let t = select(rest, f, true);
        let u = select(rest, f, false);
        assert forall|x: i64| #[trigger] t.push(last).contains(x) implies x == last || t.contains(x) by {
            let i = choose|i: int| 0 <= i < t.push(last).len() && t.push(last)[i] == x;
            if i < t.len() {
                assert(t[i] == x);
            }
        }
        assert forall|x: i64| #[trigger] u.push(last).contains(x) implies x == last || u.contains(x) by {
            let i = choose|i: int| 0 <= i < u.push(last).len() && u.push(last)[i] == x;
            if i < u.len() {
                assert(u[i] == x);
            }
        }
        if items.no_duplicates() {
            assert(!t.contains(last));
            assert(!u.contains(last));
            assert(t.push(last).no_duplicates()) by {
                assert forall|i: int, j: int|
                    0 <= i < t.push(last).len() && 0 <= j < t.push(last).len() && i != j implies
                    t.push(last)[i] != t.push(last)[j] by {
                    if i == t.len() {
                        assert(t.contains(t[j]));
                    } else if j == t.len() {
                        assert(t.contains(t[i]));
                    }
                }
            }
            assert(u.push(last).no_duplicates()) by {
                assert forall|i: int, j: int|
                    0 <= i < u.push(last).len() && 0 <= j < u.push(last).len() && i != j implies
                    u.push(last)[i] != u.push(last)[j] by {
                    if i == u.len() {
                        assert(u.contains(u[j]));
                    } else if j == u.len() {
                        assert(u.contains(u[i]));
                    }
                }
            }
        }
    }
}

/// Taking in a fresh id keeps the invariant.
proof fn lemma_take_in_keeps(seen: Set<i64>, w: Seq<i64>, h: Seq<i64>, id: i64)
    requires
        run_invariant(seen, w, h),
        !seen.contains(id),
    ensures
        run_invariant(seen.insert(id), w.push(id), h),
{
    let w2 = w.push(id);
    assert forall|x: i64| #[trigger] w2.contains(x) implies x == id || w.contains(x) by {
        let i = choose|i: int| 0 <= i < w2.len() && w2[i] == x;
        if i < w.len() {
            assert(w[i] == x);
        }
    }
    assert(!w.contains(id));
    assert(w2.no_duplicates()) by {
        assert forall|i: int, j: int| 0 <= i < w2.len() && 0 <= j < w2.len() && i != j implies w2[i]
            != w2[j] by {
            if i == w.len() {
                assert(w.contains(w[j]));
            } else if j == w.len() {
                assert(w.contains(w[i]));
            }
        }
    }
}

/// Releasing keeps the invariant, the released ids joining those handed on.
proof fn lemma_release_keeps(seen: Set<i64>, w: Seq<i64>, h: Seq<i64>, flags: Seq<bool>)
    requires
        run_invariant(seen, w, h),
    ensures
        run_invariant(seen, select(w, flags, false), h + select(w, flags, true)),
{
    lemma_select_parts(w, flags);
    let out = select(w, flags, true);
    let h2 = h + out;
    assert forall|x: i64| #[trigger] h2.contains(x) implies h.contains(x) || out.contains(x) by {
        let i = choose|i: int| 0 <= i < h2.len() && h2[i] == x;
        if i < h.len() {
            assert(h[i] == x);
        } else {
            assert(out[i - h.len()] == x);
        }
    }
    assert forall|x: i64| h.contains(x) implies #[trigger] h2.contains(x) by {
        let i = choose|i: int| 0 <= i < h.len() && h[i] == x;
        assert(h2[i] == x);
    }
    assert forall|x: i64| out.contains(x) implies #[trigger] h2.contains(x) by {
        let i = choose|i: int| 0 <= i < out.len() && out[i] == x;
        assert(h2[h.len() + i] == x);
    }
    assert forall|i: int, j: int| 0 <= i < h.len() && 0 <= j < out.len() implies h[i] != out[j] by {
        assert(h.contains(h[i]));
        assert(out.contains(out[j]));
    }
    vstd::seq_lib::lemma_no_dup_in_concat(h, out);
}

/// A run keeps its invariant through every step.
proof fn lemma_run_step(seen: Set<i64>, waiting: Seq<i64>, steps: Seq<(bool, i64, Seq<bool>)>)
    requires
        run_invariant(seen, waiting, seq![]),
    ensures
        ({
            let r = poll_run(seen, waiting, steps);
            run_invariant(r.0, r.1, r.2)
        }),
    decreases steps.len(),
{
    if steps.len() > 0 {
        lemma_run_step(seen, waiting, steps.drop_last());
        let prev = poll_run(seen, waiting, steps.drop_last());
        let step = steps.last();
        if step.0 {
            if !prev.0.contains(step.1) {
                lemma_take_in_keeps(prev.0, prev.1, prev.2, step.1);
            }
        } else {
            lemma_release_keeps(prev.0, prev.1, prev.2, step.2);
        }
    }
}

/// Over any run of polls from a fresh tracker, each event id is handed on at
/// most once, however often it comes back in later responses: the ids handed
/// on never repeat, each was taken in, and none of them waits again.
pub proof fn law_each_id_handed_on_once(steps: Seq<(bool, i64, Seq<bool>)>)
    ensures
        ({
            let r = poll_run(Set::empty(), seq![], steps);
            &&& r.2.no_duplicates()
            &&& forall|x: i64| r.2.contains(x) ==> r.0.contains(x)
            &&& forall|x: i64| !(#[trigger] r.1.contains(x) && r.2.contains(x))
        }),
{
    lemma_run_step(Set::empty(), seq![], steps);
}

/// Whatever calls a tracker has been through since `new`, each event id has
/// been handed on at most once, however often it came back: the ids
/// `release` handed on never repeat, each of them was taken in, and none of
/// them waits again.
pub proof fn law_tracker_hands_each_id_once<T>(t: EventTracker<T>)
    requires
        t.well_formed(),
    ensures
        t.handed_ids().no_duplicates(),
        forall|x: i64| t.handed_ids().contains(x) ==> t.seen_ids().contains(x),
        forall|x: i64| !(#[trigger] t.waiting_ids().contains(x) && t.handed_ids().contains(x)),
{
}

/// A release hands on only ids that were not handed on before.
pub proof fn law_release_hands_on_new_ids<T>(
    before: EventTracker<T>,
    after: EventTracker<T>,
    out: Seq<(i64, T)>,
)
    requires
        after.well_formed(),
        after.handed_ids() == before.handed_ids() + ids_of(out),
    ensures
        forall|i: int, j: int|
            0 <= i < out.len() && 0 <= j < before.handed_ids().len() ==> out[i].0
                != before.handed_ids()[j],
{
    let h = before.handed_ids();
    let o = ids_of(out);
    assert forall|i: int, j: int| 0 <= i < out.len() && 0 <= j < h.len() implies out[i].0 != h[j] by {
        assert((h + o)[j] == h[j]);
        assert((h + o)[h.len() + i] == o[i]);
    }
}

} // verus!
