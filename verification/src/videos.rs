//! The listing of saved clips: which files are clips, and their order,
//! newest first.
use vstd::prelude::*;
use crate::text::chars_of;

verus! {

/// A saved clip as the listing shows it.
pub struct SavedVideoInfo {
    pub path: String,
    pub name: String,
    /// The modification time, `YYYY-mm-dd HH:MM:SS`.
    pub modified: String,
    pub size: u64,
}

/// Whether `a` comes strictly before `b` in the order of `String`: the first
/// differing character decides, and a proper prefix comes first.
pub open spec fn text_lt(a: Seq<char>, b: Seq<char>) -> bool
    decreases a.len(),
{
    if b.len() == 0 {
        false
    } else if a.len() == 0 {
        true
    } else if a[0] != b[0] {
        (a[0] as int) < (b[0] as int)
    } else {
        text_lt(a.drop_first(), b.drop_first())
    }
}

/// Whether a file with this extension is a clip.
pub fn is_video_extension(ext: Option<&str>) -> (b: bool)
    ensures
        b == match ext {
            Some(e) => e@ == "mp4"@,
            None => false,
        },
{
    match ext {
        Some(e) => crate::text::same_text(e, "mp4"),
        None => false,
    }
}

/// Whether clip `a` is strictly older than clip `b`.
pub open spec fn older(a: SavedVideoInfo, b: SavedVideoInfo) -> bool {
    text_lt(a.modified@, b.modified@)
}

/// Where a clip goes in a listing that is newest first: after every clip that
/// is not older than it.
pub open spec fn insert_pos(s: Seq<SavedVideoInfo>, x: SavedVideoInfo) -> int
    decreases s.len(),
{
    if s.len() == 0 {
        0
    } else if older(s[0], x) {
        0
    } else {
        1 + insert_pos(s.drop_first(), x)
    }
}

/// The clips newest first; clips of the same time keep their order.
pub open spec fn newest_first(s: Seq<SavedVideoInfo>) -> Seq<SavedVideoInfo>
    decreases s.len(),
{
    if s.len() == 0 {
        seq![]
    } else {
        let before = newest_first(s.drop_last());
        before.insert(insert_pos(before, s.last()), s.last())
    }
}

/// No clip comes before a newer one.
pub open spec fn is_newest_first(s: Seq<SavedVideoInfo>) -> bool {
    forall|i: int, j: int| 0 <= i < j < s.len() ==> !older(#[trigger] s[i], #[trigger] s[j])
}

proof fn lemma_text_lt_asym(a: Seq<char>, b: Seq<char>)
    ensures
        !(text_lt(a, b) && text_lt(b, a)),
    decreases a.len(),
{
    if a.len() > 0 && b.len() > 0 && a[0] == b[0] {
        lemma_text_lt_asym(a.drop_first(), b.drop_first());
    }
}

proof fn lemma_text_lt_total(a: Seq<char>, b: Seq<char>)
    ensures
        text_lt(a, b) || text_lt(b, a) || a == b,
    decreases a.len(),
{
    if a.len() > 0 && b.len() > 0 && a[0] == b[0] {
        lemma_text_lt_total(a.drop_first(), b.drop_first());
        if a.drop_first() == b.drop_first() {
            assert(a =~= seq![a[0]] + a.drop_first());
            assert(b =~= seq![b[0]] + b.drop_first());
        }
    } else if a.len() == 0 && b.len() == 0 {
        assert(a =~= b);
    } else if a.len() > 0 && b.len() > 0 {
        assert((a[0] as int) != (b[0] as int));
    }
}

proof fn lemma_text_lt_trans(a: Seq<char>, b: Seq<char>, c: Seq<char>)
    requires
        text_lt(a, b),
        text_lt(b, c),
    ensures
        text_lt(a, c),
    decreases a.len(),
{
    if a.len() > 0 && b.len() > 0 && c.len() > 0 && a[0] == b[0] && b[0] == c[0] {
        lemma_text_lt_trans(a.drop_first(), b.drop_first(), c.drop_first());
    }
}

proof fn lemma_insert_pos(s: Seq<SavedVideoInfo>, x: SavedVideoInfo)
    requires
        is_newest_first(s),
    ensures
        0 <= insert_pos(s, x) <= s.len(),
        forall|i: int| 0 <= i < insert_pos(s, x) ==> !older(#[trigger] s[i], x),
        forall|i: int| insert_pos(s, x) <= i < s.len() ==> older(#[trigger] s[i], x),
    decreases s.len(),
{
    if s.len() > 0 {
        let t = s.drop_first();
        assert(is_newest_first(t)) by {
            assert forall|i: int, j: int| 0 <= i < j < t.len() implies !older(
                #[trigger] t[i],
                #[trigger] t[j],
            ) by {
                assert(t[i] == s[i + 1] && t[j] == s[j + 1]);
            }
        }
        lemma_insert_pos(t, x);
        if older(s[0], x) {
            assert forall|i: int| 0 <= i < s.len() implies older(#[trigger] s[i], x) by {
                if i > 0 {
                    assert(!older(s[0], s[i]));
                    lemma_text_lt_total(s[0].modified@, s[i].modified@);
                    if text_lt(s[i].modified@, s[0].modified@) {
                        lemma_text_lt_trans(s[i].modified@, s[0].modified@, x.modified@);
                    }
                }
            }
        } else {
            assert forall|i: int| 0 <= i < insert_pos(s, x) implies !older(#[trigger] s[i], x) by {
                if i > 0 {
                    assert(s[i] == t[i - 1]);
                }
            }
            assert forall|i: int| insert_pos(s, x) <= i < s.len() implies older(#[trigger] s[i], x) by {
                assert(s[i] == t[i - 1]);
            }
        }
    }
}

/// The clips, newest first, are in order: no clip comes before a newer one.
pub proof fn law_newest_first_sorted(s: Seq<SavedVideoInfo>)
    ensures
        is_newest_first(newest_first(s)),
    decreases s.len(),
{
    if s.len() > 0 {
        let before = newest_first(s.drop_last());
        law_newest_first_sorted(s.drop_last());
        let x = s.last();
        lemma_insert_pos(before, x);
        let p = insert_pos(before, x);
        let r = before.insert(p, x);
        assert forall|i: int, j: int| 0 <= i < j < r.len() implies !older(
            #[trigger] r[i],
            #[trigger] r[j],
        ) by {
            if j < p {
                assert(r[i] == before[i] && r[j] == before[j]);
            } else if j == p {
                assert(r[j] == x && r[i] == before[i]);
                assert(!older(before[i], x));
                lemma_text_lt_total(before[i].modified@, x.modified@);
                lemma_text_lt_asym(before[i].modified@, x.modified@);
            } else if i == p {
                assert(r[i] == x && r[j] == before[j - 1]);
                assert(older(before[j - 1], x));
                lemma_text_lt_asym(before[j - 1].modified@, x.modified@);
            } else if i < p {
                assert(r[i] == before[i] && r[j] == before[j - 1]);
            } else {
                assert(r[i] == before[i - 1] && r[j] == before[j - 1]);
            }
        }
    }
}

/// The clips, newest first, are the same clips: none lost, none added.
pub proof fn law_newest_first_permutes(s: Seq<SavedVideoInfo>)
    ensures
        newest_first(s).to_multiset() == s.to_multiset(),
    decreases s.len(),
{
    broadcast use vstd::seq_lib::group_to_multiset_ensures;

    if s.len() > 0 {
        law_newest_first_permutes(s.drop_last());
        let before = newest_first(s.drop_last());
        law_newest_first_sorted(s.drop_last());
        lemma_insert_pos(before, s.last());
        vstd::seq_lib::to_multiset_insert(before, insert_pos(before, s.last()), s.last());
        assert(s.drop_last().push(s.last()) =~= s);
    }
}

/// Whether `a` comes strictly before `b`.
fn text_lt_exec(a: &Vec<char>, b: &Vec<char>) -> (r: bool)
    ensures
        r == text_lt(a@, b@),
{
    let mut i: usize = 0;
    assert(a@.skip(0) =~= a@);
    assert(b@.skip(0) =~= b@);
    while i < a.len() && i < b.len() && a[i] == b[i]
        invariant
            i <= a@.len(),
            i <= b@.len(),
            text_lt(a@, b@) == text_lt(a@.skip(i as int), b@.skip(i as int)),
        decreases a.len() - i,
    {
        assert(a@.skip(i as int).drop_first() =~= a@.skip(i + 1));
        assert(b@.skip(i as int).drop_first() =~= b@.skip(i + 1));
        i = i + 1;
    }
    if i == b.len() {
        false
    } else if i == a.len() {
        true
    } else {
        a[i] < b[i]
    }
}

/// Orders the clips newest first, as a stable sort by modification time,
/// latest first, does.
pub fn sort_newest_first(files: Vec<SavedVideoInfo>) -> (out: Vec<SavedVideoInfo>)
    ensures
        out@ == newest_first(files@),
{
    let ghost input = files@;
    let mut rest = files;
    let mut out: Vec<SavedVideoInfo> = Vec::new();
    let mut k: usize = 0;
    let n: usize = rest.len();
    assert(input.take(0) =~= Seq::<SavedVideoInfo>::empty());
    while rest.len() > 0
        invariant
            n == input.len(),
            k + rest@.len() == n,
            rest@ == input.skip(k as int),
            out@ == newest_first(input.take(k as int)),
        decreases rest@.len(),
    {
        let x = rest.remove(0);
        assert(x == input[k as int]);
        assert(rest@ =~= input.skip(k + 1));
        let key = chars_of(x.modified.as_str());
        let mut p: usize = 0;
        proof {
            assert(insert_pos(out@, x) == insert_pos(out@.skip(0), x)) by {
                assert(out@.skip(0) =~= out@);
            }
        }
        while p < out.len() && !text_lt_exec(&chars_of(out[p].modified.as_str()), &key)
            invariant
                p <= out@.len(),
                key@ == x.modified@,
                insert_pos(out@, x) == p + insert_pos(out@.skip(p as int), x),
            decreases out.len() - p,
        {
            assert(out@.skip(p as int).drop_first() =~= out@.skip(p + 1));
            p = p + 1;
        }
        assert(insert_pos(out@, x) == p);
        assert(input.take(k + 1).drop_last() =~= input.take(k as int));
        assert(input.take(k + 1).last() == x);
        out.insert(p, x);
        k = k + 1;
    }
    assert(input.take(n as int) =~= input);
    out
}

} // verus!
