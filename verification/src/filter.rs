//! Spike removal for tracked positions: a rolling window of the last five
//! positions, whose per-axis median is reported. With two positions in the
//! window the older one is reported, since the newer one may be a spike;
//! with three or more, a single-frame spike lands at an end of the sorted
//! window and is never the median. So a one-frame spike is never reported
//! once the window holds an earlier position.
//!
//! Coordinates are given as their total-order keys: integers that order
//! exactly as the coordinates do.
use vstd::prelude::*;
use vstd::relations::{sorted_by, total_ordering};

verus! {

broadcast use vstd::seq_lib::group_to_multiset_ensures;

/// Number of positions the window holds.
pub const MEDIAN_WINDOW: usize = 5;

pub open spec fn key_le() -> spec_fn(i32, i32) -> bool {
    |a: i32, b: i32| a <= b
}

/// The median of a non-empty window: the middle element (the upper one of
/// the two middles for an even count) of its values in increasing order.
pub open spec fn median(s: Seq<i32>) -> i32 {
    s.sort_by(key_le())[(s.len() / 2) as int]
}

/// What the filter reports for a window in arrival order (oldest first):
/// the older position of two, otherwise the median.
pub open spec fn filtered(w: Seq<i32>) -> i32 {
    if w.len() == 2 {
        w[0]
    } else {
        median(w)
    }
}

/// The window after a new position arrives: it is appended, and the oldest
/// one leaves once five are held.
pub open spec fn next_window(w: Seq<i32>, x: i32) -> Seq<i32> {
    if w.len() < MEDIAN_WINDOW {
        w.push(x)
    } else {
        w.drop_first().push(x)
    }
}

/// The window after the positions `xs` arrive, in order, at `w`.
pub open spec fn window_after(w: Seq<i32>, xs: Seq<i32>) -> Seq<i32>
    decreases xs.len(),
{
    if xs.len() == 0 {
        w
    } else {
        next_window(window_after(w, xs.drop_last()), xs.last())
    }
}

/// The last five of `xs` (all of them when there are fewer).
pub open spec fn last_five(xs: Seq<i32>) -> Seq<i32> {
    if xs.len() <= MEDIAN_WINDOW {
        xs
    } else {
        xs.skip(xs.len() - MEDIAN_WINDOW)
    }
}

/// Two windows holding the same positions in any order have the same median.
proof fn lemma_median_perm(a: Seq<i32>, b: Seq<i32>)
    requires
        a.to_multiset() == b.to_multiset(),
    ensures
        median(a) == median(b),
        a.len() == b.len(),
{
    lemma_key_le_total();
    a.to_multiset_ensures();
    b.to_multiset_ensures();
    a.lemma_sort_by_ensures(key_le());
    b.lemma_sort_by_ensures(key_le());
    vstd::seq_lib::lemma_sorted_unique(a.sort_by(key_le()), b.sort_by(key_le()), key_le());
}

proof fn lemma_key_le_total()
    ensures
        total_ordering(key_le()),
{
}

/// The values of `s` in increasing order.
fn sorted_copy(s: &Vec<i32>) -> (out: Vec<i32>)
    ensures
        out@.to_multiset() == s@.to_multiset(),
        sorted_by(out@, key_le()),
        out@ == s@.sort_by(key_le()),
{
    let mut out: Vec<i32> = Vec::new();
    let mut i: usize = 0;
    while i < s.len()
        invariant
            0 <= i <= s@.len(),
            out@.to_multiset() == s@.take(i as int).to_multiset(),
            sorted_by(out@, key_le()),
        decreases s.len() - i,
    {
        let x = s[i];
        let mut pos: usize = 0;
        while pos < out.len() && out[pos] <= x
            invariant
                0 <= pos <= out@.len(),
                forall|j: int| 0 <= j < pos ==> out@[j] <= x,
            decreases out.len() - pos,
        {
            pos = pos + 1;
        }
        let ghost before = out@;
        out.insert(pos, x);
        proof {
            assert(out@ == before.insert(pos as int, x));
            assert(s@.take(i + 1) =~= s@.take(i as int).push(x));
            assert forall|a: int, b: int| 0 <= a < b < out@.len() implies #[trigger] key_le()(
                out@[a],
                out@[b],
            ) by {
                assert(sorted_by(before, key_le()));
                if b < pos {
                    assert(key_le()(before[a], before[b]));
                } else if b == pos {
                    assert(out@[a] == before[a]);
                } else if a < pos {
                    assert(out@[b] == before[b - 1]);
                    if a < b - 1 {
                        assert(key_le()(before[a], before[b - 1]));
                    }
                } else if a == pos {
                    assert(out@[b] == before[b - 1]);
                    assert(pos < before.len());
                    assert(key_le()(before[pos as int], before[b - 1]) || pos == b - 1);
                } else {
                    assert(key_le()(before[a - 1], before[b - 1]));
                }
            }
        }
        i = i + 1;
    }
    proof {
        assert(s@.take(s@.len() as int) =~= s@);
        lemma_key_le_total();
        s@.lemma_sort_by_ensures(key_le());
        vstd::seq_lib::lemma_sorted_unique(out@, s@.sort_by(key_le()), key_le());
    }
    out
}

/// The first `n` values of `s`.
fn prefix(s: &Vec<i32>, n: usize) -> (out: Vec<i32>)
    requires
        n <= s@.len(),
    ensures
        out@ == s@.take(n as int),
{
    let mut out: Vec<i32> = Vec::new();
    let mut i: usize = 0;
    while i < n
        invariant
            0 <= i <= n <= s@.len(),
            out@ == s@.take(i as int),
        decreases n - i,
    {
        out.push(s[i]);
        proof {
            assert(s@.take(i + 1) =~= s@.take(i as int).push(s@[i as int]));
        }
        i = i + 1;
    }
    out
}

/// The median of a non-empty list of keys.
pub fn median_of(s: &Vec<i32>) -> (m: i32)
    requires
        s@.len() > 0,
    ensures
        m == median(s@),
{
    let sorted = sorted_copy(s);
    proof {
        s@.to_multiset_ensures();
        sorted@.to_multiset_ensures();
    }
    sorted[sorted.len() / 2]
}

/// The contents of a ring buffer of `len` entries whose oldest entry is at
/// `head` once it is full, oldest first.
pub open spec fn ring_window(buf: Seq<i32>, len: usize, head: usize) -> Seq<i32> {
    if len < MEDIAN_WINDOW {
        buf.take(len as int)
    } else {
        buf.skip(head as int) + buf.take(head as int)
    }
}

/// One axis of a push: the new ring buffer's window is the old window with
/// the new key appended (and the oldest dropped when full).
proof fn lemma_ring_push(buf: Seq<i32>, len: usize, head: usize, x: i32)
    requires
        buf.len() == MEDIAN_WINDOW,
        len <= MEDIAN_WINDOW,
        head < MEDIAN_WINDOW,
        len < MEDIAN_WINDOW ==> head == len,
    ensures
        ring_window(
            buf.update(head as int, x),
            (if len < MEDIAN_WINDOW {
                len + 1
            } else {
                len as int
            }) as usize,
            ((head + 1) % (MEDIAN_WINDOW as int)) as usize,
        ) == next_window(ring_window(buf, len, head), x),
        ring_window(buf, len, head).len() == len,
{
    let nb = buf.update(head as int, x);
    let w = ring_window(buf, len, head);
    if len < MEDIAN_WINDOW - 1 {
        assert(nb.take(len + 1) =~= buf.take(len as int).push(x));
    } else if len == MEDIAN_WINDOW - 1 {
        assert(nb.skip(0) + nb.take(0) =~= buf.take(len as int).push(x));
    } else if head < MEDIAN_WINDOW - 1 {
        assert(nb.skip(head + 1) + nb.take(head + 1) =~= w.drop_first().push(x));
    } else {
        assert(nb.skip(0) + nb.take(0) =~= w.drop_first().push(x));
    }
}

/// A full ring buffer holds the same keys as its window.
proof fn lemma_ring_full_perm(buf: Seq<i32>, head: usize)
    requires
        buf.len() == MEDIAN_WINDOW,
        head < MEDIAN_WINDOW,
    ensures
        buf.take(MEDIAN_WINDOW as int).to_multiset() == ring_window(
            buf,
            MEDIAN_WINDOW,
            head,
        ).to_multiset(),
{
    assert(buf.take(MEDIAN_WINDOW as int) =~= buf.take(head as int) + buf.skip(head as int));
    vstd::seq_lib::lemma_multiset_commutative(buf.take(head as int), buf.skip(head as int));
    vstd::seq_lib::lemma_multiset_commutative(buf.skip(head as int), buf.take(head as int));
}

/// A rolling window of the last positions, one list of keys per axis.
pub struct MedianFilter {
    pub xs: Vec<i32>,
    pub ys: Vec<i32>,
    pub len: usize,
    pub head: usize,
}

impl MedianFilter {
    pub open spec fn wf(&self) -> bool {
        &&& self.xs@.len() == MEDIAN_WINDOW
        &&& self.ys@.len() == MEDIAN_WINDOW
        &&& self.len <= MEDIAN_WINDOW
        &&& self.head < MEDIAN_WINDOW
        &&& self.len < MEDIAN_WINDOW ==> self.head == self.len
    }

    /// The x keys currently in the window, oldest first.
    pub open spec fn window_x(&self) -> Seq<i32> {
        ring_window(self.xs@, self.len, self.head)
    }

    /// The y keys currently in the window, oldest first.
    pub open spec fn window_y(&self) -> Seq<i32> {
        ring_window(self.ys@, self.len, self.head)
    }

    /// An empty window.
    pub fn new() -> (f: Self)
        ensures
            f.wf(),
            f.len == 0,
            f.window_x() == Seq::<i32>::empty(),
            f.window_y() == Seq::<i32>::empty(),
    {
        MedianFilter { xs: vec![0, 0, 0, 0, 0], ys: vec![0, 0, 0, 0, 0], len: 0, head: 0 }
    }

    /// Adds a position to the window, replacing the oldest one once the
    /// window is full, and returns the per-axis median of the window.
    pub fn push(&mut self, x: i32, y: i32) -> (m: (i32, i32))
        requires
            old(self).wf(),
        ensures
            final(self).wf(),
            final(self).xs@ == old(self).xs@.update(old(self).head as int, x),
            final(self).ys@ == old(self).ys@.update(old(self).head as int, y),
            final(self).head == (old(self).head + 1) % (MEDIAN_WINDOW as int),
            final(self).len == (if old(self).len < MEDIAN_WINDOW {
                old(self).len + 1
            } else {
                old(self).len as int
            }),
            final(self).window_x() == next_window(old(self).window_x(), x),
            final(self).window_y() == next_window(old(self).window_y(), y),
            m == (filtered(final(self).window_x()), filtered(final(self).window_y())),
    {
        proof {
            lemma_ring_push(self.xs@, self.len, self.head, x);
            lemma_ring_push(self.ys@, self.len, self.head, y);
        }
        self.xs.set(self.head, x);
        self.ys.set(self.head, y);
        self.head = (self.head + 1) % MEDIAN_WINDOW;
        if self.len < MEDIAN_WINDOW {
            self.len = self.len + 1;
        }
        if self.len == 2 {
            return (self.xs[0], self.ys[0]);
        }
        let wx = prefix(&self.xs, self.len);
        let wy = prefix(&self.ys, self.len);
        proof {
            if self.len == MEDIAN_WINDOW {
                lemma_ring_full_perm(self.xs@, self.head);
                lemma_ring_full_perm(self.ys@, self.head);
                lemma_median_perm(wx@, self.window_x());
                lemma_median_perm(wy@, self.window_y());
            }
        }
        (median_of(&wx), median_of(&wy))
    }

    /// Empties the window.
    pub fn reset(&mut self)
        requires
            old(self).wf(),
        ensures
            final(self).wf(),
            final(self).len == 0,
            final(self).head == 0,
            final(self).window_x() == Seq::<i32>::empty(),
            final(self).window_y() == Seq::<i32>::empty(),
            final(self).xs@ == old(self).xs@,
            final(self).ys@ == old(self).ys@,
    {
        self.len = 0;
        self.head = 0;
    }
}

/// The median is one of the window's values, and at most half of the
/// window lies strictly below it or strictly above it.
pub proof fn law_median_is_middle(s: Seq<i32>)
    requires
        s.len() > 0,
    ensures
        s.contains(median(s)),
        s.filter(|v: i32| v < median(s)).len() <= s.len() / 2,
        s.filter(|v: i32| v > median(s)).len() <= s.len() - s.len() / 2 - 1,
{
    lemma_key_le_total();
    s.lemma_sort_by_ensures(key_le());
    let t = s.sort_by(key_le());
    let m = median(s);
    s.to_multiset_ensures();
    t.to_multiset_ensures();
    assert(t.len() == s.len());
    assert(t.contains(m)) by {
        assert(t[(s.len() / 2) as int] == m);
    }
    assert(s.to_multiset().count(m) > 0);
    lemma_filter_bound_below(s, t, m);
    lemma_filter_bound_above(s, t, m);
}

proof fn lemma_count_filter<A>(s: Seq<A>, t: Seq<A>, p: spec_fn(A) -> bool)
    requires
        s.to_multiset() == t.to_multiset(),
    ensures
        s.filter(p).len() == t.filter(p).len(),
    decreases s.len(),
{
    s.to_multiset_ensures();
    t.to_multiset_ensures();
    if s.len() == 0 {
        assert(t.len() == 0);
        assert(s =~= t);
    } else {
        let x = s.last();
        assert(s.to_multiset().count(x) > 0) by {
            assert(s.contains(x)) by {
                assert(s[s.len() - 1] == x);
            }
        }
        assert(t.contains(x));
        let i = choose|i: int| 0 <= i < t.len() && t[i] == x;
        let s1 = s.drop_last();
        let t1 = t.remove(i);
        assert(s =~= s1.push(x));
        assert(s1.to_multiset() =~= s.to_multiset().remove(x));
        assert(t1.to_multiset() =~= t.to_multiset().remove(x));
        lemma_count_filter(s1, t1, p);
        lemma_filter_len_remove(s, s.len() - 1, p);
        assert(s.remove(s.len() - 1) =~= s1);
        lemma_filter_len_remove(t, i, p);
    }
}

proof fn lemma_filter_len_remove<A>(s: Seq<A>, i: int, p: spec_fn(A) -> bool)
    requires
        0 <= i < s.len(),
    ensures
        s.filter(p).len() == s.remove(i).filter(p).len() + (if p(s[i]) {
            1int
        } else {
            0int
        }),
{
    reveal_with_fuel(Seq::<_>::filter, 2);
    assert(s =~= s.take(i) + s.skip(i));
    assert(s.remove(i) =~= s.take(i) + s.skip(i + 1));
    assert(s.skip(i) =~= seq![s[i]] + s.skip(i + 1));
    Seq::filter_distributes_over_add(s.take(i), s.skip(i), p);
    Seq::filter_distributes_over_add(s.take(i), s.skip(i + 1), p);
    Seq::filter_distributes_over_add(seq![s[i]], s.skip(i + 1), p);
    assert(seq![s[i]].drop_last() =~= Seq::<A>::empty());
}

proof fn lemma_filter_bound_below(s: Seq<i32>, t: Seq<i32>, m: i32)
    requires
        s.len() > 0,
        t == s.sort_by(key_le()),
        s.to_multiset() == t.to_multiset(),
        sorted_by(t, key_le()),
        t.len() == s.len(),
        m == t[(s.len() / 2) as int],
    ensures
        s.filter(|v: i32| v < m).len() <= s.len() / 2,
{
    let p = |v: i32| v < m;
    lemma_count_filter(s, t, p);
    let k = s.len() / 2;
    assert(t =~= t.take(k as int) + t.skip(k as int));
    Seq::filter_distributes_over_add(t.take(k as int), t.skip(k as int), p);
    assert forall|j: int| 0 <= j < t.skip(k as int).len() implies !p(
        #[trigger] t.skip(k as int)[j],
    ) by {
        if j > 0 {
            assert(key_le()(t[k as int], t[k + j]));
        }
    }
    lemma_filter_none(t.skip(k as int), p);
    t.take(k as int).lemma_filter_len(p);
}

proof fn lemma_filter_bound_above(s: Seq<i32>, t: Seq<i32>, m: i32)
    requires
        s.len() > 0,
        t == s.sort_by(key_le()),
        s.to_multiset() == t.to_multiset(),
        sorted_by(t, key_le()),
        t.len() == s.len(),
        m == t[(s.len() / 2) as int],
    ensures
        s.filter(|v: i32| v > m).len() <= s.len() - s.len() / 2 - 1,
{
    let p = |v: i32| v > m;
    lemma_count_filter(s, t, p);
    let k = s.len() / 2 + 1;
    assert(t =~= t.take(k as int) + t.skip(k as int));
    Seq::filter_distributes_over_add(t.take(k as int), t.skip(k as int), p);
    assert forall|j: int| 0 <= j < t.take(k as int).len() implies !p(
        #[trigger] t.take(k as int)[j],
    ) by {
        if j < k - 1 {
            assert(key_le()(t[j], t[k - 1]));
        }
    }
    lemma_filter_none(t.take(k as int), p);
    t.skip(k as int).lemma_filter_len(p);
}

proof fn lemma_filter_none<A>(s: Seq<A>, p: spec_fn(A) -> bool)
    requires
        forall|j: int| 0 <= j < s.len() ==> !p(#[trigger] s[j]),
    ensures
        s.filter(p).len() == 0,
    decreases s.len(),
{
    reveal_with_fuel(Seq::<_>::filter, 1);
    if s.len() > 0 {
        assert forall|j: int| 0 <= j < s.drop_last().len() implies !p(#[trigger] s.drop_last()[j]) by {
            assert(s.drop_last()[j] == s[j]);
        }
        lemma_filter_none(s.drop_last(), p);
    }
}

/// In a window of three or more positions, a lone extreme (a value strictly
/// above, or strictly below, all the others) is never the median.
pub proof fn law_lone_extreme_not_median(s: Seq<i32>, i: int)
    requires
        s.len() >= 3,
        0 <= i < s.len(),
        (forall|j: int| 0 <= j < s.len() && j != i ==> s[j] < s[i]) || (forall|j: int|
            0 <= j < s.len() && j != i ==> s[j] > s[i]),
    ensures
        median(s) != s[i],
{
    law_median_is_middle(s);
    let v = s[i];
    if median(s) == v {
        if forall|j: int| 0 <= j < s.len() && j != i ==> s[j] < s[i] {
            let p = |x: i32| x < median(s);
            assert(s.remove(i).filter(p).len() == s.len() - 1) by {
                lemma_filter_all(s.remove(i), p);
            }
            lemma_filter_len_remove(s, i, p);
        } else {
            let p = |x: i32| x > median(s);
            assert(s.remove(i).filter(p).len() == s.len() - 1) by {
                lemma_filter_all(s.remove(i), p);
            }
            lemma_filter_len_remove(s, i, p);
        }
    }
}

proof fn lemma_filter_all<A>(s: Seq<A>, p: spec_fn(A) -> bool)
    requires
        forall|j: int| 0 <= j < s.len() ==> p(#[trigger] s[j]),
    ensures
        s.filter(p).len() == s.len(),
    decreases s.len(),
{
    reveal_with_fuel(Seq::<_>::filter, 1);
    if s.len() > 0 {
        assert forall|j: int| 0 <= j < s.drop_last().len() implies p(#[trigger] s.drop_last()[j]) by {
            assert(s.drop_last()[j] == s[j]);
        }
        lemma_filter_all(s.drop_last(), p);
    }
}

/// A one-frame spike is never reported: once the window holds an earlier
/// position, a newest position strictly above, or strictly below, all the
/// others in the window is not what the filter reports.
pub proof fn law_spike_rejected(w: Seq<i32>)
    requires
        w.len() >= 2,
        (forall|j: int| 0 <= j < w.len() - 1 ==> w[j] < w.last()) || (forall|j: int|
            0 <= j < w.len() - 1 ==> w[j] > w.last()),
    ensures
        filtered(w) != w.last(),
{
    if w.len() == 2 {
        assert(w[0] != w.last());
    } else {
        law_lone_extreme_not_median(w, w.len() - 1);
    }
}

/// Since the filter was made or reset, its window holds exactly the last
/// five positions pushed (all of them while fewer than five), oldest first.
pub proof fn law_window_is_last_five(xs: Seq<i32>)
    ensures
        window_after(Seq::empty(), xs) == last_five(xs),
    decreases xs.len(),
{
    if xs.len() > 0 {
        let ys = xs.drop_last();
        law_window_is_last_five(ys);
        let w = window_after(Seq::empty(), ys);
        if ys.len() < MEDIAN_WINDOW {
            assert(w.push(xs.last()) =~= xs);
        } else {
            assert(w.drop_first().push(xs.last()) =~= xs.skip(xs.len() - MEDIAN_WINDOW));
        }
    }
}

/// What the filter reports does not depend on the order in which the
/// window's positions arrived, except for the two-position window, where
/// the older one is kept.
pub proof fn law_order_free(a: Seq<i32>, b: Seq<i32>)
    requires
        a.len() != 2,
        a.to_multiset() == b.to_multiset(),
    ensures
        filtered(a) == filtered(b),
{
    lemma_median_perm(a, b);
}

/// A reset filter behaves like a fresh one: both hold an empty window, the
/// first position pushed afterwards is reported unchanged, and from then on
/// each report depends only on the positions pushed since.
pub proof fn law_reset_is_fresh(f: MedianFilter, xs: Seq<i32>)
    requires
        f.wf(),
        f.len == 0,
    ensures
        f.window_x() == Seq::<i32>::empty(),
        window_after(f.window_x(), xs) == last_five(xs),
        xs.len() >= 1 ==> filtered(window_after(f.window_x(), xs.take(1))) == xs[0],
{
    law_window_is_last_five(xs);
    assert(f.window_x() =~= Seq::<i32>::empty());
    if xs.len() >= 1 {
        law_window_is_last_five(xs.take(1));
        lemma_key_le_total();
        let one = xs.take(1);
        one.lemma_sort_by_ensures(key_le());
        one.to_multiset_ensures();
        one.sort_by(key_le()).to_multiset_ensures();
        assert(one.sort_by(key_le()).len() == 1);
        assert(one.to_multiset().count(xs[0]) > 0) by {
            assert(one[0] == xs[0]);
        }
        assert(one.sort_by(key_le()).contains(xs[0]));
    }
}

} // verus!
