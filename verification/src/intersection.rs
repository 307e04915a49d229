//! Where a ray meets a shape: the distance along the ray and the shape met.

use vstd::prelude::*;
use crate::fx::Fx;
use vstd::multiset::Multiset;
use crate::shapes::Shape;

verus! {

/// One meeting of a ray with a shape: the distance `t` from the ray's
/// origin, the shape met, and, for triangles met away from their corners,
/// the barycentric coordinates of the meeting point.
#[derive(Clone, Copy, Debug)]
pub struct Intersection<'a> {
    /// Distance from the ray's origin to the meeting point.
    pub t: Fx,
    /// The shape the ray met.
    pub object: &'a Shape,
    /// Barycentric coordinate toward the second corner, on triangles.
    pub u: Option<Fx>,
    /// Barycentric coordinate toward the third corner, on triangles.
    pub v: Option<Fx>,
}

/// The meetings are listed from nearest to farthest.
pub open spec fn sorted_by_t(s: Seq<Intersection>) -> bool {
    forall|i: int, j: int| 0 <= i < j < s.len() ==> s[i].t.raw <= s[j].t.raw
}

/// What a meeting holds, read off as plain values: the raw distance, the
/// shape met, and the barycentric coordinates.
pub type IxView = (int, crate::shapes::Shape, Option<Fx>, Option<Fx>);

/// The plain values of one meeting.
pub open spec fn ixv(i: Intersection) -> IxView {
    (i.t.raw as int, *i.object, i.u, i.v)
}

/// The plain values of a whole list of meetings.
pub open spec fn views<'a>(s: Seq<Intersection<'a>>) -> Seq<IxView> {
    s.map_values(|i: Intersection<'a>| ixv(i))
}

/// Reading values commutes with inserting a meeting.
pub proof fn lemma_views_insert<'a>(s: Seq<Intersection<'a>>, p: int, x: Intersection<'a>)
    requires
        0 <= p <= s.len(),
    ensures
        views(s.insert(p, x)) == views(s).insert(p, ixv(x)),
{
    assert(views(s.insert(p, x)) =~= views(s).insert(p, ixv(x)));
}

/// Reading values commutes with joining two lists.
pub proof fn lemma_views_concat<'a>(a: Seq<Intersection<'a>>, b: Seq<Intersection<'a>>)
    ensures
        views(a + b) == views(a) + views(b),
{
    assert(views(a + b) =~= views(a) + views(b));
}

/// The distances are listed in ascending order.
pub open spec fn key_sorted(s: Seq<IxView>) -> bool {
    forall|i: int, j: int| 0 <= i < j < s.len() ==> s[i].0 <= s[j].0
}

/// Insert a meeting behind every meeting at or below its distance, so that
/// meetings at one distance keep their arrival order.
pub open spec fn insert_sorted(s: Seq<IxView>, x: IxView) -> Seq<IxView>
    decreases s.len(),
{
    if s.len() == 0 {
        seq![x]
    } else if s[0].0 <= x.0 {
        seq![s[0]] + insert_sorted(s.drop_first(), x)
    } else {
        seq![x] + s
    }
}

/// Order a list of meetings by distance, stably: each meeting in turn is
/// inserted behind those at or below its distance.
pub open spec fn sort_t(s: Seq<IxView>) -> Seq<IxView>
    decreases s.len(),
{
    if s.len() == 0 {
        Seq::empty()
    } else {
        insert_sorted(sort_t(s.drop_last()), s.last())
    }
}

proof fn lemma_insert_sorted_len(s: Seq<IxView>, x: IxView)
    ensures
        insert_sorted(s, x).len() == s.len() + 1,
        insert_sorted(s, x).to_multiset() == s.to_multiset().insert(x),
    decreases s.len(),
{
    broadcast use vstd::seq_lib::group_to_multiset_ensures;

    if s.len() == 0 {
        assert(insert_sorted(s, x) =~= Seq::empty().push(x));
        assert(Seq::<IxView>::empty().push(x).to_multiset() =~= s.to_multiset().insert(x));
    } else if s[0].0 <= x.0 {
        lemma_insert_sorted_len(s.drop_first(), x);
        assert(insert_sorted(s, x) =~= insert_sorted(s.drop_first(), x).insert(
            0,
            s[0],
        ));
        assert(s =~= s.drop_first().insert(0, s[0]));
        vstd::seq_lib::lemma_multiset_commutative(seq![s[0]], insert_sorted(s.drop_first(), x));
        vstd::seq_lib::lemma_multiset_commutative(seq![s[0]], s.drop_first());
        assert(seq![s[0]] + s.drop_first() =~= s);
        assert(seq![s[0]] + insert_sorted(s.drop_first(), x) =~= insert_sorted(s, x));
        assert(seq![s[0]].to_multiset().add(s.drop_first().to_multiset().insert(x))
            =~= s.to_multiset().insert(x));
    } else {
        vstd::seq_lib::lemma_multiset_commutative(seq![x], s);
        assert(seq![x].to_multiset() =~= Multiset::empty().insert(x));
        assert(Multiset::empty().insert(x).add(s.to_multiset()) =~= s.to_multiset().insert(x));
    }
}

/// Sorting keeps every meeting and orders them by distance.
pub proof fn lemma_sort_t_sorted(s: Seq<IxView>)
    ensures
        sort_t(s).len() == s.len(),
        key_sorted(sort_t(s)),
        sort_t(s).to_multiset() == s.to_multiset(),
    decreases s.len(),
{
    broadcast use vstd::seq_lib::group_to_multiset_ensures;

    if s.len() == 0 {
    } else {
        lemma_sort_t_sorted(s.drop_last());
        lemma_insert_sorted_len(sort_t(s.drop_last()), s.last());
        lemma_insert_sorted_ordered(sort_t(s.drop_last()), s.last());
        assert(s =~= s.drop_last().push(s.last()));
        assert(s.drop_last().push(s.last()).to_multiset() =~= s.drop_last().to_multiset().insert(
            s.last(),
        ));
    }
}

proof fn lemma_insert_sorted_ordered(s: Seq<IxView>, x: IxView)
    requires
        key_sorted(s),
    ensures
        key_sorted(insert_sorted(s, x)),
    decreases s.len(),
{
    if s.len() == 0 {
    } else if s[0].0 <= x.0 {
        assert(key_sorted(s.drop_first()));
        lemma_insert_sorted_ordered(s.drop_first(), x);
        lemma_insert_sorted_len_only(s.drop_first(), x);
        let r = seq![s[0]] + insert_sorted(s.drop_first(), x);
        assert forall|i: int, j: int| 0 <= i < j < r.len() implies r[i].0 <= r[j].0 by {
            lemma_insert_sorted_low(s.drop_first(), x, s[0].0);
            if i > 0 {
                assert(r[i] == insert_sorted(s.drop_first(), x)[i - 1]);
                assert(r[j] == insert_sorted(s.drop_first(), x)[j - 1]);
            }
        }
    } else {
    }
}

proof fn lemma_insert_sorted_len_only(s: Seq<IxView>, x: IxView)
    ensures
        insert_sorted(s, x).len() == s.len() + 1,
    decreases s.len(),
{
    if s.len() > 0 && s[0].0 <= x.0 {
        lemma_insert_sorted_len_only(s.drop_first(), x);
    }
}

proof fn lemma_insert_sorted_low(s: Seq<IxView>, x: IxView, b: int)
    requires
        forall|i: int| 0 <= i < s.len() ==> b <= #[trigger] s[i].0,
        b <= x.0,
    ensures
        forall|i: int| 0 <= i < insert_sorted(s, x).len() ==> b <= #[trigger] insert_sorted(
            s,
            x,
        )[i].0,
    decreases s.len(),
{
    if s.len() == 0 {
        assert(insert_sorted(s, x)[0] == x);
    } else if s[0].0 <= x.0 {
        assert(forall|i: int| 0 <= i < s.drop_first().len() ==> b <= #[trigger] s.drop_first()[i].0);
        lemma_insert_sorted_low(s.drop_first(), x, b);
        let r = insert_sorted(s, x);
        assert forall|i: int| 0 <= i < r.len() implies b <= #[trigger] r[i].0 by {
            if i > 0 {
                assert(r[i] == insert_sorted(s.drop_first(), x)[i - 1]);
            }
        }
    } else {
        let r = insert_sorted(s, x);
        assert forall|i: int| 0 <= i < r.len() implies b <= #[trigger] r[i].0 by {
            if i > 0 {
                assert(r[i] == s[i - 1]);
            }
        }
    }
}

/// Where the scan from the front stops: insertion splits the list there.
proof fn lemma_insert_sorted_at(s: Seq<IxView>, x: IxView, p: int)
    requires
        0 <= p <= s.len(),
        forall|k: int| 0 <= k < p ==> #[trigger] s[k].0 <= x.0,
        p < s.len() ==> s[p].0 > x.0,
    ensures
        insert_sorted(s, x) == s.insert(p, x),
    decreases s.len(),
{
    if s.len() == 0 {
        assert(insert_sorted(s, x) =~= s.insert(0, x));
    } else if s[0].0 <= x.0 {
        assert(p > 0);
        lemma_insert_sorted_at(s.drop_first(), x, p - 1);
        assert(seq![s[0]] + insert_sorted(s.drop_first(), x) =~= s.insert(p, x));
    } else {
        assert(p == 0);
        assert(seq![x] + s =~= s.insert(0, x));
    }
}

/// The plain values of a meeting that may be absent.
pub open spec fn opt_ixv<'a>(o: Option<Intersection<'a>>) -> Option<IxView> {
    match o {
        Some(i) => Some(ixv(i)),
        None => None,
    }
}

/// The visible meeting of a list of plain meeting values: the same scan as
/// `hit_rec`, carried out on values alone, as the shading specification
/// speaks of it.
pub open spec fn hit_view(s: Seq<IxView>, i: int, best: Option<IxView>) -> Option<IxView>
    decreases s.len() - i,
{
    if i < 0 || i >= s.len() {
        best
    } else {
        let keep = s[i].0 >= 0 && (best is None || s[i].0 < (best->0).0);
        hit_view(s, i + 1, if keep { Some(s[i]) } else { best })
    }
}

/// The scan over meetings and the scan over their plain values pick the
/// same result.
pub proof fn lemma_hit_view_agrees<'a>(
    s: Seq<Intersection<'a>>,
    i: int,
    best: Option<Intersection<'a>>,
)
    ensures
        hit_view(views(s), i, opt_ixv(best)) == opt_ixv(hit_rec(s, i, best)),
    decreases s.len() - i,
{
    if 0 <= i < s.len() {
        assert(views(s)[i] == ixv(s[i]));
        let keep = s[i].t.raw >= 0 && (best is None || s[i].t.raw < best->0.t.raw);
        if keep {
            lemma_hit_view_agrees(s, i + 1, Some(s[i]));
        } else {
            lemma_hit_view_agrees(s, i + 1, best);
        }
    }
}

/// The meeting a scan of the list keeps: the first one at the smallest
/// nonnegative distance, starting from position `i` with `best` in hand.
pub open spec fn hit_rec<'a>(
    s: Seq<Intersection<'a>>,
    i: int,
    best: Option<Intersection<'a>>,
) -> Option<Intersection<'a>>
    decreases s.len() - i,
{
    if i < 0 || i >= s.len() {
        best
    } else {
        let keep = s[i].t.raw >= 0 && (best is None || s[i].t.raw < best->0.t.raw);
        hit_rec(s, i + 1, if keep { Some(s[i]) } else { best })
    }
}

/// The visible meeting of a list: the first one at the smallest
/// nonnegative distance, or nothing when every distance is negative.
pub open spec fn hit_of<'a>(s: Seq<Intersection<'a>>) -> Option<Intersection<'a>> {
    hit_rec(s, 0, None)
}

impl<'a> Intersection<'a> {
    /// Record a meeting of a ray with a shape at distance `t`.
    pub fn new(t: Fx, object: &'a Shape) -> (r: Intersection<'a>)
        ensures
            r.t == t,
            r.object == object,
            r.u is None,
            r.v is None,
    {
        Intersection { t, object, u: None, v: None }
    }

    /// Record a meeting on a triangle, keeping where on the face it landed.
    pub fn intersection_with_uv(t: Fx, object: &'a Shape, u: Fx, v: Fx) -> (r: Intersection<'a>)
        ensures
            r.t == t,
            r.object == object,
            r.u == Some(u),
            r.v == Some(v),
    {
        Intersection { t, object, u: Some(u), v: Some(v) }
    }

    /// The meeting visible from the ray's origin: the one with the smallest
    /// nonnegative distance.  Meetings at negative distances lie behind the
    /// origin and are never visible.
    pub fn hit<'b>(xs: &'b [Intersection<'a>]) -> (r: Option<&'b Intersection<'a>>)
        ensures
            match r {
                Some(i) => Some(*i) == hit_of(xs@),
                None => hit_of(xs@) is None,
            },
            (hit_of(xs@) is None) <==> (forall|k: int| 0 <= k < xs@.len() ==> xs@[k].t.raw < 0),
            match hit_of(xs@) {
                Some(h) => {
                    &&& h.t.raw >= 0
                    &&& exists|k: int| 0 <= k < xs@.len() && xs@[k] == h
                    &&& forall|k: int| 0 <= k < xs@.len() && xs@[k].t.raw >= 0 ==> h.t.raw <= xs@[k].t.raw
                },
                None => true,
            },
    {
        proof {
            lemma_hit_rec_props(xs@, 0, None);
        }
        let mut best: Option<usize> = None;
        let mut i: usize = 0;
        while i < xs.len()
            invariant
                i <= xs@.len(),
                match best {
                    Some(b) => b < i && hit_rec(xs@, i as int, Some(xs@[b as int])) == hit_of(xs@),
                    None => hit_rec(xs@, i as int, None) == hit_of(xs@),
                },
            decreases xs@.len() - i,
        {
            let keep = xs[i].t.raw >= 0 && match best {
                Some(b) => xs[i].t.raw < xs[b].t.raw,
                None => true,
            };
            if keep {
                best = Some(i);
            }
            i = i + 1;
        }
        match best {
            Some(b) => Some(&xs[b]),
            None => None,
        }
    }
}

proof fn lemma_hit_rec_props<'a>(s: Seq<Intersection<'a>>, i: int, best: Option<Intersection<'a>>)
    requires
        0 <= i <= s.len(),
        match best {
            Some(b) => b.t.raw >= 0,
            None => true,
        },
    ensures
        match hit_rec(s, i, best) {
            Some(h) => {
                &&& h.t.raw >= 0
                &&& (best == Some(h) || exists|k: int| i <= k < s.len() && s[k] == h)
                &&& forall|k: int| i <= k < s.len() && s[k].t.raw >= 0 ==> h.t.raw <= s[k].t.raw
                &&& match best {
                    Some(b) => h.t.raw <= b.t.raw,
                    None => true,
                }
            },
            None => {
                &&& best is None
                &&& forall|k: int| i <= k < s.len() ==> s[k].t.raw < 0
            },
        },
    decreases s.len() - i,
{
    if i < s.len() {
        let keep = s[i].t.raw >= 0 && (best is None || s[i].t.raw < best->0.t.raw);
        if keep {
            lemma_hit_rec_props(s, i + 1, Some(s[i]));
        } else {
            lemma_hit_rec_props(s, i + 1, best);
        }
    }
}

/// One step of the insertion sort: inserting the next meeting where the
/// front scan stopped extends the sorted prefix by one.
proof fn lemma_sort_step<'a>(
    pre: Seq<Intersection<'a>>,
    out: Seq<Intersection<'a>>,
    v: Seq<Intersection<'a>>,
    i: int,
    p: int,
)
    requires
        0 <= i < v.len(),
        0 <= p <= pre.len(),
        out == pre.insert(p, v[i]),
        views(pre) == sort_t(views(v).take(i)),
        forall|k: int| 0 <= k < p ==> #[trigger] pre[k].t.raw <= v[i].t.raw,
        p < pre.len() ==> pre[p].t.raw > v[i].t.raw,
    ensures
        views(out) == sort_t(views(v).take(i + 1)),
{
    let x = v[i];
    lemma_views_insert(pre, p, x);
    assert forall|k: int| 0 <= k < p implies #[trigger] views(pre)[k].0 <= ixv(x).0 by {
        assert(views(pre)[k] == ixv(pre[k]));
    }
    if p < pre.len() {
        assert(views(pre)[p] == ixv(pre[p]));
    }
    lemma_insert_sorted_at(views(pre), ixv(x), p);
    assert(views(v).take(i + 1).drop_last() =~= views(v).take(i));
    assert(views(v).take(i + 1).last() == ixv(x));
    assert(views(out) == sort_t(views(v).take(i + 1)));
}

/// Reorder a list of meetings from nearest to farthest, keeping meetings at
/// one distance in their arrival order.
#[verifier::rlimit(100)]
#[verifier::spinoff_prover]
pub fn sort_intersections<'a>(v: Vec<Intersection<'a>>) -> (r: Vec<Intersection<'a>>)
    ensures
        views(r@) == sort_t(views(v@)),
        sorted_by_t(r@),
        r@.len() == v@.len(),
{
    let mut out: Vec<Intersection<'a>> = Vec::new();
    let mut i: usize = 0;
    proof {
        assert(views(out@) =~= sort_t(views(v@).take(0)));
    }
    while i < v.len()
        invariant
            i <= v@.len(),
            views(out@) == sort_t(views(v@).take(i as int)),
            out@.len() == i,
        decreases v@.len() - i,
    {
        let x = v[i];
        let mut p: usize = 0;
        while p < out.len() && out[p].t.raw <= x.t.raw
            invariant
                p <= out@.len(),
                forall|k: int| 0 <= k < p ==> #[trigger] out@[k].t.raw <= x.t.raw,
            decreases out@.len() - p,
        {
            p = p + 1;
        }
        let ghost pre = out@;
        out.insert(p, x);
        proof {
            assert(out@ =~= pre.insert(p as int, v@[i as int]));
            lemma_sort_step(pre, out@, v@, i as int, p as int);
        }
        i = i + 1;
    }
    proof {
        assert(views(v@).take(v@.len() as int) =~= views(v@));
        lemma_sort_t_sorted(views(v@));
        assert forall|a: int, b: int| 0 <= a < b < out@.len() implies out@[a].t.raw
            <= out@[b].t.raw by {
            assert(views(out@)[a] == ixv(out@[a]));
            assert(views(out@)[b] == ixv(out@[b]));
        }
    }
    out
}

/// Every meeting in the sorted list carries the distance and shape of some
/// meeting in the original list.
pub proof fn lemma_sorted_source<'a>(v: Seq<Intersection<'a>>, r: Seq<Intersection<'a>>, j: int)
    requires
        views(r) == sort_t(views(v)),
        0 <= j < r.len(),
    ensures
        exists|k: int| 0 <= k < v.len() && ixv(#[trigger] v[k]) == ixv(r[j]),
{
    broadcast use vstd::seq_lib::group_to_multiset_ensures;

    lemma_sort_t_sorted(views(v));
    assert(views(r)[j] == ixv(r[j]));
    assert(views(r).contains(ixv(r[j])));
    assert(views(v).to_multiset().count(ixv(r[j])) > 0);
    assert(views(v).contains(ixv(r[j])));
    let k = choose|k: int| 0 <= k < views(v).len() && views(v)[k] == ixv(r[j]);
    assert(views(v)[k] == ixv(v[k]));
    assert(ixv(v[k]) == ixv(r[j]));
}

} // verus!
