//! Constructive solid geometry: two shapes joined by a set operation.

use vstd::prelude::*;
use crate::fx::Fx;
use crate::intersection::Intersection;
use crate::intersection::IxView;
use crate::intersection::ixv;
use crate::intersection::views;
use crate::material::Material;
use crate::matrix::Matrix;
use crate::shapes::Shape;

verus! {

/// The set operation a combination applies to its two children.
#[derive(Clone, Copy, Debug, PartialEq, Eq, Structural)]
pub enum CsgOperation {
    /// Keep the surface of either child.
    Union,
    /// Keep only surface inside both children.
    Intersection,
    /// Keep the left child's surface outside the right, and the right
    /// child's surface inside the left.
    Difference,
}

/// A combination of exactly two shapes.  It has no geometry of its own: its
/// surface emerges from filtering the children's meetings.
#[derive(Debug)]
pub struct CSG {
    /// The identity token of the shape.
    pub id: uuid::Uuid,
    /// The identity of the group or combination holding the shape, if any.
    pub parent_id: Option<uuid::Uuid>,
    /// The first operand.
    pub left: Box<Shape>,
    /// The second operand.
    pub right: Box<Shape>,
    /// The set operation joining the two.
    pub operation: CsgOperation,
    /// The object-to-parent-space transformation.
    pub transform: Matrix,
    /// The look of the shape's surface.
    pub material: Material,
}

/// Whether a meeting is kept, given the operation, whether the meeting lies
/// on the left child, and whether it happens inside each child.
pub open spec fn allowed(op: CsgOperation, lhit: bool, inl: bool, inr: bool) -> bool {
    match op {
        CsgOperation::Union => (lhit && !inr) || (!lhit && !inl),
        CsgOperation::Intersection => (lhit && inr) || (!lhit && inl),
        CsgOperation::Difference => (lhit && !inr) || (!lhit && inl),
    }
}

/// One linear scan over the combined, ordered meetings: each meeting is
/// classified by the child it lies on, kept or dropped by the operation's
/// rule, and then toggles the side it crossed.  Kept meetings lose their
/// barycentric coordinates.
pub open spec fn csg_filter(
    op: CsgOperation,
    left: Shape,
    s: Seq<IxView>,
    i: int,
    inl: bool,
    inr: bool,
) -> Seq<IxView>
    decreases s.len() - i,
{
    if i < 0 || i >= s.len() {
        Seq::empty()
    } else {
        let oid = s[i].1.spec_id();
        let lhit = left.spec_id() == oid || left.contains_id_v(oid);
        let rest = csg_filter(
            op,
            left,
            s,
            i + 1,
            if lhit {
                !inl
            } else {
                inl
            },
            if lhit {
                inr
            } else {
                !inr
            },
        );
        if allowed(op, lhit, inl, inr) {
            seq![(s[i].0, s[i].1, None, None)] + rest
        } else {
            rest
        }
    }
}

impl CSG {
    /// The shape's transformation, material and both children are
    /// representable.
    pub open spec fn wf(self) -> bool
        decreases self.left, self.right,
    {
        &&& self.transform.wf()
        &&& self.material.wf()
        &&& (*self.left).wf()
        &&& (*self.right).wf()
    }

    /// Join two shapes under a set operation: the combination becomes the
    /// parent of both.
    pub fn new(operation: CsgOperation, left: Box<Shape>, right: Box<Shape>) -> (r: CSG)
        ensures
            r.operation == operation,
            *r.left == (*left).with_parent_v(r.id),
            *r.right == (*right).with_parent_v(r.id),
            r.parent_id is None,
            r.transform.inverse == r.transform.data,
            crate::matrix::grid(r.transform.data) == crate::matrix::identity_g(),
            r.material == Material::new_v(),
    {
        let id = crate::identity::fresh_id();
        let l = (*left).with_parent(id);
        let rr = (*right).with_parent(id);
        CSG {
            id,
            parent_id: None,
            left: Box::new(l),
            right: Box::new(rr),
            operation,
            transform: Matrix::identity(),
            material: Material::new(),
        }
    }

    /// Whether a meeting is kept, given the operation, whether the meeting
    /// lies on the left child, and whether it happens inside each child.
    pub fn intersection_allowed(operation: CsgOperation, lhit: bool, inl: bool, inr: bool) -> (r:
        bool)
        ensures
            r == allowed(operation, lhit, inl, inr),
            operation == CsgOperation::Union ==> r == ((lhit && !inr) || (!lhit && !inl)),
            operation == CsgOperation::Intersection ==> r == ((lhit && inr) || (!lhit && inl)),
            operation == CsgOperation::Difference ==> r == ((lhit && !inr) || (!lhit && inl)),
    {
        match operation {
            CsgOperation::Union => (lhit && !inr) || (!lhit && !inl),
            CsgOperation::Intersection => (lhit && inr) || (!lhit && inl),
            CsgOperation::Difference => (lhit && !inr) || (!lhit && inl),
        }
    }

    /// Scan the combined, ordered meetings of the two children once,
    /// keeping those the operation's rule allows.
    pub fn filter_intersections<'a>(&self, xs: &[Intersection<'a>]) -> (res: Vec<Intersection<'a>>)
        ensures
            views(res@) == csg_filter(self.operation, *self.left, views(xs@), 0, false, false),
    {
        let mut inl = false;
        let mut inr = false;
        let mut results: Vec<Intersection<'a>> = Vec::new();
        let ghost s = views(xs@);
        let mut k: usize = 0;
        while k < xs.len()
            invariant
                k <= xs@.len(),
                s == views(xs@),
                csg_filter(self.operation, *self.left, s, 0, false, false) == views(results@)
                    + csg_filter(self.operation, *self.left, s, k as int, inl, inr),
            decreases xs@.len() - k,
        {
            let x = &xs[k];
            let lhit = crate::identity::id_eq(self.left.id(), x.object.id())
                || self.left.contains_object_by_id(x.object.id());
            let ghost pre = results@;
            let ghost old_inl = inl;
            let ghost old_inr = inr;
            let keep = CSG::intersection_allowed(self.operation, lhit, inl, inr);
            if keep {
                results.push(Intersection::new(x.t, x.object));
            }
            if lhit {
                inl = !inl;
            } else {
                inr = !inr;
            }
            proof {
                let e = (x.t.raw as int, *x.object, None::<Fx>, None::<Fx>);
                assert(s[k as int] == ixv(xs@[k as int]));
                assert(csg_filter(self.operation, *self.left, s, k as int, old_inl, old_inr)
                    == if allowed(self.operation, lhit, old_inl, old_inr) {
                    seq![e] + csg_filter(self.operation, *self.left, s, k as int + 1, inl, inr)
                } else {
                    csg_filter(self.operation, *self.left, s, k as int + 1, inl, inr)
                });
                if keep {
                    assert(views(results@) =~= views(pre) + seq![e]);
                    assert((views(pre) + seq![e]) + csg_filter(
                        self.operation,
                        *self.left,
                        s,
                        k as int + 1,
                        inl,
                        inr,
                    ) =~= views(pre) + (seq![e] + csg_filter(
                        self.operation,
                        *self.left,
                        s,
                        k as int + 1,
                        inl,
                        inr,
                    )));
                }
            }
            k = k + 1;
        }
        proof {
            assert(views(results@) + csg_filter(
                self.operation,
                *self.left,
                s,
                xs@.len() as int,
                inl,
                inr,
            ) =~= views(results@));
        }
        results
    }
}

} // verus!
