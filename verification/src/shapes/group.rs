//! A group: a shape that owns an ordered list of child shapes.

use vstd::prelude::*;
use crate::material::Material;
use crate::matrix::Matrix;
use crate::shapes::Shape;

verus! {

/// A container shape.  A group has no surface of its own; it carries its
/// children, each re-rooted through the group's transformation.
#[derive(Debug)]
pub struct Group {
    /// The identity token of the shape.
    pub id: uuid::Uuid,
    /// The identity of the group or combination holding the shape, if any.
    pub parent_id: Option<uuid::Uuid>,
    /// The object-to-parent-space transformation.
    pub transform: Matrix,
    /// The material children fall back to when they inherit.
    pub material: Material,
    /// The child shapes, in insertion order.
    pub objects: Vec<Shape>,
    /// Whether the group takes its material from its own ancestors.
    pub inherit_material: bool,
}

impl Group {
    /// The shape's transformation and material are representable, and so is
    /// every child.
    pub open spec fn wf(self) -> bool
        decreases self.objects@,
    {
        &&& self.transform.wf()
        &&& self.material.wf()
        &&& forall|i: int|
            0 <= i < self.objects@.len() ==> (#[trigger] self.objects@[i]).wf()
    }

    /// Create an empty group with a fresh identity, the identity transform
    /// and the default material.
    pub fn new() -> (r: Group)
        ensures
            r.parent_id is None,
            r.transform.inverse == r.transform.data,
            crate::matrix::grid(r.transform.data) == crate::matrix::identity_g(),
            r.material == Material::new_v(),
            r.objects@.len() == 0,
            !r.inherit_material,
            r.wf(),
    {
        Group {
            id: crate::identity::fresh_id(),
            parent_id: None,
            transform: Matrix::identity(),
            material: Material::new(),
            objects: Vec::new(),
            inherit_material: false,
        }
    }

    /// Hand a shape to the group: the group becomes the shape's parent and
    /// the shape joins the end of the children, establishing the one
    /// owning edge the tree allows.
    pub fn add_object(&mut self, shape: Shape)
        ensures
            final(self).objects@ == old(self).objects@.push(shape.with_parent_v(old(self).id)),
            final(self).id == old(self).id,
            final(self).parent_id == old(self).parent_id,
            final(self).transform == old(self).transform,
            final(self).material == old(self).material,
            final(self).inherit_material == old(self).inherit_material,
    {
        let id = self.id;
        let child = shape.with_parent(id);
        self.objects.push(child);
    }

    /// The child at the given position, if there is one.
    pub fn get_object(&self, index: usize) -> (r: Option<&Shape>)
        ensures
            match r {
                Some(s) => index < self.objects@.len() && *s == self.objects@[index as int],
                None => index >= self.objects@.len(),
            },
    {
        if index < self.objects.len() {
            Some(&self.objects[index])
        } else {
            None
        }
    }
}

impl Default for Group {
    /// The default group is empty.
    fn default() -> (r: Group)
        ensures
            r.objects@.len() == 0,
            r.wf(),
    {
        Group::new()
    }
}

} // verus!
