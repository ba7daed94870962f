//! The scene: two flat lists, and the one space in which every index
//! stored on an object or a mesh is read.

use crate::ecs::component::{Component, ComponentView};
use crate::ecs::object::{Object, ObjectView};
use vstd::prelude::*;

verus! {

/// The list that an index failed to resolve in.
#[derive(Clone, Copy, Debug, PartialEq, Eq)]
pub enum Target {
    Object,
    Component,
}

/// An index that points at no entry of its list.
#[derive(Clone, Copy, Debug, PartialEq, Eq)]
pub struct BrokenReference {
    pub target: Target,
    pub index: usize,
}

/// A scene as contracts see it.
pub struct SceneView {
    pub objects: Seq<ObjectView>,
    pub components: Seq<ComponentView>,
}

impl SceneView {
    /// Both lists can be indexed by a machine word, and every component is
    /// a well-formed one of its kind.
    pub open spec fn wf(self) -> bool {
        &&& self.objects.len() <= usize::MAX
        &&& self.components.len() <= usize::MAX
        &&& forall|i: int| 0 <= i < self.components.len() ==> (#[trigger] self.components[i]).wf()
    }
}

/// All objects and all components of one world. A position in either list
/// is given out once and stays: entries are appended, never moved.
pub struct Scene {
    pub objects: Vec<Object>,
    pub components: Vec<Box<dyn Component>>,
}

impl View for Scene {
    type V = SceneView;

    open spec fn view(&self) -> SceneView {
        SceneView {
            objects: Seq::new(self.objects@.len(), |i: int| self.objects@[i]@),
            components: Seq::new(self.components@.len(), |i: int| self.components@[i].renderable()),
        }
    }
}

impl Scene {
    /// A scene with no object and no component.
    pub fn new() -> (scene: Self)
        ensures
            scene@.objects.len() == 0,
            scene@.components.len() == 0,
    {
        Self { objects: Vec::new(), components: Vec::new() }
    }

    /// The object at `index`, or the index as a broken reference.
    pub fn object(&self, index: usize) -> (r: Result<&Object, BrokenReference>)
        ensures
            r is Ok <==> index < self@.objects.len(),
            match r {
                Ok(object) => object@ == self@.objects[index as int],
                Err(e) => e == (BrokenReference { target: Target::Object, index }),
            },
    {
        if index < self.objects.len() {
            Ok(&self.objects[index])
        } else {
            Err(BrokenReference { target: Target::Object, index })
        }
    }

    /// The component at `index`, or the index as a broken reference.
    pub fn component(&self, index: usize) -> (r: Result<&Box<dyn Component>, BrokenReference>)
        ensures
            r is Ok <==> index < self@.components.len(),
            match r {
                Ok(component) => component.renderable() == self@.components[index as int],
                Err(e) => e == (BrokenReference { target: Target::Component, index }),
            },
    {
        if index < self.components.len() {
            Ok(&self.components[index])
        } else {
            Err(BrokenReference { target: Target::Component, index })
        }
    }
}

} // verus!
