//! Objects: the named nodes of a scene.

use vstd::prelude::*;

verus! {

/// An object as contracts see it.
pub struct ObjectView {
    pub name: Seq<char>,
    pub components: Seq<usize>,
}

/// A named node. It owns nothing: `components` holds the positions, in the
/// scene's list, of the components attached to it.
pub struct Object {
    pub name: String,
    pub components: Vec<usize>,
}

impl View for Object {
    type V = ObjectView;

    open spec fn view(&self) -> ObjectView {
        ObjectView { name: self.name@, components: self.components@ }
    }
}

impl Object {
    /// An object with nothing attached.
    pub fn new(name: String) -> (object: Self)
        ensures
            object@.name == name@,
            object@.components == Seq::<usize>::empty(),
    {
        Object { name, components: Vec::new() }
    }
}

} // verus!
