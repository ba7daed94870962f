//! Components: what a scene is made of.

pub mod instance;
pub mod mesh;

use crate::ecs::component::instance::{InstanceComponent, InstanceView};
use crate::ecs::component::mesh::{MeshComponent, MeshView};
use vstd::prelude::*;

verus! {

/// A component as contracts see it: one of the kinds that a frame knows
/// how to use, or something else.
pub enum ComponentView {
    Mesh(MeshView),
    Instance(InstanceView),
    Other,
}

impl ComponentView {
    /// The component is a well-formed one of its kind.
    pub open spec fn wf(self) -> bool {
        match self {
            ComponentView::Mesh(mesh) => mesh.wf(),
            ComponentView::Instance(instance) => instance.wf(),
            ComponentView::Other => true,
        }
    }
}

/// What a component turns out to be when a frame asks.
pub enum Renderable<'a> {
    Mesh(&'a MeshComponent),
    Instance(&'a InstanceComponent),
    /// A component that takes no part in drawing.
    Other,
}

impl<'a> View for Renderable<'a> {
    type V = ComponentView;

    open spec fn view(&self) -> ComponentView {
        match *self {
            Renderable::Mesh(mesh) => ComponentView::Mesh(mesh@),
            Renderable::Instance(instance) => ComponentView::Instance(instance@),
            Renderable::Other => ComponentView::Other,
        }
    }
}

/// A unit of data that a scene owns and an object may have attached.
///
/// A scene keeps components of any kind side by side. A frame finds out
/// what each one is through `as_renderable`. A kind of component that
/// takes no part in drawing answers `Renderable::Other` and is passed
/// over.
pub trait Component {
    /// What this component is: something that takes no part in drawing,
    /// unless its kind says otherwise.
    open spec fn renderable(&self) -> ComponentView {
        ComponentView::Other
    }

    /// Hands the component out as the kind that it is. What comes out is a
    /// mesh or an instance component as every one of them is: well formed.
    fn as_renderable(&self) -> (r: Renderable<'_>)
        ensures
            r@ == self.renderable(),
            r@.wf(),
    ;
}

} // verus!
