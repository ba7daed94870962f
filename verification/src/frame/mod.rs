//! How a frame is drawn from a scene.
//!
//! A frame walks the component list once. Every mesh on it gets one pass:
//! its links are resolved against the scene as it is at that moment, and
//! the pass ends either in one indexed draw or in one warning. A link that
//! does not resolve costs the frame that one mesh and nothing more.
//!
//! A pass reads the scene through two paths that need not agree. The
//! instance buffer bound beside the vertex buffer is that of the component
//! the mesh itself names. The number of copies drawn comes from the parent
//! object: from the first instance component among the components that
//! the object has attached, in the order of its list.
//!
//! Nothing is sent to a device here. The outcome is the list of steps to
//! take, in order, for whoever holds the render pass.

pub mod laws;

use crate::ecs::component::mesh::{MeshComponent, MeshView};
use crate::ecs::component::{Component, ComponentView, Renderable};
use crate::ecs::object::Object;
use crate::ecs::scene::{BrokenReference, Scene, SceneView, Target};
use vstd::prelude::*;

verus! {

/// Why a mesh was left out of a frame.
#[derive(Clone, Copy, Debug, PartialEq, Eq)]
pub enum Warning {
    /// A link of the mesh points at no entry of its list.
    BrokenReference(BrokenReference),
    /// The component at `index`, which the mesh names as the source of its
    /// instances, is not an instance component.
    NotAnInstance { index: usize },
}

/// One thing to do in a render pass.
#[derive(Clone, Copy, Debug, PartialEq, Eq)]
pub enum Step {
    /// Bind a buffer of the component at position `component` to a
    /// vertex-input slot: slot 0 takes the vertex buffer of a mesh, slot 1
    /// the instance buffer of an instance component.
    SetVertexBuffer { slot: u32, component: usize },
    /// Bind the index buffer of the mesh at position `component`; its
    /// indices are 32 bits wide.
    SetIndexBuffer { component: usize },
    /// Draw the mesh at position `mesh`: indices `0..index_count` from base
    /// vertex 0, instances `0..instance_count`.
    DrawIndexed { mesh: usize, index_count: u32, instance_count: u32 },
    /// Report that the mesh at position `mesh` is not drawn in this frame.
    Warn { mesh: usize, warning: Warning },
}

/// Whether `position` lies in the component list and holds an instance
/// component.
pub open spec fn is_instance_at(components: Seq<ComponentView>, position: usize) -> bool {
    position < components.len() && components[position as int] is Instance
}

/// The place on the attached list, at or after `from`, of the first entry
/// that points at an instance component.
pub open spec fn first_instance_from(
    components: Seq<ComponentView>,
    attached: Seq<usize>,
    from: int,
) -> Option<int>
    decreases attached.len() - from,
{
    if from < 0 || from >= attached.len() {
        None
    } else if is_instance_at(components, attached[from]) {
        Some(from)
    } else {
        first_instance_from(components, attached, from + 1)
    }
}

/// The position, in the component list, of the first instance component
/// that is attached: the list of attached positions is gone through in
/// its order, and an entry that points past the end of the component list,
/// or at a component of another kind, is passed over.
pub open spec fn first_instance(components: Seq<ComponentView>, attached: Seq<usize>) -> Option<
    usize,
> {
    match first_instance_from(components, attached, 0) {
        Some(place) => Some(attached[place]),
        None => None,
    }
}

/// How many copies a mesh is drawn in, given the positions of the
/// components that its parent object has attached: as many as the first
/// instance component among them has instances, be that none at all, and
/// one copy where no instance component is among them.
pub open spec fn copies(components: Seq<ComponentView>, attached: Seq<usize>) -> nat {
    match first_instance(components, attached) {
        Some(position) => components[position as int]->Instance_0.instances.len(),
        None => 1,
    }
}

/// The number of copies as a draw call carries it.
pub open spec fn instance_count(components: Seq<ComponentView>, attached: Seq<usize>) -> u32 {
    copies(components, attached) as u32
}

/// The first link of `mesh` that fails in `scene`, as the warning that
/// tells of it, or nothing if both links hold. The parent is looked up
/// first: its index has to lie in the object list. Then comes the pairing:
/// its index has to lie in the component list, and what stands there has
/// to be an instance component.
pub open spec fn broken_link(scene: SceneView, mesh: MeshView) -> Option<Warning> {
    let parent = mesh.parent_index;
    let paired = mesh.instance_component_index;
    if parent >= scene.objects.len() {
        Some(Warning::BrokenReference(BrokenReference { target: Target::Object, index: parent }))
    } else if paired >= scene.components.len() {
        Some(
            Warning::BrokenReference(BrokenReference { target: Target::Component, index: paired }),
        )
    } else if !(scene.components[paired as int] is Instance) {
        Some(Warning::NotAnInstance { index: paired })
    } else {
        None
    }
}

/// Whether both links of `mesh` resolve in `scene`: the parent to an
/// object, the pairing to an instance component.
pub open spec fn resolves(scene: SceneView, mesh: MeshView) -> bool {
    broken_link(scene, mesh) is None
}

/// The pass of the mesh `mesh`, which stands at `position` in the
/// component list of `scene`.
///
/// The vertex buffer is bound first. Then the links are resolved, and the
/// first that fails ends the pass with a warning. Such a mesh is not drawn
/// at all, not even in a single copy. Otherwise the instance buffer of the
/// paired component is bound, then the index buffer, and the mesh is drawn
/// once.
pub open spec fn mesh_steps(scene: SceneView, position: usize, mesh: MeshView) -> Seq<Step> {
    let bind = Step::SetVertexBuffer { slot: 0, component: position };
    match broken_link(scene, mesh) {
        Some(warning) => seq![bind, Step::Warn { mesh: position, warning }],
        None => seq![
            bind,
            Step::SetVertexBuffer { slot: 1, component: mesh.instance_component_index },
            Step::SetIndexBuffer { component: position },
            Step::DrawIndexed {
                mesh: position,
                index_count: mesh.indices.len() as u32,
                instance_count: instance_count(
                    scene.components,
                    scene.objects[mesh.parent_index as int].components,
                ),
            },
        ],
    }
}

/// What the component at `position` adds to the frame: a pass if it is a
/// mesh, nothing otherwise.
pub open spec fn component_steps(scene: SceneView, position: int) -> Seq<Step> {
    match scene.components[position] {
        ComponentView::Mesh(mesh) => mesh_steps(scene, position as usize, mesh),
        _ => Seq::empty(),
    }
}

/// The steps of the components before `position`, in list order.
pub open spec fn steps_before(scene: SceneView, position: int) -> Seq<Step>
    decreases position,
{
    if position <= 0 {
        Seq::empty()
    } else {
        steps_before(scene, position - 1) + component_steps(scene, position - 1)
    }
}

/// The whole frame: the pass of every mesh, in component-list order.
pub open spec fn frame_steps(scene: SceneView) -> Seq<Step> {
    steps_before(scene, scene.components.len() as int)
}

/// Counts the copies to draw for a mesh whose parent object has the
/// components at the positions `attached` attached.
pub fn count_instances(scene: &Scene, attached: &[usize]) -> (count: u32)
    ensures
        count == instance_count(scene@.components, attached@),
{
    let mut place: usize = 0;
    while place < attached.len()
        invariant
            place <= attached@.len(),
            first_instance_from(scene@.components, attached@, 0) == first_instance_from(
                scene@.components,
                attached@,
                place as int,
            ),
        decreases attached@.len() - place,
    {
        let position = attached[place];
        if position < scene.components.len() {
            match scene.components[position].as_renderable() {
                Renderable::Instance(instance) => {
                    return instance.num_instances();
                },
                _ => {},
            }
        }
        place = place + 1;
    }
    1
}

/// Resolves the links of a mesh against the scene: gives the parent
/// object, or the warning about the first link that fails.
pub fn resolve<'a>(scene: &'a Scene, mesh: &MeshComponent) -> (r: Result<&'a Object, Warning>)
    ensures
        r is Ok <==> resolves(scene@, mesh@),
        match r {
            Ok(parent) => parent@ == scene@.objects[mesh@.parent_index as int],
            Err(warning) => broken_link(scene@, mesh@) == Some(warning),
        },
{
    let parent = match scene.object(mesh.parent_index()) {
        Ok(parent) => parent,
        Err(broken) => {
            return Err(Warning::BrokenReference(broken));
        },
    };
    let paired = mesh.instance_component_index();
    let pairing = match scene.component(paired) {
        Ok(pairing) => pairing,
        Err(broken) => {
            return Err(Warning::BrokenReference(broken));
        },
    };
    match pairing.as_renderable() {
        Renderable::Instance(_) => Ok(parent),
        _ => Err(Warning::NotAnInstance { index: paired }),
    }
}

/// Appends the pass of one mesh to `steps`.
pub fn draw_mesh(scene: &Scene, position: usize, mesh: &MeshComponent, steps: &mut Vec<Step>)
    ensures
        final(steps)@ == old(steps)@ + mesh_steps(scene@, position, mesh@),
{
    steps.push(Step::SetVertexBuffer { slot: 0, component: position });
    match resolve(scene, mesh) {
        Err(warning) => {
            steps.push(Step::Warn { mesh: position, warning });
        },
        Ok(parent) => {
            steps.push(
                Step::SetVertexBuffer { slot: 1, component: mesh.instance_component_index() },
            );
            steps.push(Step::SetIndexBuffer { component: position });
            let instance_count = count_instances(scene, parent.components.as_slice());
            steps.push(
                Step::DrawIndexed {
                    mesh: position,
                    index_count: mesh.num_indices(),
                    instance_count,
                },
            );
        },
    }
    assert(steps@ =~= old(steps)@ + mesh_steps(scene@, position, mesh@));
}

/// The steps of one frame of `scene`. On the way every component is looked
/// at, so the scene is known to be well formed.
pub fn draw_scene(scene: &Scene) -> (steps: Vec<Step>)
    ensures
        steps@ == frame_steps(scene@),
        scene@.wf(),
{
    let mut steps: Vec<Step> = Vec::new();
    let mut position: usize = 0;
    while position < scene.components.len()
        invariant
            position <= scene.components@.len(),
            steps@ == steps_before(scene@, position as int),
            forall|i: int| 0 <= i < position ==> (#[trigger] scene@.components[i]).wf(),
        decreases scene.components@.len() - position,
    {
        match scene.components[position].as_renderable() {
            Renderable::Mesh(mesh) => {
                draw_mesh(scene, position, mesh, &mut steps);
            },
            _ => {
                assert(steps@ + component_steps(scene@, position as int) =~= steps@);
            },
        }
        position = position + 1;
    }
    assert(scene@.objects.len() == scene.objects.len());
    steps
}

} // verus!
