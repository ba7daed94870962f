//! What holds of every frame.

use crate::ecs::component::mesh::MeshView;
use crate::ecs::component::ComponentView;
use crate::ecs::scene::SceneView;
use crate::frame::{
    broken_link, component_steps, copies, first_instance, first_instance_from, frame_steps,
    is_instance_at, mesh_steps, resolves, steps_before, Step, Warning,
};
use vstd::prelude::*;

verus! {

/// Whether `step` is a draw of the mesh at position `mesh`.
pub open spec fn is_draw_of(step: Step, mesh: usize) -> bool {
    step matches Step::DrawIndexed { mesh: drawn, .. } && drawn == mesh
}

/// Whether `step` is a warning about the mesh at position `mesh`.
pub open spec fn is_warning_of(step: Step, mesh: usize) -> bool {
    step matches Step::Warn { mesh: skipped, .. } && skipped == mesh
}

/// How many of `steps` are draws of the mesh at position `mesh`.
pub open spec fn draws_of(steps: Seq<Step>, mesh: usize) -> nat
    decreases steps.len(),
{
    if steps.len() == 0 {
        0
    } else {
        draws_of(steps.drop_last(), mesh) + if is_draw_of(steps.last(), mesh) {
            1nat
        } else {
            0nat
        }
    }
}

/// How many of `steps` are warnings about the mesh at position `mesh`.
pub open spec fn warnings_of(steps: Seq<Step>, mesh: usize) -> nat
    decreases steps.len(),
{
    if steps.len() == 0 {
        0
    } else {
        warnings_of(steps.drop_last(), mesh) + if is_warning_of(steps.last(), mesh) {
            1nat
        } else {
            0nat
        }
    }
}

/// In every frame, every mesh whose links resolve is drawn by exactly one
/// draw call, and no warning is given about it.
pub proof fn lemma_resolved_mesh_drawn_once(scene: SceneView, position: int)
    requires
        scene.wf(),
        0 <= position < scene.components.len(),
        scene.components[position] is Mesh,
        resolves(scene, scene.components[position]->Mesh_0),
    ensures
        draws_of(frame_steps(scene), position as usize) == 1,
        warnings_of(frame_steps(scene), position as usize) == 0,
{
    lemma_counts_before(scene, scene.components.len() as int, position);
    lemma_pass_counts(scene, position as usize, scene.components[position]->Mesh_0, 0);
}

/// In every frame, a mesh that names as the source of its instances a
/// component which is not an instance component is not drawn at all, and
/// exactly one warning is given about it. Where the parent of the mesh
/// resolves, that warning names the mesh and the index of the component.
pub proof fn lemma_mispaired_mesh_skipped(scene: SceneView, position: int)
    requires
        scene.wf(),
        0 <= position < scene.components.len(),
        scene.components[position] is Mesh,
        scene.components[position]->Mesh_0.instance_component_index < scene.components.len(),
        !(scene.components[scene.components[position]->Mesh_0.instance_component_index as int] is Instance),
    ensures
        draws_of(frame_steps(scene), position as usize) == 0,
        warnings_of(frame_steps(scene), position as usize) == 1,
        scene.components[position]->Mesh_0.parent_index < scene.objects.len()
            ==> frame_steps(scene).contains(
            Step::Warn {
                mesh: position as usize,
                warning: Warning::NotAnInstance {
                    index: scene.components[position]->Mesh_0.instance_component_index,
                },
            },
        ),
{
    lemma_unresolved_mesh_skipped(scene, position);
}

/// In every frame, a mesh one of whose links fails is not drawn at all,
/// and exactly one warning is given about it: the one that names the mesh
/// and tells of the first link that fails.
pub proof fn lemma_unresolved_mesh_skipped(scene: SceneView, position: int)
    requires
        scene.wf(),
        0 <= position < scene.components.len(),
        scene.components[position] is Mesh,
        !resolves(scene, scene.components[position]->Mesh_0),
    ensures
        draws_of(frame_steps(scene), position as usize) == 0,
        warnings_of(frame_steps(scene), position as usize) == 1,
        frame_steps(scene).contains(
            Step::Warn {
                mesh: position as usize,
                warning: broken_link(scene, scene.components[position]->Mesh_0)->Some_0,
            },
        ),
{
    let mesh = scene.components[position]->Mesh_0;
    lemma_counts_before(scene, scene.components.len() as int, position);
    lemma_pass_counts(scene, position as usize, mesh, 0);
    lemma_pass_in_frame(scene, scene.components.len() as int, position, 1);
}

/// In every frame there is one outcome for each mesh, a draw or a warning,
/// and none for a component that is no mesh.
pub proof fn lemma_one_outcome(scene: SceneView, position: int)
    requires
        scene.wf(),
        0 <= position < scene.components.len(),
    ensures
        scene.components[position] is Mesh ==> draws_of(frame_steps(scene), position as usize)
            + warnings_of(frame_steps(scene), position as usize) == 1,
        !(scene.components[position] is Mesh) ==> draws_of(
            frame_steps(scene),
            position as usize,
        ) == 0 && warnings_of(frame_steps(scene), position as usize) == 0,
{
    lemma_counts_before(scene, scene.components.len() as int, position);
    if let ComponentView::Mesh(mesh) = scene.components[position] {
        lemma_pass_counts(scene, position as usize, mesh, 0);
    }
}

/// Every draw call of a frame draws a mesh of the scene whose links
/// resolve, runs through all its indices, and makes as many copies as the
/// first instance component among the components attached to the parent
/// object has instances, or one copy where none of them is an instance
/// component.
pub proof fn lemma_draw_counts(scene: SceneView, k: int)
    requires
        scene.wf(),
        0 <= k < frame_steps(scene).len(),
        frame_steps(scene)[k] is DrawIndexed,
    ensures
        ({
            let mesh = frame_steps(scene)[k]->DrawIndexed_mesh;
            let index_count = frame_steps(scene)[k]->DrawIndexed_index_count;
            let instance_count = frame_steps(scene)[k]->DrawIndexed_instance_count;
            &&& mesh < scene.components.len()
            &&& scene.components[mesh as int] matches ComponentView::Mesh(drawn)
            &&& resolves(scene, drawn)
            &&& index_count == drawn.indices.len()
            &&& instance_count == copies(
                scene.components,
                scene.objects[drawn.parent_index as int].components,
            )
        }),
{
    let (position, at) = lemma_step_place(scene, scene.components.len() as int, k);
    let drawn = scene.components[position]->Mesh_0;
    assert(scene.components[position].wf());
    let attached = scene.objects[drawn.parent_index as int].components;
    lemma_first_instance(scene.components, attached);
    if let Some(p) = first_instance(scene.components, attached) {
        assert(scene.components[p as int].wf());
    }
}

/// What `first_instance_from` finds is the first place on the attached
/// list, from `from` on, whose entry points at an instance component; it
/// finds none only if there is none.
pub proof fn lemma_first_instance_from(
    components: Seq<ComponentView>,
    attached: Seq<usize>,
    from: int,
)
    requires
        0 <= from,
    ensures
        match first_instance_from(components, attached, from) {
            Some(place) => {
                &&& from <= place < attached.len()
                &&& is_instance_at(components, attached[place])
                &&& forall|q: int|
                    from <= q < place ==> !is_instance_at(components, #[trigger] attached[q])
            },
            None => forall|q: int|
                from <= q < attached.len() ==> !is_instance_at(components, #[trigger] attached[q]),
        },
    decreases attached.len() - from,
{
    if from < attached.len() && !is_instance_at(components, attached[from]) {
        lemma_first_instance_from(components, attached, from + 1);
    }
}

/// The component that gives the number of copies is attached, it is an
/// instance component, and no entry that stands before it on the attached
/// list points at an instance component. Where there is none, no attached
/// component is an instance component.
pub proof fn lemma_first_instance(components: Seq<ComponentView>, attached: Seq<usize>)
    ensures
        match first_instance(components, attached) {
            Some(position) => {
                &&& is_instance_at(components, position)
                &&& exists|place: int|
                    {
                        &&& 0 <= place < attached.len()
                        &&& #[trigger] attached[place] == position
                        &&& forall|q: int|
                            0 <= q < place ==> !is_instance_at(components, #[trigger] attached[q])
                    }
            },
            None => forall|q: int|
                0 <= q < attached.len() ==> !is_instance_at(components, #[trigger] attached[q]),
        },
{
    lemma_first_instance_from(components, attached, 0);
}

/// A draw call finds the right buffers bound. The three steps before it
/// bind, in this order, the vertex buffer of the mesh at slot 0, the
/// instance buffer of the component that the mesh names at slot 1, and the
/// index buffer of the mesh.
pub proof fn lemma_draw_bindings(scene: SceneView, k: int)
    requires
        scene.wf(),
        0 <= k < frame_steps(scene).len(),
        frame_steps(scene)[k] is DrawIndexed,
    ensures
        ({
            let frame = frame_steps(scene);
            let mesh = frame[k]->DrawIndexed_mesh;
            let paired = scene.components[mesh as int]->Mesh_0.instance_component_index;
            &&& k >= 3
            &&& frame[k - 3] == Step::SetVertexBuffer { slot: 0, component: mesh }
            &&& frame[k - 2] == Step::SetVertexBuffer { slot: 1, component: paired }
            &&& frame[k - 1] == Step::SetIndexBuffer { component: mesh }
        }),
{
    let frame = frame_steps(scene);
    let all = scene.components.len() as int;
    let (position, at) = lemma_step_place(scene, all, k);
    let pass = component_steps(scene, position);
    assert(at == 3);
    lemma_steps_grow(scene, position + 1, all);
    let upto = steps_before(scene, position + 1);
    let before = steps_before(scene, position);
    assert(upto == before + pass);
    assert forall|j: int| 0 <= j < 4 implies frame[before.len() + j] == pass[j] by {
        assert(frame.subrange(0, upto.len() as int)[before.len() + j] == upto[before.len() + j]);
    }
}

/// Draw calls come in component-list order: of two draws of a frame, the
/// earlier one draws the mesh that stands earlier in the list.
pub proof fn lemma_draws_in_list_order(scene: SceneView, j: int, k: int)
    requires
        scene.wf(),
        0 <= j < k < frame_steps(scene).len(),
        frame_steps(scene)[j] is DrawIndexed,
        frame_steps(scene)[k] is DrawIndexed,
    ensures
        frame_steps(scene)[j]->DrawIndexed_mesh < frame_steps(scene)[k]->DrawIndexed_mesh,
{
    let all = scene.components.len() as int;
    let (from, at) = lemma_step_place(scene, all, j);
    let (to, then) = lemma_step_place(scene, all, k);
    assert(at == 3 && then == 3);
    if to <= from {
        lemma_steps_grow(scene, to, from);
    }
}

/// One more step raises a count by one if the step is counted, and leaves
/// it otherwise.
pub proof fn lemma_counts_push(steps: Seq<Step>, step: Step, mesh: usize)
    ensures
        draws_of(steps.push(step), mesh) == draws_of(steps, mesh) + if is_draw_of(step, mesh) {
            1nat
        } else {
            0nat
        },
        warnings_of(steps.push(step), mesh) == warnings_of(steps, mesh) + if is_warning_of(
            step,
            mesh,
        ) {
            1nat
        } else {
            0nat
        },
{
    assert(steps.push(step).drop_last() =~= steps);
    assert(steps.push(step).last() == step);
}

/// Counting over two runs of steps, one after the other, adds up.
pub proof fn lemma_counts_add(a: Seq<Step>, b: Seq<Step>, mesh: usize)
    ensures
        draws_of(a + b, mesh) == draws_of(a, mesh) + draws_of(b, mesh),
        warnings_of(a + b, mesh) == warnings_of(a, mesh) + warnings_of(b, mesh),
    decreases b.len(),
{
    if b.len() == 0 {
        assert(a + b =~= a);
    } else {
        assert((a + b).drop_last() =~= a + b.drop_last());
        assert((a + b).last() == b.last());
        lemma_counts_add(a, b.drop_last(), mesh);
    }
}

/// The pass of a mesh holds one draw of that mesh and no warning if its
/// links resolve, one warning about it and no draw if they do not; it
/// holds nothing about any other mesh.
pub proof fn lemma_pass_counts(scene: SceneView, position: usize, mesh: MeshView, other: usize)
    ensures
        draws_of(mesh_steps(scene, position, mesh), position) == if resolves(scene, mesh) {
            1nat
        } else {
            0nat
        },
        warnings_of(mesh_steps(scene, position, mesh), position) == if resolves(scene, mesh) {
            0nat
        } else {
            1nat
        },
        other != position ==> draws_of(mesh_steps(scene, position, mesh), other) == 0,
        other != position ==> warnings_of(mesh_steps(scene, position, mesh), other) == 0,
{
    let pass = mesh_steps(scene, position, mesh);
    let none = Seq::<Step>::empty();
    if resolves(scene, mesh) {
        assert(pass =~= none.push(pass[0]).push(pass[1]).push(pass[2]).push(pass[3]));
        lemma_counts_push(none, pass[0], position);
        lemma_counts_push(none.push(pass[0]), pass[1], position);
        lemma_counts_push(none.push(pass[0]).push(pass[1]), pass[2], position);
        lemma_counts_push(none.push(pass[0]).push(pass[1]).push(pass[2]), pass[3], position);
        lemma_counts_push(none, pass[0], other);
        lemma_counts_push(none.push(pass[0]), pass[1], other);
        lemma_counts_push(none.push(pass[0]).push(pass[1]), pass[2], other);
        lemma_counts_push(none.push(pass[0]).push(pass[1]).push(pass[2]), pass[3], other);
    } else {
        assert(pass =~= none.push(pass[0]).push(pass[1]));
        lemma_counts_push(none, pass[0], position);
        lemma_counts_push(none.push(pass[0]), pass[1], position);
        lemma_counts_push(none, pass[0], other);
        lemma_counts_push(none.push(pass[0]), pass[1], other);
    }
}

/// Among the steps of the components before `upto`, those about the mesh
/// at `position` are the ones of its own pass.
pub proof fn lemma_counts_before(scene: SceneView, upto: int, position: int)
    requires
        scene.components.len() <= usize::MAX,
        0 <= upto <= scene.components.len(),
        0 <= position < scene.components.len(),
    ensures
        draws_of(steps_before(scene, upto), position as usize) == if position < upto {
            draws_of(component_steps(scene, position), position as usize)
        } else {
            0nat
        },
        warnings_of(steps_before(scene, upto), position as usize) == if position < upto {
            warnings_of(component_steps(scene, position), position as usize)
        } else {
            0nat
        },
    decreases upto,
{
    if upto > 0 {
        let last = upto - 1;
        lemma_counts_before(scene, last, position);
        lemma_counts_add(
            steps_before(scene, last),
            component_steps(scene, last),
            position as usize,
        );
        if last != position {
            if let ComponentView::Mesh(mesh) = scene.components[last] {
                lemma_pass_counts(scene, last as usize, mesh, position as usize);
            }
        }
    }
}

/// Step `k` of the pass of the mesh at `position` is a step of the frame.
pub proof fn lemma_pass_in_frame(scene: SceneView, upto: int, position: int, k: int)
    requires
        0 <= position < upto <= scene.components.len(),
        0 <= k < component_steps(scene, position).len(),
    ensures
        steps_before(scene, upto).contains(component_steps(scene, position)[k]),
    decreases upto,
{
    let earlier = steps_before(scene, upto - 1);
    let last = component_steps(scene, upto - 1);
    if position == upto - 1 {
        assert((earlier + last)[earlier.len() + k] == last[k]);
    } else {
        lemma_pass_in_frame(scene, upto - 1, position, k);
        let at = choose|at: int| 0 <= at < earlier.len() && earlier[at] == component_steps(
            scene,
            position,
        )[k];
        assert((earlier + last)[at] == earlier[at]);
    }
}

/// Where step `k` of the components before `upto` comes from: the position
/// of the component whose pass holds it, and its place in that pass.
pub proof fn lemma_step_place(scene: SceneView, upto: int, k: int) -> (place: (int, int))
    requires
        0 <= upto <= scene.components.len(),
        0 <= k < steps_before(scene, upto).len(),
    ensures
        0 <= place.0 < upto,
        0 <= place.1 < component_steps(scene, place.0).len(),
        steps_before(scene, upto)[k] == component_steps(scene, place.0)[place.1],
        k == steps_before(scene, place.0).len() + place.1,
    decreases upto,
{
    let earlier = steps_before(scene, upto - 1);
    let last = component_steps(scene, upto - 1);
    if k < earlier.len() {
        assert((earlier + last)[k] == earlier[k]);
        lemma_step_place(scene, upto - 1, k)
    } else {
        assert((earlier + last)[k] == last[k - earlier.len()]);
        (upto - 1, k - earlier.len())
    }
}

/// The steps before a position are the first steps of the steps before any
/// later position.
pub proof fn lemma_steps_grow(scene: SceneView, from: int, upto: int)
    requires
        0 <= from <= upto,
    ensures
        steps_before(scene, from).len() <= steps_before(scene, upto).len(),
        steps_before(scene, upto).subrange(0, steps_before(scene, from).len() as int)
            == steps_before(scene, from),
    decreases upto - from,
{
    if from < upto {
        lemma_steps_grow(scene, from, upto - 1);
        let earlier = steps_before(scene, upto - 1);
        let last = component_steps(scene, upto - 1);
        let n = steps_before(scene, from).len() as int;
        assert((earlier + last).subrange(0, n) =~= earlier.subrange(0, n));
    } else {
        assert(steps_before(scene, upto).subrange(0, steps_before(scene, from).len() as int)
            =~= steps_before(scene, from));
    }
}

} // verus!
