use scene_renderer::ecs::component::instance::{InstanceComponent, InstanceRaw};
use scene_renderer::ecs::component::mesh::MeshComponent;
use scene_renderer::ecs::component::{Component, Renderable};
use scene_renderer::ecs::object::Object;
use scene_renderer::ecs::scene::{BrokenReference, Scene, Target};
use scene_renderer::frame::{count_instances, draw_mesh, draw_scene, resolve, Step, Warning};
use scene_renderer::vertex::PureVertex;

fn corner(x: f32, y: f32, color: [f32; 3]) -> PureVertex {
    PureVertex {
        position: [x.to_bits(), y.to_bits(), 0.0f32.to_bits()],
        color: [color[0].to_bits(), color[1].to_bits(), color[2].to_bits()],
    }
}

/// A unit square as two triangles with corners of their own: six vertices,
/// six indices.
fn quad(parent_index: usize, instance_component_index: usize) -> MeshComponent {
    let red = [1.0, 0.0, 0.0];
    let green = [0.0, 1.0, 0.0];
    let blue = [0.0, 0.0, 1.0];
    let vertices = vec![
        corner(0.0, 0.0, red),
        corner(1.0, 1.0, green),
        corner(0.0, 1.0, blue),
        corner(0.0, 0.0, red),
        corner(1.0, 0.0, blue),
        corner(1.0, 1.0, green),
    ];
    MeshComponent::new(
        "QUAD".to_owned(),
        vertices,
        vec![0, 1, 2, 3, 4, 5],
        parent_index,
        instance_component_index,
    )
    .unwrap()
}

fn instances(count: usize) -> InstanceComponent {
    let mut records = Vec::new();
    for k in 0..count {
        let mut model = [0u32; 16];
        model[0] = 1.0f32.to_bits();
        model[5] = 1.0f32.to_bits();
        model[10] = 1.0f32.to_bits();
        model[15] = 1.0f32.to_bits();
        model[12] = (k as f32).to_bits();
        records.push(InstanceRaw { model });
    }
    InstanceComponent::new(records).unwrap()
}

fn object(name: &str, components: Vec<usize>) -> Object {
    let mut object = Object::new(name.to_owned());
    object.components = components;
    object
}

fn draws(steps: &[Step], mesh: usize) -> Vec<(u32, u32)> {
    let mut found = Vec::new();
    for step in steps {
        if let Step::DrawIndexed { mesh: drawn, index_count, instance_count } = *step {
            if drawn == mesh {
                found.push((index_count, instance_count));
            }
        }
    }
    found
}

fn warnings(steps: &[Step], mesh: usize) -> Vec<Warning> {
    let mut found = Vec::new();
    for step in steps {
        if let Step::Warn { mesh: skipped, warning } = *step {
            if skipped == mesh {
                found.push(warning);
            }
        }
    }
    found
}

/// A component of a kind that frames know nothing about.
struct Light;

impl Component for Light {
    fn as_renderable(&self) -> Renderable<'_> {
        Renderable::Other
    }
}

#[test]
fn empty_scene_gives_empty_frame() {
    let scene = Scene::new();
    assert_eq!(scene.objects.len(), 0);
    assert_eq!(scene.components.len(), 0);
    assert_eq!(draw_scene(&scene), vec![]);
}

#[test]
fn quad_without_instance_on_its_object_is_drawn_once() {
    // The object has the mesh attached and nothing else; the instance
    // component that the mesh is paired with stands further down the list.
    let mut scene = Scene::new();
    scene.objects.push(object("quad", vec![0]));
    scene.components.push(Box::new(quad(0, 1)));
    scene.components.push(Box::new(instances(5)));
    let steps = draw_scene(&scene);
    assert_eq!(
        steps,
        vec![
            Step::SetVertexBuffer { slot: 0, component: 0 },
            Step::SetVertexBuffer { slot: 1, component: 1 },
            Step::SetIndexBuffer { component: 0 },
            Step::DrawIndexed { mesh: 0, index_count: 6, instance_count: 1 },
        ]
    );
    assert_eq!(draws(&steps, 0), vec![(6, 1)]);
    assert_eq!(warnings(&steps, 0), vec![]);
}

#[test]
fn quad_with_three_instances_on_its_object_is_drawn_in_three_copies() {
    let mut scene = Scene::new();
    scene.objects.push(object("quad", vec![0, 1]));
    scene.components.push(Box::new(quad(0, 1)));
    scene.components.push(Box::new(instances(3)));
    let steps = draw_scene(&scene);
    assert_eq!(
        steps,
        vec![
            Step::SetVertexBuffer { slot: 0, component: 0 },
            Step::SetVertexBuffer { slot: 1, component: 1 },
            Step::SetIndexBuffer { component: 0 },
            Step::DrawIndexed { mesh: 0, index_count: 6, instance_count: 3 },
        ]
    );
    assert_eq!(draws(&steps, 0), vec![(6, 3)]);
}

#[test]
fn mesh_paired_with_another_mesh_is_skipped_with_one_warning() {
    let mut scene = Scene::new();
    scene.objects.push(object("pair", vec![0, 1]));
    scene.components.push(Box::new(quad(0, 1)));
    scene.components.push(Box::new(quad(0, 2)));
    scene.components.push(Box::new(instances(2)));
    let steps = draw_scene(&scene);
    assert_eq!(draws(&steps, 0), vec![]);
    assert_eq!(warnings(&steps, 0), vec![Warning::NotAnInstance { index: 1 }]);
    // The other mesh is paired well and is drawn.
    assert_eq!(draws(&steps, 1).len(), 1);
    assert_eq!(
        steps,
        vec![
            Step::SetVertexBuffer { slot: 0, component: 0 },
            Step::Warn { mesh: 0, warning: Warning::NotAnInstance { index: 1 } },
            Step::SetVertexBuffer { slot: 0, component: 1 },
            Step::SetVertexBuffer { slot: 1, component: 2 },
            Step::SetIndexBuffer { component: 1 },
            Step::DrawIndexed { mesh: 1, index_count: 6, instance_count: 1 },
        ]
    );
}

#[test]
fn mesh_paired_with_itself_is_skipped() {
    let mut scene = Scene::new();
    scene.objects.push(object("alone", vec![0]));
    scene.components.push(Box::new(quad(0, 0)));
    let steps = draw_scene(&scene);
    assert_eq!(
        steps,
        vec![
            Step::SetVertexBuffer { slot: 0, component: 0 },
            Step::Warn { mesh: 0, warning: Warning::NotAnInstance { index: 0 } },
        ]
    );
}

#[test]
fn instance_count_is_that_of_the_instances_zero() {
    let mut scene = Scene::new();
    scene.objects.push(object("none", vec![0, 1]));
    scene.components.push(Box::new(instances(0)));
    scene.components.push(Box::new(quad(0, 0)));
    let steps = draw_scene(&scene);
    assert_eq!(draws(&steps, 1), vec![(6, 0)]);
}

#[test]
fn instance_count_is_that_of_the_instances_one() {
    let mut scene = Scene::new();
    scene.objects.push(object("one", vec![0, 1]));
    scene.components.push(Box::new(instances(1)));
    scene.components.push(Box::new(quad(0, 0)));
    let steps = draw_scene(&scene);
    assert_eq!(draws(&steps, 1), vec![(6, 1)]);
}

#[test]
fn instance_count_is_that_of_the_instances_many() {
    let mut scene = Scene::new();
    scene.objects.push(object("many", vec![0, 1]));
    scene.components.push(Box::new(instances(1000)));
    scene.components.push(Box::new(quad(0, 0)));
    let steps = draw_scene(&scene);
    assert_eq!(draws(&steps, 1), vec![(6, 1000)]);
}

#[test]
fn instance_count_is_one_where_nothing_is_attached() {
    let mut scene = Scene::new();
    scene.objects.push(object("bare", vec![]));
    scene.components.push(Box::new(instances(7)));
    scene.components.push(Box::new(quad(0, 0)));
    let steps = draw_scene(&scene);
    assert_eq!(draws(&steps, 1), vec![(6, 1)]);
}

#[test]
fn first_attached_instance_gives_the_count() {
    let mut scene = Scene::new();
    scene.objects.push(object("two", vec![0, 2, 1, 3]));
    scene.components.push(Box::new(quad(0, 3)));
    scene.components.push(Box::new(instances(4)));
    scene.components.push(Box::new(instances(9)));
    scene.components.push(Box::new(instances(2)));
    let steps = draw_scene(&scene);
    // Bound at slot 1 is the paired component, 3; the count is that of 2,
    // which comes first on the attached list.
    assert_eq!(
        steps,
        vec![
            Step::SetVertexBuffer { slot: 0, component: 0 },
            Step::SetVertexBuffer { slot: 1, component: 3 },
            Step::SetIndexBuffer { component: 0 },
            Step::DrawIndexed { mesh: 0, index_count: 6, instance_count: 9 },
        ]
    );
}

#[test]
fn count_comes_from_the_components_attached_to_the_parent() {
    let mut scene = Scene::new();
    scene.objects.push(object("pair", vec![1, 2]));
    scene.components.push(Box::new(instances(2)));
    scene.components.push(Box::new(quad(0, 2)));
    scene.components.push(Box::new(instances(5)));
    let steps = draw_scene(&scene);
    // The instance component at position 0 is not attached and does not count.
    assert_eq!(
        steps,
        vec![
            Step::SetVertexBuffer { slot: 0, component: 1 },
            Step::SetVertexBuffer { slot: 1, component: 2 },
            Step::SetIndexBuffer { component: 1 },
            Step::DrawIndexed { mesh: 1, index_count: 6, instance_count: 5 },
        ]
    );
}

#[test]
fn unattached_instances_leave_the_mesh_in_one_copy() {
    let mut scene = Scene::new();
    scene.objects.push(object("odd", vec![2, 0, 2]));
    scene.components.push(Box::new(quad(0, 3)));
    scene.components.push(Box::new(instances(2)));
    scene.components.push(Box::new(Light));
    scene.components.push(Box::new(instances(8)));
    let steps = draw_scene(&scene);
    assert_eq!(draws(&steps, 0), vec![(6, 1)]);
}

#[test]
fn count_instances_walks_the_attached_list_in_order() {
    let mut scene = Scene::new();
    scene.components.push(Box::new(quad(0, 3)));
    scene.components.push(Box::new(instances(2)));
    scene.components.push(Box::new(Light));
    scene.components.push(Box::new(instances(8)));
    scene.components.push(Box::new(instances(0)));
    assert_eq!(count_instances(&scene, &[]), 1);
    assert_eq!(count_instances(&scene, &[0]), 1);
    assert_eq!(count_instances(&scene, &[0, 2]), 1);
    assert_eq!(count_instances(&scene, &[1]), 2);
    assert_eq!(count_instances(&scene, &[3]), 8);
    assert_eq!(count_instances(&scene, &[3, 1]), 8);
    assert_eq!(count_instances(&scene, &[1, 3]), 2);
    assert_eq!(count_instances(&scene, &[2, 0, 3, 1]), 8);
    assert_eq!(count_instances(&scene, &[3, 3]), 8);
    // An instance component without instances counts as what it is.
    assert_eq!(count_instances(&scene, &[4, 1]), 0);
}

#[test]
fn attached_entries_that_point_nowhere_are_passed_over() {
    let mut scene = Scene::new();
    scene.components.push(Box::new(Light));
    scene.components.push(Box::new(quad(0, 0)));
    assert_eq!(count_instances(&scene, &[10, 2, usize::MAX]), 1);
    scene.components.push(Box::new(instances(6)));
    assert_eq!(count_instances(&scene, &[10, 2, usize::MAX]), 6);
    assert_eq!(count_instances(&scene, &[3, 2]), 6);
    assert_eq!(count_instances(&scene, &[3, 1, 0]), 1);
}

#[test]
fn broken_parent_costs_the_frame_one_mesh() {
    let mut scene = Scene::new();
    scene.objects.push(object("only", vec![0, 1, 2]));
    scene.components.push(Box::new(quad(4, 2)));
    scene.components.push(Box::new(quad(0, 2)));
    scene.components.push(Box::new(instances(3)));
    let steps = draw_scene(&scene);
    assert_eq!(
        steps,
        vec![
            Step::SetVertexBuffer { slot: 0, component: 0 },
            Step::Warn {
                mesh: 0,
                warning: Warning::BrokenReference(BrokenReference {
                    target: Target::Object,
                    index: 4
                }),
            },
            Step::SetVertexBuffer { slot: 0, component: 1 },
            Step::SetVertexBuffer { slot: 1, component: 2 },
            Step::SetIndexBuffer { component: 1 },
            Step::DrawIndexed { mesh: 1, index_count: 6, instance_count: 3 },
        ]
    );
}

#[test]
fn broken_pairing_costs_the_frame_one_mesh() {
    let mut scene = Scene::new();
    scene.objects.push(object("only", vec![0]));
    scene.components.push(Box::new(quad(0, 9)));
    let steps = draw_scene(&scene);
    assert_eq!(
        steps,
        vec![
            Step::SetVertexBuffer { slot: 0, component: 0 },
            Step::Warn {
                mesh: 0,
                warning: Warning::BrokenReference(BrokenReference {
                    target: Target::Component,
                    index: 9
                }),
            },
        ]
    );
}

#[test]
fn broken_parent_is_found_before_a_bad_pairing() {
    let mut scene = Scene::new();
    scene.components.push(Box::new(quad(0, 0)));
    let steps = draw_scene(&scene);
    assert_eq!(draws(&steps, 0), vec![]);
    assert_eq!(
        warnings(&steps, 0),
        vec![Warning::BrokenReference(BrokenReference { target: Target::Object, index: 0 })]
    );
}

#[test]
fn every_resolved_mesh_is_drawn_once_in_list_order() {
    let mut scene = Scene::new();
    scene.objects.push(object("a", vec![0, 1]));
    scene.objects.push(object("b", vec![]));
    scene.components.push(Box::new(instances(2)));
    scene.components.push(Box::new(quad(0, 0)));
    scene.components.push(Box::new(Light));
    scene.components.push(Box::new(MeshComponent::default(1, 0)));
    scene.components.push(Box::new(quad(1, 2)));
    scene.components.push(Box::new(MeshComponent::empty()));
    let steps = draw_scene(&scene);
    assert_eq!(draws(&steps, 1), vec![(6, 2)]);
    assert_eq!(draws(&steps, 3), vec![(24, 1)]);
    assert_eq!(draws(&steps, 4), vec![]);
    assert_eq!(warnings(&steps, 4), vec![Warning::NotAnInstance { index: 2 }]);
    // The empty mesh is linked to object 0 and component 0, which resolve.
    assert_eq!(draws(&steps, 5), vec![(0, 2)]);
    for position in [0, 2] {
        assert_eq!(draws(&steps, position), vec![]);
        assert_eq!(warnings(&steps, position), vec![]);
    }
    let order: Vec<usize> = steps
        .iter()
        .filter_map(|step| match step {
            Step::DrawIndexed { mesh, .. } => Some(*mesh),
            _ => None,
        })
        .collect();
    assert_eq!(order, vec![1, 3, 5]);
}

#[test]
fn draw_mesh_appends_one_pass() {
    let mut scene = Scene::new();
    scene.objects.push(object("a", vec![0]));
    scene.components.push(Box::new(instances(2)));
    let mesh = quad(0, 0);
    let mut steps = vec![Step::SetIndexBuffer { component: 7 }];
    draw_mesh(&scene, 3, &mesh, &mut steps);
    assert_eq!(
        steps,
        vec![
            Step::SetIndexBuffer { component: 7 },
            Step::SetVertexBuffer { slot: 0, component: 3 },
            Step::SetVertexBuffer { slot: 1, component: 0 },
            Step::SetIndexBuffer { component: 3 },
            Step::DrawIndexed { mesh: 3, index_count: 6, instance_count: 2 },
        ]
    );
}

#[test]
fn scene_lookups_resolve_or_report() {
    let mut scene = Scene::new();
    scene.objects.push(object("first", vec![0]));
    scene.components.push(Box::new(quad(0, 1)));
    scene.components.push(Box::new(instances(1)));
    assert_eq!(scene.object(0).unwrap().name, "first");
    assert_eq!(
        scene.object(1).err(),
        Some(BrokenReference { target: Target::Object, index: 1 })
    );
    assert!(matches!(scene.component(0).unwrap().as_renderable(), Renderable::Mesh(_)));
    assert!(matches!(scene.component(1).unwrap().as_renderable(), Renderable::Instance(_)));
    assert_eq!(
        scene.component(2).err(),
        Some(BrokenReference { target: Target::Component, index: 2 })
    );
    assert_eq!(
        scene.component(usize::MAX).err(),
        Some(BrokenReference { target: Target::Component, index: usize::MAX })
    );
}

#[test]
fn resolve_tells_of_the_first_link_that_fails() {
    let mut scene = Scene::new();
    scene.objects.push(object("zero", vec![]));
    scene.objects.push(object("one", vec![4, 0, 4]));
    scene.components.push(Box::new(instances(1)));
    scene.components.push(Box::new(Light));
    scene.components.push(Box::new(quad(0, 0)));
    // Both links hold: the answer is the parent.
    let parent = resolve(&scene, &quad(0, 0)).unwrap();
    assert_eq!(parent.name, "zero");
    assert_eq!(parent.components, Vec::<usize>::new());
    let parent = resolve(&scene, &quad(1, 0)).unwrap();
    assert_eq!(parent.name, "one");
    assert_eq!(parent.components, vec![4, 0, 4]);
    // The parent comes first.
    assert_eq!(
        resolve(&scene, &quad(2, 3)).err(),
        Some(Warning::BrokenReference(BrokenReference { target: Target::Object, index: 2 }))
    );
    assert_eq!(
        resolve(&scene, &quad(2, 1)).err(),
        Some(Warning::BrokenReference(BrokenReference { target: Target::Object, index: 2 }))
    );
    assert_eq!(
        resolve(&scene, &quad(1, 3)).err(),
        Some(Warning::BrokenReference(BrokenReference { target: Target::Component, index: 3 }))
    );
    // A component is there, but of another kind.
    assert_eq!(resolve(&scene, &quad(1, 1)).err(), Some(Warning::NotAnInstance { index: 1 }));
    assert_eq!(resolve(&scene, &quad(1, 2)).err(), Some(Warning::NotAnInstance { index: 2 }));
}
