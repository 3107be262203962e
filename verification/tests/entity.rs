use herebedragons::entity::{Component, ComponentBundle, ComponentKind, Parent, World};
use herebedragons::mesh::MeshRef;

#[test]
fn a_fresh_bundle_holds_nothing() {
    let bundle = ComponentBundle::new();
    assert!(!bundle.has(ComponentKind::Parent));
    assert!(!bundle.has(ComponentKind::MeshRef));
    assert!(bundle.component(ComponentKind::Parent).is_none());
}

#[test]
fn adding_a_component_makes_it_visible() {
    let mut bundle = ComponentBundle::new();
    let previous = bundle.add_component(Component::Parent(Parent(3)));
    assert!(previous.is_none());
    assert!(bundle.has(ComponentKind::Parent));
    assert!(!bundle.has(ComponentKind::MeshRef));
    match bundle.component(ComponentKind::Parent) {
        Some(Component::Parent(parent)) => assert_eq!(parent.0, 3),
        _ => panic!("expected the parent component"),
    }
}

#[test]
fn adding_a_second_component_of_a_kind_replaces_the_first() {
    let mut bundle = ComponentBundle::new();
    bundle.add_component(Component::MeshRef(MeshRef { mesh_resource_id: 1 }));
    let previous = bundle.add_component(Component::MeshRef(MeshRef { mesh_resource_id: 2 }));
    match previous {
        Some(Component::MeshRef(mesh_ref)) => assert_eq!(mesh_ref.mesh_resource_id, 1),
        _ => panic!("expected the replaced mesh reference"),
    }
    match bundle.component(ComponentKind::MeshRef) {
        Some(Component::MeshRef(mesh_ref)) => assert_eq!(mesh_ref.mesh_resource_id, 2),
        _ => panic!("expected the new mesh reference"),
    }
}

#[test]
fn components_can_be_rewritten_in_place() {
    let mut bundle = ComponentBundle::new();
    bundle.add_component(Component::Parent(Parent(1)));
    if let Some(component) = bundle.component_mut(ComponentKind::Parent) {
        *component = Component::Parent(Parent(9));
    }
    match bundle.component(ComponentKind::Parent) {
        Some(Component::Parent(parent)) => assert_eq!(parent.0, 9),
        _ => panic!("expected the rewritten parent"),
    }
}

#[test]
fn world_hands_out_increasing_entity_ids() {
    let mut world = World::new();
    let first = world.add(ComponentBundle::new());
    let second = world.add(ComponentBundle::new());
    assert_eq!(first, 1);
    assert_eq!(second, 2);
    assert_eq!(world.entity_count(), 2);
}
