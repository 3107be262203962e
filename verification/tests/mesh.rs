use herebedragons::mesh::{
    assemble_vertices, BufferType, MeshRef, ResourceManager, GL_ARRAY_BUFFER,
    GL_ELEMENT_ARRAY_BUFFER,
};
use herebedragons::scene::{Material, Object};
use herebedragons::UiUserEvent;

#[test]
fn vertices_interleave_the_flat_streams() {
    let positions: Vec<i32> = vec![1, 2, 3, 4, 5, 6];
    let normals: Vec<i32> = vec![10, 11, 12, 13, 14, 15];
    let texcoords: Vec<i32> = vec![20, 21, 22, 23];
    let vertices = assemble_vertices(&positions, &normals, &texcoords);
    assert_eq!(vertices.len(), 2);
    assert_eq!(vertices[0].position, [1, 2, 3]);
    assert_eq!(vertices[0].normal, [10, 11, 12]);
    assert_eq!(vertices[0].tex_coord, [20, 21]);
    assert_eq!(vertices[1].position, [4, 5, 6]);
    assert_eq!(vertices[1].normal, [13, 14, 15]);
    assert_eq!(vertices[1].tex_coord, [22, 23]);
}

#[test]
fn leftover_scalars_do_not_make_a_vertex() {
    // eight position scalars are two full vertices; the tail is dropped
    let positions: Vec<i32> = vec![1, 2, 3, 4, 5, 6, 7, 8];
    let normals: Vec<i32> = vec![0; 6];
    let texcoords: Vec<i32> = vec![0; 4];
    let vertices = assemble_vertices(&positions, &normals, &texcoords);
    assert_eq!(vertices.len(), 2);
}

#[test]
fn empty_streams_make_no_vertices() {
    let positions: Vec<i32> = Vec::new();
    let normals: Vec<i32> = Vec::new();
    let texcoords: Vec<i32> = Vec::new();
    assert!(assemble_vertices(&positions, &normals, &texcoords).is_empty());
}

#[test]
fn buffer_types_map_to_their_native_codes() {
    assert_eq!(BufferType::ArrayBuffer.to_gl(), GL_ARRAY_BUFFER);
    assert_eq!(BufferType::ElementArrayBuffer.to_gl(), GL_ELEMENT_ARRAY_BUFFER);
}

#[test]
fn plain_data_carriers_hold_their_values() {
    let mesh_ref = MeshRef { mesh_resource_id: 5 };
    assert_eq!(mesh_ref.mesh_resource_id, 5);

    let mut textures = std::collections::HashMap::new();
    textures.insert(String::from("color"), String::from("dragon.png"));
    let material = Material { textures };
    assert_eq!(material.textures.get("color").map(String::as_str), Some("dragon.png"));

    let object = Object {
        mesh: String::from("dragon.obj"),
        material_name: String::from("dragon"),
    };
    assert_eq!(object.mesh, "dragon.obj");
    assert_eq!(object.material_name, "dragon");

    let event = UiUserEvent::Test;
    assert_eq!(event, UiUserEvent::Test);
}

#[test]
fn mesh_ids_retrieve_what_was_added() {
    let mut resources: ResourceManager<u32> = ResourceManager::new();
    let first = resources.add_mesh(vec![10, 11]);
    let second = resources.add_mesh(vec![20]);
    assert_eq!(first, 0);
    assert_eq!(second, 1);
    assert_eq!(resources.get_mesh(first), &vec![10, 11]);
    assert_eq!(resources.get_mesh(second), &vec![20]);
}
