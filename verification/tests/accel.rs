use kubgrupp::render::accel::{
    build_ranges, describe_mesh, get_instance_geometry, get_mesh_geometries, instance_record,
    AccelError, BuildRange, INSTANCE_FLAGS, INSTANCE_MASK, INSTANCE_STRIDE,
};
use kubgrupp::render::vertex_data::{vertex_normal_data, VertexError};
use kubgrupp::scene::scenes::mesh::{Mesh, Object};

fn bits(values: &[f32]) -> Vec<u32> {
    values.iter().map(|v| v.to_bits()).collect()
}

fn triangle_mesh() -> Mesh {
    Mesh {
        positions: bits(&[0.0, 0.0, 0.0, 1.0, 0.0, 0.0, 0.0, 1.0, 0.0]),
        normals: bits(&[0.0, 0.0, 1.0, 0.0, 0.0, 1.0, 0.0, 0.0, 1.0]),
        indices: vec![0, 1, 2],
    }
}

fn quad_mesh() -> Mesh {
    Mesh {
        positions: bits(&[0.0, 0.0, 0.0, 1.0, 0.0, 0.0, 1.0, 1.0, 0.0, 0.0, 1.0, 0.0]),
        normals: bits(&[0.0, 0.0, 1.0, 0.0, 0.0, 1.0, 0.0, 0.0, 1.0, 0.0, 0.0, 1.0]),
        indices: vec![0, 1, 2, 0, 2, 3],
    }
}

fn object(mesh_i: usize, brdf_i: usize, vertex_index: u32) -> Object {
    let mut transform = [0u32; 16];
    for (i, t) in transform.iter_mut().enumerate() {
        *t = (i as f32 + 1.0).to_bits();
    }
    Object { transform, mesh_i, brdf_i, brdf_params: Vec::new(), vertex_index }
}

#[test]
fn build_ranges_of_a_batch() {
    let ranges = build_ranges(3, &[1, 12, 7]).unwrap();
    assert_eq!(ranges.len(), 3);
    assert_eq!(
        ranges[1],
        BuildRange { primitive_count: 12, primitive_offset: 0, first_vertex: 0, transform_offset: 0 }
    );
    assert_eq!(ranges[2].primitive_count, 7);
}

#[test]
fn build_rejects_what_has_nothing_to_build_from() {
    assert_eq!(build_ranges(0, &[]).unwrap_err(), AccelError::NoGeometry);
    assert_eq!(build_ranges(2, &[1]).unwrap_err(), AccelError::CountMismatch);
    assert_eq!(build_ranges(1, &[0]).unwrap_err(), AccelError::NoPrimitives(0));
    assert_eq!(
        build_ranges(3, &[4, 0, 0]).unwrap_err(),
        AccelError::NoPrimitives(1)
    );
}

#[test]
fn top_level_build_rejects_an_empty_instance_list() {
    assert_eq!(
        get_instance_geometry(&[], &[0x1000]).unwrap_err(),
        AccelError::NoInstances
    );
    assert_eq!(
        get_instance_geometry(&[], &[]).unwrap_err(),
        AccelError::NoInstances
    );
}

#[test]
fn mesh_geometry_of_a_triangle_and_a_quad() {
    let geometries = get_mesh_geometries(&[triangle_mesh(), quad_mesh()]).unwrap();
    assert_eq!(geometries.len(), 2);
    assert_eq!(geometries[0].vertex_buffer_size, 36);
    assert_eq!(geometries[0].index_buffer_size, 12);
    assert_eq!(geometries[0].max_vertex, 2);
    assert_eq!(geometries[0].vertex_stride, 12);
    assert_eq!(geometries[0].primitive_count, 1);
    assert_eq!(geometries[1].vertex_buffer_size, 48);
    assert_eq!(geometries[1].index_buffer_size, 24);
    assert_eq!(geometries[1].max_vertex, 3);
    assert_eq!(geometries[1].primitive_count, 2);
}

#[test]
fn mesh_without_vertices_or_indices_is_rejected() {
    let mut no_index = triangle_mesh();
    no_index.indices.clear();
    assert_eq!(describe_mesh(4, &no_index).unwrap_err(), AccelError::EmptyMesh(4));
    let mut no_vertex = triangle_mesh();
    no_vertex.positions.truncate(2);
    assert_eq!(
        get_mesh_geometries(&[triangle_mesh(), no_vertex, no_index]).unwrap_err(),
        AccelError::EmptyMesh(1)
    );
    assert!(get_mesh_geometries(&[]).unwrap().is_empty());
}

#[test]
fn instance_record_of_an_object() {
    let record = instance_record(0, &object(1, 2, 0x0123_4567), &[0xaaaa, 0xbbbb]).unwrap();
    let rows: Vec<f32> = record.transform.iter().map(|b| f32::from_bits(*b)).collect();
    assert_eq!(
        rows,
        vec![1.0, 5.0, 9.0, 13.0, 2.0, 6.0, 10.0, 14.0, 3.0, 7.0, 11.0, 15.0]
    );
    assert_eq!(record.custom_index, 0x0023_4567);
    assert_eq!(record.mask, INSTANCE_MASK);
    assert_eq!(record.sbt_record_offset, 2);
    assert_eq!(record.flags, INSTANCE_FLAGS);
    assert_eq!(record.acceleration_structure, 0xbbbb);
}

#[test]
fn instance_geometry_of_objects() {
    let objects = vec![object(0, 0, 0), object(1, 1, 3), object(0, 1, 0)];
    let geometry = get_instance_geometry(&objects, &[0x10, 0x20]).unwrap();
    assert_eq!(geometry.instance_count, 3);
    assert_eq!(geometry.buffer_size, 3 * INSTANCE_STRIDE);
    assert_eq!(geometry.records.len(), 3);
    assert_eq!(geometry.records[0].acceleration_structure, 0x10);
    assert_eq!(geometry.records[1].acceleration_structure, 0x20);
    assert_eq!(geometry.records[2].acceleration_structure, 0x10);
    assert_eq!(geometry.records[1].custom_index, 3);
}

#[test]
fn instance_of_a_mesh_that_was_not_built_is_rejected() {
    let objects = vec![object(0, 0, 0), object(2, 0, 0), object(5, 0, 0)];
    assert_eq!(
        get_instance_geometry(&objects, &[0x10, 0x20]).unwrap_err(),
        AccelError::MeshIndex(1)
    );
    if usize::BITS == 64 {
        let objects = vec![object(0, (u32::MAX as usize) + 1, 0)];
        assert_eq!(
            get_instance_geometry(&objects, &[0x10]).unwrap_err(),
            AccelError::MaterialIndex(0)
        );
    }
}

#[test]
fn vertex_data_follows_the_indices() {
    let mut mesh = quad_mesh();
    for (i, n) in mesh.normals.iter_mut().enumerate() {
        *n = (100.0 + i as f32).to_bits();
    }
    for (i, p) in mesh.positions.iter_mut().enumerate() {
        *p = (i as f32).to_bits();
    }
    mesh.indices = vec![3, 0];
    let data = vertex_normal_data(&[mesh, triangle_mesh()]).unwrap();
    let floats: Vec<f32> = data.iter().map(|b| f32::from_bits(*b)).collect();
    assert_eq!(floats.len(), 2 * 6 + 3 * 6);
    assert_eq!(
        &floats[..12],
        &[9.0, 10.0, 11.0, 109.0, 110.0, 111.0, 0.0, 1.0, 2.0, 100.0, 101.0, 102.0]
    );
    assert_eq!(&floats[12..18], &[0.0, 0.0, 0.0, 0.0, 0.0, 1.0]);
    assert!(vertex_normal_data(&[]).unwrap().is_empty());
}

#[test]
fn vertex_data_rejects_an_index_without_a_vertex() {
    let mut mesh = triangle_mesh();
    mesh.indices = vec![0, 1, 3];
    assert_eq!(
        vertex_normal_data(&[triangle_mesh(), mesh]).unwrap_err(),
        VertexError { mesh: 1, index: 2 }
    );
    let mut mesh = triangle_mesh();
    mesh.normals.truncate(6);
    assert_eq!(
        vertex_normal_data(&[mesh]).unwrap_err(),
        VertexError { mesh: 0, index: 2 }
    );
}
