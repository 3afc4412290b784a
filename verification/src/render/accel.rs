//! What goes into the acceleration structures: the geometry of each mesh for
//! its bottom-level structure, the instance records for the top-level
//! structure, and the range of primitives of each build.
//!
//! A build is rejected here, before the device is asked for anything, where
//! it has nothing to build from.

use crate::scene::scenes::mesh::{Mesh, Object};
use vstd::prelude::*;

verus! {

/// Bytes of one vertex position: three floats.
pub const VERTEX_STRIDE: u64 = 12;

/// Bytes of one index.
pub const INDEX_STRIDE: u64 = 4;

/// Bytes of one instance record on the device.
pub const INSTANCE_STRIDE: u64 = 64;

/// The visibility mask of every instance: visible to all rays.
pub const INSTANCE_MASK: u8 = 0xff;

/// The flags of every instance: no culling by the facing of a triangle.
pub const INSTANCE_FLAGS: u8 = 1;

/// Why there is nothing to build from.
#[derive(Clone, Copy, Debug, PartialEq, Eq, Structural)]
pub enum AccelError {
    /// No geometry at all.
    NoGeometry,
    /// The number of primitive counts is not the number of geometries.
    CountMismatch,
    /// The geometry with this index has no primitive.
    NoPrimitives(usize),
    /// The scene has no instance.
    NoInstances,
    /// The object with this index names a mesh that has no bottom-level
    /// structure.
    MeshIndex(usize),
    /// The mesh with this index has no vertex or no index.
    EmptyMesh(usize),
    /// The mesh with this index has more vertices or indices than 32 bits
    /// can count.
    MeshTooLarge(usize),
    /// The object with this index names a material past what 32 bits can
    /// count.
    MaterialIndex(usize),
    /// More instances than 32 bits can count.
    TooManyInstances,
}

/// The primitives that one build reads.
#[derive(Clone, Copy, Debug, PartialEq, Eq, Structural)]
pub struct BuildRange {
    pub primitive_count: u32,
    pub primitive_offset: u32,
    pub first_vertex: u32,
    pub transform_offset: u32,
}

/// The range of a build of `primitive_count` primitives: all of them, from
/// the start.
pub open spec fn range_of(primitive_count: u32) -> BuildRange {
    BuildRange { primitive_count, primitive_offset: 0, first_vertex: 0, transform_offset: 0 }
}

impl AccelError {
    /// The index of the geometry, mesh or object that the error is about;
    /// -1 for an error about the whole.
    pub open spec fn index(self) -> int {
        match self {
            AccelError::NoPrimitives(i) => i as int,
            AccelError::MeshIndex(i) => i as int,
            AccelError::EmptyMesh(i) => i as int,
            AccelError::MeshTooLarge(i) => i as int,
            AccelError::MaterialIndex(i) => i as int,
            _ => -1,
        }
    }
}

/// Whether `result` is what a batch of `geometry_count` builds with these
/// primitive counts comes to: a range for each geometry, or the first fault
/// that is found, the batch as a whole before its geometries.
pub open spec fn is_batch_result(
    geometry_count: nat,
    primitive_counts: Seq<u32>,
    result: Result<Seq<BuildRange>, AccelError>,
) -> bool {
    let fits = geometry_count != 0 && primitive_counts.len() == geometry_count;
    match result {
        Ok(ranges) => fits && ranges == primitive_counts.map_values(|c: u32| range_of(c))
            && forall|j: int| 0 <= j < primitive_counts.len() ==> primitive_counts[j] != 0,
        Err(AccelError::NoGeometry) => geometry_count == 0,
        Err(AccelError::CountMismatch) => geometry_count != 0 && primitive_counts.len()
            != geometry_count,
        Err(AccelError::NoPrimitives(i)) => fits && i < primitive_counts.len()
            && primitive_counts[i as int] == 0 && forall|j: int|
            0 <= j < i ==> primitive_counts[j] != 0,
        Err(_) => false,
    }
}

/// The ranges of a batch of builds, one for each geometry. A batch without
/// geometry and a geometry without primitives are rejected.
pub fn build_ranges(geometry_count: usize, primitive_counts: &[u32]) -> (ranges: Result<
    Vec<BuildRange>,
    AccelError,
>)
    ensures
        is_batch_result(
            geometry_count as nat,
            primitive_counts@,
            match ranges {
                Ok(r) => Ok(r@),
                Err(e) => Err(e),
            },
        ),
{
    if geometry_count == 0 {
        return Err(AccelError::NoGeometry);
    }
    if primitive_counts.len() != geometry_count {
        return Err(AccelError::CountMismatch);
    }
    let mut ranges: Vec<BuildRange> = Vec::new();
    let mut i: usize = 0;
    while i < primitive_counts.len()
        invariant
            i <= primitive_counts@.len(),
            geometry_count != 0 && primitive_counts@.len() == geometry_count,
            forall|j: int| 0 <= j < i ==> primitive_counts@[j] != 0,
            ranges@ == primitive_counts@.take(i as int).map_values(|c: u32| range_of(c)),
        decreases primitive_counts@.len() - i,
    {
        let count: u32 = primitive_counts[i];
        if count == 0 {
            return Err(AccelError::NoPrimitives(i));
        }
        ranges.push(
            BuildRange {
                primitive_count: count,
                primitive_offset: 0,
                first_vertex: 0,
                transform_offset: 0,
            },
        );
        assert(ranges@ =~= primitive_counts@.take(i + 1).map_values(|c: u32| range_of(c)));
        i += 1;
    }
    assert(primitive_counts@.take(i as int) =~= primitive_counts@);
    Ok(ranges)
}

/// The geometry of a mesh as its bottom-level build reads it.
#[derive(Clone, Copy, Debug, PartialEq, Eq, Structural)]
pub struct MeshGeometry {
    /// Bytes of the vertex buffer.
    pub vertex_buffer_size: u64,
    /// Bytes of the index buffer.
    pub index_buffer_size: u64,
    /// The highest index of a vertex.
    pub max_vertex: u32,
    /// Bytes from one vertex to the next.
    pub vertex_stride: u64,
    /// The number of triangles.
    pub primitive_count: u32,
}

/// The fault of the mesh with index `at`, if it has one.
pub open spec fn mesh_error(at: int, mesh: Mesh) -> Option<AccelError> {
    let vertices = mesh.positions@.len() / 3;
    let indices = mesh.indices@.len();
    if vertices == 0 || indices == 0 {
        Some(AccelError::EmptyMesh(at as usize))
    } else if vertices > u32::MAX || indices > u32::MAX {
        Some(AccelError::MeshTooLarge(at as usize))
    } else {
        None
    }
}

/// The geometry of a mesh: a vertex is three floats and a triangle three
/// indices.
pub open spec fn geometry_of(mesh: Mesh) -> MeshGeometry {
    let vertices = mesh.positions@.len() / 3;
    let indices = mesh.indices@.len();
    MeshGeometry {
        vertex_buffer_size: (VERTEX_STRIDE * vertices) as u64,
        index_buffer_size: (INDEX_STRIDE * indices) as u64,
        max_vertex: (vertices - 1) as u32,
        vertex_stride: VERTEX_STRIDE,
        primitive_count: (indices / 3) as u32,
    }
}

/// The geometry of the mesh with index `at`.
pub fn describe_mesh(at: usize, mesh: &Mesh) -> (geometry: Result<MeshGeometry, AccelError>)
    ensures
        match geometry {
            Ok(g) => mesh_error(at as int, *mesh) is None && g == geometry_of(*mesh),
            Err(e) => mesh_error(at as int, *mesh) == Some(e),
        },
{
    let vertex_count: usize = mesh.positions.len() / 3;
    let index_count: usize = mesh.indices.len();
    if vertex_count == 0 || index_count == 0 {
        return Err(AccelError::EmptyMesh(at));
    }
    if vertex_count > u32::MAX as usize || index_count > u32::MAX as usize {
        return Err(AccelError::MeshTooLarge(at));
    }
    Ok(
        MeshGeometry {
            vertex_buffer_size: VERTEX_STRIDE * (vertex_count as u64),
            index_buffer_size: INDEX_STRIDE * (index_count as u64),
            max_vertex: (vertex_count - 1) as u32,
            vertex_stride: VERTEX_STRIDE,
            primitive_count: (index_count / 3) as u32,
        },
    )
}

/// None of the first `n` meshes has a fault.
pub open spec fn meshes_fine(meshes: Seq<Mesh>, n: int) -> bool {
    forall|j: int| 0 <= j < n ==> mesh_error(j, #[trigger] meshes[j]) is None
}

/// Whether `result` is what the meshes come to: the geometry of each, or the
/// fault of the first mesh that has one.
pub open spec fn is_mesh_result(meshes: Seq<Mesh>, result: Result<Seq<MeshGeometry>, AccelError>) -> bool {
    match result {
        Ok(geometries) => {
            &&& meshes_fine(meshes, meshes.len() as int)
            &&& geometries.len() == meshes.len()
            &&& forall|j: int|
                0 <= j < meshes.len() ==> #[trigger] geometries[j] == geometry_of(meshes[j])
        },
        Err(e) => {
            &&& 0 <= e.index() < meshes.len()
            &&& mesh_error(e.index(), meshes[e.index()]) == Some(e)
            &&& meshes_fine(meshes, e.index())
        },
    }
}

/// The geometry of every mesh, for one bottom-level structure each.
pub fn get_mesh_geometries(meshes: &[Mesh]) -> (geometries: Result<Vec<MeshGeometry>, AccelError>)
    ensures
        is_mesh_result(
            meshes@,
            match geometries {
                Ok(g) => Ok(g@),
                Err(e) => Err(e),
            },
        ),
{
    let mut geometries: Vec<MeshGeometry> = Vec::new();
    let mut i: usize = 0;
    while i < meshes.len()
        invariant
            i <= meshes@.len(),
            meshes_fine(meshes@, i as int),
            geometries@.len() == i,
            forall|j: int| 0 <= j < i ==> #[trigger] geometries@[j] == geometry_of(meshes@[j]),
        decreases meshes@.len() - i,
    {
        match describe_mesh(i, &meshes[i]) {
            Ok(g) => {
                geometries.push(g);
            },
            Err(e) => {
                return Err(e);
            },
        }
        i += 1;
    }
    Ok(geometries)
}

/// One instance as the top-level build reads it.
#[derive(Clone, Copy, Debug, PartialEq, Eq)]
pub struct InstanceRecord {
    /// The first three rows of the transform, row by row.
    pub transform: [u32; 12],
    /// What the shaders read as the index of the instance: 24 bits.
    pub custom_index: u32,
    /// The visibility mask.
    pub mask: u8,
    /// The offset of the hit group of the instance in the shader binding
    /// table: 24 bits.
    pub sbt_record_offset: u32,
    /// The instance flags.
    pub flags: u8,
    /// The device address of the bottom-level structure.
    pub acceleration_structure: u64,
}

/// The lower 24 bits of `value`.
pub open spec fn low_24(value: u32) -> u32 {
    value & 0x00ff_ffff
}

/// The first three rows of the matrix `columns`, which holds its floats
/// column by column, row by row.
pub open spec fn rows_3x4(columns: Seq<u32>) -> Seq<u32> {
    Seq::new(12, |k: int| columns[4 * (k % 4) + k / 4])
}

/// The fault of the object with index `at`, if it has one, where there are
/// `structures` bottom-level structures.
pub open spec fn object_error(at: int, object: Object, structures: nat) -> Option<AccelError> {
    if object.mesh_i >= structures {
        Some(AccelError::MeshIndex(at as usize))
    } else if object.brdf_i > u32::MAX {
        Some(AccelError::MaterialIndex(at as usize))
    } else {
        None
    }
}

/// Whether `record` is the instance record of `object`, given the device
/// addresses of the bottom-level structures.
pub open spec fn is_record_of(record: InstanceRecord, object: Object, addresses: Seq<u64>) -> bool {
    &&& record.transform@ == rows_3x4(object.transform@)
    &&& record.custom_index == low_24(object.vertex_index)
    &&& record.mask == INSTANCE_MASK
    &&& record.sbt_record_offset == low_24(object.brdf_i as u32)
    &&& record.flags == INSTANCE_FLAGS
    &&& record.acceleration_structure == addresses[object.mesh_i as int]
}

/// None of the first `n` objects has a fault.
pub open spec fn objects_fine(objects: Seq<Object>, structures: nat, n: int) -> bool {
    forall|j: int| 0 <= j < n ==> object_error(j, #[trigger] objects[j], structures) is None
}

/// The instances of the top-level build as the contracts see them.
pub ghost struct Instances {
    pub records: Seq<InstanceRecord>,
    pub instance_count: u32,
    pub buffer_size: u64,
}

/// Whether `result` is what the objects come to: an instance for each, or
/// the first fault that is found, the scene as a whole before its objects.
pub open spec fn is_instance_result(
    objects: Seq<Object>,
    addresses: Seq<u64>,
    result: Result<Instances, AccelError>,
) -> bool {
    match result {
        Ok(instances) => {
            &&& 0 < objects.len() <= u32::MAX
            &&& objects_fine(objects, addresses.len(), objects.len() as int)
            &&& instances.records.len() == objects.len()
            &&& forall|j: int|
                0 <= j < objects.len() ==> is_record_of(
                    #[trigger] instances.records[j],
                    objects[j],
                    addresses,
                )
            &&& instances.instance_count == objects.len()
            &&& instances.buffer_size == INSTANCE_STRIDE * objects.len()
        },
        Err(AccelError::NoInstances) => objects.len() == 0,
        Err(AccelError::TooManyInstances) => objects.len() > u32::MAX,
        Err(e) => {
            &&& 0 < objects.len() <= u32::MAX
            &&& 0 <= e.index() < objects.len()
            &&& object_error(e.index(), objects[e.index()], addresses.len()) == Some(e)
            &&& objects_fine(objects, addresses.len(), e.index())
        },
    }
}

/// The instance record of the object with index `at`.
pub fn instance_record(at: usize, object: &Object, addresses: &[u64]) -> (record: Result<
    InstanceRecord,
    AccelError,
>)
    ensures
        match record {
            Ok(r) => object_error(at as int, *object, addresses@.len()) is None && is_record_of(
                r,
                *object,
                addresses@,
            ),
            Err(e) => object_error(at as int, *object, addresses@.len()) == Some(e),
        },
{
    if object.mesh_i >= addresses.len() {
        return Err(AccelError::MeshIndex(at));
    }
    if object.brdf_i > u32::MAX as usize {
        return Err(AccelError::MaterialIndex(at));
    }
    let mut transform: [u32; 12] = [0u32; 12];
    let mut k: usize = 0;
    while k < 12
        invariant
            k <= 12,
            forall|j: int| 0 <= j < k ==> transform@[j] == object.transform@[4 * (j % 4) + j / 4],
        decreases 12 - k,
    {
        transform.set(k, object.transform[4 * (k % 4) + k / 4]);
        k += 1;
    }
    assert(transform@ =~= rows_3x4(object.transform@));
    Ok(
        InstanceRecord {
            transform,
            custom_index: object.vertex_index & 0x00ff_ffff,
            mask: INSTANCE_MASK,
            sbt_record_offset: (object.brdf_i as u32) & 0x00ff_ffff,
            flags: INSTANCE_FLAGS,
            acceleration_structure: addresses[object.mesh_i],
        },
    )
}

/// The instances of the top-level build.
#[derive(Clone, Debug, PartialEq, Eq)]
pub struct InstanceGeometry {
    /// One record for each object, in their order.
    pub records: Vec<InstanceRecord>,
    /// The number of instances, which is the number of primitives of the
    /// build.
    pub instance_count: u32,
    /// Bytes of the instance buffer.
    pub buffer_size: u64,
}

/// The instances of the top-level build: one for each object, each with the
/// device address of the bottom-level structure of its mesh. A scene without
/// objects is rejected: the build needs an instance.
pub fn get_instance_geometry(objects: &[Object], addresses: &[u64]) -> (geometry: Result<
    InstanceGeometry,
    AccelError,
>)
    ensures
        is_instance_result(
            objects@,
            addresses@,
            match geometry {
                Ok(g) => Ok(
                    Instances {
                        records: g.records@,
                        instance_count: g.instance_count,
                        buffer_size: g.buffer_size,
                    },
                ),
                Err(e) => Err(e),
            },
        ),
{
    if objects.len() == 0 {
        return Err(AccelError::NoInstances);
    }
    if objects.len() > u32::MAX as usize {
        return Err(AccelError::TooManyInstances);
    }
    let mut records: Vec<InstanceRecord> = Vec::new();
    let mut i: usize = 0;
    while i < objects.len()
        invariant
            i <= objects@.len(),
            0 < objects@.len() <= u32::MAX,
            objects_fine(objects@, addresses@.len(), i as int),
            records@.len() == i,
            forall|j: int|
                0 <= j < i ==> is_record_of(#[trigger] records@[j], objects@[j], addresses@),
        decreases objects@.len() - i,
    {
        match instance_record(i, &objects[i], addresses) {
            Ok(r) => {
                records.push(r);
            },
            Err(e) => {
                return Err(e);
            },
        }
        i += 1;
    }
    let instance_count: u32 = objects.len() as u32;
    Ok(
        InstanceGeometry {
            records,
            instance_count,
            buffer_size: INSTANCE_STRIDE * (instance_count as u64),
        },
    )
}

} // verus!
