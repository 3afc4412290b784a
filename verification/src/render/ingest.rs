//! What taking in a scene comes to before the device is asked for anything:
//! the geometry and the build ranges of the bottom-level structures, the
//! pipeline, the layout of the shader binding table, the descriptor set, and
//! the data of the scene buffers.
//!
//! A scene that cannot be taken in is refused here, with the first fault in
//! the order in which the scene is taken in.

use crate::render::accel::{
    build_ranges, geometry_of, get_mesh_geometries, is_batch_result, is_mesh_result, range_of,
    AccelError, BuildRange, MeshGeometry,
};
use crate::render::descriptor::{
    binding_at, get_descriptor_set_layout, plan_writes, planned_writes, pool_size_of, pool_sizes,
    Binding, PlannedWrite, PoolSize, BINDING_COUNT,
};
use crate::render::light_buffer::{
    lemma_light_buffer_bytes, light_buffer, light_words, record_words, LightError,
};
use crate::render::pipeline::{group_at, plan_pipeline, stage_at, PipelineError, PipelinePlan};
use crate::render::sbt::{layout_error, shape_for, SbtError, SbtLayout};
use crate::render::vertex_data::{is_vertex_result, vertex_normal_data, VertexError};
use crate::render::words::is_native_image;
use crate::scene::scenes::mesh::{Mesh, MeshScene};
use vstd::prelude::*;

verus! {

/// What the device says of its shader group handles.
#[derive(Clone, Copy, Debug, PartialEq, Eq)]
pub struct HandleProperties {
    pub shader_group_handle_size: u32,
    pub shader_group_handle_alignment: u32,
    pub shader_group_base_alignment: u32,
}

/// Why a scene cannot be taken in.
#[derive(Clone, Copy, Debug, PartialEq, Eq)]
pub enum IngestError {
    /// A mesh or the set of instances cannot be built from.
    Accel(AccelError),
    /// The pipeline cannot be planned.
    Pipeline(PipelineError),
    /// The shader binding table cannot be laid out.
    Table(SbtError),
    /// An index of a mesh names no vertex.
    Vertex(VertexError),
    /// The lights cannot be packed.
    Light(LightError),
}

/// What taking in a scene comes to.
#[derive(Clone, Debug)]
pub struct IngestPlan {
    /// The geometry of each mesh, for one bottom-level structure each.
    pub mesh_geometries: Vec<MeshGeometry>,
    /// The range of each bottom-level build.
    pub bottom_level_ranges: Vec<BuildRange>,
    /// The number of instances of the one top-level structure.
    pub instance_count: usize,
    /// The range of the build of the top-level structure: one build, of all
    /// instances.
    pub top_level_ranges: Vec<BuildRange>,
    pub pipeline: PipelinePlan,
    pub table: SbtLayout,
    pub bindings: Vec<Binding>,
    pub pool_sizes: Vec<PoolSize>,
    /// The data of the vertex buffer.
    pub vertex_normal_data: Vec<u32>,
    /// The data of the light buffer.
    pub light_data: Vec<u8>,
    /// Whether the scene has material parameters, and so a buffer for them.
    pub material_buffer: bool,
    /// The writes into the descriptor set, to be made once the resources
    /// are there.
    pub writes: Vec<PlannedWrite>,
}

/// The number of triangles of each mesh.
pub open spec fn primitive_counts_of(meshes: Seq<Mesh>) -> Seq<u32> {
    meshes.map_values(|m: Mesh| geometry_of(m).primitive_count)
}

/// The fault of the geometry of a scene, if it has one: that of the first
/// mesh that has one, else that of the batch of bottom-level builds, else
/// that the scene has no instance or more than 32 bits can count.
pub open spec fn is_geometry_fault(scene: MeshScene, error: AccelError) -> bool {
    let meshes = scene.meshes@;
    let counts = primitive_counts_of(meshes);
    ||| is_mesh_result(meshes, Err(error))
    ||| is_mesh_result(meshes, Ok(meshes.map_values(|m: Mesh| geometry_of(m)))) && is_batch_result(
        meshes.len(),
        counts,
        Err(error),
    )
    ||| is_mesh_result(meshes, Ok(meshes.map_values(|m: Mesh| geometry_of(m)))) && is_batch_result(
        meshes.len(),
        counts,
        Ok(counts.map_values(|c: u32| range_of(c))),
    ) && ((scene.objects@.len() == 0 && error == AccelError::NoInstances) || (scene.objects@.len()
        > u32::MAX && error == AccelError::TooManyInstances))
}

/// Whether the geometry of a scene has no fault.
pub open spec fn geometry_fine(scene: MeshScene) -> bool {
    let meshes = scene.meshes@;
    let counts = primitive_counts_of(meshes);
    &&& is_mesh_result(meshes, Ok(meshes.map_values(|m: Mesh| geometry_of(m))))
    &&& is_batch_result(meshes.len(), counts, Ok(counts.map_values(|c: u32| range_of(c))))
    &&& 0 < scene.objects@.len() <= u32::MAX
}

/// Whether the pipeline of a scene can be planned.
pub open spec fn pipeline_fine(scene: MeshScene) -> bool {
    scene.hit_shaders@.len() + 2 <= u32::MAX
}

/// The fault of the shader binding table of a scene on a device, if it has
/// one.
pub open spec fn table_fault(scene: MeshScene, device: HandleProperties) -> Option<SbtError> {
    layout_error(
        device.shader_group_handle_size,
        device.shader_group_handle_alignment,
        device.shader_group_base_alignment,
        (scene.hit_shaders@.len() + 2) as usize,
    )
}

/// Whether `plan` is what taking in `scene` on `device` comes to.
pub open spec fn is_plan_of(plan: IngestPlan, scene: MeshScene, device: HandleProperties) -> bool {
    let meshes = scene.meshes@;
    let groups = scene.hit_shaders@.len() + 2;
    &&& geometry_fine(scene)
    &&& plan.mesh_geometries@ == meshes.map_values(|m: Mesh| geometry_of(m))
    &&& plan.bottom_level_ranges@ == primitive_counts_of(meshes).map_values(|c: u32| range_of(c))
    &&& plan.instance_count == scene.objects@.len()
    &&& plan.top_level_ranges@ == seq![range_of(scene.objects@.len() as u32)]
    &&& pipeline_fine(scene)
    &&& plan.pipeline.stages@ == Seq::new(groups as nat, |i: int| stage_at(i))
    &&& plan.pipeline.groups@ == Seq::new(groups as nat, |i: int| group_at(i))
    &&& table_fault(scene, device) is None
    &&& plan.table@ == shape_for(
        device.shader_group_handle_size,
        device.shader_group_handle_alignment,
        device.shader_group_base_alignment,
        groups as usize,
    )
    &&& plan.bindings@ == Seq::new(BINDING_COUNT as nat, |i: int| binding_at(i))
    &&& plan.pool_sizes@ == plan.bindings@.map_values(|b: Binding| pool_size_of(b))
    &&& is_vertex_result(meshes, Ok(plan.vertex_normal_data@))
    &&& scene.lights@.len() <= u32::MAX
    &&& is_native_image(plan.light_data@, light_words(scene.lights@))
    &&& plan.light_data@.len() == 4 + 64 * scene.lights@.len()
    &&& plan.material_buffer == (scene.brdf_buf@.len() > 0)
    &&& plan.writes@ == planned_writes(plan.material_buffer)
}

/// Whether `error` is the first fault of taking in `scene` on `device`: the
/// geometry is looked at first, then the pipeline, the shader binding table,
/// the vertices and the lights.
pub open spec fn is_fault_of(error: IngestError, scene: MeshScene, device: HandleProperties) -> bool {
    match error {
        IngestError::Accel(e) => is_geometry_fault(scene, e),
        IngestError::Pipeline(e) => geometry_fine(scene) && !pipeline_fine(scene) && e
            == PipelineError::TooManyShaders,
        IngestError::Table(e) => geometry_fine(scene) && pipeline_fine(scene) && table_fault(
            scene,
            device,
        ) == Some(e),
        IngestError::Vertex(e) => geometry_fine(scene) && pipeline_fine(scene) && table_fault(
            scene,
            device,
        ) is None && is_vertex_result(scene.meshes@, Err(e)),
        IngestError::Light(e) => geometry_fine(scene) && pipeline_fine(scene) && table_fault(
            scene,
            device,
        ) is None && (exists|data: Seq<u32>| is_vertex_result(scene.meshes@, Ok(data)))
            && scene.lights@.len() > u32::MAX && e == LightError::TooManyLights,
    }
}

/// The light buffer of a plan holds the number of the lights of the scene
/// and then, for each light, its record: sixty-four bytes that start with
/// the tag of its kind, in the byte order of the host.
pub proof fn lemma_planned_lights(
    plan: IngestPlan,
    scene: MeshScene,
    device: HandleProperties,
    k: int,
)
    requires
        is_plan_of(plan, scene, device),
        0 <= k < scene.lights@.len(),
    ensures
        plan.light_data@.len() == 4 + 64 * scene.lights@.len(),
        is_native_image(plan.light_data@.subrange(0, 4), seq![scene.lights@.len() as u32]),
        is_native_image(
            plan.light_data@.subrange(4 + 64 * k, 68 + 64 * k),
            record_words(scene.lights@[k]),
        ),
{
    lemma_light_buffer_bytes(scene.lights@, plan.light_data@, k);
}

/// A scene without objects is refused, whatever else it holds, and so is
/// not built from.
pub proof fn lemma_no_instances_no_plan(plan: IngestPlan, scene: MeshScene, device: HandleProperties)
    requires
        scene.objects@.len() == 0,
    ensures
        !is_plan_of(plan, scene, device),
{
}

/// The number of triangles of each geometry.
fn primitive_counts(meshes: &[Mesh], geometries: &Vec<MeshGeometry>) -> (counts: Vec<u32>)
    requires
        geometries@ == meshes@.map_values(|m: Mesh| geometry_of(m)),
    ensures
        counts@ == primitive_counts_of(meshes@),
{
    let mut counts: Vec<u32> = Vec::new();
    let mut i: usize = 0;
    while i < geometries.len()
        invariant
            i <= geometries@.len(),
            geometries@ == meshes@.map_values(|m: Mesh| geometry_of(m)),
            counts@ == primitive_counts_of(meshes@).take(i as int),
        decreases geometries@.len() - i,
    {
        counts.push(geometries[i].primitive_count);
        assert(counts@ =~= primitive_counts_of(meshes@).take(i + 1));
        i += 1;
    }
    assert(primitive_counts_of(meshes@).take(i as int) =~= primitive_counts_of(meshes@));
    counts
}

/// Plans taking in `scene` on a device with the handle properties `device`.
pub fn plan_ingest(scene: &MeshScene, device: HandleProperties) -> (plan: Result<
    IngestPlan,
    IngestError,
>)
    ensures
        match plan {
            Ok(p) => is_plan_of(p, *scene, device),
            Err(e) => is_fault_of(e, *scene, device),
        },
{
    let mesh_geometries = match get_mesh_geometries(scene.meshes.as_slice()) {
        Ok(g) => g,
        Err(e) => {
            return Err(IngestError::Accel(e));
        },
    };
    assert(mesh_geometries@ =~= scene.meshes@.map_values(|m: Mesh| geometry_of(m)));
    let counts = primitive_counts(scene.meshes.as_slice(), &mesh_geometries);
    let bottom_level_ranges = match build_ranges(scene.meshes.len(), counts.as_slice()) {
        Ok(r) => r,
        Err(e) => {
            return Err(IngestError::Accel(e));
        },
    };
    if scene.objects.len() == 0 {
        return Err(IngestError::Accel(AccelError::NoInstances));
    }
    if scene.objects.len() > u32::MAX as usize {
        return Err(IngestError::Accel(AccelError::TooManyInstances));
    }
    let mut top_level_ranges: Vec<BuildRange> = Vec::new();
    top_level_ranges.push(
        BuildRange {
            primitive_count: scene.objects.len() as u32,
            primitive_offset: 0,
            first_vertex: 0,
            transform_offset: 0,
        },
    );
    let pipeline = match plan_pipeline(scene.hit_shaders.len()) {
        Ok(p) => p,
        Err(e) => {
            return Err(IngestError::Pipeline(e));
        },
    };
    let table = match SbtLayout::new(
        device.shader_group_handle_size,
        device.shader_group_handle_alignment,
        device.shader_group_base_alignment,
        scene.hit_shaders.len() + 2,
    ) {
        Ok(t) => t,
        Err(e) => {
            return Err(IngestError::Table(e));
        },
    };
    let vertex_normal_data = match vertex_normal_data(scene.meshes.as_slice()) {
        Ok(d) => d,
        Err(e) => {
            return Err(IngestError::Vertex(e));
        },
    };
    let light_data = match light_buffer(scene.lights.as_slice()) {
        Ok(d) => d,
        Err(e) => {
            assert(is_vertex_result(scene.meshes@, Ok(vertex_normal_data@)));
            return Err(IngestError::Light(e));
        },
    };
    let bindings = get_descriptor_set_layout();
    let sizes = pool_sizes(bindings.as_slice());
    Ok(
        IngestPlan {
            mesh_geometries,
            bottom_level_ranges,
            instance_count: scene.objects.len(),
            top_level_ranges,
            pipeline,
            table,
            bindings,
            pool_sizes: sizes,
            vertex_normal_data,
            light_data,
            material_buffer: scene.brdf_buf.len() > 0,
            writes: plan_writes(scene.brdf_buf.len() > 0),
        },
    )
}

} // verus!
