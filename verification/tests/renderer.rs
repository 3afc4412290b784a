use kubgrupp::render::accel::BuildRange;
use kubgrupp::render::descriptor::{
    descriptor_writes, get_descriptor_set_layout, plan_writes, pool_sizes, storage_image_write,
    DescriptorKind, DescriptorWrite, PlannedWrite, PoolSize, Resource, SceneHandles,
};
use kubgrupp::render::ingest::{plan_ingest, HandleProperties, IngestError};
use kubgrupp::render::accel::AccelError;
use kubgrupp::render::light_buffer::decode_lights;
use kubgrupp::render::pipeline::{
    plan_pipeline, PipelineError, ShaderGroup, StageKind, MAX_RAY_RECURSION_DEPTH,
};
use kubgrupp::render::push_constants::{
    PushData, FRAME_OFFSET, PROJECTION_OFFSET, PUSH_DATA_SIZE, RANDOM_OFFSET, VIEW_OFFSET,
};
use kubgrupp::render::renderers::raytrace::{
    collect_updates, DeviceExtension, QueueRequest, RaytraceRenderer, RendererError, StorageImage,
};
use kubgrupp::render::sbt::SbtError;
use kubgrupp::render::teardown::{teardown_order, Resources, Teardown};
use kubgrupp::render::vertex_data::VertexError;
use kubgrupp::scene::scenes::mesh::{
    Corners, Light, Mesh, MeshScene, MeshSceneUpdate, Object, Shader, Vec3,
};
use kubgrupp::utils::QueueFamilyInfo;

fn matrix(seed: f32) -> [u32; 16] {
    let mut m = [0u32; 16];
    for (i, v) in m.iter_mut().enumerate() {
        *v = (seed + i as f32).to_bits();
    }
    m
}

fn matrix_bytes(m: &[u32; 16]) -> Vec<u8> {
    m.iter().flat_map(|w| w.to_ne_bytes()).collect()
}

fn families() -> QueueFamilyInfo {
    QueueFamilyInfo {
        graphics_index: Some(0),
        present_index: Some(0),
        compute_index: Some(2),
        transfer_index: None,
    }
}

fn scene() -> MeshScene {
    let v = |x: f32, y: f32, z: f32| Vec3 { x: x.to_bits(), y: y.to_bits(), z: z.to_bits() };
    let floats = |values: &[f32]| values.iter().map(|f| f.to_bits()).collect::<Vec<u32>>();
    MeshScene {
        view_inverse: matrix(1.0),
        projection_inverse: matrix(50.0),
        lights: vec![Light::Point { color: v(1.0, 1.0, 1.0), position: v(0.0, 2.0, 0.0) }],
        objects: vec![Object {
            transform: matrix(0.0),
            mesh_i: 0,
            brdf_i: 0,
            brdf_params: Vec::new(),
            vertex_index: 0,
        }],
        meshes: vec![Mesh {
            positions: floats(&[0.0, 0.0, 0.0, 1.0, 0.0, 0.0, 0.0, 1.0, 0.0]),
            normals: floats(&[0.0, 0.0, 1.0, 0.0, 0.0, 1.0, 0.0, 0.0, 1.0]),
            indices: vec![0, 1, 2],
        }],
        raygen_shader: Shader::Uncompiled("raygen".to_string(), vec![0x07230203]),
        miss_shader: Shader::Uncompiled("miss".to_string(), vec![0x07230203]),
        hit_shaders: vec![Shader::Uncompiled("diffuse".to_string(), vec![0x07230203])],
        brdf_buf: Vec::new(),
        offset_buf: vec![0],
    }
}

fn device() -> HandleProperties {
    HandleProperties {
        shader_group_handle_size: 32,
        shader_group_handle_alignment: 32,
        shader_group_base_alignment: 64,
    }
}

fn handles(material_params: Option<u64>) -> SceneHandles {
    SceneHandles {
        storage_view: 101,
        structure: 9,
        vertex_normals: 11,
        lights: 12,
        material_offsets: 13,
        material_params,
    }
}

fn ingested(renderer: &mut RaytraceRenderer, image: u64, view: u64) {
    let plan = renderer.ingest_scene(&scene(), device()).unwrap();
    let bound = SceneHandles { storage_view: view, ..handles(None) };
    renderer.bind_scene(&plan, image, &bound).unwrap();
}

fn vec3(x: f32, y: f32, z: f32) -> Vec3 {
    Vec3 { x: x.to_bits(), y: y.to_bits(), z: z.to_bits() }
}

fn ne_words(words: &[u32]) -> Vec<u8> {
    words.iter().flat_map(|w| w.to_ne_bytes()).collect()
}

#[test]
fn ingest_of_a_scene_of_one_triangle() {
    let mut renderer = RaytraceRenderer::new(&families(), (800, 600)).unwrap();
    let plan = renderer.ingest_scene(&scene(), device()).unwrap();
    assert_eq!(plan.mesh_geometries.len(), 1);
    assert_eq!(plan.bottom_level_ranges.len(), 1);
    assert_eq!(plan.bottom_level_ranges[0].primitive_count, 1);
    assert_eq!(plan.instance_count, 1);
    assert_eq!(
        plan.top_level_ranges,
        vec![BuildRange {
            primitive_count: 1,
            primitive_offset: 0,
            first_vertex: 0,
            transform_offset: 0,
        }]
    );
    assert_eq!(plan.pipeline.groups.len(), 3);
    assert_eq!(plan.pipeline.stages.len(), 3);
    assert_eq!(plan.table.group_count(), 3);
    assert_eq!(plan.table.table_size(), 2 * 64 + 32);
    assert_eq!(plan.bindings.len(), 6);
    assert_eq!(plan.pool_sizes.len(), 6);
    assert_eq!(plan.vertex_normal_data.len(), 18);
    assert_eq!(plan.light_data.len(), 4 * 17);
    assert!(!plan.material_buffer);
    let words: Vec<u32> = plan
        .light_data
        .chunks(4)
        .map(|c| u32::from_ne_bytes([c[0], c[1], c[2], c[3]]))
        .collect();
    let decoded = decode_lights(&words).unwrap();
    assert_eq!(decoded.count, 1);
    assert_eq!(decoded.lights, scene().lights);
    assert_eq!(plan.writes, plan_writes(false));
    // the matrices of the camera are in the push constants
    let bytes = renderer.push_data().as_bytes();
    assert_eq!(&bytes[0..64], &matrix_bytes(&matrix(1.0))[..]);
    assert_eq!(&bytes[64..128], &matrix_bytes(&matrix(50.0))[..]);
    // the same plan comes from planning alone
    let planned = plan_ingest(&scene(), device()).unwrap();
    assert_eq!(planned.light_data, plan.light_data);
    assert_eq!(planned.vertex_normal_data, plan.vertex_normal_data);
}

#[test]
fn a_scene_without_objects_is_not_taken_in() {
    let mut renderer = RaytraceRenderer::new(&families(), (800, 600)).unwrap();
    let mut no_objects = scene();
    no_objects.objects.clear();
    assert_eq!(
        renderer.ingest_scene(&no_objects, device()).unwrap_err(),
        IngestError::Accel(AccelError::NoInstances)
    );
    // the renderer is as it was
    assert_eq!(renderer.storage_image(), None);
    assert_eq!(renderer.push_data().as_bytes(), &[0u8; 140][..]);
    assert_eq!(
        renderer.record_command_buffer(1, (800, 600)).unwrap_err(),
        RendererError::NoStorageImage
    );
}

#[test]
fn ingest_writes_a_record_for_each_light() {
    let mut renderer = RaytraceRenderer::new(&families(), (800, 600)).unwrap();
    let mut lit = scene();
    lit.lights = vec![
        Light::Point { color: vec3(1.0, 1.0, 1.0), position: vec3(0.0, 2.0, 0.0) },
        Light::Triangle {
            color: vec3(1.0, 0.0, 0.0),
            vertices: Corners {
                a: vec3(0.0, 0.0, 0.0),
                b: vec3(1.0, 0.0, 0.0),
                c: vec3(0.0, 1.0, 0.0),
            },
        },
    ];
    let plan = renderer.ingest_scene(&lit, device()).unwrap();
    let f = |x: f32| x.to_bits();
    let mut words = vec![2u32, 0];
    words.extend([1.0, 1.0, 1.0, 0.0, 2.0, 0.0].map(f));
    words.extend([0u32; 9]);
    words.push(1);
    words.extend([1.0, 0.0, 0.0].map(f));
    words.extend([0u32; 3]);
    words.extend([0.0, 0.0, 0.0, 1.0, 0.0, 0.0, 0.0, 1.0, 0.0].map(f));
    assert_eq!(plan.light_data.len(), 132);
    assert_eq!(plan.light_data, ne_words(&words));
    assert_eq!(&plan.light_data[68..72], &1u32.to_ne_bytes());
}

#[test]
fn ingest_counts_and_records_lights_of_every_kind() {
    let mut renderer = RaytraceRenderer::new(&families(), (800, 600)).unwrap();
    let mut lit = scene();
    lit.lights = vec![
        Light::Directional {
            color: vec3(1.0, 0.5, 0.25),
            position: vec3(0.0, 5.0, 0.0),
            direction: vec3(0.0, -1.0, 0.0),
            radius: 0.5f32.to_bits(),
        },
        Light::Point { color: vec3(1.0, 1.0, 1.0), position: vec3(0.0, 2.0, 0.0) },
        Light::Directional {
            color: vec3(2.0, 2.0, 2.0),
            position: vec3(1.0, 1.0, 1.0),
            direction: vec3(1.0, 0.0, 0.0),
            radius: 3.0f32.to_bits(),
        },
    ];
    let plan = renderer.ingest_scene(&lit, device()).unwrap();
    assert_eq!(plan.light_data.len(), 4 + 64 * 3);
    assert_eq!(&plan.light_data[0..4], &3u32.to_ne_bytes());
    let f = |x: f32| x.to_bits();
    let mut record = vec![2u32];
    record.extend([1.0, 0.5, 0.25, 0.0, 5.0, 0.0, 0.0, -1.0, 0.0, 0.5].map(f));
    record.extend([0u32; 5]);
    assert_eq!(&plan.light_data[4..68], &ne_words(&record)[..]);
    assert_eq!(&plan.light_data[68..72], &0u32.to_ne_bytes());
    assert_eq!(&plan.light_data[132..136], &2u32.to_ne_bytes());

    lit.lights.clear();
    let plan = renderer.ingest_scene(&lit, device()).unwrap();
    assert_eq!(plan.light_data, 0u32.to_ne_bytes().to_vec());
}

#[test]
fn ingest_lays_out_vertices_by_index() {
    let mut renderer = RaytraceRenderer::new(&families(), (800, 600)).unwrap();
    let floats = |values: &[f32]| values.iter().map(|f| f.to_bits()).collect::<Vec<u32>>();
    let mut turned = scene();
    turned.meshes[0] = Mesh {
        positions: floats(&[0.0, 0.0, 0.0, 1.0, 0.0, 0.0, 0.0, 1.0, 0.0]),
        normals: floats(&[0.0, 0.0, 1.0, 0.0, 1.0, 0.0, 1.0, 0.0, 0.0]),
        indices: vec![2, 0, 1],
    };
    let plan = renderer.ingest_scene(&turned, device()).unwrap();
    assert_eq!(
        plan.vertex_normal_data,
        floats(&[
            0.0, 1.0, 0.0, 1.0, 0.0, 0.0, // vertex 2
            0.0, 0.0, 0.0, 0.0, 0.0, 1.0, // vertex 0
            1.0, 0.0, 0.0, 0.0, 1.0, 0.0, // vertex 1
        ])
    );
}

#[test]
fn scene_is_bound_by_the_planned_writes() {
    let mut renderer = RaytraceRenderer::new(&families(), (800, 600)).unwrap();
    let plan = renderer.ingest_scene(&scene(), device()).unwrap();
    assert_eq!(
        plan.writes,
        vec![
            PlannedWrite { binding: 0, resource: Resource::StorageImage },
            PlannedWrite { binding: 1, resource: Resource::TopLevelStructure },
            PlannedWrite { binding: 2, resource: Resource::VertexNormals },
            PlannedWrite { binding: 3, resource: Resource::Lights },
            PlannedWrite { binding: 4, resource: Resource::MaterialOffsets },
        ]
    );
    // a buffer that was not planned is refused, and nothing is bound
    assert_eq!(
        renderer.bind_scene(&plan, 100, &handles(Some(14))).unwrap_err(),
        RendererError::MaterialBuffer
    );
    assert_eq!(renderer.storage_image(), None);
    let writes = renderer.bind_scene(&plan, 100, &handles(None)).unwrap();
    assert_eq!(
        writes,
        vec![
            DescriptorWrite::StorageImage { binding: 0, view: 101 },
            DescriptorWrite::AccelerationStructure { binding: 1, structure: 9 },
            DescriptorWrite::StorageBuffer { binding: 2, buffer: 11 },
            DescriptorWrite::StorageBuffer { binding: 3, buffer: 12 },
            DescriptorWrite::StorageBuffer { binding: 4, buffer: 13 },
        ]
    );
    assert_eq!(renderer.storage_image(), Some(StorageImage { image: 100, view: 101 }));
    assert_eq!(handles(None).writes(), writes);

    let mut with_materials = scene();
    with_materials.brdf_buf = vec![1, 2, 3, 4];
    let plan = renderer.ingest_scene(&with_materials, device()).unwrap();
    assert_eq!(plan.writes.len(), 6);
    assert_eq!(
        plan.writes[5],
        PlannedWrite { binding: 5, resource: Resource::MaterialParams }
    );
    assert_eq!(
        renderer.bind_scene(&plan, 100, &handles(None)).unwrap_err(),
        RendererError::MaterialBuffer
    );
    let writes = renderer.bind_scene(&plan, 200, &handles(Some(14))).unwrap();
    assert_eq!(writes.len(), 6);
    assert_eq!(writes[5], DescriptorWrite::StorageBuffer { binding: 5, buffer: 14 });
    assert_eq!(renderer.storage_image(), Some(StorageImage { image: 200, view: 101 }));
}

#[test]
fn ingest_faults_come_in_the_order_of_ingestion() {
    let mut no_objects = scene();
    no_objects.objects.clear();
    no_objects.meshes[0].indices = vec![0, 1, 7];
    assert_eq!(
        plan_ingest(&no_objects, device()).unwrap_err(),
        IngestError::Accel(AccelError::NoInstances)
    );
    let mut no_meshes = scene();
    no_meshes.meshes.clear();
    assert_eq!(
        plan_ingest(&no_meshes, device()).unwrap_err(),
        IngestError::Accel(AccelError::NoGeometry)
    );
    let mut short_mesh = scene();
    short_mesh.meshes[0].indices = vec![0, 1];
    assert_eq!(
        plan_ingest(&short_mesh, device()).unwrap_err(),
        IngestError::Accel(AccelError::NoPrimitives(0))
    );
    let mut empty_mesh = scene();
    empty_mesh.meshes[0].positions.clear();
    assert_eq!(
        plan_ingest(&empty_mesh, device()).unwrap_err(),
        IngestError::Accel(AccelError::EmptyMesh(0))
    );
    let mut bad_index = scene();
    bad_index.meshes[0].indices = vec![0, 1, 7];
    let bad_device = HandleProperties { shader_group_base_alignment: 0, ..device() };
    assert_eq!(
        plan_ingest(&bad_index, bad_device).unwrap_err(),
        IngestError::Table(SbtError::Alignment)
    );
    assert_eq!(
        plan_ingest(&bad_index, device()).unwrap_err(),
        IngestError::Vertex(VertexError { mesh: 0, index: 2 })
    );
    let mut with_materials = scene();
    with_materials.brdf_buf = vec![1, 2, 3, 4];
    assert!(plan_ingest(&with_materials, device()).unwrap().material_buffer);
}

#[test]
fn descriptor_set_layout_is_fixed() {
    let bindings = get_descriptor_set_layout();
    assert_eq!(bindings.len(), 6);
    for (i, b) in bindings.iter().enumerate() {
        assert_eq!(b.binding, i as u32);
        assert_eq!(b.descriptor_count, 1);
    }
    assert_eq!(bindings[0].kind, DescriptorKind::StorageImage);
    assert!(bindings[0].stages.raygen && !bindings[0].stages.closest_hit);
    assert_eq!(bindings[1].kind, DescriptorKind::AccelerationStructure);
    assert!(bindings[1].stages.raygen && bindings[1].stages.closest_hit);
    assert_eq!(bindings[2].kind, DescriptorKind::StorageBuffer);
    assert!(bindings[2].stages.raygen && bindings[2].stages.closest_hit);
    for b in &bindings[3..] {
        assert_eq!(b.kind, DescriptorKind::StorageBuffer);
        assert!(!b.stages.raygen && b.stages.closest_hit);
    }
    let sizes = pool_sizes(&bindings);
    assert_eq!(sizes.len(), 6);
    assert_eq!(
        sizes[1],
        PoolSize { kind: DescriptorKind::AccelerationStructure, descriptor_count: 1 }
    );
    assert!(pool_sizes(&[]).is_empty());
}

#[test]
fn descriptor_writes_pass_over_missing_buffers() {
    let writes = descriptor_writes(7, 9, &[Some(11), Some(12), Some(13), None]);
    assert_eq!(
        writes,
        vec![
            DescriptorWrite::StorageImage { binding: 0, view: 7 },
            DescriptorWrite::AccelerationStructure { binding: 1, structure: 9 },
            DescriptorWrite::StorageBuffer { binding: 2, buffer: 11 },
            DescriptorWrite::StorageBuffer { binding: 3, buffer: 12 },
            DescriptorWrite::StorageBuffer { binding: 4, buffer: 13 },
        ]
    );
    let writes = descriptor_writes(7, 9, &[None, Some(12), None, Some(14)]);
    assert_eq!(
        &writes[2..],
        &[
            DescriptorWrite::StorageBuffer { binding: 3, buffer: 12 },
            DescriptorWrite::StorageBuffer { binding: 5, buffer: 14 },
        ]
    );
    assert_eq!(
        storage_image_write(5),
        DescriptorWrite::StorageImage { binding: 0, view: 5 }
    );
}

#[test]
fn pipeline_has_a_group_for_each_stage() {
    let plan = plan_pipeline(2).unwrap();
    assert_eq!(
        plan.stages,
        vec![StageKind::Raygen, StageKind::Miss, StageKind::ClosestHit, StageKind::ClosestHit]
    );
    assert_eq!(
        plan.groups,
        vec![
            ShaderGroup::General { general_shader: 0 },
            ShaderGroup::General { general_shader: 1 },
            ShaderGroup::TrianglesHitGroup { closest_hit_shader: 2 },
            ShaderGroup::TrianglesHitGroup { closest_hit_shader: 3 },
        ]
    );
    assert_eq!(plan.max_ray_recursion_depth, 1);
    assert_eq!(MAX_RAY_RECURSION_DEPTH, 1);
    assert_eq!(plan.push_constant_size, 140);
    assert_eq!(plan_pipeline(0).unwrap().groups.len(), 2);
    if usize::BITS == 64 {
        assert_eq!(
            plan_pipeline(u32::MAX as usize).unwrap_err(),
            PipelineError::TooManyShaders
        );
    }
}

#[test]
fn push_data_layout() {
    assert_eq!(PUSH_DATA_SIZE, 128 + 8 + 4);
    assert_eq!((VIEW_OFFSET, PROJECTION_OFFSET, RANDOM_OFFSET, FRAME_OFFSET), (0, 64, 128, 136));
    let mut data = PushData::new();
    assert_eq!(data.as_bytes(), &[0u8; 140][..]);
    let view = matrix(1.0);
    let projection = matrix(30.0);
    data.set_view(&view);
    data.set_projection(&projection);
    data.set_frame((0xdead_beef, 0x0bad_cafe), 77);
    let bytes = data.as_bytes();
    assert_eq!(&bytes[0..64], &matrix_bytes(&view)[..]);
    assert_eq!(&bytes[64..128], &matrix_bytes(&projection)[..]);
    assert_eq!(&bytes[128..132], &0xdead_beefu32.to_ne_bytes());
    assert_eq!(&bytes[132..136], &0x0bad_cafeu32.to_ne_bytes());
    assert_eq!(&bytes[136..140], &77u32.to_ne_bytes());
    data.set_view(&projection);
    let bytes = data.as_bytes();
    assert_eq!(&bytes[0..64], &matrix_bytes(&projection)[..]);
    assert_eq!(&bytes[136..140], &77u32.to_ne_bytes());
}

#[test]
fn stamp_frame_writes_the_frame_number_and_keeps_the_matrices() {
    let mut data = PushData::new();
    let view = matrix(3.0);
    data.set_view(&view);
    data.stamp_frame(5);
    let first = data.as_bytes().to_vec();
    data.stamp_frame(6);
    let second = data.as_bytes().to_vec();
    assert_eq!(&first[0..128], &second[0..128]);
    assert_eq!(&first[0..64], &matrix_bytes(&view)[..]);
    assert_eq!(&first[136..140], &5u32.to_ne_bytes());
    assert_eq!(&second[136..140], &6u32.to_ne_bytes());
    assert_ne!(first, second);
}

#[test]
fn renderer_needs_a_compute_queue() {
    let none = QueueFamilyInfo { compute_index: None, ..families() };
    assert_eq!(
        RaytraceRenderer::new(&none, (800, 600)).unwrap_err(),
        RendererError::NoComputeQueue
    );
    let renderer = RaytraceRenderer::new(&families(), (800, 600)).unwrap();
    assert_eq!(renderer.queue_family(), 2);
    assert_eq!(renderer.storage_image_size(), (800, 600));
    assert_eq!(renderer.storage_image(), None);
    assert_eq!(renderer.current_frame(), 0);
    assert!(RaytraceRenderer::has_required_queue_families(&families()));
    assert!(!RaytraceRenderer::has_required_queue_families(&none));
    let no_present = QueueFamilyInfo { present_index: None, ..families() };
    assert!(!RaytraceRenderer::has_required_queue_families(&no_present));
    assert_eq!(
        RaytraceRenderer::get_queue_info(&families()),
        vec![QueueRequest { queue_family_index: 2, queue_count: 1 }]
    );
    assert_eq!(
        RaytraceRenderer::required_device_extensions(),
        vec![
            DeviceExtension::AccelerationStructure,
            DeviceExtension::DeferredHostOperations,
            DeviceExtension::RayTracingPipeline,
        ]
    );
}

#[test]
fn updates_of_a_kind_override_one_another() {
    let a = matrix(1.0);
    let b = matrix(2.0);
    let c = matrix(3.0);
    let updates = vec![
        MeshSceneUpdate::NewView(a),
        MeshSceneUpdate::NewSize((10, 20, b)),
        MeshSceneUpdate::NewView(c),
        MeshSceneUpdate::NewSize((30, 40, a)),
    ];
    let collected = collect_updates(&updates);
    assert_eq!(collected.view, Some(c));
    assert_eq!(collected.size, Some((30, 40, a)));
    let collected = collect_updates(&updates[..1]);
    assert_eq!(collected.view, Some(a));
    assert_eq!(collected.size, None);
    let collected = collect_updates(&[]);
    assert_eq!((collected.view, collected.size), (None, None));
}

#[test]
fn resize_replaces_the_storage_image() {
    let mut renderer = RaytraceRenderer::new(&families(), (800, 600)).unwrap();
    assert_eq!(
        renderer.record_command_buffer(1, (800, 600)).unwrap_err(),
        RendererError::NoStorageImage
    );
    assert_eq!(renderer.begin_resize().unwrap_err(), RendererError::NoStorageImage);
    let old = StorageImage { image: 100, view: 101 };
    ingested(&mut renderer, 100, 101);
    assert_eq!(renderer.storage_image(), Some(old));
    let recording = renderer.record_command_buffer(55, (1024, 768)).unwrap();
    assert_eq!(recording.blit_source, 100);
    assert_eq!(recording.blit_target, 55);
    assert_eq!(
        (recording.trace_width, recording.trace_height, recording.trace_depth),
        (800, 600, 1)
    );
    assert_eq!(recording.source_corner, (800, 600, 1));
    assert_eq!(recording.target_corner, (1024, 768, 1));

    let new = StorageImage { image: 200, view: 201 };
    let projection = matrix(9.0);
    assert_eq!(
        renderer.finish_resize(640, 480, new, &projection).unwrap_err(),
        RendererError::NotResizing
    );
    assert_eq!(renderer.begin_resize().unwrap(), old);
    assert_eq!(renderer.storage_image(), None);
    assert_eq!(
        renderer.record_command_buffer(55, (1024, 768)).unwrap_err(),
        RendererError::NoStorageImage
    );
    let (freed, write) = renderer.finish_resize(640, 480, new, &projection).unwrap();
    assert_eq!(freed, old);
    assert_eq!(write, DescriptorWrite::StorageImage { binding: 0, view: 201 });
    assert_eq!(renderer.storage_image_size(), (640, 480));
    assert_eq!(renderer.storage_image(), Some(new));
    let recording = renderer.record_command_buffer(55, (640, 480)).unwrap();
    assert_eq!(recording.blit_source, 200);
    assert_eq!((recording.trace_width, recording.trace_height), (640, 480));
    let bytes = renderer.push_data().as_bytes();
    assert_eq!(&bytes[64..128], &matrix_bytes(&projection)[..]);
    assert_eq!(&bytes[0..64], &matrix_bytes(&matrix(1.0))[..]);
}

#[test]
fn blit_corners_wrap_like_a_cast() {
    let mut renderer = RaytraceRenderer::new(&families(), (u32::MAX, 0x8000_0000)).unwrap();
    ingested(&mut renderer, 1, 2);
    let recording = renderer.record_command_buffer(3, (5, 6)).unwrap();
    assert_eq!(recording.source_corner, (-1, i32::MIN, 1));
}

#[test]
fn frames_are_counted_and_stamped() {
    let mut renderer = RaytraceRenderer::new(&families(), (8, 8)).unwrap();
    renderer.set_view(&matrix(4.0));
    renderer.begin_frame_with((1, 2));
    assert_eq!(renderer.current_frame(), 1);
    let bytes = renderer.push_data().as_bytes().to_vec();
    assert_eq!(&bytes[0..64], &matrix_bytes(&matrix(4.0))[..]);
    assert_eq!(&bytes[128..132], &1u32.to_ne_bytes());
    assert_eq!(&bytes[132..136], &2u32.to_ne_bytes());
    assert_eq!(&bytes[136..140], &0u32.to_ne_bytes());
    renderer.begin_frame();
    assert_eq!(renderer.current_frame(), 2);
    let next = renderer.push_data().as_bytes().to_vec();
    assert_eq!(&next[136..140], &1u32.to_ne_bytes());
    assert_ne!(bytes, next);
    assert_eq!(&bytes[0..128], &next[0..128]);
}

#[test]
fn command_buffers_are_created_when_an_image_is_first_used() {
    let mut renderer = RaytraceRenderer::new(&families(), (8, 8)).unwrap();
    assert_eq!(renderer.command_buffers_for(0), Some(1));
    assert_eq!(renderer.command_buffers_for(0), Some(0));
    assert_eq!(renderer.command_buffers_for(2), Some(2));
    assert_eq!(renderer.command_buffers_for(1), Some(0));
    assert_eq!(renderer.command_buffers_for(3), Some(1));
    assert_eq!(renderer.command_buffers_for(u32::MAX), None);
    assert_eq!(renderer.command_buffers_for(3), Some(0));
}

#[test]
fn teardown_of_a_full_renderer() {
    let all = Resources {
        sbt_buffer: true,
        bottom_levels: 2,
        top_level_buffer: true,
        storage_allocation: true,
        vertex_normal_buffer: true,
        light_buffer: true,
        offset_buffer: true,
        brdf_param_buffer: true,
    };
    assert_eq!(
        teardown_order(&all),
        vec![
            Teardown::WaitIdle,
            Teardown::CommandPool,
            Teardown::DescriptorPool,
            Teardown::SbtBuffer,
            Teardown::Pipeline,
            Teardown::DescriptorSetLayout,
            Teardown::PipelineLayout,
            Teardown::BottomLevelStructure(0),
            Teardown::BottomLevelStructure(1),
            Teardown::BottomLevelBuffer(0),
            Teardown::BottomLevelBuffer(1),
            Teardown::TopLevelStructure,
            Teardown::TopLevelBuffer,
            Teardown::StorageImageView,
            Teardown::StorageImage,
            Teardown::StorageAllocation,
            Teardown::VertexNormalBuffer,
            Teardown::LightBuffer,
            Teardown::OffsetBuffer,
            Teardown::BrdfParamBuffer,
        ]
    );
}

#[test]
fn teardown_of_a_renderer_without_a_scene() {
    let none = Resources {
        sbt_buffer: false,
        bottom_levels: 0,
        top_level_buffer: false,
        storage_allocation: false,
        vertex_normal_buffer: false,
        light_buffer: false,
        offset_buffer: false,
        brdf_param_buffer: false,
    };
    assert_eq!(
        teardown_order(&none),
        vec![
            Teardown::WaitIdle,
            Teardown::CommandPool,
            Teardown::DescriptorPool,
            Teardown::Pipeline,
            Teardown::DescriptorSetLayout,
            Teardown::PipelineLayout,
            Teardown::TopLevelStructure,
            Teardown::StorageImageView,
            Teardown::StorageImage,
        ]
    );
}
