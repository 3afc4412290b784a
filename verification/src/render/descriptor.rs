//! The descriptor set of the renderer: what is bound where, and what is
//! written into it.
//!
//! Binding 0 is the storage image that the rays are traced into and binding
//! 1 the top-level acceleration structure. The storage buffers of the scene
//! follow: vertices and normals, lights, the offsets of the material
//! parameters of each instance, and the material parameters.

use vstd::prelude::*;

verus! {

/// The number of bindings.
pub const BINDING_COUNT: usize = 6;

/// The binding of the storage image.
pub const STORAGE_IMAGE_BINDING: u32 = 0;

/// The binding of the top-level acceleration structure.
pub const ACCELERATION_STRUCTURE_BINDING: u32 = 1;

/// The binding of the first storage buffer.
pub const FIRST_BUFFER_BINDING: u32 = 2;

/// The number of storage buffers.
pub const BUFFER_COUNT: usize = 4;

/// What kind of resource a binding holds.
#[derive(Clone, Copy, Debug, PartialEq, Eq, Structural)]
pub enum DescriptorKind {
    StorageImage,
    AccelerationStructure,
    StorageBuffer,
}

/// The shader stages that see a binding.
#[derive(Clone, Copy, Debug, PartialEq, Eq, Structural)]
pub struct Stages {
    pub raygen: bool,
    pub closest_hit: bool,
}

/// One binding of the descriptor set layout.
#[derive(Clone, Copy, Debug, PartialEq, Eq, Structural)]
pub struct Binding {
    pub binding: u32,
    pub kind: DescriptorKind,
    pub stages: Stages,
    pub descriptor_count: u32,
}

/// What a descriptor pool must hold of one kind.
#[derive(Clone, Copy, Debug, PartialEq, Eq, Structural)]
pub struct PoolSize {
    pub kind: DescriptorKind,
    pub descriptor_count: u32,
}

/// The binding with index `i`: the image for ray generation alone, the
/// acceleration structure and the vertices for ray generation and hit
/// shaders, and the other buffers for hit shaders alone.
pub open spec fn binding_at(i: int) -> Binding {
    Binding {
        binding: i as u32,
        kind: if i == 0 {
            DescriptorKind::StorageImage
        } else if i == 1 {
            DescriptorKind::AccelerationStructure
        } else {
            DescriptorKind::StorageBuffer
        },
        stages: Stages { raygen: i <= 2, closest_hit: i >= 1 },
        descriptor_count: 1,
    }
}

/// The pool size that a binding asks for.
pub open spec fn pool_size_of(binding: Binding) -> PoolSize {
    PoolSize { kind: binding.kind, descriptor_count: binding.descriptor_count }
}

/// The bindings of the descriptor set layout, in the order of their
/// numbers.
pub fn get_descriptor_set_layout() -> (bindings: Vec<Binding>)
    ensures
        bindings@ == Seq::new(BINDING_COUNT as nat, |i: int| binding_at(i)),
{
    let mut bindings: Vec<Binding> = Vec::new();
    let mut i: u32 = 0;
    while i < 6
        invariant
            i <= 6,
            bindings@ == Seq::new(i as nat, |j: int| binding_at(j)),
        decreases 6 - i,
    {
        let kind = if i == 0 {
            DescriptorKind::StorageImage
        } else if i == 1 {
            DescriptorKind::AccelerationStructure
        } else {
            DescriptorKind::StorageBuffer
        };
        bindings.push(
            Binding {
                binding: i,
                kind,
                stages: Stages { raygen: i <= 2, closest_hit: i >= 1 },
                descriptor_count: 1,
            },
        );
        assert(bindings@ =~= Seq::new((i + 1) as nat, |j: int| binding_at(j)));
        i += 1;
    }
    bindings
}

/// What the descriptor pool must hold for one set of `bindings`: a size for
/// each binding.
pub fn pool_sizes(bindings: &[Binding]) -> (sizes: Vec<PoolSize>)
    ensures
        sizes@ == bindings@.map_values(|b: Binding| pool_size_of(b)),
{
    let mut sizes: Vec<PoolSize> = Vec::new();
    let mut i: usize = 0;
    while i < bindings.len()
        invariant
            i <= bindings@.len(),
            sizes@ == bindings@.take(i as int).map_values(|b: Binding| pool_size_of(b)),
        decreases bindings@.len() - i,
    {
        sizes.push(
            PoolSize { kind: bindings[i].kind, descriptor_count: bindings[i].descriptor_count },
        );
        assert(sizes@ =~= bindings@.take(i + 1).map_values(|b: Binding| pool_size_of(b)));
        i += 1;
    }
    assert(bindings@.take(i as int) =~= bindings@);
    sizes
}

/// One write into the descriptor set; resources are named by their handles.
#[derive(Clone, Copy, Debug, PartialEq, Eq, Structural)]
pub enum DescriptorWrite {
    /// The view of the storage image, in the general layout.
    StorageImage { binding: u32, view: u64 },
    /// The top-level acceleration structure.
    AccelerationStructure { binding: u32, structure: u64 },
    /// The whole of a storage buffer.
    StorageBuffer { binding: u32, buffer: u64 },
}

/// The write that binds the view of the storage image.
pub open spec fn image_write(view: u64) -> DescriptorWrite {
    DescriptorWrite::StorageImage { binding: STORAGE_IMAGE_BINDING, view }
}

/// The writes of the first `n` of `buffers`: one for each buffer that is
/// there, at the binding of its place.
pub open spec fn buffer_writes(buffers: Seq<Option<u64>>, n: int) -> Seq<DescriptorWrite>
    decreases n,
{
    if n <= 0 {
        Seq::empty()
    } else {
        match buffers[n - 1] {
            Some(buffer) => buffer_writes(buffers, n - 1).push(
                DescriptorWrite::StorageBuffer {
                    binding: (FIRST_BUFFER_BINDING + n - 1) as u32,
                    buffer,
                },
            ),
            None => buffer_writes(buffers, n - 1),
        }
    }
}

/// All writes of a scene: the storage image, the acceleration structure,
/// and the buffers that are there.
pub open spec fn scene_writes(view: u64, structure: u64, buffers: Seq<Option<u64>>) -> Seq<
    DescriptorWrite,
> {
    seq![
        image_write(view),
        DescriptorWrite::AccelerationStructure {
            binding: ACCELERATION_STRUCTURE_BINDING,
            structure,
        },
    ] + buffer_writes(buffers, buffers.len() as int)
}

/// The writes that bind a scene. A buffer that the scene does not have is
/// passed over and leaves its binding unwritten.
pub fn descriptor_writes(view: u64, structure: u64, buffers: &[Option<u64>; 4]) -> (writes: Vec<
    DescriptorWrite,
>)
    ensures
        writes@ == scene_writes(view, structure, buffers@),
{
    let mut writes: Vec<DescriptorWrite> = Vec::new();
    writes.push(DescriptorWrite::StorageImage { binding: STORAGE_IMAGE_BINDING, view });
    writes.push(
        DescriptorWrite::AccelerationStructure {
            binding: ACCELERATION_STRUCTURE_BINDING,
            structure,
        },
    );
    let ghost head = writes@;
    let mut i: usize = 0;
    while i < 4
        invariant
            i <= 4,
            buffers@.len() == 4,
            writes@ == head + buffer_writes(buffers@, i as int),
        decreases 4 - i,
    {
        match buffers[i] {
            Some(buffer) => {
                writes.push(
                    DescriptorWrite::StorageBuffer {
                        binding: FIRST_BUFFER_BINDING + i as u32,
                        buffer,
                    },
                );
            },
            None => {},
        }
        assert(writes@ =~= head + buffer_writes(buffers@, i + 1));
        i += 1;
    }
    assert(head =~= seq![
        image_write(view),
        DescriptorWrite::AccelerationStructure {
            binding: ACCELERATION_STRUCTURE_BINDING,
            structure,
        },
    ]);
    writes
}

/// What a binding is written with.
#[derive(Clone, Copy, Debug, PartialEq, Eq, Structural)]
pub enum Resource {
    /// The view of the storage image, in the general layout.
    StorageImage,
    /// The top-level acceleration structure.
    TopLevelStructure,
    /// The buffer of the vertices and normals, whole.
    VertexNormals,
    /// The light buffer, whole.
    Lights,
    /// The buffer of the offsets of the material parameters, whole.
    MaterialOffsets,
    /// The buffer of the material parameters, whole.
    MaterialParams,
}

/// A write that is planned before its resource is there.
#[derive(Clone, Copy, Debug, PartialEq, Eq, Structural)]
pub struct PlannedWrite {
    pub binding: u32,
    pub resource: Resource,
}

/// The writes of a scene, in the order of their bindings: bindings 0 to 4
/// always, binding 5 only for a scene that has material parameters.
pub open spec fn planned_writes(material_buffer: bool) -> Seq<PlannedWrite> {
    let fixed = seq![
        PlannedWrite { binding: 0, resource: Resource::StorageImage },
        PlannedWrite { binding: 1, resource: Resource::TopLevelStructure },
        PlannedWrite { binding: 2, resource: Resource::VertexNormals },
        PlannedWrite { binding: 3, resource: Resource::Lights },
        PlannedWrite { binding: 4, resource: Resource::MaterialOffsets },
    ];
    if material_buffer {
        fixed.push(PlannedWrite { binding: 5, resource: Resource::MaterialParams })
    } else {
        fixed
    }
}

/// The writes of a scene, planned before its resources are there.
pub fn plan_writes(material_buffer: bool) -> (writes: Vec<PlannedWrite>)
    ensures
        writes@ == planned_writes(material_buffer),
{
    let mut writes: Vec<PlannedWrite> = Vec::new();
    writes.push(PlannedWrite { binding: 0, resource: Resource::StorageImage });
    writes.push(PlannedWrite { binding: 1, resource: Resource::TopLevelStructure });
    writes.push(PlannedWrite { binding: 2, resource: Resource::VertexNormals });
    writes.push(PlannedWrite { binding: 3, resource: Resource::Lights });
    writes.push(PlannedWrite { binding: 4, resource: Resource::MaterialOffsets });
    if material_buffer {
        writes.push(PlannedWrite { binding: 5, resource: Resource::MaterialParams });
    }
    assert(writes@ =~= planned_writes(material_buffer));
    writes
}

/// The resources of a scene on the device, by their handles.
#[derive(Clone, Copy, Debug, PartialEq, Eq, Structural)]
pub struct SceneHandles {
    /// The view of the storage image.
    pub storage_view: u64,
    /// The top-level acceleration structure.
    pub structure: u64,
    pub vertex_normals: u64,
    pub lights: u64,
    pub material_offsets: u64,
    /// The buffer of the material parameters, where the scene has any.
    pub material_params: Option<u64>,
}

impl SceneHandles {
    /// The storage buffers in the order of their bindings.
    pub open spec fn buffers(self) -> Seq<Option<u64>> {
        seq![
            Some(self.vertex_normals),
            Some(self.lights),
            Some(self.material_offsets),
            self.material_params,
        ]
    }

    /// The planned write `write` with its resource filled in.
    pub open spec fn write_of(self, write: PlannedWrite) -> DescriptorWrite {
        match write.resource {
            Resource::StorageImage => DescriptorWrite::StorageImage {
                binding: write.binding,
                view: self.storage_view,
            },
            Resource::TopLevelStructure => DescriptorWrite::AccelerationStructure {
                binding: write.binding,
                structure: self.structure,
            },
            Resource::VertexNormals => DescriptorWrite::StorageBuffer {
                binding: write.binding,
                buffer: self.vertex_normals,
            },
            Resource::Lights => DescriptorWrite::StorageBuffer {
                binding: write.binding,
                buffer: self.lights,
            },
            Resource::MaterialOffsets => DescriptorWrite::StorageBuffer {
                binding: write.binding,
                buffer: self.material_offsets,
            },
            Resource::MaterialParams => DescriptorWrite::StorageBuffer {
                binding: write.binding,
                buffer: self.material_params->0,
            },
        }
    }

    /// The writes that bind the resources: the planned writes, each with its
    /// resource filled in.
    pub fn writes(&self) -> (writes: Vec<DescriptorWrite>)
        ensures
            writes@ == scene_writes(self.storage_view, self.structure, self.buffers()),
            writes@ == planned_writes(self.material_params is Some).map_values(
                |w: PlannedWrite| self.write_of(w),
            ),
    {
        let buffers: [Option<u64>; 4] = [
            Some(self.vertex_normals),
            Some(self.lights),
            Some(self.material_offsets),
            self.material_params,
        ];
        assert(buffers@ =~= self.buffers());
        proof {
            lemma_writes_follow_plan(*self);
        }
        descriptor_writes(self.storage_view, self.structure, &buffers)
    }
}

/// The writes of the resources of a scene are the planned writes, each with
/// its resource filled in: bindings 0 to 4, and binding 5 where there are
/// material parameters.
pub proof fn lemma_writes_follow_plan(handles: SceneHandles)
    ensures
        scene_writes(handles.storage_view, handles.structure, handles.buffers())
            == planned_writes(handles.material_params is Some).map_values(
            |w: PlannedWrite| handles.write_of(w),
        ),
{
    let buffers = handles.buffers();
    reveal_with_fuel(buffer_writes, 5);
    assert(scene_writes(handles.storage_view, handles.structure, buffers) =~= planned_writes(
        handles.material_params is Some,
    ).map_values(|w: PlannedWrite| handles.write_of(w)));
}

/// The write that binds a new storage image after a resize.
pub fn storage_image_write(view: u64) -> (write: DescriptorWrite)
    ensures
        write == image_write(view),
{
    DescriptorWrite::StorageImage { binding: STORAGE_IMAGE_BINDING, view }
}

} // verus!
