//! The state of the ray-tracing renderer between its device calls: the
//! storage image that the rays are traced into, the push constants, the
//! frame counter and the command buffers, and what a frame records.
//!
//! The device lives with the caller. The renderer says what is to be
//! destroyed, created and bound, and takes in the handles of what was
//! created.

use crate::render::descriptor::{
    image_write, planned_writes, scene_writes, DescriptorWrite, PlannedWrite, SceneHandles,
    STORAGE_IMAGE_BINDING,
};
use crate::render::ingest::{
    is_fault_of, is_plan_of, plan_ingest, HandleProperties, IngestError, IngestPlan,
};
use crate::render::push_constants::{
    is_written, random_words, PushData, PROJECTION_OFFSET, PUSH_DATA_SIZE, RANDOM_OFFSET,
    VIEW_OFFSET,
};
use crate::scene::scenes::mesh::{MeshScene, MeshSceneUpdate};
use crate::utils::QueueFamilyInfo;
use vstd::prelude::*;

verus! {

/// Why the renderer cannot go on.
#[derive(Clone, Copy, Debug, PartialEq, Eq, Structural)]
pub enum RendererError {
    /// The device has no queue family that computes.
    NoComputeQueue,
    /// There is no storage image: no scene was taken in, or a resize is
    /// under way.
    NoStorageImage,
    /// A resize is to end that did not begin.
    NotResizing,
    /// The buffer of the material parameters is there though none was
    /// planned, or it was planned and is not there.
    MaterialBuffer,
}

/// The image that the rays are traced into, by its handles.
#[derive(Clone, Copy, Debug, PartialEq, Eq, Structural)]
pub struct StorageImage {
    pub image: u64,
    pub view: u64,
}

/// A request for queues of one family.
#[derive(Clone, Copy, Debug, PartialEq, Eq, Structural)]
pub struct QueueRequest {
    pub queue_family_index: u32,
    pub queue_count: u32,
}

/// An extension that the renderer needs of a device.
#[derive(Clone, Copy, Debug, PartialEq, Eq, Structural)]
pub enum DeviceExtension {
    AccelerationStructure,
    DeferredHostOperations,
    RayTracingPipeline,
}

/// The changes of one frame: of each kind the last that the frame was given.
#[derive(Clone, Copy, Debug, PartialEq, Eq)]
pub struct FrameUpdates {
    /// The inverse of the new view matrix.
    pub view: Option<[u32; 16]>,
    /// The new width and height, and the inverse of the new projection
    /// matrix.
    pub size: Option<(u32, u32, [u32; 16])>,
}

/// The last change of the view among the first `n` of `updates`.
pub open spec fn last_view(updates: Seq<MeshSceneUpdate>, n: int) -> Option<[u32; 16]>
    decreases n,
{
    if n <= 0 {
        None
    } else {
        match updates[n - 1] {
            MeshSceneUpdate::NewView(view) => Some(view),
            _ => last_view(updates, n - 1),
        }
    }
}

/// The last change of the size among the first `n` of `updates`.
pub open spec fn last_size(updates: Seq<MeshSceneUpdate>, n: int) -> Option<(u32, u32, [u32; 16])>
    decreases n,
{
    if n <= 0 {
        None
    } else {
        match updates[n - 1] {
            MeshSceneUpdate::NewSize(size) => Some(size),
            _ => last_size(updates, n - 1),
        }
    }
}

/// Of each kind of change the last one in `updates`: a later change
/// overrides an earlier one of its kind, so that a frame changes its view at
/// most once and its size at most once.
pub fn collect_updates(updates: &[MeshSceneUpdate]) -> (collected: FrameUpdates)
    ensures
        collected.view == last_view(updates@, updates@.len() as int),
        collected.size == last_size(updates@, updates@.len() as int),
{
    let mut view: Option<[u32; 16]> = None;
    let mut size: Option<(u32, u32, [u32; 16])> = None;
    let mut i: usize = 0;
    while i < updates.len()
        invariant
            i <= updates@.len(),
            view == last_view(updates@, i as int),
            size == last_size(updates@, i as int),
        decreases updates@.len() - i,
    {
        match updates[i] {
            MeshSceneUpdate::NewView(v) => {
                view = Some(v);
            },
            MeshSceneUpdate::NewSize(s) => {
                size = Some(s);
            },
        }
        i += 1;
    }
    FrameUpdates { view, size }
}

/// What one frame records into its command buffer, in this order: the
/// pipeline and the descriptor set are bound and the push constants pushed;
/// rays are traced over the storage image; the target image is made ready
/// to be written; the storage image is blitted onto it with a linear
/// filter; the target image is made ready to be presented.
#[derive(Clone, Copy, Debug, PartialEq, Eq)]
pub struct FrameRecording {
    /// Width, height and depth of the dispatch.
    pub trace_width: u32,
    pub trace_height: u32,
    pub trace_depth: u32,
    /// The image that is blitted from.
    pub blit_source: u64,
    /// The image that is blitted onto and presented.
    pub blit_target: u64,
    /// The far corner of the source of the blit; the near corner is the
    /// origin.
    pub source_corner: (i32, i32, i32),
    /// The far corner of the target of the blit.
    pub target_corner: (i32, i32, i32),
}

/// The state of the renderer as the contracts see it.
pub ghost struct RendererState {
    /// The storage image, once a scene is taken in and while no resize is
    /// under way.
    pub storage: Option<StorageImage>,
    /// The storage image that a resize has retired and not yet replaced.
    pub retired: Option<StorageImage>,
    /// Width and height of the storage image.
    pub size: (u32, u32),
    /// The view that binding 0 of the descriptor set points at.
    pub bound_view: Option<u64>,
    /// The push constants.
    pub push_data: Seq<u8>,
    /// The number of the next frame.
    pub frame: u32,
    /// The number of command buffers; the command buffer of an image has the
    /// index of the image.
    pub command_buffers: nat,
}

impl RendererState {
    /// What a frame onto `target` records in this state.
    pub open spec fn recording(self, target: u64, target_size: (u32, u32)) -> FrameRecording {
        FrameRecording {
            trace_width: self.size.0,
            trace_height: self.size.1,
            trace_depth: 1,
            blit_source: self.storage->0.image,
            blit_target: target,
            source_corner: (self.size.0 as i32, self.size.1 as i32, 1),
            target_corner: (target_size.0 as i32, target_size.1 as i32, 1),
        }
    }

    /// Whether a frame can be recorded: there is a storage image, and the
    /// descriptor set points at it.
    pub open spec fn ready(self) -> bool {
        self.storage matches Some(s) && self.bound_view == Some(s.view)
    }

    /// Whether `next` is this state after a scene was taken in whose camera
    /// has the inverse matrices `view` and `projection`: both were written
    /// into the push constants, and nothing else changed.
    pub open spec fn takes_in(
        self,
        next: RendererState,
        view: Seq<u32>,
        projection: Seq<u32>,
    ) -> bool {
        &&& exists|between: Seq<u8>|
            is_written(self.push_data, between, VIEW_OFFSET as int, view) && is_written(
                between,
                next.push_data,
                PROJECTION_OFFSET as int,
                projection,
            )
        &&& next == (RendererState { push_data: next.push_data, ..self })
    }

    /// Whether `next` is this state after the resources of a scene were
    /// bound: `storage` is the storage image, and binding 0 points at its
    /// view.
    pub open spec fn binds(self, next: RendererState, storage: StorageImage) -> bool {
        next == (RendererState {
            storage: Some(storage),
            bound_view: Some(storage.view),
            ..self
        })
    }

    /// Whether `next` is this state after a resize began that retired
    /// `retired`.
    pub open spec fn begins_resize(self, next: RendererState, retired: StorageImage) -> bool {
        &&& self.storage == Some(retired)
        &&& next == (RendererState {
            storage: None,
            retired: Some(retired),
            bound_view: None,
            ..self
        })
    }

    /// Whether `next` is this state after a resize ended: the storage image
    /// `storage` of `width` by `height` took the place of the retired image
    /// `freed`, and `projection` was written into the push constants.
    pub open spec fn finishes_resize(
        self,
        next: RendererState,
        width: u32,
        height: u32,
        storage: StorageImage,
        projection: Seq<u32>,
        freed: StorageImage,
    ) -> bool {
        &&& self.retired == Some(freed)
        &&& is_written(self.push_data, next.push_data, PROJECTION_OFFSET as int, projection)
        &&& next == (RendererState {
            storage: Some(storage),
            retired: None,
            size: (width, height),
            bound_view: Some(storage.view),
            push_data: next.push_data,
            ..self
        })
    }
}

/// The ray-tracing renderer.
#[derive(Clone, Copy, Debug)]
pub struct RaytraceRenderer {
    storage_image: Option<StorageImage>,
    retired_image: Option<StorageImage>,
    storage_image_size: (u32, u32),
    bound_view: Option<u64>,
    push_data: PushData,
    current_frame: u32,
    command_buffers: u32,
    compute_queue_family: u32,
}

impl View for RaytraceRenderer {
    type V = RendererState;

    closed spec fn view(&self) -> RendererState {
        RendererState {
            storage: self.storage_image,
            retired: self.retired_image,
            size: self.storage_image_size,
            bound_view: self.bound_view,
            push_data: self.push_data@,
            frame: self.current_frame,
            command_buffers: self.command_buffers as nat,
        }
    }
}

impl RaytraceRenderer {
    /// A renderer for a target of the given size; it fails where the device
    /// has no queue family that computes.
    pub fn new(queue_family_info: &QueueFamilyInfo, target_size: (u32, u32)) -> (renderer: Result<
        RaytraceRenderer,
        RendererError,
    >)
        ensures
            queue_family_info.compute_index is Some <==> renderer.is_ok(),
            renderer matches Err(e) ==> e == RendererError::NoComputeQueue,
            renderer matches Ok(r) ==> r@ == (RendererState {
                storage: None,
                retired: None,
                size: target_size,
                bound_view: None,
                push_data: Seq::new(PUSH_DATA_SIZE as nat, |i: int| 0u8),
                frame: 0,
                command_buffers: 0,
            }) && Some(r.compute_queue_family()) == queue_family_info.compute_index,
    {
        match queue_family_info.compute_index {
            None => Err(RendererError::NoComputeQueue),
            Some(compute_queue_family) => Ok(
                RaytraceRenderer {
                    storage_image: None,
                    retired_image: None,
                    storage_image_size: target_size,
                    bound_view: None,
                    push_data: PushData::new(),
                    current_frame: 0,
                    command_buffers: 0,
                    compute_queue_family,
                },
            ),
        }
    }

    /// The queue family that the renderer computes and presents on.
    pub closed spec fn compute_queue_family(&self) -> u32 {
        self.compute_queue_family
    }

    /// The queue family to create the command pool for and to take the queue
    /// from.
    pub fn queue_family(&self) -> (family: u32)
        ensures
            family == self.compute_queue_family(),
    {
        self.compute_queue_family
    }

    /// Whether a device has the queue families that the renderer needs: one
    /// that computes and one that presents.
    pub fn has_required_queue_families(queue_family_info: &QueueFamilyInfo) -> (has: bool)
        ensures
            has == (queue_family_info.compute_index is Some && queue_family_info.present_index
                is Some),
    {
        queue_family_info.compute_index.is_some() && queue_family_info.present_index.is_some()
    }

    /// The queues to create the device with: one of the family that
    /// computes.
    pub fn get_queue_info(queue_family_info: &QueueFamilyInfo) -> (requests: Vec<QueueRequest>)
        requires
            queue_family_info.compute_index is Some,
        ensures
            requests@ == seq![
                QueueRequest {
                    queue_family_index: queue_family_info.compute_index->0,
                    queue_count: 1,
                },
            ],
    {
        let mut requests: Vec<QueueRequest> = Vec::new();
        requests.push(
            QueueRequest {
                queue_family_index: queue_family_info.compute_index.unwrap(),
                queue_count: 1,
            },
        );
        requests
    }

    /// The device extensions that the renderer needs.
    pub fn required_device_extensions() -> (extensions: Vec<DeviceExtension>)
        ensures
            extensions@ == seq![
                DeviceExtension::AccelerationStructure,
                DeviceExtension::DeferredHostOperations,
                DeviceExtension::RayTracingPipeline,
            ],
    {
        let mut extensions: Vec<DeviceExtension> = Vec::new();
        extensions.push(DeviceExtension::AccelerationStructure);
        extensions.push(DeviceExtension::DeferredHostOperations);
        extensions.push(DeviceExtension::RayTracingPipeline);
        extensions
    }

    /// Width and height of the storage image.
    pub fn storage_image_size(&self) -> (size: (u32, u32))
        ensures
            size == self@.size,
    {
        self.storage_image_size
    }

    /// The storage image, if there is one.
    pub fn storage_image(&self) -> (image: Option<StorageImage>)
        ensures
            image == self@.storage,
    {
        self.storage_image
    }

    /// The push constants.
    pub fn push_data(&self) -> (data: &PushData)
        ensures
            data@ == self@.push_data,
    {
        &self.push_data
    }

    /// The number of the next frame.
    pub fn current_frame(&self) -> (frame: u32)
        ensures
            frame == self@.frame,
    {
        self.current_frame
    }

    /// Takes in a scene on a device with the handle properties `device`:
    /// plans all that the device is to build and hold for it, and writes
    /// the matrices of its camera into the push constants. A scene that
    /// cannot be taken in is refused with its first fault, before the
    /// device is asked for anything, and leaves the renderer as it was.
    pub fn ingest_scene(&mut self, scene: &MeshScene, device: HandleProperties) -> (plan: Result<
        IngestPlan,
        IngestError,
    >)
        ensures
            match plan {
                Ok(p) => is_plan_of(p, *scene, device) && old(self)@.takes_in(
                    final(self)@,
                    scene.view_inverse@,
                    scene.projection_inverse@,
                ),
                Err(e) => is_fault_of(e, *scene, device) && final(self)@ == old(self)@,
            },
    {
        let plan = match plan_ingest(scene, device) {
            Ok(p) => p,
            Err(e) => {
                return Err(e);
            },
        };
        self.push_data.set_view(&scene.view_inverse);
        let ghost between = self.push_data@;
        self.push_data.set_projection(&scene.projection_inverse);
        assert(is_written(
            old(self)@.push_data,
            between,
            VIEW_OFFSET as int,
            scene.view_inverse@,
        ));
        Ok(plan)
    }

    /// Binds the resources that the device built and holds for the scene of
    /// `plan`: `image` is the storage image, which was created at the size
    /// of the renderer, and `handles` names the rest. What is handed out
    /// are the writes into the descriptor set: the planned writes, each with
    /// its resource filled in. Where the buffer of the material parameters
    /// is there and was not planned, or was planned and is not there,
    /// nothing is bound.
    pub fn bind_scene(&mut self, plan: &IngestPlan, image: u64, handles: &SceneHandles) -> (writes:
        Result<Vec<DescriptorWrite>, RendererError>)
        ensures
            match writes {
                Ok(w) => {
                    &&& plan.material_buffer == (handles.material_params is Some)
                    &&& w@ == scene_writes(handles.storage_view, handles.structure, handles.buffers())
                    &&& w@ == planned_writes(plan.material_buffer).map_values(
                        |w: PlannedWrite| handles.write_of(w),
                    )
                    &&& old(self)@.binds(
                        final(self)@,
                        StorageImage { image, view: handles.storage_view },
                    )
                },
                Err(e) => plan.material_buffer != (handles.material_params is Some) && e
                    == RendererError::MaterialBuffer && final(self)@ == old(self)@,
            },
    {
        if plan.material_buffer != handles.material_params.is_some() {
            return Err(RendererError::MaterialBuffer);
        }
        self.storage_image = Some(StorageImage { image, view: handles.storage_view });
        self.bound_view = Some(handles.storage_view);
        Ok(handles.writes())
    }

    /// Writes the inverse of a new view matrix into the push constants.
    pub fn set_view(&mut self, view_inverse: &[u32; 16])
        ensures
            is_written(
                old(self)@.push_data,
                final(self)@.push_data,
                VIEW_OFFSET as int,
                view_inverse@,
            ),
            final(self)@ == (RendererState { push_data: final(self)@.push_data, ..old(self)@ }),
    {
        self.push_data.set_view(view_inverse);
    }

    /// Begins a resize: retires the storage image. The caller waits for the
    /// device to idle and destroys the view and the image that are handed
    /// out, then creates the new image. Until the resize ends there is no
    /// storage image and no frame can be recorded.
    pub fn begin_resize(&mut self) -> (retired: Result<StorageImage, RendererError>)
        ensures
            match retired {
                Ok(image) => old(self)@.begins_resize(final(self)@, image),
                Err(e) => old(self)@.storage is None && e == RendererError::NoStorageImage
                    && final(self)@ == old(self)@,
            },
    {
        match self.storage_image {
            Some(image) => {
                self.storage_image = None;
                self.retired_image = Some(image);
                self.bound_view = None;
                Ok(image)
            },
            None => Err(RendererError::NoStorageImage),
        }
    }

    /// Ends a resize: takes in the storage image that was created at the new
    /// size and the inverse of the new projection matrix. What is handed out
    /// is the image whose memory is to be freed, now that its replacement is
    /// there, and the write that points binding 0 at the new view; the
    /// caller performs the write before it records a frame.
    pub fn finish_resize(
        &mut self,
        width: u32,
        height: u32,
        storage: StorageImage,
        projection_inverse: &[u32; 16],
    ) -> (done: Result<(StorageImage, DescriptorWrite), RendererError>)
        ensures
            match done {
                Ok((freed, write)) => {
                    &&& write == image_write(storage.view)
                    &&& old(self)@.finishes_resize(
                        final(self)@,
                        width,
                        height,
                        storage,
                        projection_inverse@,
                        freed,
                    )
                },
                Err(e) => old(self)@.retired is None && e == RendererError::NotResizing
                    && final(self)@ == old(self)@,
            },
    {
        match self.retired_image {
            Some(freed) => {
                self.retired_image = None;
                self.storage_image = Some(storage);
                self.storage_image_size = (width, height);
                self.bound_view = Some(storage.view);
                self.push_data.set_projection(projection_inverse);
                Ok(
                    (
                        freed,
                        DescriptorWrite::StorageImage {
                            binding: STORAGE_IMAGE_BINDING,
                            view: storage.view,
                        },
                    ),
                )
            },
            None => Err(RendererError::NotResizing),
        }
    }

    /// Opens a frame with the random words `random`: writes them and the
    /// number of the frame into the push constants and counts the frame.
    /// The counter wraps round.
    pub fn begin_frame_with(&mut self, random: (u32, u32))
        ensures
            is_written(
                old(self)@.push_data,
                final(self)@.push_data,
                RANDOM_OFFSET as int,
                seq![random.0, random.1, old(self)@.frame],
            ),
            final(self)@ == (RendererState {
                push_data: final(self)@.push_data,
                frame: if old(self)@.frame == u32::MAX {
                    0u32
                } else {
                    (old(self)@.frame + 1) as u32
                },
                ..old(self)@
            }),
    {
        self.push_data.set_frame(random, self.current_frame);
        self.current_frame = self.current_frame.wrapping_add(1);
    }

    /// Opens a frame with random words drawn here. Whatever is drawn, the
    /// number of the frame is written and counted, so that the push
    /// constants of a frame differ from those of the frame before.
    pub fn begin_frame(&mut self)
        ensures
            exists|random: (u32, u32)|
                is_written(
                    old(self)@.push_data,
                    final(self)@.push_data,
                    RANDOM_OFFSET as int,
                    seq![random.0, random.1, old(self)@.frame],
                ),
            final(self)@ == (RendererState {
                push_data: final(self)@.push_data,
                frame: if old(self)@.frame == u32::MAX {
                    0u32
                } else {
                    (old(self)@.frame + 1) as u32
                },
                ..old(self)@
            }),
    {
        let random = random_words();
        self.begin_frame_with(random);
    }

    /// The number of command buffers to create before the frame of the
    /// image with index `image` can be recorded: as many as are missing up
    /// to that index. Each image has a command buffer of its own, created
    /// when the image is first used and recorded anew for every frame.
    pub fn command_buffers_for(&mut self, image: u32) -> (missing: Option<u32>)
        ensures
            image < u32::MAX <==> missing.is_some(),
            missing matches Some(m) ==> m == if old(self)@.command_buffers > image {
                0
            } else {
                image + 1 - old(self)@.command_buffers
            },
            final(self)@ == (RendererState {
                command_buffers: if missing is Some && old(self)@.command_buffers <= image {
                    (image + 1) as nat
                } else {
                    old(self)@.command_buffers
                },
                ..old(self)@
            }),
    {
        if image == u32::MAX {
            None
        } else if self.command_buffers > image {
            Some(0)
        } else {
            let missing: u32 = image + 1 - self.command_buffers;
            self.command_buffers = image + 1;
            Some(missing)
        }
    }

    /// What the frame onto `target`, an image of the size `target_size`,
    /// records. It fails where there is no storage image or the descriptor
    /// set does not point at it.
    pub fn record_command_buffer(&self, target: u64, target_size: (u32, u32)) -> (recording: Result<
        FrameRecording,
        RendererError,
    >)
        ensures
            self@.ready() <==> recording.is_ok(),
            recording matches Ok(r) ==> r == self@.recording(target, target_size),
            recording matches Err(e) ==> e == RendererError::NoStorageImage,
    {
        match (self.storage_image, self.bound_view) {
            (Some(storage), Some(view)) => {
                if view != storage.view {
                    return Err(RendererError::NoStorageImage);
                }
                Ok(
                    FrameRecording {
                        trace_width: self.storage_image_size.0,
                        trace_height: self.storage_image_size.1,
                        trace_depth: 1,
                        blit_source: storage.image,
                        blit_target: target,
                        source_corner: (
                            #[verifier::truncate]
                            (self.storage_image_size.0 as i32),
                            #[verifier::truncate]
                            (self.storage_image_size.1 as i32),
                            1,
                        ),
                        target_corner: (
                            #[verifier::truncate]
                            (target_size.0 as i32),
                            #[verifier::truncate]
                            (target_size.1 as i32),
                            1,
                        ),
                    },
                )
            },
            _ => Err(RendererError::NoStorageImage),
        }
    }
}

/// After a resize to `width` by `height` the storage image has that size,
/// binding 0 points at the view of the new image, and every frame that is
/// recorded from then on traces at that size and reads the new image. The
/// image whose memory is freed is the one that the resize retired, and it is
/// freed when its replacement is there.
pub proof fn lemma_resize(
    before: RendererState,
    during: RendererState,
    after: RendererState,
    width: u32,
    height: u32,
    storage: StorageImage,
    projection: Seq<u32>,
    retired: StorageImage,
    freed: StorageImage,
    target: u64,
    target_size: (u32, u32),
)
    requires
        before.begins_resize(during, retired),
        during.finishes_resize(after, width, height, storage, projection, freed),
    ensures
        !during.ready(),
        freed == retired,
        after.size == (width, height),
        after.bound_view == Some(storage.view),
        after.ready(),
        after.recording(target, target_size).blit_source == storage.image,
        after.recording(target, target_size).trace_width == width,
        after.recording(target, target_size).trace_height == height,
        after.frame == before.frame,
        after.command_buffers == before.command_buffers,
{
}

} // verus!
