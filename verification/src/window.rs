//! The presentation surface: which of its images and which frame slot a frame
//! uses, and what is asked of the device next.
//!
//! A frame slot is one of the frames that may be in flight at once. It owns
//! the semaphore that an acquired image signals and the fence that the
//! submitted work signals. A swap image owns the semaphore that presenting
//! waits on, because an image may still be waiting to be presented when its
//! frame slot comes round again.
//!
//! The surface itself lives with the caller. It performs each action that
//! `WindowData::step` hands out and reports what came of it as the next
//! event.

use vstd::prelude::*;

verus! {

/// Frames that may be in flight at once.
pub const MAX_FRAMES_IN_FLIGHT: usize = 2;

/// Where the surface stands in the course of a frame.
#[derive(Clone, Copy, Debug, PartialEq, Eq, Structural)]
pub enum Phase {
    /// Between two frames.
    Idle,
    /// The fence of the frame slot is being waited for.
    WaitingFence,
    /// An image has been asked for.
    Acquiring,
    /// The surface was stale when an image was asked for and is being
    /// rebuilt.
    RebuildingToAcquire,
    /// After that, the images changed their number and the semaphores of the
    /// images are being replaced.
    ReplacingToAcquire,
    /// An image has been asked for a second time, after the rebuild.
    Reacquiring,
    /// An image is held; its frame is being recorded and submitted.
    Acquired,
    /// The image has been handed back to be presented.
    Presenting,
    /// The surface was stale or suboptimal when the image was presented and
    /// is being rebuilt.
    RebuildingAfterPresent,
    /// After that, the semaphores of the images are being replaced.
    ReplacingAfterPresent,
    /// The frame loop has failed for good.
    Failed,
}

/// What came of the last action.
#[derive(Clone, Copy, Debug, PartialEq, Eq, Structural)]
pub enum FrameEvent {
    /// A frame is to begin.
    Begin,
    /// The fence was signalled and has been reset.
    FenceReady,
    /// The image with this index was acquired.
    ImageAcquired(u32),
    /// The surface is stale: an acquire or a present met a surface that no
    /// longer fits.
    OutOfDate,
    /// The surface was rebuilt with this many images and this extent.
    SurfaceRebuilt { image_count: u32, width: u32, height: u32 },
    /// The semaphores of the images were replaced.
    SemaphoresReplaced,
    /// The frame was recorded and submitted.
    Submitted,
    /// The image was presented; `suboptimal` where the surface no longer fits
    /// well.
    Presented { suboptimal: bool },
    /// The device failed in another way.
    DeviceError,
}

/// Why the frame loop failed.
#[derive(Clone, Copy, Debug, PartialEq, Eq, Structural)]
pub enum FrameError {
    /// The device reported an error.
    Device,
    /// The surface was stale again right after it had been rebuilt.
    SurfaceLost,
    /// The device named an image that the surface does not have.
    ImageIndex,
    /// The event does not answer the action that was handed out.
    Protocol,
    /// The loop had failed before.
    Failed,
}

/// What to ask of the device next.
#[derive(Clone, Copy, Debug, PartialEq, Eq, Structural)]
pub enum FrameAction {
    /// Wait for the fence of this frame slot without a timeout, then reset
    /// it.
    WaitFence { slot: usize },
    /// Acquire the next image without a timeout; it signals the semaphore of
    /// this frame slot.
    Acquire { slot: usize },
    /// Wait for the device to idle, then destroy and rebuild the swapchain.
    RebuildSurface,
    /// Destroy the semaphores of the images and create this many anew.
    ReplaceRenderSemaphores { count: u32 },
    /// Record the frame for this image and submit it: the submission waits
    /// on the semaphore of the frame slot at the transfer stage, and signals
    /// the semaphore of the image and the fence of the frame slot.
    Render { image: u32, slot: usize },
    /// Present this image; presenting waits on the semaphore of the image.
    Present { image: u32 },
    /// The frame is over.
    FrameDone,
    /// Give up.
    Abort(FrameError),
}

/// The state of the surface as the contracts see it.
pub ghost struct WindowState {
    pub phase: Phase,
    /// The frame slot in use.
    pub slot: nat,
    /// The number of swap images.
    pub image_count: nat,
    /// The image that was acquired last.
    pub image: nat,
    pub width: u32,
    pub height: u32,
}

/// A state and the action that led to it.
pub ghost struct Step {
    pub state: WindowState,
    pub action: FrameAction,
}

impl WindowState {
    /// The frame slot is one of the slots.
    pub open spec fn valid(self) -> bool {
        self.slot < MAX_FRAMES_IN_FLIGHT && self.image_count <= u32::MAX && self.image <= u32::MAX
    }

    /// This state in another phase.
    pub open spec fn at(self, phase: Phase) -> WindowState {
        WindowState { phase, ..self }
    }

    /// This state with the frame slot moved on by one, round robin.
    pub open spec fn advanced(self) -> WindowState {
        WindowState { slot: ((self.slot as int + 1) % (MAX_FRAMES_IN_FLIGHT as int)) as nat, ..self }
    }

    /// This state after the surface was rebuilt.
    pub open spec fn rebuilt(self, image_count: u32, width: u32, height: u32) -> WindowState {
        WindowState { image_count: image_count as nat, width, height, ..self }
    }

    /// The loop fails.
    pub open spec fn fail(self, error: FrameError) -> Step {
        Step { state: self.at(Phase::Failed), action: FrameAction::Abort(error) }
    }

    /// What an acquired image leads to.
    pub open spec fn acquired(self, index: u32) -> Step {
        if index < self.image_count {
            Step {
                state: WindowState { image: index as nat, ..self.at(Phase::Acquired) },
                action: FrameAction::Render { image: index, slot: self.slot as usize },
            }
        } else {
            self.fail(FrameError::ImageIndex)
        }
    }

    /// The step that the surface makes on `event`.
    ///
    /// The fence of the frame slot is waited for before an image is asked
    /// for. A surface that is stale on acquire is rebuilt, and the image
    /// asked for once more; stale again, the loop fails. A frame that was
    /// submitted is presented whatever the surface is like, and the surface
    /// is rebuilt after that. The frame slot moves on with every present.
    pub open spec fn step(self, event: FrameEvent) -> Step {
        let slot = self.slot as usize;
        match (self.phase, event) {
            (Phase::Failed, _) => self.fail(FrameError::Failed),
            (_, FrameEvent::DeviceError) => self.fail(FrameError::Device),
            (Phase::Idle, FrameEvent::Begin) => Step {
                state: self.at(Phase::WaitingFence),
                action: FrameAction::WaitFence { slot },
            },
            (Phase::WaitingFence, FrameEvent::FenceReady) => Step {
                state: self.at(Phase::Acquiring),
                action: FrameAction::Acquire { slot },
            },
            (Phase::Acquiring, FrameEvent::ImageAcquired(index)) => self.acquired(index),
            (Phase::Acquiring, FrameEvent::OutOfDate) => Step {
                state: self.at(Phase::RebuildingToAcquire),
                action: FrameAction::RebuildSurface,
            },
            (Phase::RebuildingToAcquire, FrameEvent::SurfaceRebuilt { image_count, width, height }) => {
                let rebuilt = self.rebuilt(image_count, width, height);
                if image_count != self.image_count {
                    Step {
                        state: rebuilt.at(Phase::ReplacingToAcquire),
                        action: FrameAction::ReplaceRenderSemaphores { count: image_count },
                    }
                } else {
                    Step {
                        state: rebuilt.at(Phase::Reacquiring),
                        action: FrameAction::Acquire { slot },
                    }
                }
            },
            (Phase::ReplacingToAcquire, FrameEvent::SemaphoresReplaced) => Step {
                state: self.at(Phase::Reacquiring),
                action: FrameAction::Acquire { slot },
            },
            (Phase::Reacquiring, FrameEvent::ImageAcquired(index)) => self.acquired(index),
            (Phase::Reacquiring, FrameEvent::OutOfDate) => self.fail(FrameError::SurfaceLost),
            (Phase::Acquired, FrameEvent::Submitted) => Step {
                state: self.at(Phase::Presenting),
                action: FrameAction::Present { image: self.image as u32 },
            },
            (Phase::Presenting, FrameEvent::Presented { suboptimal: false }) => Step {
                state: self.advanced().at(Phase::Idle),
                action: FrameAction::FrameDone,
            },
            (Phase::Presenting, FrameEvent::Presented { suboptimal: true }) => Step {
                state: self.advanced().at(Phase::RebuildingAfterPresent),
                action: FrameAction::RebuildSurface,
            },
            (Phase::Presenting, FrameEvent::OutOfDate) => Step {
                state: self.advanced().at(Phase::RebuildingAfterPresent),
                action: FrameAction::RebuildSurface,
            },
            (
                Phase::RebuildingAfterPresent,
                FrameEvent::SurfaceRebuilt { image_count, width, height },
            ) => {
                let rebuilt = self.rebuilt(image_count, width, height);
                if image_count != self.image_count {
                    Step {
                        state: rebuilt.at(Phase::ReplacingAfterPresent),
                        action: FrameAction::ReplaceRenderSemaphores { count: image_count },
                    }
                } else {
                    Step { state: rebuilt.at(Phase::Idle), action: FrameAction::FrameDone }
                }
            },
            (Phase::ReplacingAfterPresent, FrameEvent::SemaphoresReplaced) => Step {
                state: self.at(Phase::Idle),
                action: FrameAction::FrameDone,
            },
            _ => self.fail(FrameError::Protocol),
        }
    }

    /// The frame slot whose fence has been waited for in the frame that is
    /// under way, if that has happened and the frame's image has not gone to
    /// be presented yet.
    pub open spec fn fence_waited(self) -> Option<usize> {
        match self.phase {
            Phase::WaitingFence
            | Phase::Acquiring
            | Phase::RebuildingToAcquire
            | Phase::ReplacingToAcquire
            | Phase::Reacquiring
            | Phase::Acquired => Some(self.slot as usize),
            _ => None,
        }
    }
}

/// The actions that the surface hands out, from `state` on, as `events` come
/// in.
pub open spec fn run(state: WindowState, events: Seq<FrameEvent>) -> Seq<FrameAction>
    decreases events.len(),
{
    if events.len() == 0 {
        Seq::empty()
    } else {
        let step = state.step(events[0]);
        seq![step.action] + run(step.state, events.drop_first())
    }
}

/// The frame slot whose fence has been waited for, after `action` is added
/// to a course of actions in which it was `waited`: a wait names it, and a
/// present or the end of the frame forgets it.
pub open spec fn waited_after(waited: Option<usize>, action: FrameAction) -> Option<usize> {
    match action {
        FrameAction::WaitFence { slot } => Some(slot),
        FrameAction::Present { .. } | FrameAction::FrameDone => None,
        _ => waited,
    }
}

/// Whether every acquire in `actions` comes after a wait for the fence of
/// its frame slot, with no present in between; `waited` says what came
/// before `actions`.
pub open spec fn waits_before_acquires(waited: Option<usize>, actions: Seq<FrameAction>) -> bool
    decreases actions.len(),
{
    if actions.len() == 0 {
        true
    } else {
        &&& actions[0] matches FrameAction::Acquire { slot } ==> waited == Some(slot)
        &&& waits_before_acquires(waited_after(waited, actions[0]), actions.drop_first())
    }
}

/// The same from any point of a course of actions: `waited` says what came
/// before, and agrees with the surface where the surface knows of a wait.
pub proof fn lemma_waits_before_acquires(
    state: WindowState,
    waited: Option<usize>,
    events: Seq<FrameEvent>,
)
    requires
        state.valid(),
        state.fence_waited() is Some ==> waited == state.fence_waited(),
    ensures
        waits_before_acquires(waited, run(state, events)),
    decreases events.len(),
{
    if events.len() > 0 {
        let step = state.step(events[0]);
        let rest = run(step.state, events.drop_first());
        let actions = run(state, events);
        lemma_step_valid(state, events[0]);
        lemma_waits_before_acquires(
            step.state,
            waited_after(waited, step.action),
            events.drop_first(),
        );
        assert(actions[0] == step.action);
        assert(actions.drop_first() =~= rest);
    }
}

/// Whatever the device reports and in whatever order, a surface that starts
/// between two frames asks for an image only after it has waited for the
/// fence of the frame slot in the same frame.
pub proof fn lemma_fence_wait_precedes_acquire(state: WindowState, events: Seq<FrameEvent>)
    requires
        state.valid(),
        state.phase == Phase::Idle,
    ensures
        waits_before_acquires(None, run(state, events)),
{
    lemma_waits_before_acquires(state, None, events);
}

/// A step keeps the state valid, and the frame slot changes only when an
/// image goes to be presented: then it moves on by one, round robin.
pub proof fn lemma_step_valid(state: WindowState, event: FrameEvent)
    requires
        state.valid(),
    ensures
        state.step(event).state.valid(),
        state.step(event).state.slot == state.slot || (state.phase == Phase::Presenting
            && state.step(event).state.slot == (state.slot as int + 1) % (MAX_FRAMES_IN_FLIGHT as int)),
{
}

/// The frame slot moves on with every present, whatever the surface is like
/// afterwards: whether the image was presented well, or the surface turned
/// out suboptimal or stale and is rebuilt.
pub proof fn lemma_present_advances_slot(state: WindowState, event: FrameEvent)
    requires
        state.valid(),
        state.phase == Phase::Presenting,
        event is Presented || event is OutOfDate,
    ensures
        state.step(event).state.slot == (state.slot as int + 1) % (MAX_FRAMES_IN_FLIGHT as int),
        state.step(event).action is FrameDone || state.step(event).action is RebuildSurface,
        event matches FrameEvent::Presented { suboptimal: false } <==> state.step(event).action
            is FrameDone,
{
}

/// Where a rebuilt surface has another number of images, the semaphores of
/// the images are replaced, as many as there are images now, before an
/// image is asked for again or the frame ends.
pub proof fn lemma_rebuild_replaces_semaphores(
    state: WindowState,
    image_count: u32,
    width: u32,
    height: u32,
)
    requires
        state.valid(),
        state.phase == Phase::RebuildingToAcquire || state.phase == Phase::RebuildingAfterPresent,
    ensures
        ({
            let step = state.step(FrameEvent::SurfaceRebuilt { image_count, width, height });
            &&& step.state.image_count == image_count
            &&& (step.state.width, step.state.height) == (width, height)
            &&& image_count != state.image_count <==> step.action
                == (FrameAction::ReplaceRenderSemaphores { count: image_count })
            &&& image_count == state.image_count ==> step.action == if state.phase
                == Phase::RebuildingToAcquire {
                FrameAction::Acquire { slot: state.slot as usize }
            } else {
                FrameAction::FrameDone
            }
        }),
{
}

/// How the work of a frame is submitted: it waits, at the transfer stage, on
/// the semaphore that the acquired image signals, and it signals the
/// semaphore that presenting waits on and the fence that the next use of
/// the frame slot waits for.
#[derive(Clone, Copy, Debug, PartialEq, Eq, Structural)]
pub struct Submission {
    /// The frame slot whose acquire semaphore is waited on.
    pub wait_semaphore: usize,
    /// The image whose render semaphore is signalled.
    pub signal_semaphore: u32,
    /// The frame slot whose fence is signalled.
    pub fence: usize,
}

/// How the frame under way is submitted, where an image is held.
pub open spec fn submission_of(state: WindowState) -> Option<Submission> {
    if state.phase == Phase::Acquired {
        Some(
            Submission {
                wait_semaphore: state.slot as usize,
                signal_semaphore: state.image as u32,
                fence: state.slot as usize,
            },
        )
    } else {
        None
    }
}

/// The frame slots and swap images of a presentation surface, and where the
/// surface stands in the course of a frame.
#[derive(Clone, Copy, Debug)]
pub struct WindowData {
    phase: Phase,
    current_frame: usize,
    image_count: u32,
    current_image: u32,
    width: u32,
    height: u32,
}

impl View for WindowData {
    type V = WindowState;

    closed spec fn view(&self) -> WindowState {
        WindowState {
            phase: self.phase,
            slot: self.current_frame as nat,
            image_count: self.image_count as nat,
            image: self.current_image as nat,
            width: self.width,
            height: self.height,
        }
    }
}

impl WindowData {
    pub const DEFAULT_WIDTH: u32 = 1000;

    pub const DEFAULT_HEIGHT: u32 = 1000;

    #[verifier::type_invariant]
    spec fn inv(self) -> bool {
        self.current_frame < MAX_FRAMES_IN_FLIGHT
    }

    /// A surface with `image_count` images of the given extent, between two
    /// frames and at the first frame slot.
    pub fn new(image_count: u32, width: u32, height: u32) -> (window: WindowData)
        ensures
            window@ == (WindowState {
                phase: Phase::Idle,
                slot: 0,
                image_count: image_count as nat,
                image: 0,
                width,
                height,
            }),
            window@.valid(),
    {
        WindowData {
            phase: Phase::Idle,
            current_frame: 0,
            image_count,
            current_image: 0,
            width,
            height,
        }
    }

    /// Takes in what came of the last action and says what to do next.
    pub fn step(&mut self, event: FrameEvent) -> (action: FrameAction)
        ensures
            final(self)@ == old(self)@.step(event).state,
            action == old(self)@.step(event).action,
            final(self)@.valid(),
    {
        proof {
            use_type_invariant(&*self);
            lemma_step_valid(self@, event);
        }
        let slot: usize = self.current_frame;
        let next: usize = if slot + 1 == MAX_FRAMES_IN_FLIGHT {
            0
        } else {
            slot + 1
        };
        match (self.phase, event) {
            (Phase::Failed, _) => self.fail(FrameError::Failed),
            (_, FrameEvent::DeviceError) => self.fail(FrameError::Device),
            (Phase::Idle, FrameEvent::Begin) => {
                self.phase = Phase::WaitingFence;
                FrameAction::WaitFence { slot }
            },
            (Phase::WaitingFence, FrameEvent::FenceReady) => {
                self.phase = Phase::Acquiring;
                FrameAction::Acquire { slot }
            },
            (Phase::Acquiring, FrameEvent::ImageAcquired(index)) => self.acquired(index),
            (Phase::Acquiring, FrameEvent::OutOfDate) => {
                self.phase = Phase::RebuildingToAcquire;
                FrameAction::RebuildSurface
            },
            (Phase::RebuildingToAcquire, FrameEvent::SurfaceRebuilt { image_count, width, height }) => {
                let changed = image_count != self.image_count;
                self.image_count = image_count;
                self.width = width;
                self.height = height;
                if changed {
                    self.phase = Phase::ReplacingToAcquire;
                    FrameAction::ReplaceRenderSemaphores { count: image_count }
                } else {
                    self.phase = Phase::Reacquiring;
                    FrameAction::Acquire { slot }
                }
            },
            (Phase::ReplacingToAcquire, FrameEvent::SemaphoresReplaced) => {
                self.phase = Phase::Reacquiring;
                FrameAction::Acquire { slot }
            },
            (Phase::Reacquiring, FrameEvent::ImageAcquired(index)) => self.acquired(index),
            (Phase::Reacquiring, FrameEvent::OutOfDate) => self.fail(FrameError::SurfaceLost),
            (Phase::Acquired, FrameEvent::Submitted) => {
                self.phase = Phase::Presenting;
                FrameAction::Present { image: self.current_image }
            },
            (Phase::Presenting, FrameEvent::Presented { suboptimal: false }) => {
                self.current_frame = next;
                self.phase = Phase::Idle;
                FrameAction::FrameDone
            },
            (Phase::Presenting, FrameEvent::Presented { suboptimal: true }) => {
                self.current_frame = next;
                self.phase = Phase::RebuildingAfterPresent;
                FrameAction::RebuildSurface
            },
            (Phase::Presenting, FrameEvent::OutOfDate) => {
                self.current_frame = next;
                self.phase = Phase::RebuildingAfterPresent;
                FrameAction::RebuildSurface
            },
            (
                Phase::RebuildingAfterPresent,
                FrameEvent::SurfaceRebuilt { image_count, width, height },
            ) => {
                let changed = image_count != self.image_count;
                self.image_count = image_count;
                self.width = width;
                self.height = height;
                if changed {
                    self.phase = Phase::ReplacingAfterPresent;
                    FrameAction::ReplaceRenderSemaphores { count: image_count }
                } else {
                    self.phase = Phase::Idle;
                    FrameAction::FrameDone
                }
            },
            (Phase::ReplacingAfterPresent, FrameEvent::SemaphoresReplaced) => {
                self.phase = Phase::Idle;
                FrameAction::FrameDone
            },
            _ => self.fail(FrameError::Protocol),
        }
    }

    fn fail(&mut self, error: FrameError) -> (action: FrameAction)
        ensures
            final(self)@ == old(self)@.fail(error).state,
            action == old(self)@.fail(error).action,
    {
        proof {
            use_type_invariant(&*self);
        }
        self.phase = Phase::Failed;
        FrameAction::Abort(error)
    }

    fn acquired(&mut self, index: u32) -> (action: FrameAction)
        ensures
            final(self)@ == old(self)@.acquired(index).state,
            action == old(self)@.acquired(index).action,
    {
        proof {
            use_type_invariant(&*self);
        }
        if index < self.image_count {
            self.current_image = index;
            self.phase = Phase::Acquired;
            FrameAction::Render { image: index, slot: self.current_frame }
        } else {
            self.fail(FrameError::ImageIndex)
        }
    }

    /// Where the surface stands.
    pub fn phase(&self) -> (phase: Phase)
        ensures
            phase == self@.phase,
    {
        self.phase
    }

    /// The semaphores of the frame under way: the index of the frame slot,
    /// whose semaphore an acquired image signals, and the index of the
    /// image, whose semaphore presenting waits on.
    pub fn get_current_semaphores(&self) -> (indices: (usize, u32))
        ensures
            indices.0 == self@.slot,
            indices.1 == self@.image,
            self@.valid(),
    {
        proof {
            use_type_invariant(self);
        }
        (self.current_frame, self.current_image)
    }

    /// The index of the frame slot, whose fence the submitted frame signals.
    pub fn get_current_flight_fence(&self) -> (slot: usize)
        ensures
            slot == self@.slot,
            slot < MAX_FRAMES_IN_FLIGHT,
    {
        proof {
            use_type_invariant(self);
        }
        self.current_frame
    }

    /// How the frame of the image that is held is submitted; `None` where no
    /// image is held.
    pub fn submission(&self) -> (submission: Option<Submission>)
        ensures
            submission == submission_of(self@),
    {
        match self.phase {
            Phase::Acquired => Some(
                Submission {
                    wait_semaphore: self.current_frame,
                    signal_semaphore: self.current_image,
                    fence: self.current_frame,
                },
            ),
            _ => None,
        }
    }

    /// Width and height of the swap images.
    pub fn get_size(&self) -> (size: (u32, u32))
        ensures
            size == (self@.width, self@.height),
    {
        (self.width, self.height)
    }

    /// The number of swap images.
    pub fn image_count(&self) -> (count: u32)
        ensures
            count == self@.image_count,
    {
        self.image_count
    }

    /// Whether a device can present to the surface: it offers a format and a
    /// present mode.
    pub fn is_device_suitable(format_count: usize, present_mode_count: usize) -> (suitable: bool)
        ensures
            suitable == (format_count > 0 && present_mode_count > 0),
    {
        format_count != 0 && present_mode_count != 0
    }
}

/// A format of the surface and its colour space, as the device numbers
/// them.
#[derive(Clone, Copy, Debug, PartialEq, Eq, Structural)]
pub struct SurfaceFormat {
    pub format: i32,
    pub color_space: i32,
}

/// What the surface says of the extent of its images.
#[derive(Clone, Copy, Debug, PartialEq, Eq)]
pub struct SurfaceExtents {
    /// The extent that the surface has; a width of `u32::MAX` says that the
    /// swapchain decides it.
    pub current: (u32, u32),
    pub min: (u32, u32),
    pub max: (u32, u32),
}

/// How the images of a swapchain are shared between queue families.
#[derive(Clone, Copy, Debug, PartialEq, Eq, Structural)]
pub enum ImageSharing {
    /// One family owns the images.
    Exclusive,
    /// The compute and the present family both use them.
    Concurrent { compute: u32, present: u32 },
}

/// `value` held between `low` and `high`.
pub open spec fn clamped(value: u32, low: u32, high: u32) -> u32 {
    if value < low {
        low
    } else if value > high {
        high
    } else {
        value
    }
}

/// The format to build the swapchain with: the first of `formats` that is
/// `preferred`, else the first of all; `None` where the surface offers no
/// format.
pub fn choose_surface_format(formats: &[SurfaceFormat], preferred: SurfaceFormat) -> (chosen:
    Option<SurfaceFormat>)
    ensures
        formats@.len() > 0 <==> chosen.is_some(),
        chosen matches Some(c) ==> c == if formats@.contains(preferred) {
            preferred
        } else {
            formats@[0]
        },
{
    if formats.len() == 0 {
        return None;
    }
    let mut i: usize = 0;
    while i < formats.len()
        invariant
            i <= formats@.len(),
            forall|j: int| 0 <= j < i ==> formats@[j] != preferred,
        decreases formats@.len() - i,
    {
        if formats[i].format == preferred.format && formats[i].color_space
            == preferred.color_space {
            assert(formats@[i as int] == preferred);
            return Some(formats[i]);
        }
        i += 1;
    }
    Some(formats[0])
}

/// The present mode to build the swapchain with: `preferred` where the
/// surface offers it, else `fallback`.
pub fn choose_present_mode(modes: &[i32], preferred: i32, fallback: i32) -> (chosen: i32)
    ensures
        chosen == if modes@.contains(preferred) {
            preferred
        } else {
            fallback
        },
{
    let mut i: usize = 0;
    while i < modes.len()
        invariant
            i <= modes@.len(),
            forall|j: int| 0 <= j < i ==> modes@[j] != preferred,
        decreases modes@.len() - i,
    {
        if modes[i] == preferred {
            return preferred;
        }
        i += 1;
    }
    fallback
}

/// The extent to build the swapchain with: the one that the surface has,
/// or, where the swapchain decides it, the size of the window held within
/// what the surface allows. `None` where it allows nothing: a least extent
/// above the greatest.
pub fn choose_extent(extents: SurfaceExtents, window_size: (u32, u32)) -> (chosen: Option<
    (u32, u32),
>)
    ensures
        extents.current.0 != u32::MAX ==> chosen == Some(extents.current),
        extents.current.0 == u32::MAX ==> chosen == if extents.min.0 <= extents.max.0
            && extents.min.1 <= extents.max.1 {
            Some(
                (
                    clamped(window_size.0, extents.min.0, extents.max.0),
                    clamped(window_size.1, extents.min.1, extents.max.1),
                ),
            )
        } else {
            None
        },
{
    if extents.current.0 != u32::MAX {
        Some(extents.current)
    } else if extents.min.0 > extents.max.0 || extents.min.1 > extents.max.1 {
        None
    } else {
        Some(
            (
                clamp(window_size.0, extents.min.0, extents.max.0),
                clamp(window_size.1, extents.min.1, extents.max.1),
            ),
        )
    }
}

fn clamp(value: u32, low: u32, high: u32) -> (held: u32)
    ensures
        held == clamped(value, low, high),
{
    if value < low {
        low
    } else if value > high {
        high
    } else {
        value
    }
}

/// The number of images to ask for: one more than the least that the
/// surface needs, but no more than the most it allows, where zero stands for
/// no limit. `None` where one more does not fit 32 bits.
pub fn choose_image_count(min_image_count: u32, max_image_count: u32) -> (count: Option<u32>)
    ensures
        min_image_count < u32::MAX <==> count.is_some(),
        count matches Some(c) ==> c == if max_image_count > 0 && max_image_count
            < min_image_count + 1 {
            max_image_count as int
        } else {
            min_image_count + 1
        },
{
    if min_image_count == u32::MAX {
        return None;
    }
    let wanted: u32 = min_image_count + 1;
    if max_image_count > 0 && max_image_count < wanted {
        Some(max_image_count)
    } else {
        Some(wanted)
    }
}

/// How the images are shared: one family owns them where it computes and
/// presents, else both families use them.
pub fn choose_sharing(compute_index: u32, present_index: u32) -> (sharing: ImageSharing)
    ensures
        sharing == if compute_index == present_index {
            ImageSharing::Exclusive
        } else {
            ImageSharing::Concurrent { compute: compute_index, present: present_index }
        },
{
    if compute_index == present_index {
        ImageSharing::Exclusive
    } else {
        ImageSharing::Concurrent { compute: compute_index, present: present_index }
    }
}

} // verus!
