//! The per-frame synchronisation protocol as a state machine: the window
//! loop reports what happened (an event), the machine answers with the next
//! Vulkan operation to perform (an action).
//!
//! Per frame slot `f` the protocol is: wait for `fence[f]`, acquire an image,
//! wait for the fence that still uses that image, record the slot as the
//! image's user, update its uniform data and submit, present, then move on
//! to the next slot. A wait is skipped when the host already knows the fence
//! to be signalled (fences are created signalled, and a fence stays
//! signalled until it is reset for a submission). Out-of-date and suboptimal
//! results lead to a swapchain recreation; a window without area suspends
//! rendering, recreation included.
use vstd::prelude::*;
use crate::swapchain::{
    Extent2D, SurfaceCapabilities, SurfaceFormat, extent_choice, has_area, image_count_choice, plan_of,
};

verus! {

/// `VK_SUCCESS`.
pub const VK_SUCCESS: i32 = 0;

/// `VK_TIMEOUT`.
pub const VK_TIMEOUT: i32 = 2;

/// `VK_SUBOPTIMAL_KHR`.
pub const VK_SUBOPTIMAL: i32 = 1000001003;

/// `VK_ERROR_OUT_OF_DATE_KHR`.
pub const VK_ERROR_OUT_OF_DATE: i32 = -1000001004;

/// What a raw `VkResult` means to the render loop.
#[derive(Clone, Copy, Debug, PartialEq, Eq, Structural)]
pub enum VkStatus {
    Success,
    /// Usable, but the swapchain should be rebuilt.
    Suboptimal,
    /// The swapchain no longer matches the surface.
    OutOfDate,
    /// A wait ran out of time.
    Timeout,
    /// Anything else.
    Error,
}

/// A fatal condition of the render loop.
#[derive(Clone, Copy, Debug, PartialEq, Eq, Structural)]
pub enum FrameError {
    /// A fence or semaphore wait exceeded its timeout: the GPU hangs.
    SynchronizationTimeout,
    /// Vulkan returned an unexpected result code.
    Device { code: i32 },
    /// The swapchain handed out an image it does not have.
    InvalidImageIndex { image: u32 },
    /// An event that the current stage of the frame does not expect.
    UnexpectedEvent,
}

/// Where the machine is within a frame.
#[derive(Clone, Copy, Debug, PartialEq, Eq, Structural)]
pub enum Stage {
    /// Between frames.
    Idle,
    /// Waiting for the fence of the current slot.
    WaitingFrameFence,
    /// Acquiring an image.
    Acquiring,
    /// Waiting for the fence of the slot that last used `image`.
    WaitingImageFence { image: usize },
    /// Submitting the commands for `image`.
    Submitting { image: usize },
    /// Presenting `image`.
    Presenting { image: usize },
    /// Rebuilding the swapchain generation.
    Recreating,
}

/// What happened, reported by the window loop. Results are raw `VkResult`
/// codes.
#[derive(Clone, Copy, Debug, PartialEq, Eq, Structural)]
pub enum FrameEvent {
    /// The window asks for a new frame.
    RedrawRequested,
    /// The window's drawable size changed; a recreation is then due, and
    /// happens after the next presented frame, once the window has an area.
    Resized { width: u32, height: u32 },
    /// The fence wait asked for returned.
    FenceWaited { result: i32 },
    /// `vkAcquireNextImageKHR` returned.
    Acquired { result: i32, image: u32 },
    /// The uniform update, fence reset and `vkQueueSubmit` are done; the
    /// result is that of the submit.
    Submitted { result: i32 },
    /// `vkQueuePresentKHR` returned.
    Presented { result: i32 },
    /// The swapchain generation was rebuilt with `image_count` images.
    Recreated { image_count: usize },
}

/// The next operation for the window loop to perform.
#[derive(Clone, Copy, Debug, PartialEq, Eq, Structural)]
pub enum FrameAction {
    /// Nothing until the next window event.
    Nothing,
    /// Wait for the in-flight fence of `slot`.
    WaitFence { slot: usize },
    /// Acquire the next image, signalling the image-available semaphore of `slot`.
    Acquire { slot: usize },
    /// Write the uniform data of `image`, reset the fence of `slot`, and
    /// submit the commands of `image`: wait on the image-available semaphore
    /// of `slot`, signal its render-finished semaphore and its fence.
    Submit { image: usize, slot: usize },
    /// Present `image`, waiting on the render-finished semaphore of `slot`.
    Present { image: usize, slot: usize },
    /// Wait for the device to go idle, destroy the swapchain generation and
    /// build a new one for the current window size.
    Recreate,
    /// Stop rendering with `error`.
    Fail { error: FrameError },
}

/// The model of the machine's state.
pub struct FrameState {
    /// The number of frame slots (frames in flight).
    pub max_frames: nat,
    /// The current frame slot.
    pub frame: nat,
    /// Per slot: the host knows that the slot's fence is signalled (it was
    /// created signalled, or a wait on it returned, and it was not reset
    /// since).
    pub fence_signaled: Seq<bool>,
    /// Per swapchain image: the slot whose fence guards its last use.
    pub images_in_flight: Seq<Option<usize>>,
    /// The window's current drawable size.
    pub window: Extent2D,
    /// A resize was reported since the last recreation.
    pub resized: bool,
    /// The last acquire was suboptimal.
    pub recreate_pending: bool,
    pub stage: Stage,
}

pub open spec fn status_of(code: i32) -> VkStatus {
    if code == VK_SUCCESS {
        VkStatus::Success
    } else if code == VK_SUBOPTIMAL {
        VkStatus::Suboptimal
    } else if code == VK_ERROR_OUT_OF_DATE {
        VkStatus::OutOfDate
    } else if code == VK_TIMEOUT {
        VkStatus::Timeout
    } else {
        VkStatus::Error
    }
}

/// The fatal error that an unexpected result code stands for.
pub open spec fn fatal_error(code: i32) -> FrameError {
    if code == VK_TIMEOUT {
        FrameError::SynchronizationTimeout
    } else {
        FrameError::Device { code }
    }
}

/// Sorts a raw `VkResult` into what the render loop does with it.
pub fn classify(code: i32) -> (r: VkStatus)
    ensures
        r == status_of(code),
{
    if code == VK_SUCCESS {
        VkStatus::Success
    } else if code == VK_SUBOPTIMAL {
        VkStatus::Suboptimal
    } else if code == VK_ERROR_OUT_OF_DATE {
        VkStatus::OutOfDate
    } else if code == VK_TIMEOUT {
        VkStatus::Timeout
    } else {
        VkStatus::Error
    }
}

fn fatal(code: i32) -> (r: FrameError)
    ensures
        r == fatal_error(code),
{
    if code == VK_TIMEOUT {
        FrameError::SynchronizationTimeout
    } else {
        FrameError::Device { code }
    }
}

/// The consistency of a machine state.
pub open spec fn state_wf(s: FrameState) -> bool {
    &&& s.max_frames >= 1
    &&& s.frame < s.max_frames
    &&& s.fence_signaled.len() == s.max_frames
    &&& s.max_frames <= usize::MAX
    &&& forall|i: int|
        0 <= i < s.images_in_flight.len() ==> match #[trigger] s.images_in_flight[i] {
            Some(g) => g < s.max_frames,
            None => true,
        }
    &&& match s.stage {
        Stage::Acquiring => s.fence_signaled[s.frame as int],
        Stage::WaitingImageFence { image } => {
            &&& s.fence_signaled[s.frame as int]
            &&& image < s.images_in_flight.len()
            &&& s.images_in_flight[image as int] is Some
        },
        Stage::Submitting { image } => s.fence_signaled[s.frame as int] && image
            < s.images_in_flight.len(),
        Stage::Presenting { image } => image < s.images_in_flight.len(),
        _ => true,
    }
}

/// Stops the frame with `err`.
pub open spec fn fail_with(s: FrameState, err: FrameError) -> (FrameState, FrameAction) {
    (FrameState { stage: Stage::Idle, ..s }, FrameAction::Fail { error: err })
}

/// An event the current stage does not expect: refused, state unchanged.
pub open spec fn refuse(s: FrameState) -> (FrameState, FrameAction) {
    (s, FrameAction::Fail { error: FrameError::UnexpectedEvent })
}

/// Recreation when the window has an area; otherwise it waits, as a pending
/// resize, until the window has one again.
pub open spec fn start_recreation(s: FrameState) -> (FrameState, FrameAction) {
    if has_area(s.window) {
        (
            FrameState { stage: Stage::Recreating, resized: false, recreate_pending: false, ..s },
            FrameAction::Recreate,
        )
    } else {
        (
            FrameState { stage: Stage::Idle, resized: true, recreate_pending: false, ..s },
            FrameAction::Nothing,
        )
    }
}

/// Records the current slot as the user of `image` and submits.
pub open spec fn claim_image(s: FrameState, image: usize) -> (FrameState, FrameAction) {
    (
        FrameState {
            images_in_flight: s.images_in_flight.update(image as int, Some(s.frame as usize)),
            stage: Stage::Submitting { image },
            ..s
        },
        FrameAction::Submit { image, slot: s.frame as usize },
    )
}

/// After `image` was acquired: wait for the fence that still guards it, if
/// it is not known to be signalled, else claim it.
pub open spec fn after_acquire(s: FrameState, image: usize) -> (FrameState, FrameAction) {
    match s.images_in_flight[image as int] {
        Some(g) => if !s.fence_signaled[g as int] {
            (FrameState { stage: Stage::WaitingImageFence { image }, ..s }, FrameAction::WaitFence { slot: g })
        } else {
            claim_image(s, image)
        },
        None => claim_image(s, image),
    }
}

/// One transition of the machine.
pub open spec fn step_spec(s: FrameState, e: FrameEvent) -> (FrameState, FrameAction) {
    match e {
        FrameEvent::Resized { width, height } => (
            FrameState { window: Extent2D { width, height }, resized: true, ..s },
            FrameAction::Nothing,
        ),
        FrameEvent::RedrawRequested => if s.stage != Stage::Idle {
            refuse(s)
        } else if !has_area(s.window) {
            (s, FrameAction::Nothing)
        } else if s.fence_signaled[s.frame as int] {
            (FrameState { stage: Stage::Acquiring, ..s }, FrameAction::Acquire { slot: s.frame as usize })
        } else {
            (
                FrameState { stage: Stage::WaitingFrameFence, ..s },
                FrameAction::WaitFence { slot: s.frame as usize },
            )
        },
        FrameEvent::FenceWaited { result } => match s.stage {
            Stage::WaitingFrameFence => if status_of(result) == VkStatus::Success {
                (
                    FrameState {
                        fence_signaled: s.fence_signaled.update(s.frame as int, true),
                        stage: Stage::Acquiring,
                        ..s
                    },
                    FrameAction::Acquire { slot: s.frame as usize },
                )
            } else {
                fail_with(s, fatal_error(result))
            },
            Stage::WaitingImageFence { image } => if status_of(result) == VkStatus::Success {
                let g = s.images_in_flight[image as int]->0;
                claim_image(
                    FrameState { fence_signaled: s.fence_signaled.update(g as int, true), ..s },
                    image,
                )
            } else {
                fail_with(s, fatal_error(result))
            },
            _ => refuse(s),
        },
        FrameEvent::Acquired { result, image } => if s.stage != Stage::Acquiring {
            refuse(s)
        } else {
            let st = status_of(result);
            if st == VkStatus::OutOfDate {
                start_recreation(s)
            } else if st == VkStatus::Success || st == VkStatus::Suboptimal {
                if image >= s.images_in_flight.len() {
                    fail_with(s, FrameError::InvalidImageIndex { image })
                } else {
                    after_acquire(
                        FrameState { recreate_pending: st == VkStatus::Suboptimal, ..s },
                        image as usize,
                    )
                }
            } else {
                fail_with(s, fatal_error(result))
            }
        },
        FrameEvent::Submitted { result } => match s.stage {
            Stage::Submitting { image } => {
                let s1 = FrameState {
                    fence_signaled: s.fence_signaled.update(s.frame as int, false),
                    ..s
                };
                if status_of(result) == VkStatus::Success {
                    (
                        FrameState { stage: Stage::Presenting { image }, ..s1 },
                        FrameAction::Present { image, slot: s.frame as usize },
                    )
                } else {
                    fail_with(s1, fatal_error(result))
                }
            },
            _ => refuse(s),
        },
        FrameEvent::Presented { result } => match s.stage {
            Stage::Presenting { image } => {
                let st = status_of(result);
                if st == VkStatus::Success || st == VkStatus::Suboptimal || st
                    == VkStatus::OutOfDate {
                    let s1 = FrameState { frame: (s.frame + 1) % s.max_frames, ..s };
                    if s.resized || s.recreate_pending || st != VkStatus::Success {
                        start_recreation(s1)
                    } else {
                        (FrameState { stage: Stage::Idle, ..s1 }, FrameAction::Nothing)
                    }
                } else {
                    fail_with(s, fatal_error(result))
                }
            },
            _ => refuse(s),
        },
        FrameEvent::Recreated { image_count } => if s.stage != Stage::Recreating {
            refuse(s)
        } else {
            (
                FrameState {
                    fence_signaled: Seq::new(s.max_frames, |i: int| true),
                    images_in_flight: Seq::new(image_count as nat, |i: int| None),
                    stage: Stage::Idle,
                    ..s
                },
                FrameAction::Nothing,
            )
        },
    }
}

/// Every transition keeps the state consistent.
pub proof fn lemma_step_wf(s: FrameState, e: FrameEvent)
    requires
        state_wf(s),
    ensures
        state_wf(step_spec(s, e).0),
        step_spec(s, e).0.max_frames == s.max_frames,
{
    let r = step_spec(s, e).0;
    match e {
        FrameEvent::FenceWaited { result } => {
            match s.stage {
                Stage::WaitingImageFence { image } => {
                    if status_of(result) == VkStatus::Success {
                        assert forall|i: int| 0 <= i < r.images_in_flight.len() implies match #[trigger] r.images_in_flight[i] {
                            Some(g) => g < r.max_frames,
                            None => true,
                        } by {
                            if i != image as int {
                                assert(r.images_in_flight[i] == s.images_in_flight[i]);
                            }
                        }
                    }
                },
                _ => {},
            }
        },
        FrameEvent::Acquired { result, image } => {
            if s.stage == Stage::Acquiring && image < s.images_in_flight.len() {
                assert forall|i: int| 0 <= i < r.images_in_flight.len() implies match #[trigger] r.images_in_flight[i] {
                    Some(g) => g < r.max_frames,
                    None => true,
                } by {
                    if i != image as int {
                        assert(r.images_in_flight[i] == s.images_in_flight[i]);
                    }
                }
            }
        },
        FrameEvent::Presented { result } => {
            if s.stage is Presenting {
                assert((s.frame + 1) % s.max_frames < s.max_frames);
            }
        },
        _ => {},
    }
}

/// The machine's state as plain fields, without its invariant.
struct Core {
    max_frames: usize,
    frame: usize,
    fence_signaled: Vec<bool>,
    images_in_flight: Vec<Option<usize>>,
    window: Extent2D,
    resized: bool,
    recreate_pending: bool,
    stage: Stage,
}

impl View for Core {
    type V = FrameState;

    closed spec fn view(&self) -> FrameState {
        FrameState {
            max_frames: self.max_frames as nat,
            frame: self.frame as nat,
            fence_signaled: self.fence_signaled@,
            images_in_flight: self.images_in_flight@,
            window: self.window,
            resized: self.resized,
            recreate_pending: self.recreate_pending,
            stage: self.stage,
        }
    }
}

fn filled_bools(n: usize, v: bool) -> (r: Vec<bool>)
    ensures
        r@ == Seq::new(n as nat, |i: int| v),
{
    let mut out: Vec<bool> = Vec::new();
    let mut i: usize = 0;
    while i < n
        invariant
            i <= n,
            out@ == Seq::new(i as nat, |k: int| v),
        decreases n - i,
    {
        out.push(v);
        i += 1;
        assert(out@ =~= Seq::new(i as nat, |k: int| v));
    }
    out
}

fn empty_slots(n: usize) -> (r: Vec<Option<usize>>)
    ensures
        r@ == Seq::new(n as nat, |i: int| None::<usize>),
{
    let mut out: Vec<Option<usize>> = Vec::new();
    let mut i: usize = 0;
    while i < n
        invariant
            i <= n,
            out@ == Seq::new(i as nat, |k: int| None::<usize>),
        decreases n - i,
    {
        out.push(None);
        i += 1;
        assert(out@ =~= Seq::new(i as nat, |k: int| None::<usize>));
    }
    out
}

impl Core {
    fn copy(&self) -> (r: Core)
        ensures
            r@ == self@,
    {
        Core {
            max_frames: self.max_frames,
            frame: self.frame,
            fence_signaled: self.fence_signaled.clone(),
            images_in_flight: self.images_in_flight.clone(),
            window: self.window,
            resized: self.resized,
            recreate_pending: self.recreate_pending,
            stage: self.stage,
        }
    }

    fn fail_with(&mut self, err: FrameError) -> (a: FrameAction)
        ensures
            (final(self)@, a) == fail_with(old(self)@, err),
    {
        self.stage = Stage::Idle;
        FrameAction::Fail { error: err }
    }

    fn start_recreation(&mut self) -> (a: FrameAction)
        ensures
            (final(self)@, a) == start_recreation(old(self)@),
    {
        self.recreate_pending = false;
        if self.window.width > 0 && self.window.height > 0 {
            self.stage = Stage::Recreating;
            self.resized = false;
            FrameAction::Recreate
        } else {
            self.stage = Stage::Idle;
            self.resized = true;
            FrameAction::Nothing
        }
    }

    fn claim_image(&mut self, image: usize) -> (a: FrameAction)
        requires
            image < old(self).images_in_flight@.len(),
        ensures
            (final(self)@, a) == claim_image(old(self)@, image),
    {
        self.images_in_flight.set(image, Some(self.frame));
        self.stage = Stage::Submitting { image };
        FrameAction::Submit { image, slot: self.frame }
    }

    fn after_acquire(&mut self, image: usize) -> (a: FrameAction)
        requires
            image < old(self).images_in_flight@.len(),
            state_wf(old(self)@),
        ensures
            (final(self)@, a) == after_acquire(old(self)@, image),
    {
        match self.images_in_flight[image] {
            Some(g) => {
                if !self.fence_signaled[g] {
                    self.stage = Stage::WaitingImageFence { image };
                    FrameAction::WaitFence { slot: g }
                } else {
                    self.claim_image(image)
                }
            },
            None => self.claim_image(image),
        }
    }

    fn step(&mut self, e: FrameEvent) -> (a: FrameAction)
        requires
            state_wf(old(self)@),
        ensures
            (final(self)@, a) == step_spec(old(self)@, e),
    {
        match e {
            FrameEvent::Resized { width, height } => {
                self.window = Extent2D { width, height };
                self.resized = true;
                FrameAction::Nothing
            },
            FrameEvent::RedrawRequested => {
                if self.stage != Stage::Idle {
                    FrameAction::Fail { error: FrameError::UnexpectedEvent }
                } else if self.window.width == 0 || self.window.height == 0 {
                    FrameAction::Nothing
                } else if self.fence_signaled[self.frame] {
                    self.stage = Stage::Acquiring;
                    FrameAction::Acquire { slot: self.frame }
                } else {
                    self.stage = Stage::WaitingFrameFence;
                    FrameAction::WaitFence { slot: self.frame }
                }
            },
            FrameEvent::FenceWaited { result } => match self.stage {
                Stage::WaitingFrameFence => {
                    if classify(result) == VkStatus::Success {
                        self.fence_signaled.set(self.frame, true);
                        self.stage = Stage::Acquiring;
                        FrameAction::Acquire { slot: self.frame }
                    } else {
                        self.fail_with(fatal(result))
                    }
                },
                Stage::WaitingImageFence { image } => {
                    if classify(result) == VkStatus::Success {
                        match self.images_in_flight[image] {
                            Some(g) => {
                                self.fence_signaled.set(g, true);
                                self.claim_image(image)
                            },
                            None => FrameAction::Fail { error: FrameError::UnexpectedEvent },
                        }
                    } else {
                        self.fail_with(fatal(result))
                    }
                },
                _ => FrameAction::Fail { error: FrameError::UnexpectedEvent },
            },
            FrameEvent::Acquired { result, image } => {
                if self.stage != Stage::Acquiring {
                    return FrameAction::Fail { error: FrameError::UnexpectedEvent };
                }
                let st = classify(result);
                if st == VkStatus::OutOfDate {
                    self.start_recreation()
                } else if st == VkStatus::Success || st == VkStatus::Suboptimal {
                    if image as usize >= self.images_in_flight.len() {
                        self.fail_with(FrameError::InvalidImageIndex { image })
                    } else {
                        self.recreate_pending = st == VkStatus::Suboptimal;
                        self.after_acquire(image as usize)
                    }
                } else {
                    self.fail_with(fatal(result))
                }
            },
            FrameEvent::Submitted { result } => match self.stage {
                Stage::Submitting { image } => {
                    self.fence_signaled.set(self.frame, false);
                    if classify(result) == VkStatus::Success {
                        self.stage = Stage::Presenting { image };
                        FrameAction::Present { image, slot: self.frame }
                    } else {
                        self.fail_with(fatal(result))
                    }
                },
                _ => FrameAction::Fail { error: FrameError::UnexpectedEvent },
            },
            FrameEvent::Presented { result } => match self.stage {
                Stage::Presenting { image } => {
                    let st = classify(result);
                    if st == VkStatus::Success || st == VkStatus::Suboptimal || st
                        == VkStatus::OutOfDate {
                        self.frame = (self.frame + 1) % self.max_frames;
                        if self.resized || self.recreate_pending || st != VkStatus::Success {
                            self.start_recreation()
                        } else {
                            self.stage = Stage::Idle;
                            FrameAction::Nothing
                        }
                    } else {
                        self.fail_with(fatal(result))
                    }
                },
                _ => FrameAction::Fail { error: FrameError::UnexpectedEvent },
            },
            FrameEvent::Recreated { image_count } => {
                if self.stage != Stage::Recreating {
                    return FrameAction::Fail { error: FrameError::UnexpectedEvent };
                }
                self.fence_signaled = filled_bools(self.max_frames, true);
                self.images_in_flight = empty_slots(image_count);
                self.stage = Stage::Idle;
                FrameAction::Nothing
            },
        }
    }
}

/// The frame synchroniser: frame slots, the image-in-flight table and the
/// stage of the current frame.
pub struct FrameSync {
    core: Core,
}

impl View for FrameSync {
    type V = FrameState;

    closed spec fn view(&self) -> FrameState {
        self.core@
    }
}

impl FrameSync {
    #[verifier::type_invariant]
    spec fn inv(&self) -> bool {
        state_wf(self.core@)
    }

    /// A synchroniser with `max_frames` slots, whose fences start signalled,
    /// for a swapchain of `image_count` images that no frame uses yet, in a
    /// window of size `window`.
    pub fn new(max_frames: usize, image_count: usize, window: Extent2D) -> (r: FrameSync)
        requires
            max_frames >= 1,
        ensures
            r@ == initial_state(max_frames as nat, image_count as nat, window),
    {
        let core = Core {
            max_frames,
            frame: 0,
            fence_signaled: filled_bools(max_frames, true),
            images_in_flight: empty_slots(image_count),
            window,
            resized: false,
            recreate_pending: false,
            stage: Stage::Idle,
        };
        FrameSync { core }
    }

    /// The current frame slot.
    pub fn frame(&self) -> (r: usize)
        ensures
            r == self@.frame,
    {
        self.core.frame
    }

    /// The number of frame slots.
    pub fn max_frames(&self) -> (r: usize)
        ensures
            r == self@.max_frames,
    {
        self.core.max_frames
    }

    /// The number of swapchain images the image-in-flight table covers.
    pub fn image_count(&self) -> (r: usize)
        ensures
            r == self@.images_in_flight.len(),
    {
        self.core.images_in_flight.len()
    }

    /// The slot whose fence guards the last use of `image`; `None` when no
    /// frame used it yet, or when there is no such image.
    pub fn image_in_flight(&self, image: usize) -> (r: Option<usize>)
        ensures
            image < self@.images_in_flight.len() ==> r == self@.images_in_flight[image as int],
            image >= self@.images_in_flight.len() ==> r is None,
    {
        if image < self.core.images_in_flight.len() {
            self.core.images_in_flight[image]
        } else {
            None
        }
    }

    /// Whether the host knows the fence of `slot` to be signalled (`false`
    /// for a slot that does not exist).
    pub fn fence_known_signaled(&self, slot: usize) -> (r: bool)
        ensures
            r == (slot < self@.fence_signaled.len() && self@.fence_signaled[slot as int]),
    {
        slot < self.core.fence_signaled.len() && self.core.fence_signaled[slot]
    }

    /// The window's drawable size as last reported.
    pub fn window(&self) -> (r: Extent2D)
        ensures
            r == self@.window,
    {
        self.core.window
    }

    /// Whether rendering is suspended because the window has no area.
    pub fn is_suspended(&self) -> (r: bool)
        ensures
            r == !has_area(self@.window),
    {
        self.core.window.width == 0 || self.core.window.height == 0
    }

    /// Whether a resize was reported since the last recreation.
    pub fn resize_pending(&self) -> (r: bool)
        ensures
            r == self@.resized,
    {
        self.core.resized
    }

    /// Where the machine is within a frame.
    pub fn stage(&self) -> (r: Stage)
        ensures
            r == self@.stage,
    {
        self.core.stage
    }

    /// Takes in what happened and answers with the next operation.
    pub fn step(&mut self, e: FrameEvent) -> (a: FrameAction)
        ensures
            final(self)@ == step_spec(old(self)@, e).0,
            a == step_spec(old(self)@, e).1,
    {
        proof {
            use_type_invariant(&*self);
            lemma_step_wf(self@, e);
        }
        let mut core = self.core.copy();
        let a = core.step(e);
        self.core = core;
        a
    }
}


/// The state after the machine, started in `s`, has taken `events` in order.
pub open spec fn state_after(s: FrameState, events: Seq<FrameEvent>) -> FrameState
    decreases events.len(),
{
    if events.len() == 0 {
        s
    } else {
        step_spec(state_after(s, events.drop_last()), events.last()).0
    }
}

/// The action answered to the `k`-th of `events`.
pub open spec fn action_at(s: FrameState, events: Seq<FrameEvent>, k: int) -> FrameAction {
    step_spec(state_after(s, events.take(k)), events[k]).1
}

/// The action asks the window loop to acquire, submit, present or recreate.
pub open spec fn drives_gpu(a: FrameAction) -> bool {
    a is Acquire || a is Submit || a is Present || a is Recreate
}

pub open spec fn is_resize_with_area(e: FrameEvent) -> bool {
    match e {
        FrameEvent::Resized { width, height } => width > 0 && height > 0,
        _ => false,
    }
}

pub proof fn lemma_state_after_wf(s: FrameState, events: Seq<FrameEvent>)
    requires
        state_wf(s),
    ensures
        state_wf(state_after(s, events)),
        state_after(s, events).max_frames == s.max_frames,
    decreases events.len(),
{
    if events.len() > 0 {
        lemma_state_after_wf(s, events.drop_last());
        lemma_step_wf(state_after(s, events.drop_last()), events.last());
    }
}

proof fn lemma_take_drop_last(events: Seq<FrameEvent>, k: int)
    requires
        0 <= k < events.len(),
    ensures
        events.take(k + 1).drop_last() == events.take(k),
        events.take(k + 1).last() == events[k],
{
    assert(events.take(k + 1).drop_last() =~= events.take(k));
}

/// A minimised window suspends rendering: from a state between frames whose
/// window has no area, as long as no resize gives the window an area again,
/// the machine asks for no acquire, submit, present or recreation, and stays
/// between frames with a window without area.
pub proof fn lemma_minimized_suspends(s: FrameState, events: Seq<FrameEvent>)
    requires
        state_wf(s),
        s.stage == Stage::Idle,
        !has_area(s.window),
        forall|k: int| 0 <= k < events.len() ==> !is_resize_with_area(#[trigger] events[k]),
    ensures
        forall|k: int| 0 <= k < events.len() ==> !drives_gpu(#[trigger] action_at(s, events, k)),
        state_after(s, events).stage == Stage::Idle,
        !has_area(state_after(s, events).window),
    decreases events.len(),
{
    if events.len() > 0 {
        let prefix = events.drop_last();
        lemma_minimized_suspends(s, prefix);
        assert forall|k: int| 0 <= k < events.len() implies !drives_gpu(#[trigger] action_at(s, events, k)) by {
            if k < events.len() - 1 {
                assert(events.take(k) =~= prefix.take(k));
                assert(action_at(s, events, k) == action_at(s, prefix, k));
            } else {
                assert(events.take(k) =~= prefix);
                assert(!is_resize_with_area(events[k]));
            }
        }
        assert(!is_resize_with_area(events.last()));
    }
}

/// A run of resize events that ends with the same size leaves the same
/// state, whatever the sizes in between: the window has the final size and a
/// recreation is due, so the next swapchain generation is planned from that
/// size alone, with the extent and image count the surface's capabilities
/// give for it.
pub proof fn lemma_resize_churn(
    s: FrameState,
    a: Seq<FrameEvent>,
    b: Seq<FrameEvent>,
    caps: SurfaceCapabilities,
    formats: Seq<SurfaceFormat>,
    modes: Seq<i32>,
)
    requires
        a.len() > 0,
        b.len() > 0,
        forall|k: int| 0 <= k < a.len() ==> (#[trigger] a[k]) is Resized,
        forall|k: int| 0 <= k < b.len() ==> (#[trigger] b[k]) is Resized,
        a.last() == b.last(),
    ensures
        state_after(s, a) == state_after(s, b),
        state_after(s, a).window == (Extent2D {
            width: a.last()->Resized_width,
            height: a.last()->Resized_height,
        }),
        state_after(s, a).resized,
        plan_of(caps, formats, modes, state_after(s, a).window) == plan_of(
            caps,
            formats,
            modes,
            state_after(s, b).window,
        ),
        plan_of(caps, formats, modes, state_after(s, a).window) is Ok ==> {
            let p = plan_of(caps, formats, modes, state_after(s, a).window)->Ok_0;
            &&& p.extent == extent_choice(caps, state_after(s, a).window)
            &&& p.image_count == image_count_choice(caps)
        },
{
    lemma_resizes_only(s, a);
    lemma_resizes_only(s, b);
}

proof fn lemma_resizes_only(s: FrameState, events: Seq<FrameEvent>)
    requires
        events.len() > 0,
        forall|k: int| 0 <= k < events.len() ==> (#[trigger] events[k]) is Resized,
    ensures
        state_after(s, events) == (FrameState {
            window: Extent2D {
                width: events.last()->Resized_width,
                height: events.last()->Resized_height,
            },
            resized: true,
            ..s
        }),
    decreases events.len(),
{
    assert(events.last() is Resized);
    if events.len() > 1 {
        let prefix = events.drop_last();
        assert forall|k: int| 0 <= k < prefix.len() implies (#[trigger] prefix[k]) is Resized by {
            assert(prefix[k] == events[k]);
        }
        lemma_resizes_only(s, prefix);
    } else {
        assert(events.drop_last().len() == 0);
    }
}


/// Taking `e` in state `t` shows the host that the fence of slot `f` is
/// signalled: a successful wait on that fence, or the end of a recreation,
/// which waits for the whole device to go idle.
pub open spec fn observes_fence(t: FrameState, e: FrameEvent, f: nat) -> bool {
    match e {
        FrameEvent::FenceWaited { result } => status_of(result) == VkStatus::Success && match t.stage {
            Stage::WaitingFrameFence => t.frame == f,
            Stage::WaitingImageFence { image } => t.images_in_flight[image as int] == Some(
                f as usize,
            ),
            _ => false,
        },
        FrameEvent::Recreated { image_count } => t.stage == Stage::Recreating,
        _ => false,
    }
}

/// The commands of slot `f` were handed over and its fence not yet seen
/// signalled again, or they are about to be.
pub open spec fn slot_busy(t: FrameState, f: nat) -> bool {
    (t.stage is Submitting && t.frame == f) || !t.fence_signaled[f as int]
}

/// The fence transitions of one step: a submission happens only from a
/// slot whose fence is known signalled; a slot's fence becomes known
/// signalled only by observing it; a pending submission ends with its fence
/// unsignalled.
pub proof fn lemma_fence_step(t: FrameState, e: FrameEvent, f: nat)
    requires
        state_wf(t),
        f < t.max_frames,
    ensures
        step_spec(t, e).1 is Submit ==> {
            &&& step_spec(t, e).1->Submit_slot == t.frame
            &&& t.fence_signaled[t.frame as int]
            &&& !(t.stage is Submitting)
            &&& step_spec(t, e).0.stage is Submitting
            &&& step_spec(t, e).0.frame == t.frame
        },
        !t.fence_signaled[f as int] && step_spec(t, e).0.fence_signaled[f as int] ==> observes_fence(
            t,
            e,
            f,
        ),
        slot_busy(t, f) && !observes_fence(t, e, f) ==> slot_busy(step_spec(t, e).0, f),
        step_spec(t, e).0.max_frames == t.max_frames,
{
}

proof fn lemma_busy_until_observed(s: FrameState, events: Seq<FrameEvent>, i: int, m: int, f: nat)
    requires
        state_wf(s),
        0 <= i < m <= events.len(),
        f < s.max_frames,
        action_at(s, events, i) is Submit,
        action_at(s, events, i)->Submit_slot == f,
        forall|k: int|
            i < k < m ==> !observes_fence(state_after(s, events.take(k)), #[trigger] events[k], f),
    ensures
        slot_busy(state_after(s, events.take(m)), f),
        state_after(s, events.take(m)).max_frames == s.max_frames,
    decreases m - i,
{
    lemma_take_drop_last(events, m - 1);
    lemma_state_after_wf(s, events.take(m - 1));
    let t = state_after(s, events.take(m - 1));
    if m == i + 1 {
        lemma_fence_step(t, events[i], f);
    } else {
        lemma_busy_until_observed(s, events, i, m - 1, f);
        lemma_fence_step(t, events[m - 1], f);
    }
}

/// Fence before submit: whenever the machine asks twice to submit the
/// commands of the same frame slot, the host observed that slot's fence
/// signalled in between, so the slot's resources are never reused while the
/// GPU may still read them.
pub proof fn lemma_fence_before_resubmit(s: FrameState, events: Seq<FrameEvent>, i: int, j: int)
    requires
        state_wf(s),
        0 <= i < j < events.len(),
        action_at(s, events, i) is Submit,
        action_at(s, events, j) is Submit,
        action_at(s, events, i)->Submit_slot == action_at(s, events, j)->Submit_slot,
    ensures
        exists|k: int|
            i < k < j && observes_fence(
                state_after(s, events.take(k)),
                #[trigger] events[k],
                action_at(s, events, i)->Submit_slot as nat,
            ),
{
    let f = action_at(s, events, i)->Submit_slot as nat;
    lemma_state_after_wf(s, events.take(i));
    lemma_state_after_wf(s, events.take(j));
    lemma_fence_step(state_after(s, events.take(i)), events[i], 0);
    if !exists|k: int|
        i < k < j && observes_fence(state_after(s, events.take(k)), #[trigger] events[k], f) {
        lemma_busy_until_observed(s, events, i, j, f);
        lemma_fence_step(state_after(s, events.take(j)), events[j], 0);
    }
}

/// A fresh synchroniser is consistent, so every law above holds of the runs
/// that start from it.
pub proof fn lemma_initial_wf(max_frames: nat, image_count: nat, window: Extent2D)
    requires
        1 <= max_frames <= usize::MAX,
    ensures
        state_wf(initial_state(max_frames, image_count, window)),
{
}

/// The state of a fresh synchroniser.
pub open spec fn initial_state(max_frames: nat, image_count: nat, window: Extent2D) -> FrameState {
    FrameState {
        max_frames,
        frame: 0,
        fence_signaled: Seq::new(max_frames, |i: int| true),
        images_in_flight: Seq::new(image_count, |i: int| None),
        window,
        resized: false,
        recreate_pending: false,
        stage: Stage::Idle,
    }
}

} // verus!
