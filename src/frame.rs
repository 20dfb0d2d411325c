use vstd::prelude::*;
use crate::negotiate::{EnvironmentBlendMode, OxrGraphicsInfo, Resolution};

verus! {

/// The runtime's prediction for one frame.
#[derive(Clone, Copy, Debug, PartialEq, Eq, Structural)]
pub struct OxrFrameState {
    /// When the frame is predicted to be displayed, in nanoseconds.
    pub predicted_display_time: i64,
    /// The predicted time between displayed frames, in nanoseconds.
    pub predicted_display_period: i64,
    /// Whether the application should render this frame.
    pub should_render: bool,
}

/// Where the frame cycle stands.
#[derive(Clone, Copy, Debug, PartialEq, Eq, Structural)]
pub enum FramePhase {
    /// Between frames: the next frame state has to be received.
    Waiting,
    /// A frame state has been received; views may be located.
    Received { should_render: bool },
    /// The frame stream has begun the frame.
    Begun { should_render: bool },
    /// A swapchain image has been acquired.
    Acquired,
    /// The acquired image is ready to be rendered to.
    ImageReady,
    /// The image has been handed back to the swapchain.
    Released,
}

/// The calls of the per-frame protocol.
#[derive(Clone, Copy, Debug, PartialEq, Eq, Structural)]
pub enum FrameCall {
    Receive { should_render: bool },
    Locate,
    Begin,
    Acquire,
    WaitImage,
    Release,
    End,
}

/// Why a frame call was refused.
#[derive(Clone, Copy, Debug, PartialEq, Eq, Structural)]
pub enum FrameError {
    /// The call does not follow the protocol from the current phase.
    OutOfOrder,
    /// The runtime handed out an image index outside the swapchain.
    ImageIndexOutOfRange,
}

/// The phase that `call` leads to from `phase`, or `None` where the protocol forbids it.
pub open spec fn step(phase: FramePhase, call: FrameCall) -> Option<FramePhase> {
    match call {
        FrameCall::Receive { should_render } => if phase is Waiting {
            Some(FramePhase::Received { should_render })
        } else {
            None
        },
        FrameCall::Locate => if phase is Received {
            Some(phase)
        } else {
            None
        },
        FrameCall::Begin => match phase {
            FramePhase::Received { should_render } => Some(FramePhase::Begun { should_render }),
            _ => None,
        },
        FrameCall::Acquire => if phase == (FramePhase::Begun { should_render: true }) {
            Some(FramePhase::Acquired)
        } else {
            None
        },
        FrameCall::WaitImage => if phase is Acquired {
            Some(FramePhase::ImageReady)
        } else {
            None
        },
        FrameCall::Release => if phase is ImageReady {
            Some(FramePhase::Released)
        } else {
            None
        },
        FrameCall::End => if phase == (FramePhase::Begun { should_render: false }) || phase
            is Released {
            Some(FramePhase::Waiting)
        } else {
            None
        },
    }
}

/// The pool of images that frames are rendered into, with the cursor of the current image.
#[derive(Clone, Copy, Debug, PartialEq, Eq, Structural)]
pub struct Swapchain {
    /// Identifies the runtime's swapchain object.
    pub id: u64,
    /// How many images the pool holds.
    pub buffer_count: u32,
    /// The image most recently acquired.
    pub image_index: u32,
}

impl Swapchain {
    pub open spec fn wf(&self) -> bool {
        self.image_index < self.buffer_count
    }

    /// A swapchain of `buffer_count` images whose cursor starts at the first.
    pub fn new(id: u64, buffer_count: u32) -> (r: Self)
        requires
            buffer_count > 0,
        ensures
            r.wf(),
            r.id == id,
            r.buffer_count == buffer_count,
            r.image_index == 0,
    {
        Swapchain { id, buffer_count, image_index: 0 }
    }
}

/// One projection layer: an image of the swapchain with one view per eye.
#[derive(Clone, Copy, Debug, PartialEq, Eq, Structural)]
pub struct ProjectionLayer {
    pub image_index: u32,
    pub view_count: usize,
    pub resolution: Resolution,
}

/// What end-frame submits.
pub struct FrameSubmission {
    pub display_time: i64,
    pub blend_mode: EnvironmentBlendMode,
    pub layers: Vec<ProjectionLayer>,
}

/// The frame-cycle state owned by the render context.
pub struct FrameCycle {
    pub swapchain: Swapchain,
    pub graphics_info: OxrGraphicsInfo,
    pub phase: FramePhase,
    pub frame_state: Option<OxrFrameState>,
    /// How many views the last successful locate produced.
    pub view_count: usize,
}

/// Whether the phase carries the given should-render flag of the received frame.
pub open spec fn phase_agrees(phase: FramePhase, frame: Option<OxrFrameState>) -> bool {
    match phase {
        FramePhase::Waiting => frame is None,
        FramePhase::Received { should_render } => frame is Some && frame->0.should_render
            == should_render,
        FramePhase::Begun { should_render } => frame is Some && frame->0.should_render
            == should_render,
        _ => frame is Some && frame->0.should_render,
    }
}

/// The layers that end-frame submits from `phase`: one stereo projection layer after a
/// rendered frame with at least two located views (the first two are
/// submitted, one per eye), none otherwise.
pub open spec fn layer_count(phase: FramePhase, view_count: usize) -> nat {
    if phase is Released && view_count >= 2 {
        1
    } else {
        0
    }
}

impl FrameCycle {
    pub open spec fn wf(&self) -> bool {
        &&& self.swapchain.wf()
        &&& phase_agrees(self.phase, self.frame_state)
    }

    /// A cycle waiting for its first frame.
    pub fn new(swapchain: Swapchain, graphics_info: OxrGraphicsInfo) -> (r: Self)
        requires
            swapchain.wf(),
        ensures
            r.wf(),
            r.phase == FramePhase::Waiting,
            r.swapchain == swapchain,
            r.graphics_info == graphics_info,
            r.view_count == 0,
    {
        FrameCycle {
            swapchain,
            graphics_info,
            phase: FramePhase::Waiting,
            frame_state: None,
            view_count: 0,
        }
    }

    /// Takes the frame state that the wait step published.
    pub fn receive_frame(&mut self, state: OxrFrameState) -> (r: Result<(), FrameError>)
        requires
            old(self).wf(),
        ensures
            final(self).wf(),
            final(self).swapchain == old(self).swapchain,
            final(self).graphics_info == old(self).graphics_info,
            final(self).view_count == old(self).view_count,
            match step(old(self).phase, FrameCall::Receive { should_render: state.should_render }) {
                Some(p) => r is Ok && final(self).phase == p && final(self).frame_state == Some(
                    state,
                ),
                None => r == Err::<(), FrameError>(FrameError::OutOfOrder) && *final(self) == *old(
                    self,
                ),
            },
    {
        match self.phase {
            FramePhase::Waiting => {
                self.phase = FramePhase::Received { should_render: state.should_render };
                self.frame_state = Some(state);
                Ok(())
            },
            _ => Err(FrameError::OutOfOrder),
        }
    }

    /// Records the outcome of locating the views for the received frame: `Some(n)` when `n`
    /// views were located, `None` when locating failed and the prior views stay.
    pub fn locate_views(&mut self, located: Option<usize>) -> (r: Result<(), FrameError>)
        requires
            old(self).wf(),
        ensures
            final(self).wf(),
            final(self).swapchain == old(self).swapchain,
            final(self).graphics_info == old(self).graphics_info,
            final(self).frame_state == old(self).frame_state,
            final(self).phase == old(self).phase,
            match step(old(self).phase, FrameCall::Locate) {
                Some(_) => r is Ok && final(self).view_count == match located {
                    Some(n) => n,
                    None => old(self).view_count,
                },
                None => r == Err::<(), FrameError>(FrameError::OutOfOrder) && *final(self) == *old(
                    self,
                ),
            },
    {
        match self.phase {
            FramePhase::Received { .. } => {
                match located {
                    Some(n) => {
                        self.view_count = n;
                    },
                    None => {},
                }
                Ok(())
            },
            _ => Err(FrameError::OutOfOrder),
        }
    }

    /// Marks the frame stream as started for the received frame.
    pub fn begin_frame(&mut self) -> (r: Result<(), FrameError>)
        requires
            old(self).wf(),
        ensures
            final(self).wf(),
            final(self).swapchain == old(self).swapchain,
            final(self).graphics_info == old(self).graphics_info,
            final(self).frame_state == old(self).frame_state,
            final(self).view_count == old(self).view_count,
            match step(old(self).phase, FrameCall::Begin) {
                Some(p) => r is Ok && final(self).phase == p,
                None => r == Err::<(), FrameError>(FrameError::OutOfOrder) && *final(self) == *old(
                    self,
                ),
            },
    {
        match self.phase {
            FramePhase::Received { should_render } => {
                self.phase = FramePhase::Begun { should_render };
                Ok(())
            },
            _ => Err(FrameError::OutOfOrder),
        }
    }

    /// Records the image index that the runtime handed out on acquire.
    pub fn acquire_image(&mut self, index: u32) -> (r: Result<(), FrameError>)
        requires
            old(self).wf(),
        ensures
            final(self).wf(),
            final(self).graphics_info == old(self).graphics_info,
            final(self).frame_state == old(self).frame_state,
            final(self).view_count == old(self).view_count,
            final(self).swapchain.id == old(self).swapchain.id,
            final(self).swapchain.buffer_count == old(self).swapchain.buffer_count,
            match step(old(self).phase, FrameCall::Acquire) {
                Some(p) => if index < old(self).swapchain.buffer_count {
                    r is Ok && final(self).phase == p && final(self).swapchain.image_index == index
                } else {
                    r == Err::<(), FrameError>(FrameError::ImageIndexOutOfRange) && *final(self)
                        == *old(self)
                },
                None => r == Err::<(), FrameError>(FrameError::OutOfOrder) && *final(self) == *old(
                    self,
                ),
            },
    {
        match self.phase {
            FramePhase::Begun { should_render: true } => {
                if index < self.swapchain.buffer_count {
                    self.swapchain.image_index = index;
                    self.phase = FramePhase::Acquired;
                    Ok(())
                } else {
                    Err(FrameError::ImageIndexOutOfRange)
                }
            },
            _ => Err(FrameError::OutOfOrder),
        }
    }

    /// Records that the acquired image is ready for rendering.
    pub fn wait_image(&mut self) -> (r: Result<(), FrameError>)
        requires
            old(self).wf(),
        ensures
            final(self).wf(),
            final(self).swapchain == old(self).swapchain,
            final(self).graphics_info == old(self).graphics_info,
            final(self).frame_state == old(self).frame_state,
            final(self).view_count == old(self).view_count,
            match step(old(self).phase, FrameCall::WaitImage) {
                Some(p) => r is Ok && final(self).phase == p,
                None => r == Err::<(), FrameError>(FrameError::OutOfOrder) && *final(self) == *old(
                    self,
                ),
            },
    {
        match self.phase {
            FramePhase::Acquired => {
                self.phase = FramePhase::ImageReady;
                Ok(())
            },
            _ => Err(FrameError::OutOfOrder),
        }
    }

    /// Records that the rendered image went back to the swapchain.
    pub fn release_image(&mut self) -> (r: Result<(), FrameError>)
        requires
            old(self).wf(),
        ensures
            final(self).wf(),
            final(self).swapchain == old(self).swapchain,
            final(self).graphics_info == old(self).graphics_info,
            final(self).frame_state == old(self).frame_state,
            final(self).view_count == old(self).view_count,
            match step(old(self).phase, FrameCall::Release) {
                Some(p) => r is Ok && final(self).phase == p,
                None => r == Err::<(), FrameError>(FrameError::OutOfOrder) && *final(self) == *old(
                    self,
                ),
            },
    {
        match self.phase {
            FramePhase::ImageReady => {
                self.phase = FramePhase::Released;
                Ok(())
            },
            _ => Err(FrameError::OutOfOrder),
        }
    }

    /// Ends the frame and builds what is submitted: one stereo projection layer after a
    /// rendered frame with at least two located views, and no layer when the frame was not to be
    /// rendered, so that the runtime still sees every frame end. The frame state is stale
    /// afterwards and is dropped.
    pub fn end_frame(&mut self) -> (r: Result<FrameSubmission, FrameError>)
        requires
            old(self).wf(),
        ensures
            final(self).wf(),
            final(self).swapchain == old(self).swapchain,
            final(self).graphics_info == old(self).graphics_info,
            final(self).view_count == old(self).view_count,
            match step(old(self).phase, FrameCall::End) {
                Some(p) => {
                    &&& r is Ok
                    &&& final(self).phase == p
                    &&& final(self).frame_state is None
                    &&& r->Ok_0.display_time == old(self).frame_state->0.predicted_display_time
                    &&& r->Ok_0.blend_mode == old(self).graphics_info.blend_mode
                    &&& r->Ok_0.layers@.len() == layer_count(old(self).phase, old(self).view_count)
                    &&& forall|i: int|
                        0 <= i < r->Ok_0.layers@.len() ==> #[trigger] r->Ok_0.layers@[i] == (
                        ProjectionLayer {
                            image_index: old(self).swapchain.image_index,
                            view_count: 2,
                            resolution: old(self).graphics_info.resolution,
                        })
                },
                None => r is Err && r->Err_0 == FrameError::OutOfOrder && *final(self) == *old(
                    self,
                ),
            },
    {
        let rendered = match self.phase {
            FramePhase::Begun { should_render: false } => false,
            FramePhase::Released => true,
            _ => {
                return Err(FrameError::OutOfOrder);
            },
        };
        let display_time = match self.frame_state {
            Some(f) => f.predicted_display_time,
            None => 0,
        };
        let mut layers: Vec<ProjectionLayer> = Vec::new();
        if rendered && self.view_count >= 2 {
            layers.push(
                ProjectionLayer {
                    image_index: self.swapchain.image_index,
                    view_count: 2,
                    resolution: self.graphics_info.resolution,
                },
            );
        }
        self.phase = FramePhase::Waiting;
        self.frame_state = None;
        Ok(FrameSubmission { display_time, blend_mode: self.graphics_info.blend_mode, layers })
    }
}

/// Whether a frame state is present and asks for rendering.
pub fn should_render(frame_state: Option<OxrFrameState>) -> (r: bool)
    ensures
        r == (frame_state is Some && frame_state->0.should_render),
{
    match frame_state {
        Some(f) => f.should_render,
        None => false,
    }
}

/// How the render context polls for the next frame state: it never blocks, and sleeps
/// `poll_interval_ms` between empty polls; with `max_retries`, it gives up after that many.
#[derive(Clone, Copy, Debug, PartialEq, Eq, Structural)]
pub struct ReceivePolicy {
    pub poll_interval_ms: u64,
    pub max_retries: Option<u32>,
}

/// What one non-blocking poll of the frame-state channel found.
#[derive(Clone, Copy, Debug, PartialEq, Eq, Structural)]
pub enum PollResult {
    Ready(OxrFrameState),
    Empty,
    Disconnected,
}

/// What the render context does after a poll.
#[derive(Clone, Copy, Debug, PartialEq, Eq, Structural)]
pub enum ReceiveAction {
    /// Take this frame state.
    Accept(OxrFrameState),
    /// Sleep this many milliseconds, then poll again.
    SleepAndRetry(u64),
    /// Stop polling this tick.
    GiveUp,
    /// The wait thread is gone: the session cannot go on.
    ChannelClosed,
}

/// Decides what follows the poll numbered `attempt` (counted from zero).
pub fn receive_waited_frame(policy: ReceivePolicy, attempt: u32, polled: PollResult) -> (r:
    ReceiveAction)
    ensures
        r == match polled {
            PollResult::Ready(state) => ReceiveAction::Accept(state),
            PollResult::Disconnected => ReceiveAction::ChannelClosed,
            PollResult::Empty => match policy.max_retries {
                Some(m) => if attempt >= m {
                    ReceiveAction::GiveUp
                } else {
                    ReceiveAction::SleepAndRetry(policy.poll_interval_ms)
                },
                None => ReceiveAction::SleepAndRetry(policy.poll_interval_ms),
            },
        },
{
    match polled {
        PollResult::Ready(state) => ReceiveAction::Accept(state),
        PollResult::Disconnected => ReceiveAction::ChannelClosed,
        PollResult::Empty => match policy.max_retries {
            Some(m) => if attempt >= m {
                ReceiveAction::GiveUp
            } else {
                ReceiveAction::SleepAndRetry(policy.poll_interval_ms)
            },
            None => ReceiveAction::SleepAndRetry(policy.poll_interval_ms),
        },
    }
}

/// The phase after `calls` from `start`, or `None` if the protocol refuses one of them.
#[verifier::opaque]
pub open spec fn run(start: FramePhase, calls: Seq<FrameCall>) -> Option<FramePhase>
    decreases calls.len(),
{
    if calls.len() == 0 {
        Some(start)
    } else {
        match run(start, calls.drop_last()) {
            Some(p) => step(p, calls.last()),
            None => None,
        }
    }
}

pub open spec fn in_frame(p: FramePhase) -> bool {
    p is Begun || p is Acquired || p is ImageReady || p is Released
}

proof fn lemma_prefixes_run(calls: Seq<FrameCall>)
    requires
        run(FramePhase::Waiting, calls) is Some,
    ensures
        forall|i: int|
            0 <= i <= calls.len() ==> #[trigger] run(FramePhase::Waiting, calls.take(i)) is Some,
    decreases calls.len(),
{
    reveal(run);
    assert(calls.take(calls.len() as int) =~= calls);
    if calls.len() > 0 {
        let before = calls.drop_last();
        lemma_prefixes_run(before);
        assert forall|i: int| 0 <= i <= calls.len() implies #[trigger] run(
            FramePhase::Waiting,
            calls.take(i),
        ) is Some by {
            if i < calls.len() {
                assert(before.take(i) =~= calls.take(i));
            }
        }
    }
}

proof fn lemma_run_step(calls: Seq<FrameCall>, i: int)
    requires
        0 <= i < calls.len(),
    ensures
        run(FramePhase::Waiting, calls.take(i + 1)) == match run(
            FramePhase::Waiting,
            calls.take(i),
        ) {
            Some(p) => step(p, calls[i]),
            None => None,
        },
{
    reveal(run);
    assert(calls.take(i + 1).drop_last() =~= calls.take(i));
    assert(calls.take(i + 1).last() == calls[i]);
}

proof fn lemma_stays_in_frame(calls: Seq<FrameCall>, i: int, k: int)
    requires
        run(FramePhase::Waiting, calls) is Some,
        0 <= i < k <= calls.len(),
        calls[i] == FrameCall::Begin,
        forall|m: int| i < m < k ==> calls[m] != FrameCall::End,
    ensures
        in_frame(run(FramePhase::Waiting, calls.take(k))->0),
    decreases k - i,
{
    lemma_prefixes_run(calls);
    lemma_run_step(calls, k - 1);
    assert(run(FramePhase::Waiting, calls.take(k)) is Some);
    assert(run(FramePhase::Waiting, calls.take(k - 1)) is Some);
    if k > i + 1 {
        lemma_stays_in_frame(calls, i, k - 1);
    }
}

proof fn lemma_predecessor(calls: Seq<FrameCall>, i: int)
    requires
        run(FramePhase::Waiting, calls) is Some,
        0 <= i < calls.len(),
    ensures
        run(FramePhase::Waiting, calls.take(i)) is Some,
        step(run(FramePhase::Waiting, calls.take(i))->0, calls[i]) is Some,
        i == 0 ==> run(FramePhase::Waiting, calls.take(i))->0 == FramePhase::Waiting,
        i > 0 ==> run(FramePhase::Waiting, calls.take(i - 1)) is Some && step(
            run(FramePhase::Waiting, calls.take(i - 1))->0,
            calls[i - 1],
        ) == run(FramePhase::Waiting, calls.take(i)),
{
    lemma_prefixes_run(calls);
    lemma_run_step(calls, i);
    assert(run(FramePhase::Waiting, calls.take(i + 1)) is Some);
    if i == 0 {
        assert(calls.take(0) =~= Seq::<FrameCall>::empty());
        reveal(run);
    } else {
        lemma_run_step(calls, i - 1);
        assert(run(FramePhase::Waiting, calls.take(i - 1)) is Some);
    }
}

proof fn lemma_image_calls_in_order(calls: Seq<FrameCall>, i: int)
    requires
        run(FramePhase::Waiting, calls) is Some,
        0 <= i < calls.len(),
    ensures
        calls[i] == FrameCall::Acquire ==> i > 0 && calls[i - 1] == FrameCall::Begin,
        calls[i] == FrameCall::WaitImage ==> i > 0 && calls[i - 1] == FrameCall::Acquire,
        calls[i] == FrameCall::Release ==> i > 0 && calls[i - 1] == FrameCall::WaitImage,
        calls[i] == FrameCall::End ==> i > 0 && (calls[i - 1] == FrameCall::Release || calls[i - 1]
            == FrameCall::Begin),
{
    lemma_predecessor(calls, i);
}

/// Some call strictly between positions `i` and `j` is an end.
pub open spec fn end_between(calls: Seq<FrameCall>, i: int, j: int) -> bool {
    exists|k: int| i < k < j && calls[k] == FrameCall::End
}

proof fn lemma_end_between_begins(calls: Seq<FrameCall>, i: int, j: int)
    requires
        run(FramePhase::Waiting, calls) is Some,
        0 <= i < j < calls.len(),
        calls[i] == FrameCall::Begin,
        calls[j] == FrameCall::Begin,
    ensures
        end_between(calls, i, j),
{
    if !end_between(calls, i, j) {
        lemma_stays_in_frame(calls, i, j);
        lemma_predecessor(calls, j);
    }
}

proof fn lemma_begins_separated(calls: Seq<FrameCall>)
    requires
        run(FramePhase::Waiting, calls) is Some,
    ensures
        forall|i: int, j: int|
            0 <= i < j < calls.len() && #[trigger] calls[i] == FrameCall::Begin && #[trigger] calls[j]
                == FrameCall::Begin ==> end_between(calls, i, j),
{
    assert forall|i: int, j: int|
        0 <= i < j < calls.len() && #[trigger] calls[i] == FrameCall::Begin && #[trigger] calls[j]
            == FrameCall::Begin implies end_between(calls, i, j) by {
        lemma_end_between_begins(calls, i, j);
    }
}

/// In any call sequence that the protocol accepts from between frames: the first call
/// receives a frame state; an image is acquired right after begin, waited on right after it is
/// acquired, and released right after the wait; end comes right after the release or, for a
/// frame that is not rendered, right after begin; and between two begins there is always an
/// end.
pub proof fn lemma_frame_call_order(calls: Seq<FrameCall>)
    requires
        run(FramePhase::Waiting, calls) is Some,
    ensures
        calls.len() > 0 ==> calls[0] is Receive,
        forall|i: int, j: int|
            0 <= i && j == i + 1 && j < calls.len() ==> {
                &&& #[trigger] calls[j] == FrameCall::Acquire ==> #[trigger] calls[i]
                    == FrameCall::Begin
                &&& calls[j] == FrameCall::WaitImage ==> calls[i] == FrameCall::Acquire
                &&& calls[j] == FrameCall::Release ==> calls[i] == FrameCall::WaitImage
                &&& calls[j] == FrameCall::End ==> (calls[i] == FrameCall::Release || calls[i]
                    == FrameCall::Begin)
            },
        forall|i: int, j: int|
            0 <= i < j < calls.len() && #[trigger] calls[i] == FrameCall::Begin && #[trigger] calls[j]
                == FrameCall::Begin ==> end_between(calls, i, j),
{
    if calls.len() > 0 {
        lemma_predecessor(calls, 0);
    }
    assert forall|i: int, j: int| 0 <= i && j == i + 1 && j < calls.len() implies {
        &&& #[trigger] calls[j] == FrameCall::Acquire ==> #[trigger] calls[i] == FrameCall::Begin
        &&& calls[j] == FrameCall::WaitImage ==> calls[i] == FrameCall::Acquire
        &&& calls[j] == FrameCall::Release ==> calls[i] == FrameCall::WaitImage
        &&& calls[j] == FrameCall::End ==> (calls[i] == FrameCall::Release || calls[i]
            == FrameCall::Begin)
    } by {
        lemma_image_calls_in_order(calls, j);
    }
    lemma_begins_separated(calls);
}

} // verus!
