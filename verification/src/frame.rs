//! Frame pacing: the frame state, the frame counter and the deferred destruction of
//! resources at the end of each frame.
use crate::manager::{Resource, ResourceManager, MAX_FRAMES_IN_FLIGHT};
use std::time::{Duration, Instant};
use vstd::prelude::*;

verus! {

#[verifier::external_type_specification]
#[verifier::external_body]
pub struct ExInstant(Instant);

/// Calls `std::time::Instant::now`. The clock decides the result; nothing is promised of it.
#[verifier::external_body]
fn instant_now() -> (now: Instant) {
    Instant::now()
}

/// Calls `Instant::elapsed`: the time since `start`. The clock decides the result;
/// nothing is promised of it.
#[verifier::external_body]
fn elapsed_since(start: &Instant) -> (elapsed: Duration) {
    start.elapsed()
}

/// Calls `Duration::as_millis`: the whole milliseconds of `d`. A duration is opaque
/// here, so nothing is stated of the number.
#[verifier::external_body]
fn whole_millis(d: &Duration) -> (millis: u128) {
    d.as_millis()
}

/// Whether a frame is being recorded, and since when.
pub enum FrameState {
    Running(Instant),
    NotRunning,
}

impl FrameState {
    pub fn is_running(&self) -> (running: bool)
        ensures
            running == (*self is Running),
    {
        match self {
            FrameState::Running(_) => true,
            FrameState::NotRunning => false,
        }
    }
}

/// Counts frames; the frame in flight is the count modulo [`MAX_FRAMES_IN_FLIGHT`].
pub struct FrameCounter {
    frame_index: usize,
}

impl FrameCounter {
    pub closed spec fn frame_index(self) -> nat {
        self.frame_index as nat
    }

    pub fn new() -> (c: Self)
        ensures
            c.frame_index() == 0,
    {
        FrameCounter { frame_index: 0 }
    }

    pub fn frame_index_value(&self) -> (index: usize)
        ensures
            index == self.frame_index(),
    {
        self.frame_index
    }

    pub fn current_frame_in_flight(&self) -> (slot: usize)
        ensures
            slot == frame_slot(self.frame_index()),
            slot < MAX_FRAMES_IN_FLIGHT,
    {
        self.frame_index % MAX_FRAMES_IN_FLIGHT
    }

    pub fn bump_frame(&mut self)
        requires
            old(self).frame_index() < usize::MAX,
        ensures
            final(self).frame_index() == old(self).frame_index() + 1,
    {
        self.frame_index += 1;
    }
}

/// The frame slot of frame `f`: the delete queue its deletions go to.
pub open spec fn frame_slot(f: nat) -> int {
    (f % (MAX_FRAMES_IN_FLIGHT as nat)) as int
}

/// The slot whose queue the end of frame `f` hands back for destruction.
pub open spec fn slot_freed_at_end_of(f: nat) -> int {
    ((f + 1) % (MAX_FRAMES_IN_FLIGHT as nat)) as int
}

/// What is queued while frame `f` is recorded (in the slot of frame `f`) survives the
/// ends of frames `f` and `f + 1`, while the GPU may still use it, and is handed back at
/// the end of frame `f + 2`.
pub proof fn queued_resources_outlive_frames_in_flight(f: nat)
    ensures
        slot_freed_at_end_of(f) != frame_slot(f),
        slot_freed_at_end_of(f + 1) != frame_slot(f),
        slot_freed_at_end_of(f + 2) == frame_slot(f),
{
}

/// The frame bookkeeping of the renderer: the state of the current frame, how long the
/// last one took, the frame counter and the resources with their delete queues.
pub struct Cinder<G, S, I, B, M, P> {
    pub resource_manager: ResourceManager<G, S, I, B, M, P>,
    pub frames: FrameCounter,
    pub init_time: Instant,
    pub frame_state: FrameState,
    pub last_dt: Option<u128>,
}

impl<G, S, I, B, M, P> Cinder<G, S, I, B, M, P> {
    /// The queue being drained follows the frame counter.
    pub open spec fn wf(self) -> bool {
        &&& self.resource_manager.wf()
        &&& self.resource_manager.consume_slot() == frame_slot(self.frames.frame_index())
    }

    pub open spec fn running(self) -> bool {
        self.frame_state is Running
    }

    pub open spec fn spec_last_dt(self) -> Option<u128> {
        self.last_dt
    }

    pub fn new() -> (c: Self)
        ensures
            c.wf(),
            !c.running(),
            c.spec_last_dt().is_none(),
            c.frames.frame_index() == 0,
            forall|slot: int| 0 <= slot < MAX_FRAMES_IN_FLIGHT ==> #[trigger] c.resource_manager.queue(slot).len() == 0,
    {
        Cinder {
            resource_manager: ResourceManager::new(),
            frames: FrameCounter::new(),
            init_time: instant_now(),
            frame_state: FrameState::NotRunning,
            last_dt: None,
        }
    }

    pub fn init_time(&self) -> (t: Instant)
        ensures
            t == self.init_time,
    {
        self.init_time
    }

    pub fn last_dt(&self) -> (dt: Option<u128>)
        ensures
            dt == self.spec_last_dt(),
    {
        self.last_dt
    }

    /// Whether the delete queues are in order: one per frame in flight, the one drained
    /// last being that of the current frame.
    pub fn is_consistent(&self) -> (ok: bool)
        ensures
            ok == self.wf(),
    {
        self.resource_manager.to_consume.len() == MAX_FRAMES_IN_FLIGHT
            && self.resource_manager.consume_index < MAX_FRAMES_IN_FLIGHT
            && self.resource_manager.consume_index == self.frames.current_frame_in_flight()
    }

    pub fn is_running(&self) -> (running: bool)
        ensures
            running == self.running(),
    {
        self.frame_state.is_running()
    }

    /// Starts recording a frame.
    pub fn start_frame(&mut self)
        requires
            !old(self).running(),
        ensures
            final(self).running(),
            final(self).spec_last_dt() == old(self).spec_last_dt(),
            final(self).frames == old(self).frames,
            final(self).resource_manager == old(self).resource_manager,
    {
        self.frame_state = FrameState::Running(instant_now());
    }

    /// Ends the frame: records how long it took, hands back the queue of the slot that
    /// comes round next (its resources are no longer in use on the GPU) and counts the
    /// frame.
    pub fn end_frame(&mut self) -> (destroyed: Vec<Resource<G, S, I, B, M, P>>)
        requires
            old(self).wf(),
            old(self).running(),
            old(self).frames.frame_index() < usize::MAX,
        ensures
            final(self).wf(),
            !final(self).running(),
            final(self).spec_last_dt().is_some(),
            final(self).frames.frame_index() == old(self).frames.frame_index() + 1,
            destroyed@ == old(self).resource_manager.queue(slot_freed_at_end_of(old(self).frames.frame_index())),
            final(self).resource_manager.queue(slot_freed_at_end_of(old(self).frames.frame_index())).len() == 0,
            forall|slot: int|
                0 <= slot < MAX_FRAMES_IN_FLIGHT && slot != slot_freed_at_end_of(old(self).frames.frame_index())
                    ==> #[trigger] final(self).resource_manager.queue(slot) == old(self).resource_manager.queue(slot),
            final(self).resource_manager.same_pools(old(self).resource_manager),
    {
        match &self.frame_state {
            FrameState::Running(frame_start) => {
                let elapsed = elapsed_since(frame_start);
                self.last_dt = Some(whole_millis(&elapsed));
            },
            FrameState::NotRunning => {},
        }
        self.frame_state = FrameState::NotRunning;
        let destroyed = self.resource_manager.consume();
        self.frames.bump_frame();
        destroyed
    }
}

} // verus!
