use vstd::prelude::*;

verus! {

/// Number of frame slots the renderers cycle through.
pub const MAX_FRAMES_IN_FLIGHT: usize = 2;

/// Where the current frame slot is in its per-tick cycle.
#[derive(Clone, Copy, PartialEq, Eq, Debug, Structural)]
pub enum Phase {
    /// No tick in progress.
    Idle,
    /// Waiting for the slot's fence, then for the next swapchain image.
    Acquiring { fence_observed: bool },
    /// Command buffer of the slot is being reset and re-recorded.
    Recording,
    /// The recorded commands are being submitted.
    Submitted,
    /// The rendered image is being presented.
    Presenting,
    /// Swapchain-dependent resources are being torn down and rebuilt.
    Recreating,
    /// An unrecoverable device error was reported; nothing more is accepted.
    Failed,
}

/// What the caller reports back after carrying out the last action.
#[derive(Clone, Copy, PartialEq, Eq, Debug, Structural)]
pub enum FrameEvent {
    BeginFrame,
    FenceSignaled,
    ImageAcquired(u32),
    AcquireOutOfDate,
    AcquireFailed,
    Recorded,
    SubmitDone,
    SubmitFailed,
    Presented,
    PresentStale,
    PresentFailed,
    Recreated,
}

/// Unrecoverable device errors, by the step at which they were reported.
#[derive(Clone, Copy, PartialEq, Eq, Debug, Structural)]
pub enum FrameError {
    Acquire,
    Submit,
    Present,
}

/// What the caller must do next.
#[derive(Clone, Copy, PartialEq, Eq, Debug, Structural)]
pub enum FrameAction {
    /// Block on the slot's in-flight fence; `submitted_at` is the tick whose
    /// submission signals it, if one is outstanding.
    WaitForFence { slot: usize, submitted_at: Option<u64> },
    /// Request the next swapchain image, signalling the slot's image-available semaphore.
    AcquireImage { slot: usize },
    /// Reset the slot's fence and command buffer and record the frame for `image_index`.
    Record { slot: usize, image_index: u32 },
    /// Submit the slot's command buffer: wait on image-available, signal
    /// render-finished and the slot's fence.
    Submit { slot: usize, image_index: u32 },
    /// Present `image_index`, waiting on the slot's render-finished semaphore.
    Present { slot: usize, image_index: u32 },
    /// Drain the device and rebuild the swapchain-dependent resources.
    Recreate,
    /// The tick is over; the next one uses `next_slot`.
    FrameDone { next_slot: usize },
    /// Stop: the device reported an unrecoverable error.
    Fail(FrameError),
    /// The event does not fit the current phase; nothing changed.
    Rejected,
}

/// Mathematical model of the scheduler.
pub struct FrameState {
    pub max_frames: usize,
    pub current: usize,
    pub started: u64,
    pub phase: Phase,
    pub image_index: u32,
    /// For each slot, the tick whose submission has not yet been seen complete.
    pub slots: Seq<Option<u64>>,
}

impl FrameState {
    pub open spec fn wf(self) -> bool {
        &&& self.max_frames > 0
        &&& self.current < self.max_frames
        &&& self.slots.len() == self.max_frames
        &&& forall|i: int|
            0 <= i < self.slots.len() && (#[trigger] self.slots[i]) is Some ==> self.slots[i]->0
                <= self.started
        &&& self.phase is Acquiring || self.phase is Recording || self.phase is Submitted
            ==> self.started >= 1
        &&& (self.phase == Phase::Acquiring { fence_observed: true } || self.phase is Recording
            || self.phase is Submitted) ==> self.slots[self.current as int] is None
    }

    /// Moves to the next slot and ends the tick.
    pub open spec fn end_tick(self) -> FrameState {
        FrameState {
            current: ((self.current + 1) % (self.max_frames as int)) as usize,
            phase: Phase::Idle,
            ..self
        }
    }
}

/// Number of submissions not yet observed complete.
pub open spec fn pending_count(slots: Seq<Option<u64>>) -> nat
    decreases slots.len(),
{
    if slots.len() == 0 {
        0
    } else {
        pending_count(slots.drop_last()) + (if slots.last() is Some {
            1nat
        } else {
            0nat
        })
    }
}

/// The scheduler's response to one event.
pub open spec fn transition(s: FrameState, e: FrameEvent) -> (FrameState, FrameAction) {
    let slot = s.current;
    let rejected = (s, FrameAction::Rejected);
    match s.phase {
        Phase::Idle => match e {
            FrameEvent::BeginFrame => if s.started < u64::MAX {
                (
                    FrameState {
                        started: (s.started + 1) as u64,
                        phase: Phase::Acquiring { fence_observed: false },
                        ..s
                    },
                    FrameAction::WaitForFence { slot, submitted_at: s.slots[slot as int] },
                )
            } else {
                rejected
            },
            _ => rejected,
        },
        Phase::Acquiring { fence_observed } => match e {
            FrameEvent::FenceSignaled => if !fence_observed {
                (
                    FrameState {
                        phase: Phase::Acquiring { fence_observed: true },
                        slots: s.slots.update(slot as int, None),
                        ..s
                    },
                    FrameAction::AcquireImage { slot },
                )
            } else {
                rejected
            },
            FrameEvent::ImageAcquired(i) => if fence_observed {
                (
                    FrameState { phase: Phase::Recording, image_index: i, ..s },
                    FrameAction::Record { slot, image_index: i },
                )
            } else {
                rejected
            },
            FrameEvent::AcquireOutOfDate => if fence_observed {
                (FrameState { phase: Phase::Recreating, ..s }, FrameAction::Recreate)
            } else {
                rejected
            },
            FrameEvent::AcquireFailed => if fence_observed {
                (FrameState { phase: Phase::Failed, ..s }, FrameAction::Fail(FrameError::Acquire))
            } else {
                rejected
            },
            _ => rejected,
        },
        Phase::Recording => match e {
            FrameEvent::Recorded => (
                FrameState { phase: Phase::Submitted, ..s },
                FrameAction::Submit { slot, image_index: s.image_index },
            ),
            _ => rejected,
        },
        Phase::Submitted => match e {
            FrameEvent::SubmitDone => (
                FrameState {
                    phase: Phase::Presenting,
                    slots: s.slots.update(slot as int, Some(s.started)),
                    ..s
                },
                FrameAction::Present { slot, image_index: s.image_index },
            ),
            FrameEvent::SubmitFailed => (
                FrameState { phase: Phase::Failed, ..s },
                FrameAction::Fail(FrameError::Submit),
            ),
            _ => rejected,
        },
        Phase::Presenting => match e {
            FrameEvent::Presented => (
                s.end_tick(),
                FrameAction::FrameDone { next_slot: s.end_tick().current },
            ),
            FrameEvent::PresentStale => (
                FrameState { phase: Phase::Recreating, ..s },
                FrameAction::Recreate,
            ),
            FrameEvent::PresentFailed => (
                FrameState { phase: Phase::Failed, ..s },
                FrameAction::Fail(FrameError::Present),
            ),
            _ => rejected,
        },
        Phase::Recreating => match e {
            FrameEvent::Recreated => (
                s.end_tick(),
                FrameAction::FrameDone { next_slot: s.end_tick().current },
            ),
            _ => rejected,
        },
        Phase::Failed => rejected,
    }
}

/// The state after a sequence of events.
pub open spec fn run(s: FrameState, events: Seq<FrameEvent>) -> FrameState
    decreases events.len(),
{
    if events.len() == 0 {
        s
    } else {
        run(transition(s, events[0]).0, events.subrange(1, events.len() as int))
    }
}

pub proof fn lemma_pending_count_bound(slots: Seq<Option<u64>>)
    ensures
        pending_count(slots) <= slots.len(),
    decreases slots.len(),
{
    if slots.len() > 0 {
        lemma_pending_count_bound(slots.drop_last());
    }
}

/// One step keeps the model well formed; an image is acquired for a slot, and
/// the slot re-recorded and resubmitted, only once its previous submission has
/// been seen complete.
pub proof fn lemma_transition_wf(s: FrameState, e: FrameEvent)
    requires
        s.wf(),
    ensures
        transition(s, e).0.wf(),
        transition(s, e).0.max_frames == s.max_frames,
        transition(s, e).1 is AcquireImage ==> transition(s, e).0.slots[s.current as int] is None,
        transition(s, e).1 is Record ==> s.slots[s.current as int] is None,
        transition(s, e).1 is Submit ==> s.slots[s.current as int] is None,
{
    let t = transition(s, e).0;
    assert forall|i: int| 0 <= i < t.slots.len() && (#[trigger] t.slots[i]) is Some implies t.slots[i]->0
        <= t.started by {
        if i != s.current as int {
            assert(t.slots[i] == s.slots[i]);
        }
    }
}

/// Whatever events arrive, the number of submitted frames whose fence has not
/// been observed never exceeds the number of frame slots.
pub proof fn lemma_bounded_flight(s: FrameState, events: Seq<FrameEvent>)
    requires
        s.wf(),
    ensures
        run(s, events).wf(),
        run(s, events).max_frames == s.max_frames,
        pending_count(run(s, events).slots) <= s.max_frames,
    decreases events.len(),
{
    if events.len() == 0 {
        lemma_pending_count_bound(s.slots);
    } else {
        lemma_transition_wf(s, events[0]);
        lemma_bounded_flight(transition(s, events[0]).0, events.subrange(1, events.len() as int));
    }
}

/// Drives the acquire / record / submit / present cycle over a fixed number
/// of frame slots.
pub struct FrameScheduler {
    max_frames: usize,
    current: usize,
    started: u64,
    phase: Phase,
    image_index: u32,
    slots: Vec<Option<u64>>,
}

impl View for FrameScheduler {
    type V = FrameState;

    closed spec fn view(&self) -> FrameState {
        FrameState {
            max_frames: self.max_frames,
            current: self.current,
            started: self.started,
            phase: self.phase,
            image_index: self.image_index,
            slots: self.slots@,
        }
    }
}

impl FrameScheduler {
    pub open spec fn wf(&self) -> bool {
        self@.wf()
    }

    /// A scheduler over `max_frames` slots, starting at slot 0 with no frame in flight.
    pub fn new(max_frames: usize) -> (r: FrameScheduler)
        requires
            max_frames > 0,
        ensures
            r.wf(),
            r@.max_frames == max_frames,
            r@.current == 0,
            r@.started == 0,
            r@.phase == Phase::Idle,
            r@.image_index == 0,
            r@.slots == Seq::new(max_frames as nat, |i: int| None::<u64>),
    {
        let mut slots: Vec<Option<u64>> = Vec::new();
        let mut i: usize = 0;
        while i < max_frames
            invariant
                i <= max_frames,
                slots@ == Seq::new(i as nat, |j: int| None::<u64>),
            decreases max_frames - i,
        {
            slots.push(None);
            i = i + 1;
        }
        FrameScheduler { max_frames, current: 0, started: 0, phase: Phase::Idle, image_index: 0, slots }
    }

    /// The slot used by the current (or next) tick.
    pub fn current_frame(&self) -> (r: usize)
        ensures
            r == self@.current,
    {
        self.current
    }

    pub fn phase(&self) -> (r: Phase)
        ensures
            r == self@.phase,
    {
        self.phase
    }

    pub fn max_frames(&self) -> (r: usize)
        ensures
            r == self@.max_frames,
    {
        self.max_frames
    }

    /// Number of submitted frames whose fence has not yet been observed.
    pub fn frames_in_flight(&self) -> (r: usize)
        requires
            self.wf(),
        ensures
            r == pending_count(self@.slots),
            r <= self@.max_frames,
    {
        let mut count: usize = 0;
        let mut i: usize = 0;
        proof {
            lemma_pending_count_bound(self.slots@);
        }
        while i < self.slots.len()
            invariant
                i <= self.slots@.len(),
                count == pending_count(self.slots@.subrange(0, i as int)),
                pending_count(self.slots@) <= self.slots@.len(),
            decreases self.slots.len() - i,
        {
            proof {
                let next = self.slots@.subrange(0, i + 1);
                assert(next.drop_last() =~= self.slots@.subrange(0, i as int));
                lemma_pending_count_bound(self.slots@.subrange(0, i as int));
            }
            if self.slots[i].is_some() {
                count = count + 1;
            }
            i = i + 1;
        }
        assert(self.slots@.subrange(0, self.slots@.len() as int) =~= self.slots@);
        count
    }

    fn finish_tick(&mut self)
        requires
            old(self).wf(),
        ensures
            final(self)@ == old(self)@.end_tick(),
    {
        self.current = (self.current + 1) % self.max_frames;
        self.phase = Phase::Idle;
    }

    fn reject(&self) -> (r: FrameAction)
        ensures
            r == FrameAction::Rejected,
    {
        FrameAction::Rejected
    }

    /// Feeds one event to the scheduler and returns the next action.
    pub fn step(&mut self, e: FrameEvent) -> (r: FrameAction)
        requires
            old(self).wf(),
        ensures
            (final(self)@, r) == transition(old(self)@, e),
            final(self).wf(),
    {
        proof {
            lemma_transition_wf(self@, e);
        }
        let slot = self.current;
        match self.phase {
            Phase::Idle => match e {
                FrameEvent::BeginFrame => {
                    if self.started < u64::MAX {
                        self.started = self.started + 1;
                        self.phase = Phase::Acquiring { fence_observed: false };
                        FrameAction::WaitForFence { slot, submitted_at: self.slots[slot] }
                    } else {
                        self.reject()
                    }
                },
                _ => self.reject(),
            },
            Phase::Acquiring { fence_observed } => match e {
                FrameEvent::FenceSignaled => {
                    if !fence_observed {
                        self.slots.set(slot, None);
                        self.phase = Phase::Acquiring { fence_observed: true };
                        FrameAction::AcquireImage { slot }
                    } else {
                        self.reject()
                    }
                },
                FrameEvent::ImageAcquired(i) => {
                    if fence_observed {
                        self.phase = Phase::Recording;
                        self.image_index = i;
                        FrameAction::Record { slot, image_index: i }
                    } else {
                        self.reject()
                    }
                },
                FrameEvent::AcquireOutOfDate => {
                    if fence_observed {
                        self.phase = Phase::Recreating;
                        FrameAction::Recreate
                    } else {
                        self.reject()
                    }
                },
                FrameEvent::AcquireFailed => {
                    if fence_observed {
                        self.phase = Phase::Failed;
                        FrameAction::Fail(FrameError::Acquire)
                    } else {
                        self.reject()
                    }
                },
                _ => self.reject(),
            },
            Phase::Recording => match e {
                FrameEvent::Recorded => {
                    self.phase = Phase::Submitted;
                    FrameAction::Submit { slot, image_index: self.image_index }
                },
                _ => self.reject(),
            },
            Phase::Submitted => match e {
                FrameEvent::SubmitDone => {
                    self.slots.set(slot, Some(self.started));
                    self.phase = Phase::Presenting;
                    FrameAction::Present { slot, image_index: self.image_index }
                },
                FrameEvent::SubmitFailed => {
                    self.phase = Phase::Failed;
                    FrameAction::Fail(FrameError::Submit)
                },
                _ => self.reject(),
            },
            Phase::Presenting => match e {
                FrameEvent::Presented => {
                    self.finish_tick();
                    FrameAction::FrameDone { next_slot: self.current }
                },
                FrameEvent::PresentStale => {
                    self.phase = Phase::Recreating;
                    FrameAction::Recreate
                },
                FrameEvent::PresentFailed => {
                    self.phase = Phase::Failed;
                    FrameAction::Fail(FrameError::Present)
                },
                _ => self.reject(),
            },
            Phase::Recreating => match e {
                FrameEvent::Recreated => {
                    self.finish_tick();
                    FrameAction::FrameDone { next_slot: self.current }
                },
                _ => self.reject(),
            },
            Phase::Failed => self.reject(),
        }
    }
}

} // verus!
