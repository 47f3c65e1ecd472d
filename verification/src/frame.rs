//! The frame executor: what the session does next, given what the device
//! answered last.
//!
//! The caller performs each `FrameAction` and reports its result as a
//! `FrameEvent`. One frame runs from `begin_frame` to the action
//! `FrameAction::Finish`; `run_frame` runs a whole frame over a function
//! that performs the actions. At most one frame is in flight: after a frame
//! is presented the queue is drained before the next one starts.

use vstd::prelude::*;
use crate::error::Error;
use crate::vk::{Extent2D, ERROR_OUT_OF_DATE_KHR, PIPELINE_STAGE_COLOR_ATTACHMENT_OUTPUT_BIT,
    SUBOPTIMAL_KHR, SUCCESS};

verus! {

/// The timeout that stands for a wait without limit.
pub const NO_TIMEOUT: u64 = 0xffff_ffff_ffff_ffff;

/// Where the session stands.
#[derive(Clone, Copy, Debug, PartialEq, Eq, Structural)]
pub enum FrameState {
    /// Between frames. Nothing is in flight.
    Idle,
    /// The next image was asked for.
    Acquiring,
    /// The commands for the acquired image are being recorded.
    Recording { image_index: u32 },
    /// The commands were handed to the queue.
    Submitted { image_index: u32 },
    /// The image was handed to the presentation engine.
    Presenting { image_index: u32 },
    /// The frame was presented and the queue is being drained.
    Draining,
    /// The swapchain is stale and the device is being waited for.
    AwaitingIdle,
    /// The device is idle and the swapchain generation is being rebuilt.
    Rebuilding,
    /// The window is closing and the device is being waited for.
    Closing,
    /// The session is over.
    Closed,
    /// The session was aborted.
    Failed,
}

/// The two signals that order the device's work within a frame.
#[derive(Clone, Copy, Debug, PartialEq, Eq, Structural)]
pub enum Signal {
    /// Raised once the acquired image may be written.
    ImageAvailable,
    /// Raised once the frame's commands have run.
    RenderFinished,
}

/// What the device answered.
#[derive(Clone, Copy, Debug, PartialEq, Eq, Structural)]
pub enum FrameEvent {
    Acquired { code: i32, image_index: u32 },
    Recorded,
    Submitted { code: i32 },
    Presented { code: i32 },
    DeviceIdle { code: i32 },
    /// The generation was rebuilt, with this extent and this many images.
    Rebuilt { extent: Extent2D, image_count: u32 },
    RebuildFailed { error: Error },
}

/// How a frame ended.
#[derive(Clone, Copy, Debug, PartialEq, Eq, Structural)]
pub enum FrameOutcome {
    /// A frame was presented; go on.
    Continue,
    /// No frame was presented; the swapchain generation is new; go on.
    Recreated,
    /// The session is over.
    Closed,
    /// The session was aborted for this reason.
    Fatal(Error),
}

/// What the caller is to do next.
#[derive(Clone, Copy, Debug, PartialEq, Eq, Structural)]
pub enum FrameAction {
    /// Ask for the next image, wait for it for at most `timeout`
    /// nanoseconds, and have `signal` raised when it may be written.
    Acquire { signal: Signal, timeout: u64 },
    /// Write the uniform data of this frame, and record the commands that
    /// draw into image `image_index` of the generation `generation` unless
    /// they were recorded when the generation was built.
    Record { image_index: u32, generation: u64 },
    /// Hand the commands of image `image_index` of the generation
    /// `generation` to the queue. They wait for `wait` at the stages in
    /// `wait_stage` and raise `signal` when done.
    Submit { image_index: u32, generation: u64, wait: Signal, wait_stage: u32, signal: Signal },
    /// Present image `image_index` once `wait` is raised.
    Present { image_index: u32, wait: Signal },
    /// Wait until the device has nothing left to do.
    WaitIdle,
    /// Tear down the whole swapchain generation and build the next one,
    /// `generation`, for `extent`.
    Rebuild { extent: Extent2D, generation: u64 },
    /// The frame is over.
    Finish(FrameOutcome),
}

/// What the window reports.
#[derive(Clone, Copy, Debug, PartialEq, Eq, Structural)]
pub enum WindowEvent {
    /// The window now has this size, in pixels.
    Resized { width: u32, height: u32 },
    /// The user asked to close the window.
    CloseRequested,
    /// Anything else.
    Other,
}

/// The state of a rendering session.
#[derive(Clone, Copy, Debug, PartialEq, Eq, Structural)]
pub struct Session {
    pub state: FrameState,
    /// Which swapchain generation is current. It changes with every rebuild.
    pub generation: u64,
    /// The extent of the current generation.
    pub extent: Extent2D,
    /// The number of images of the current generation.
    pub image_count: u32,
    /// The extent that the window had when it last told.
    pub wanted_extent: Extent2D,
    /// The window was resized since the generation was built.
    pub resize_pending: bool,
    /// The window asked to be closed and the session has not closed yet.
    pub close_pending: bool,
}

/// Work of the current frame may still be running on the device.
pub open spec fn work_in_flight(state: FrameState) -> bool {
    state is Submitted || state is Presenting || state is Draining
}

/// The result code of an acquisition or a presentation says that the
/// swapchain can still be used.
pub open spec fn code_is_usable(code: i32) -> bool {
    code == SUCCESS || code == SUBOPTIMAL_KHR
}

/// The generation after `generation`.
pub open spec fn next_generation(generation: u64) -> u64 {
    if generation == u64::MAX {
        0
    } else {
        (generation + 1) as u64
    }
}

/// The session after it has noted that the window has `extent`.
pub open spec fn spec_notify_resized(session: Session, extent: Extent2D) -> Session {
    Session { wanted_extent: extent, resize_pending: true, ..session }
}

/// The session after it has taken in `events`, first to last.
pub open spec fn spec_after_events(session: Session, events: Seq<WindowEvent>) -> Session
    decreases events.len(),
{
    if events.len() == 0 {
        session
    } else {
        let before = spec_after_events(session, events.drop_last());
        match events.last() {
            WindowEvent::Resized { width, height } => spec_notify_resized(
                before,
                Extent2D { width, height },
            ),
            WindowEvent::CloseRequested => Session { close_pending: true, ..before },
            WindowEvent::Other => before,
        }
    }
}

/// Some event in `events` asks to close the window.
pub open spec fn spec_close_requested(events: Seq<WindowEvent>) -> bool
    decreases events.len(),
{
    if events.len() == 0 {
        false
    } else {
        events.last() == WindowEvent::CloseRequested || spec_close_requested(events.drop_last())
    }
}

/// The session aborted for `error`.
pub open spec fn failed(session: Session, error: Error) -> (Session, FrameAction) {
    (
        Session { state: FrameState::Failed, ..session },
        FrameAction::Finish(FrameOutcome::Fatal(error)),
    )
}

/// The session in `state`, with `action` to do.
pub open spec fn moved(session: Session, state: FrameState, action: FrameAction) -> (
    Session,
    FrameAction,
) {
    (Session { state, ..session }, action)
}

/// How a frame starts: a pending resize comes first and makes the frame a
/// recreation, and a close request is kept for the frame after it; else a
/// close request, new or kept, ends the session; else the next image is
/// asked for. A frame starts only between frames.
pub open spec fn spec_begin_frame(session: Session, close_requested: bool) -> (
    Session,
    FrameAction,
) {
    if session.state == FrameState::Closed {
        (session, FrameAction::Finish(FrameOutcome::Closed))
    } else if session.state != FrameState::Idle {
        failed(session, Error::OutOfTurn)
    } else if session.resize_pending {
        (
            Session {
                state: FrameState::AwaitingIdle,
                resize_pending: false,
                close_pending: session.close_pending || close_requested,
                ..session
            },
            FrameAction::WaitIdle,
        )
    } else if close_requested || session.close_pending {
        (
            Session { state: FrameState::Closing, close_pending: true, ..session },
            FrameAction::WaitIdle,
        )
    } else {
        moved(
            session,
            FrameState::Acquiring,
            FrameAction::Acquire { signal: Signal::ImageAvailable, timeout: NO_TIMEOUT },
        )
    }
}

/// What a session awaiting the next image does with the answer.
pub open spec fn on_acquired(session: Session, code: i32, image_index: u32) -> (
    Session,
    FrameAction,
) {
    if code == ERROR_OUT_OF_DATE_KHR {
        moved(session, FrameState::AwaitingIdle, FrameAction::WaitIdle)
    } else if !code_is_usable(code) {
        failed(session, Error::Api(code))
    } else if image_index >= session.image_count {
        failed(session, Error::InvalidImageIndex)
    } else {
        moved(
            session,
            FrameState::Recording { image_index },
            FrameAction::Record { image_index, generation: session.generation },
        )
    }
}

/// What a session that is presenting does with the answer.
pub open spec fn on_presented(session: Session, code: i32) -> (Session, FrameAction) {
    if code == ERROR_OUT_OF_DATE_KHR {
        moved(session, FrameState::AwaitingIdle, FrameAction::WaitIdle)
    } else if !code_is_usable(code) {
        failed(session, Error::Api(code))
    } else {
        moved(session, FrameState::Draining, FrameAction::WaitIdle)
    }
}

/// What a session that waits for the device does once the device is idle.
pub open spec fn on_device_idle(session: Session, code: i32) -> (Session, FrameAction) {
    if code != SUCCESS {
        failed(session, Error::Api(code))
    } else {
        match session.state {
            FrameState::Draining => moved(
                session,
                FrameState::Idle,
                FrameAction::Finish(FrameOutcome::Continue),
            ),
            FrameState::AwaitingIdle => moved(
                session,
                FrameState::Rebuilding,
                FrameAction::Rebuild {
                    extent: session.wanted_extent,
                    generation: next_generation(session.generation),
                },
            ),
            FrameState::Closing => moved(
                session,
                FrameState::Closed,
                FrameAction::Finish(FrameOutcome::Closed),
            ),
            _ => failed(session, Error::OutOfTurn),
        }
    }
}

/// The session after a rebuild: idle, in the next generation, with the new
/// extent and image count.
pub open spec fn on_rebuilt(session: Session, extent: Extent2D, image_count: u32) -> (
    Session,
    FrameAction,
) {
    (
        Session {
            state: FrameState::Idle,
            generation: next_generation(session.generation),
            extent,
            image_count,
            ..session
        },
        FrameAction::Finish(FrameOutcome::Recreated),
    )
}

/// The transition of the session on `event`: the next state and what to do.
/// An event that the state does not wait for aborts the session; a session
/// that is over stays so.
pub open spec fn spec_step(session: Session, event: FrameEvent) -> (Session, FrameAction) {
    match (session.state, event) {
        (FrameState::Closed, _) => (session, FrameAction::Finish(FrameOutcome::Closed)),
        (FrameState::Acquiring, FrameEvent::Acquired { code, image_index }) => on_acquired(
            session,
            code,
            image_index,
        ),
        (FrameState::Recording { image_index }, FrameEvent::Recorded) => moved(
            session,
            FrameState::Submitted { image_index },
            FrameAction::Submit {
                image_index,
                generation: session.generation,
                wait: Signal::ImageAvailable,
                wait_stage: PIPELINE_STAGE_COLOR_ATTACHMENT_OUTPUT_BIT,
                signal: Signal::RenderFinished,
            },
        ),
        (FrameState::Submitted { image_index }, FrameEvent::Submitted { code }) => if code
            == SUCCESS {
            moved(
                session,
                FrameState::Presenting { image_index },
                FrameAction::Present { image_index, wait: Signal::RenderFinished },
            )
        } else {
            failed(session, Error::Api(code))
        },
        (FrameState::Presenting { image_index }, FrameEvent::Presented { code }) => on_presented(
            session,
            code,
        ),
        (FrameState::Draining, FrameEvent::DeviceIdle { code }) => on_device_idle(session, code),
        (FrameState::AwaitingIdle, FrameEvent::DeviceIdle { code }) => on_device_idle(
            session,
            code,
        ),
        (FrameState::Closing, FrameEvent::DeviceIdle { code }) => on_device_idle(session, code),
        (FrameState::Rebuilding, FrameEvent::Rebuilt { extent, image_count }) => on_rebuilt(
            session,
            extent,
            image_count,
        ),
        (FrameState::Rebuilding, FrameEvent::RebuildFailed { error }) => failed(session, error),
        _ => failed(session, Error::OutOfTurn),
    }
}

impl Session {
    /// The image that a frame works on is one of the swapchain's.
    pub open spec fn wf(&self) -> bool {
        match self.state {
            FrameState::Recording { image_index } => image_index < self.image_count,
            FrameState::Submitted { image_index } => image_index < self.image_count,
            FrameState::Presenting { image_index } => image_index < self.image_count,
            _ => true,
        }
    }

    /// A session between frames, in its first generation, on a swapchain
    /// of `image_count` images of `extent`.
    pub fn new(extent: Extent2D, image_count: u32) -> (session: Session)
        ensures
            session == (Session {
                state: FrameState::Idle,
                generation: 0,
                extent,
                image_count,
                wanted_extent: extent,
                resize_pending: false,
                close_pending: false,
            }),
            session.wf(),
    {
        Session {
            state: FrameState::Idle,
            generation: 0,
            extent,
            image_count,
            wanted_extent: extent,
            resize_pending: false,
            close_pending: false,
        }
    }

    /// The generation that the next rebuild brings.
    pub fn upcoming_generation(&self) -> (generation: u64)
        ensures
            generation == next_generation(self.generation),
            generation != self.generation,
    {
        if self.generation == u64::MAX {
            0
        } else {
            self.generation + 1
        }
    }

    /// Takes note that the window now has `extent`. Of several notes before
    /// the next frame the last one counts, and they lead to one recreation.
    pub fn notify_resized(&mut self, extent: Extent2D)
        ensures
            *final(self) == spec_notify_resized(*old(self), extent),
            old(self).wf() ==> final(self).wf(),
    {
        self.wanted_extent = extent;
        self.resize_pending = true;
    }

    /// Starts a frame and says what to do first.
    pub fn begin_frame(&mut self, close_requested: bool) -> (action: FrameAction)
        ensures
            (*final(self), action) == spec_begin_frame(*old(self), close_requested),
            old(self).wf() ==> final(self).wf(),
    {
        match self.state {
            FrameState::Closed => FrameAction::Finish(FrameOutcome::Closed),
            FrameState::Idle => {
                if self.resize_pending {
                    self.state = FrameState::AwaitingIdle;
                    self.resize_pending = false;
                    self.close_pending = self.close_pending || close_requested;
                    FrameAction::WaitIdle
                } else if close_requested || self.close_pending {
                    self.state = FrameState::Closing;
                    self.close_pending = true;
                    FrameAction::WaitIdle
                } else {
                    self.state = FrameState::Acquiring;
                    FrameAction::Acquire { signal: Signal::ImageAvailable, timeout: NO_TIMEOUT }
                }
            },
            _ => self.fail(Error::OutOfTurn),
        }
    }

    /// Takes the device's answer and says what to do next.
    pub fn step(&mut self, event: FrameEvent) -> (action: FrameAction)
        ensures
            (*final(self), action) == spec_step(*old(self), event),
            old(self).wf() ==> final(self).wf(),
    {
        match (self.state, event) {
            (FrameState::Closed, _) => FrameAction::Finish(FrameOutcome::Closed),
            (FrameState::Acquiring, FrameEvent::Acquired { code, image_index }) => {
                if code == ERROR_OUT_OF_DATE_KHR {
                    self.state = FrameState::AwaitingIdle;
                    FrameAction::WaitIdle
                } else if code != SUCCESS && code != SUBOPTIMAL_KHR {
                    self.fail(Error::Api(code))
                } else if image_index >= self.image_count {
                    self.fail(Error::InvalidImageIndex)
                } else {
                    self.state = FrameState::Recording { image_index };
                    FrameAction::Record { image_index, generation: self.generation }
                }
            },
            (FrameState::Recording { image_index }, FrameEvent::Recorded) => {
                self.state = FrameState::Submitted { image_index };
                FrameAction::Submit {
                    image_index,
                    generation: self.generation,
                    wait: Signal::ImageAvailable,
                    wait_stage: PIPELINE_STAGE_COLOR_ATTACHMENT_OUTPUT_BIT,
                    signal: Signal::RenderFinished,
                }
            },
            (FrameState::Submitted { image_index }, FrameEvent::Submitted { code }) => {
                if code == SUCCESS {
                    self.state = FrameState::Presenting { image_index };
                    FrameAction::Present { image_index, wait: Signal::RenderFinished }
                } else {
                    self.fail(Error::Api(code))
                }
            },
            (FrameState::Presenting { image_index }, FrameEvent::Presented { code }) => {
                if code == ERROR_OUT_OF_DATE_KHR {
                    self.state = FrameState::AwaitingIdle;
                    FrameAction::WaitIdle
                } else if code != SUCCESS && code != SUBOPTIMAL_KHR {
                    self.fail(Error::Api(code))
                } else {
                    self.state = FrameState::Draining;
                    FrameAction::WaitIdle
                }
            },
            (FrameState::Draining, FrameEvent::DeviceIdle { code }) => {
                if code != SUCCESS {
                    self.fail(Error::Api(code))
                } else {
                    self.state = FrameState::Idle;
                    FrameAction::Finish(FrameOutcome::Continue)
                }
            },
            (FrameState::AwaitingIdle, FrameEvent::DeviceIdle { code }) => {
                if code != SUCCESS {
                    self.fail(Error::Api(code))
                } else {
                    self.state = FrameState::Rebuilding;
                    FrameAction::Rebuild {
                        extent: self.wanted_extent,
                        generation: self.upcoming_generation(),
                    }
                }
            },
            (FrameState::Closing, FrameEvent::DeviceIdle { code }) => {
                if code != SUCCESS {
                    self.fail(Error::Api(code))
                } else {
                    self.state = FrameState::Closed;
                    FrameAction::Finish(FrameOutcome::Closed)
                }
            },
            (FrameState::Rebuilding, FrameEvent::Rebuilt { extent, image_count }) => {
                self.state = FrameState::Idle;
                self.generation = self.upcoming_generation();
                self.extent = extent;
                self.image_count = image_count;
                FrameAction::Finish(FrameOutcome::Recreated)
            },
            (FrameState::Rebuilding, FrameEvent::RebuildFailed { error }) => self.fail(error),
            _ => self.fail(Error::OutOfTurn),
        }
    }

    /// Takes what the window reported since the last frame: the session notes
    /// the last size reported, if any, and that the window asked to be
    /// closed, if it did; the result says whether it did.
    pub fn poll_events(&mut self, events: &[WindowEvent]) -> (close_requested: bool)
        ensures
            close_requested == spec_close_requested(events@),
            *final(self) == spec_after_events(*old(self), events@),
            old(self).wf() ==> final(self).wf(),
    {
        let mut close_requested = false;
        let mut i: usize = 0;
        proof {
            assert(events@.take(0) =~= Seq::<WindowEvent>::empty());
        }
        while i < events.len()
            invariant
                0 <= i <= events@.len(),
                close_requested == spec_close_requested(events@.take(i as int)),
                *self == spec_after_events(*old(self), events@.take(i as int)),
                old(self).wf() ==> self.wf(),
            decreases events@.len() - i,
        {
            proof {
                let next = events@.take(i + 1);
                assert(next.drop_last() =~= events@.take(i as int));
                assert(next.last() == events@[i as int]);
            }
            match events[i] {
                WindowEvent::Resized { width, height } => {
                    self.notify_resized(Extent2D { width, height });
                },
                WindowEvent::CloseRequested => {
                    close_requested = true;
                    self.close_pending = true;
                },
                WindowEvent::Other => {},
            }
            i = i + 1;
        }
        proof {
            assert(events@.take(events@.len() as int) =~= events@);
        }
        close_requested
    }

    fn fail(&mut self, error: Error) -> (action: FrameAction)
        ensures
            (*final(self), action) == failed(*old(self), error),
    {
        self.state = FrameState::Failed;
        FrameAction::Finish(FrameOutcome::Fatal(error))
    }
}

/// How many answers of the device a frame in `state` still takes at most.
pub open spec fn steps_left(state: FrameState) -> nat {
    match state {
        FrameState::Acquiring => 6,
        FrameState::Recording { .. } => 5,
        FrameState::Submitted { .. } => 4,
        FrameState::Presenting { .. } => 3,
        FrameState::AwaitingIdle => 2,
        FrameState::Rebuilding => 1,
        FrameState::Draining => 1,
        FrameState::Closing => 1,
        FrameState::Idle => 0,
        FrameState::Closed => 0,
        FrameState::Failed => 0,
    }
}

/// Every frame ends. A frame starts with at most six answers to go; every
/// answer either ends the frame or leaves fewer to go; and a frame that has
/// ended leaves the session between frames, closed or aborted.
pub proof fn lemma_frame_ends(session: Session, event: FrameEvent, close_requested: bool)
    ensures
        spec_begin_frame(session, close_requested).1 is Finish || steps_left(
            spec_begin_frame(session, close_requested).0.state,
        ) <= 6,
        spec_step(session, event).1 is Finish || steps_left(spec_step(session, event).0.state)
            < steps_left(session.state),
        spec_step(session, event).1 is Finish ==> steps_left(spec_step(session, event).0.state)
            == 0,
        spec_begin_frame(session, close_requested).1 is Finish ==> steps_left(
            spec_begin_frame(session, close_requested).0.state,
        ) == 0,
{
}

/// Where a frame stands after the device has given `answers`, first to
/// last, to the actions of a frame that started at `start`.
pub open spec fn frame_after(start: (Session, FrameAction), answers: Seq<FrameEvent>) -> (
    Session,
    FrameAction,
)
    decreases answers.len(),
{
    if answers.len() == 0 {
        start
    } else {
        spec_step(frame_after(start, answers.drop_last()).0, answers.last())
    }
}

/// Each of `answers` is what `perform` gave in answer to the action that
/// the frame had come to, and no answer was asked for once the frame had
/// ended.
pub open spec fn answers_given<F: Fn(FrameAction) -> FrameEvent>(
    perform: F,
    start: (Session, FrameAction),
    answers: Seq<FrameEvent>,
) -> bool
    decreases answers.len(),
{
    answers.len() == 0 || {
        let before = frame_after(start, answers.drop_last());
        &&& answers_given(perform, start, answers.drop_last())
        &&& !(before.1 is Finish)
        &&& call_ensures(perform, (before.1,), answers.last())
    }
}

/// Runs one frame: starts it, has `perform` carry out each action, takes
/// each answer, and returns how the frame ended. The frame takes at most six
/// answers; the session and the outcome are those that the transitions of
/// the session give on the answers that `perform` gave.
pub fn run_frame<F: Fn(FrameAction) -> FrameEvent>(
    session: &mut Session,
    close_requested: bool,
    perform: F,
) -> (outcome: FrameOutcome)
    requires
        forall|action: FrameAction| !(action is Finish) ==> call_requires(perform, (action,)),
    ensures
        exists|answers: Seq<FrameEvent>|
            {
                &&& answers.len() <= 6
                &&& answers_given(
                    perform,
                    spec_begin_frame(*old(session), close_requested),
                    answers,
                )
                &&& #[trigger] frame_after(
                    spec_begin_frame(*old(session), close_requested),
                    answers,
                ) == (*final(session), FrameAction::Finish(outcome))
            },
        steps_left(final(session).state) == 0,
        old(session).wf() ==> final(session).wf(),
{
    let ghost start = spec_begin_frame(*session, close_requested);
    let ghost wf_before = session.wf();
    let mut action = session.begin_frame(close_requested);
    let ghost mut answers = Seq::<FrameEvent>::empty();
    proof {
        lemma_frame_ends(*old(session), FrameEvent::Recorded, close_requested);
    }
    loop
        invariant
            forall|action: FrameAction| !(action is Finish) ==> call_requires(perform, (action,)),
            start == spec_begin_frame(*old(session), close_requested),
            answers_given(perform, start, answers),
            frame_after(start, answers) == (*session, action),
            action is Finish ==> steps_left(session.state) == 0,
            answers.len() + steps_left(session.state) <= 6,
            wf_before ==> session.wf(),
        decreases steps_left(session.state) + (if action is Finish { 0nat } else { 1nat }),
    {
        match action {
            FrameAction::Finish(outcome) => {
                assert(frame_after(start, answers) == (*session, FrameAction::Finish(outcome)));
                return outcome;
            },
            _ => {},
        }
        let event = perform(action);
        proof {
            lemma_frame_ends(*session, event, close_requested);
            let longer = answers.push(event);
            assert(longer.drop_last() =~= answers);
            assert(longer.last() == event);
            answers = longer;
        }
        action = session.step(event);
    }
}

/// Several resizes before a frame count as the last one alone. The session
/// ends up as if only the last size had been reported, and the frame that
/// follows is one recreation, for the last size, after which no resize is
/// pending.
pub proof fn lemma_resizes_coalesce(
    session: Session,
    earlier: Extent2D,
    last: Extent2D,
    close_requested: bool,
)
    requires
        session.state == FrameState::Idle,
    ensures
        spec_notify_resized(spec_notify_resized(session, earlier), last) == spec_notify_resized(
            session,
            last,
        ),
        ({
            let noted = spec_notify_resized(spec_notify_resized(session, earlier), last);
            let begun = spec_begin_frame(noted, close_requested);
            let idle = spec_step(begun.0, FrameEvent::DeviceIdle { code: SUCCESS });
            &&& begun.1 == FrameAction::WaitIdle
            &&& begun.0.state == FrameState::AwaitingIdle
            &&& !begun.0.resize_pending
            &&& idle.1 == FrameAction::Rebuild {
                extent: last,
                generation: next_generation(session.generation),
            }
            &&& !idle.0.resize_pending
        }),
{
}

/// A close request is not lost to a resize. Where both are there when a
/// frame starts, the frame is a recreation, and the frame after it closes
/// the session, though nobody asks again.
pub proof fn lemma_close_request_outlives_a_recreation(
    session: Session,
    extent: Extent2D,
    image_count: u32,
)
    requires
        session.state == FrameState::Idle,
        session.resize_pending,
    ensures
        ({
            let begun = spec_begin_frame(session, true);
            let idle = spec_step(begun.0, FrameEvent::DeviceIdle { code: SUCCESS });
            let rebuilt = spec_step(idle.0, FrameEvent::Rebuilt { extent, image_count });
            let next = spec_begin_frame(rebuilt.0, false);
            let closed = spec_step(next.0, FrameEvent::DeviceIdle { code: SUCCESS });
            &&& begun.1 == FrameAction::WaitIdle
            &&& idle.1 is Rebuild
            &&& rebuilt.1 == FrameAction::Finish(FrameOutcome::Recreated)
            &&& next.1 == FrameAction::WaitIdle
            &&& next.0.state == FrameState::Closing
            &&& closed.1 == FrameAction::Finish(FrameOutcome::Closed)
        }),
{
}

/// When a frame ends with `Continue` the session is between frames and
/// nothing of the frame is in flight. From there a close request makes the
/// session wait for the device before anything else, and it is closed
/// without error once the device is idle.
pub proof fn lemma_presented_frame_is_drained(session: Session, event: FrameEvent)
    requires
        spec_step(session, event).1 == FrameAction::Finish(FrameOutcome::Continue),
    ensures
        ({
            let after = spec_step(session, event).0;
            let ready = Session { resize_pending: false, ..after };
            let closing = spec_begin_frame(ready, true);
            let closed = spec_step(closing.0, FrameEvent::DeviceIdle { code: SUCCESS });
            &&& event == FrameEvent::DeviceIdle { code: SUCCESS }
            &&& session.state == FrameState::Draining
            &&& after.state == FrameState::Idle
            &&& !work_in_flight(after.state)
            &&& spec_begin_frame(after, true).1 == FrameAction::WaitIdle
            &&& closing == (
                Session { state: FrameState::Closing, close_pending: true, ..ready },
                FrameAction::WaitIdle,
            )
            &&& closed == (
                Session { state: FrameState::Closed, close_pending: true, ..ready },
                FrameAction::Finish(FrameOutcome::Closed),
            )
        }),
{
}

/// The generation is torn down, and the session closed, only in answer to
/// the device having gone idle.
pub proof fn lemma_teardown_follows_idle(session: Session, event: FrameEvent)
    requires
        session.state != FrameState::Closed,
        spec_step(session, event).1 is Rebuild || spec_step(session, event).1
            == FrameAction::Finish(FrameOutcome::Closed),
    ensures
        event == (FrameEvent::DeviceIdle { code: SUCCESS }),
        session.state == FrameState::AwaitingIdle || session.state == FrameState::Closing,
{
}

/// A stale swapchain costs one frame and no more. Told that the swapchain is
/// out of date, an acquiring session waits for the device, rebuilds for the
/// extent that the window reported last, and ends the frame with
/// `Recreated`, in the next generation; the frame after that asks for an
/// image again.
pub proof fn lemma_out_of_date_recreates(
    session: Session,
    image_index: u32,
    extent: Extent2D,
    image_count: u32,
)
    requires
        session.state == FrameState::Acquiring,
        !session.close_pending,
    ensures
        ({
            let stale = spec_step(
                session,
                FrameEvent::Acquired { code: ERROR_OUT_OF_DATE_KHR, image_index },
            );
            let idle = spec_step(stale.0, FrameEvent::DeviceIdle { code: SUCCESS });
            let rebuilt = spec_step(idle.0, FrameEvent::Rebuilt { extent, image_count });
            let next = spec_begin_frame(
                Session { resize_pending: false, ..rebuilt.0 },
                false,
            );
            &&& stale.1 == FrameAction::WaitIdle
            &&& idle.1 == FrameAction::Rebuild {
                extent: session.wanted_extent,
                generation: next_generation(session.generation),
            }
            &&& rebuilt.0.generation == next_generation(session.generation)
            &&& rebuilt.1 == FrameAction::Finish(FrameOutcome::Recreated)
            &&& rebuilt.0.state == FrameState::Idle
            &&& rebuilt.0.extent == extent
            &&& rebuilt.0.image_count == image_count
            &&& rebuilt.0.generation != session.generation
            &&& next.1 == FrameAction::Acquire { signal: Signal::ImageAvailable, timeout: NO_TIMEOUT }
        }),
{
}

/// The generation changes with a rebuild and with nothing else.
pub proof fn lemma_generation_changes_on_rebuild_only(session: Session, event: FrameEvent)
    ensures
        spec_step(session, event).0.generation != session.generation <==> (session.state
            == FrameState::Rebuilding && event is Rebuilt),
        spec_step(session, event).0.generation != session.generation ==> spec_step(
            session,
            event,
        ).0.generation == next_generation(session.generation),
{
}

/// A frame of a sound session that is told only of success runs through
/// acquisition, recording, submission, presentation and draining, in this
/// order, and ends with `Continue`.
pub proof fn lemma_frame_runs_in_order(session: Session, code: i32, image_index: u32)
    requires
        session.state == FrameState::Idle,
        !session.resize_pending,
        !session.close_pending,
        code_is_usable(code),
        image_index < session.image_count,
    ensures
        ({
            let begun = spec_begin_frame(session, false);
            let acquired = spec_step(begun.0, FrameEvent::Acquired { code, image_index });
            let recorded = spec_step(acquired.0, FrameEvent::Recorded);
            let submitted = spec_step(recorded.0, FrameEvent::Submitted { code: SUCCESS });
            let presented = spec_step(submitted.0, FrameEvent::Presented { code });
            let drained = spec_step(presented.0, FrameEvent::DeviceIdle { code: SUCCESS });
            &&& begun.1 == FrameAction::Acquire { signal: Signal::ImageAvailable, timeout: NO_TIMEOUT }
            &&& acquired.1 == FrameAction::Record { image_index, generation: session.generation }
            &&& recorded.1 == FrameAction::Submit {
                image_index,
                generation: session.generation,
                wait: Signal::ImageAvailable,
                wait_stage: PIPELINE_STAGE_COLOR_ATTACHMENT_OUTPUT_BIT,
                signal: Signal::RenderFinished,
            }
            &&& submitted.1 == FrameAction::Present { image_index, wait: Signal::RenderFinished }
            &&& presented.1 == FrameAction::WaitIdle
            &&& drained.1 == FrameAction::Finish(FrameOutcome::Continue)
            &&& drained.0 == session
        }),
{
}

} // verus!
