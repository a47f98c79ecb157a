use vstd::prelude::*;
use crate::ookami::time::{Time, TimeView, DELTA_WINDOW};
use crate::window::message::{StateMessage, WindowMessage};

verus! {

/// Where an application is in its frame.
#[derive(Debug, Clone, PartialEq, Eq, Structural)]
pub enum Lifecycle {
    Entering,
    BeginFrame { message: Option<WindowMessage> },
    EarlyUpdate { message: Option<WindowMessage> },
    FixedUpdate { message: Option<WindowMessage> },
    Update { message: Option<WindowMessage> },
    EndFrame { message: Option<WindowMessage> },
    Exiting,
    ExitLoop,
}

/// What the caller hands to [`App::poll`]: `Start` to begin a poll, else the
/// outcome of the outside work that the previous call asked for.
#[derive(Debug, Clone, PartialEq, Eq, Structural)]
pub enum PollEvent {
    Start,
    /// What the window's `next()` gave.
    Message(Option<WindowMessage>),
    /// Whether the exchange with the renderer succeeded.
    Synced(bool),
}

/// What [`App::poll`] asks of the caller.
#[derive(Debug, Copy, Clone, PartialEq, Eq, Structural)]
pub enum PollAction {
    /// Take the window's next message and hand it back as `PollEvent::Message`.
    NextMessage,
    /// Send `SyncWithRenderer` and wait for the reply; hand back `PollEvent::Synced`.
    SyncWithRenderer,
    /// Send the frame's render data and wait for the reply; hand back `PollEvent::Synced`.
    SendRenderData,
    /// Send `Exit`, wait for the reply and join the render thread; hand back `PollEvent::Synced`.
    SendExitAndJoin,
    /// The poll is done: the new lifecycle state is ready.
    Ready,
    /// The poll is done: the application has left its loop.
    Finished,
}

/// Which outside outcome a poll in progress waits for.
#[derive(Debug, Copy, Clone, PartialEq, Eq, Structural)]
pub enum Pending {
    Idle,
    Message,
    Sync,
    EndFrame { exit: bool },
}

/// Whether `event` is what a poll in state `pending` waits for.
pub open spec fn expects(pending: Pending, event: PollEvent) -> bool {
    match pending {
        Pending::Idle => event is Start,
        Pending::Message => event is Message,
        Pending::Sync => event is Synced,
        Pending::EndFrame { .. } => event is Synced,
    }
}

/// Whether the frame's message is the window's closing message, on which the
/// application exits.
pub open spec fn is_exit_message(message: Option<WindowMessage>) -> bool {
    message == Some(WindowMessage::State(StateMessage::Closing))
}

/// The fixed-tick step of the frame: tick at `tick_now` while a tick is due.
pub open spec fn fixed_step(message: Option<WindowMessage>, time: TimeView, tick_now: u64) -> (Lifecycle, TimeView) {
    if time.should_tick() {
        (Lifecycle::FixedUpdate { message }, time.ticked(tick_now))
    } else {
        (Lifecycle::Update { message }, time)
    }
}

/// One step of a poll: from the lifecycle state, the outcome that the step waits
/// for, the clock and the event, to the new state, the new pending outcome, the
/// new clock and what is asked of the caller. `update_now` and `tick_now` are the
/// clock readings the step takes when it updates or ticks the clock.
pub open spec fn poll_step(
    state: Lifecycle,
    pending: Pending,
    time: TimeView,
    event: PollEvent,
    update_now: u64,
    tick_now: u64,
) -> (Lifecycle, Pending, TimeView, PollAction) {
    match pending {
        Pending::Idle => match state {
            Lifecycle::Entering => (state, Pending::Message, time, PollAction::NextMessage),
            Lifecycle::BeginFrame { .. } => (state, Pending::Sync, time, PollAction::SyncWithRenderer),
            Lifecycle::EarlyUpdate { message } => {
                let (s, t) = fixed_step(message, time.updated(update_now), tick_now);
                (s, Pending::Idle, t, PollAction::Ready)
            },
            Lifecycle::FixedUpdate { message } => {
                let (s, t) = fixed_step(message, time, tick_now);
                (s, Pending::Idle, t, PollAction::Ready)
            },
            Lifecycle::Update { message } => (
                Lifecycle::EndFrame { message },
                Pending::Idle,
                time,
                PollAction::Ready,
            ),
            Lifecycle::EndFrame { message } => (
                state,
                Pending::EndFrame { exit: is_exit_message(message) },
                time,
                if is_exit_message(message) {
                    PollAction::SendExitAndJoin
                } else {
                    PollAction::SendRenderData
                },
            ),
            Lifecycle::Exiting => (Lifecycle::ExitLoop, Pending::Idle, time, PollAction::Ready),
            Lifecycle::ExitLoop => (state, Pending::Idle, time, PollAction::Finished),
        },
        Pending::Message => match event {
            PollEvent::Message(Some(m)) => (
                Lifecycle::BeginFrame { message: Some(m) },
                Pending::Idle,
                time,
                PollAction::Ready,
            ),
            _ => (Lifecycle::ExitLoop, Pending::Idle, time, PollAction::Ready),
        },
        Pending::Sync => match (event, state) {
            (PollEvent::Synced(true), Lifecycle::BeginFrame { message }) => (
                Lifecycle::EarlyUpdate { message },
                Pending::Idle,
                time,
                PollAction::Ready,
            ),
            _ => (Lifecycle::ExitLoop, Pending::Idle, time, PollAction::Ready),
        },
        Pending::EndFrame { exit } => match event {
            PollEvent::Synced(true) => if exit {
                (Lifecycle::ExitLoop, Pending::Idle, time, PollAction::Ready)
            } else {
                (state, Pending::Message, time, PollAction::NextMessage)
            },
            _ => (Lifecycle::ExitLoop, Pending::Idle, time, PollAction::Ready),
        },
    }
}

/// What holds between the steps of a poll: a fixed-update state has taken
/// between one and bail-threshold ticks in its frame; an application that has
/// left its loop waits for nothing; and each awaited outcome belongs to the
/// state that asked for it (a message to entering or to the end of a frame, a
/// sync to the start of a frame, an end-of-frame exchange to its end).
pub open spec fn protocol_invariant(state: Lifecycle, pending: Pending, time: TimeView) -> bool {
    &&& state is FixedUpdate ==> 1 <= time.step_count <= time.bail_threshold
    &&& state == Lifecycle::ExitLoop ==> pending == Pending::Idle
    &&& pending == Pending::Sync ==> state is BeginFrame
    &&& pending is EndFrame ==> state is EndFrame
    &&& pending == Pending::Message ==> (state == Lifecycle::Entering || state is EndFrame)
}

/// The frame loop of an application: its lifecycle state and its clock. A poll
/// is a run of calls of [`App::poll`], the first with `PollEvent::Start`, each
/// further one with the outcome of the work the previous call asked for, until
/// one answers `Ready` or `Finished`.
pub struct App {
    time: Time,
    current_state: Lifecycle,
    pending: Pending,
}

impl App {
    /// The clock of the application.
    pub closed spec fn time_view(&self) -> TimeView {
        self.time@
    }

    /// The lifecycle state.
    pub closed spec fn state(&self) -> Lifecycle {
        self.current_state
    }

    /// The outside outcome a poll in progress waits for.
    pub closed spec fn pending(&self) -> Pending {
        self.pending
    }

    /// The clock's window of deltas is within its capacity, and the poll
    /// protocol's invariant holds.
    pub closed spec fn wf(&self) -> bool {
        &&& self.time.wf()
        &&& protocol_invariant(self.current_state, self.pending, self.time@)
    }

    /// An application about to enter its loop, with a clock of 128 ticks per
    /// second and at most 1024 ticks per frame.
    pub fn new() -> (app: App)
        ensures
            app.wf(),
            app.state() == Lifecycle::Entering,
            app.pending() == Pending::Idle,
            app.time_view().tick_rate == 128,
            app.time_view().bail_threshold == 1024,
            app.time_view().lag_time == 0,
            app.time_view().past_delta_times.len() == 0,
    {
        App { time: Time::new(128, 1024), current_state: Lifecycle::Entering, pending: Pending::Idle }
    }

    /// The clock of the application.
    pub fn time(&self) -> (t: &Time)
        ensures
            t@ == self.time_view(),
    {
        &self.time
    }

    /// The lifecycle state.
    pub fn current_state(&self) -> (s: &Lifecycle)
        ensures
            *s == self.state(),
    {
        &self.current_state
    }

    /// Advances the poll by one step; see [`poll_step`].
    pub fn poll(&mut self, event: PollEvent) -> (action: PollAction)
        requires
            old(self).wf(),
            expects(old(self).pending(), event),
        ensures
            final(self).wf(),
            exists|update_now: u64, tick_now: u64|
                (final(self).state(), final(self).pending(), final(self).time_view(), action) == #[trigger] poll_step(
                    old(self).state(),
                    old(self).pending(),
                    old(self).time_view(),
                    event,
                    update_now,
                    tick_now,
                ),
    {
        let ghost old_state = self.current_state;
        let ghost old_pending = self.pending;
        let ghost old_time = self.time@;
        let ghost mut update_read: u64 = 0;
        let ghost mut tick_read: u64 = 0;
        let mut state = Lifecycle::ExitLoop;
        std::mem::swap(&mut state, &mut self.current_state);
        let action = match self.pending {
            Pending::Idle => match state {
                Lifecycle::Entering => {
                    self.current_state = Lifecycle::Entering;
                    self.pending = Pending::Message;
                    PollAction::NextMessage
                },
                Lifecycle::BeginFrame { message } => {
                    self.current_state = Lifecycle::BeginFrame { message };
                    self.pending = Pending::Sync;
                    PollAction::SyncWithRenderer
                },
                Lifecycle::EarlyUpdate { message } => {
                    let now = self.time.now();
                    proof {
                        update_read = now;
                    }
                    self.time.update(now);
                    let t = self.time.now();
                    proof {
                        tick_read = t;
                    }
                    self.fixed_step(message, t);
                    PollAction::Ready
                },
                Lifecycle::FixedUpdate { message } => {
                    let t = self.time.now();
                    proof {
                        tick_read = t;
                    }
                    self.fixed_step(message, t);
                    PollAction::Ready
                },
                Lifecycle::Update { message } => {
                    self.current_state = Lifecycle::EndFrame { message };
                    PollAction::Ready
                },
                Lifecycle::EndFrame { message } => {
                    let exit = match &message {
                        Some(WindowMessage::State(StateMessage::Closing)) => true,
                        _ => false,
                    };
                    self.current_state = Lifecycle::EndFrame { message };
                    self.pending = Pending::EndFrame { exit };
                    if exit {
                        PollAction::SendExitAndJoin
                    } else {
                        PollAction::SendRenderData
                    }
                },
                Lifecycle::Exiting => {
                    self.current_state = Lifecycle::ExitLoop;
                    PollAction::Ready
                },
                Lifecycle::ExitLoop => {
                    self.current_state = Lifecycle::ExitLoop;
                    PollAction::Finished
                },
            },
            Pending::Message => {
                self.pending = Pending::Idle;
                match event {
                    PollEvent::Message(Some(m)) => {
                        self.current_state = Lifecycle::BeginFrame { message: Some(m) };
                    },
                    _ => {
                        self.current_state = Lifecycle::ExitLoop;
                    },
                }
                PollAction::Ready
            },
            Pending::Sync => {
                self.pending = Pending::Idle;
                let synced = match event {
                    PollEvent::Synced(ok) => ok,
                    _ => false,
                };
                match state {
                    Lifecycle::BeginFrame { message } => {
                        if synced {
                            self.current_state = Lifecycle::EarlyUpdate { message };
                        } else {
                            self.current_state = Lifecycle::ExitLoop;
                        }
                    },
                    _ => {
                        self.current_state = Lifecycle::ExitLoop;
                    },
                }
                PollAction::Ready
            },
            Pending::EndFrame { exit } => match event {
                PollEvent::Synced(true) => if exit {
                    self.pending = Pending::Idle;
                    self.current_state = Lifecycle::ExitLoop;
                    PollAction::Ready
                } else {
                    self.current_state = state;
                    self.pending = Pending::Message;
                    PollAction::NextMessage
                },
                _ => {
                    self.pending = Pending::Idle;
                    self.current_state = Lifecycle::ExitLoop;
                    PollAction::Ready
                },
            },
        };
        assert((self.current_state, self.pending, self.time@, action) == poll_step(
            old_state,
            old_pending,
            old_time,
            event,
            update_read,
            tick_read,
        ));
        assert((self.state(), self.pending(), self.time_view(), action) == poll_step(
            old(self).state(),
            old(self).pending(),
            old(self).time_view(),
            event,
            update_read,
            tick_read,
        ));
        proof {
            lemma_poll_keeps_invariant(old_state, old_pending, old_time, event, update_read, tick_read);
        }
        action
    }

    /// Ticks at `tick_now` if a tick is due, and moves to the fixed or the plain
    /// update accordingly.
    fn fixed_step(&mut self, message: Option<WindowMessage>, tick_now: u64)
        requires
            old(self).time.wf(),
        ensures
            final(self).time.wf(),
            final(self).pending == old(self).pending,
            (final(self).current_state, final(self).time@) == fixed_step(message, old(self).time@, tick_now),
    {
        if self.time.should_do_tick() {
            self.time.tick(tick_now);
            self.current_state = Lifecycle::FixedUpdate { message };
        } else {
            self.current_state = Lifecycle::Update { message };
        }
    }
}

/// Once the application has left its loop, every poll finishes at once and
/// changes nothing.
pub proof fn lemma_exit_loop_is_final(time: TimeView, update_now: u64, tick_now: u64)
    ensures
        poll_step(Lifecycle::ExitLoop, Pending::Idle, time, PollEvent::Start, update_now, tick_now)
            == (Lifecycle::ExitLoop, Pending::Idle, time, PollAction::Finished),
{
}

/// The window message of a frame is carried unchanged through the frame's
/// stages: begin, early update, fixed updates, update, end.
pub proof fn lemma_frame_carries_message(message: Option<WindowMessage>, time: TimeView, update_now: u64, tick_now: u64)
    ensures
        poll_step(Lifecycle::BeginFrame { message }, Pending::Sync, time, PollEvent::Synced(true), update_now, tick_now).0
            == (Lifecycle::EarlyUpdate { message }),
        poll_step(Lifecycle::EarlyUpdate { message }, Pending::Idle, time, PollEvent::Start, update_now, tick_now).0
            == (Lifecycle::FixedUpdate { message }) || poll_step(
            Lifecycle::EarlyUpdate { message },
            Pending::Idle,
            time,
            PollEvent::Start,
            update_now,
            tick_now,
        ).0 == (Lifecycle::Update { message }),
        poll_step(Lifecycle::FixedUpdate { message }, Pending::Idle, time, PollEvent::Start, update_now, tick_now).0
            == (Lifecycle::FixedUpdate { message }) || poll_step(
            Lifecycle::FixedUpdate { message },
            Pending::Idle,
            time,
            PollEvent::Start,
            update_now,
            tick_now,
        ).0 == (Lifecycle::Update { message }),
        poll_step(Lifecycle::Update { message }, Pending::Idle, time, PollEvent::Start, update_now, tick_now).0
            == (Lifecycle::EndFrame { message }),
{
}

/// A frame that ends on the window's closing message makes the application
/// leave its loop: it sends `Exit` (and joins the render thread), and whatever
/// the exchange's outcome the next state is `ExitLoop`.
pub proof fn lemma_closing_message_exits(time: TimeView, synced: bool, update_now: u64, tick_now: u64)
    ensures
        ({
            let closing = Some(WindowMessage::State(StateMessage::Closing));
            let (s1, p1, t1, a1) = poll_step(Lifecycle::EndFrame { message: closing }, Pending::Idle, time, PollEvent::Start, update_now, tick_now);
            let (s2, p2, t2, a2) = poll_step(s1, p1, t1, PollEvent::Synced(synced), update_now, tick_now);
            &&& a1 == PollAction::SendExitAndJoin
            &&& s2 == Lifecycle::ExitLoop
            &&& p2 == Pending::Idle
            &&& a2 == PollAction::Ready
        }),
{
}

/// A failed exchange with the renderer, or a window that has no more messages,
/// makes the application leave its loop.
pub proof fn lemma_failures_exit(state: Lifecycle, time: TimeView, update_now: u64, tick_now: u64)
    ensures
        poll_step(state, Pending::Sync, time, PollEvent::Synced(false), update_now, tick_now).0 == Lifecycle::ExitLoop,
        poll_step(state, Pending::Message, time, PollEvent::Message(None), update_now, tick_now).0 == Lifecycle::ExitLoop,
        forall|exit: bool| poll_step(state, Pending::EndFrame { exit }, time, PollEvent::Synced(false), update_now, tick_now).0 == Lifecycle::ExitLoop,
{
}

/// The poll protocol: each action that asks for outside work leaves the poll
/// waiting for exactly that work's outcome, a finished poll waits for nothing,
/// and a poll ends after at most three steps past `Start` (the outcome of a
/// message fetch or of a sync always ends it; that of an end-of-frame exchange
/// ends it or asks for the next message).
pub proof fn lemma_poll_protocol(
    state: Lifecycle,
    pending: Pending,
    time: TimeView,
    event: PollEvent,
    update_now: u64,
    tick_now: u64,
)
    requires
        expects(pending, event),
    ensures
        ({
            let (s, p, t, a) = poll_step(state, pending, time, event, update_now, tick_now);
            &&& (a == PollAction::NextMessage <==> p == Pending::Message)
            &&& (a == PollAction::SyncWithRenderer <==> p == Pending::Sync)
            &&& (a == PollAction::SendRenderData <==> p == (Pending::EndFrame { exit: false }))
            &&& (a == PollAction::SendExitAndJoin <==> p == (Pending::EndFrame { exit: true }))
            &&& (a == PollAction::Ready || a == PollAction::Finished <==> p == Pending::Idle)
            &&& (pending == Pending::Message || pending == Pending::Sync) ==> a == PollAction::Ready
            &&& pending is EndFrame ==> (a == PollAction::Ready || a == PollAction::NextMessage)
        }),
{
}

/// The early update of a frame updates the clock at its reading `update_now`:
/// both frame instants become `update_now`, the frame's delta is the time since
/// the previous frame (zero if the clock went back) and is added to the lag,
/// and the frame's tick count starts from zero. If that lag covers a tick (and
/// the bail threshold allows one), one fixed tick is taken at `tick_now` and the
/// frame goes to its fixed update; otherwise it goes straight to its update.
pub proof fn lemma_early_update_updates_the_clock(
    message: Option<WindowMessage>,
    time: TimeView,
    update_now: u64,
    tick_now: u64,
)
    requires
        time.past_delta_times.len() <= DELTA_WINDOW,
    ensures
        ({
            let (s, p, t, a) = poll_step(Lifecycle::EarlyUpdate { message }, Pending::Idle, time, PollEvent::Start, update_now, tick_now);
            let delta: u64 = if update_now >= time.previous_frame { (update_now - time.previous_frame) as u64 } else { 0 };
            let lag = time.lag_time + delta;
            &&& a == PollAction::Ready
            &&& p == Pending::Idle
            &&& t.current_frame == update_now
            &&& t.previous_frame == update_now
            &&& t.delta_time == delta
            &&& t.past_delta_times.last() == delta
            &&& t.tick_time == time.tick_time
            &&& (lag <= u64::MAX && lag >= time.tick_time && time.bail_threshold > 0) ==> {
                &&& s == (Lifecycle::FixedUpdate { message })
                &&& t.step_count == 1
                &&& t.lag_time == lag - time.tick_time
                &&& t.tick_previous_frame == tick_now
            }
            &&& (lag <= u64::MAX && !(lag >= time.tick_time && time.bail_threshold > 0)) ==> {
                &&& s == (Lifecycle::Update { message })
                &&& t.step_count == 0
                &&& t.lag_time == lag
            }
        }),
{
}

/// A fixed update takes another fixed tick at `tick_now`, spending one tick's
/// worth of lag, exactly while the lag covers a tick and the bail threshold
/// allows one more; otherwise the frame goes to its update with the clock as it
/// was.
pub proof fn lemma_fixed_update_takes_one_tick(
    message: Option<WindowMessage>,
    time: TimeView,
    update_now: u64,
    tick_now: u64,
)
    ensures
        ({
            let (s, p, t, a) = poll_step(Lifecycle::FixedUpdate { message }, Pending::Idle, time, PollEvent::Start, update_now, tick_now);
            &&& a == PollAction::Ready
            &&& p == Pending::Idle
            &&& (time.lag_time >= time.tick_time && time.step_count < time.bail_threshold) ==> {
                &&& s == (Lifecycle::FixedUpdate { message })
                &&& t.step_count == time.step_count + 1
                &&& t.lag_time == time.lag_time - time.tick_time
                &&& t.tick_previous_frame == tick_now
                &&& t.current_frame == time.current_frame
                &&& t.delta_time == time.delta_time
            }
            &&& !(time.lag_time >= time.tick_time && time.step_count < time.bail_threshold) ==> {
                &&& s == (Lifecycle::Update { message })
                &&& t == time
            }
        }),
{
}

/// Every step of a poll keeps the protocol's invariant.
pub proof fn lemma_poll_keeps_invariant(
    state: Lifecycle,
    pending: Pending,
    time: TimeView,
    event: PollEvent,
    update_now: u64,
    tick_now: u64,
)
    requires
        protocol_invariant(state, pending, time),
        expects(pending, event),
    ensures
        ({
            let (s, p, t, a) = poll_step(state, pending, time, event, update_now, tick_now);
            protocol_invariant(s, p, t)
        }),
{
}

/// Once the application has left its loop, every poll of a well-formed
/// application (whatever it was waiting for) finishes at once and changes
/// nothing, so every later poll finishes too.
pub proof fn lemma_exit_loop_absorbing(pending: Pending, time: TimeView, event: PollEvent, update_now: u64, tick_now: u64)
    requires
        protocol_invariant(Lifecycle::ExitLoop, pending, time),
        expects(pending, event),
    ensures
        poll_step(Lifecycle::ExitLoop, pending, time, event, update_now, tick_now)
            == (Lifecycle::ExitLoop, Pending::Idle, time, PollAction::Finished),
{
}

/// A well-formed application is in a state of the poll protocol.
pub proof fn lemma_wf_is_protocol(app: App)
    requires
        app.wf(),
    ensures
        protocol_invariant(app.state(), app.pending(), app.time_view()),
{
}

/// In the fixed-update stage the clock has taken between one and
/// bail-threshold ticks in the frame; every poll keeps that so, and at the
/// threshold the frame moves on to its update.
pub proof fn lemma_fixed_updates_bounded(
    state: Lifecycle,
    pending: Pending,
    time: TimeView,
    event: PollEvent,
    update_now: u64,
    tick_now: u64,
)
    requires
        expects(pending, event),
        state is FixedUpdate ==> 1 <= time.step_count <= time.bail_threshold,
    ensures
        ({
            let (s, p, t, a) = poll_step(state, pending, time, event, update_now, tick_now);
            &&& s is FixedUpdate ==> 1 <= t.step_count <= t.bail_threshold
            &&& (state is FixedUpdate && pending == Pending::Idle && time.step_count == time.bail_threshold) ==> s is Update
        }),
{
}

} // verus!
