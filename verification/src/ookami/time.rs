use vstd::prelude::*;
use arraydeque::ArrayDeque;

verus! {

/// How many of the most recent frame deltas the running average is taken over.
pub const DELTA_WINDOW: usize = 1024;

/// Nanoseconds in one second.
pub const NANOS_PER_SEC: u64 = 1_000_000_000;

/// The recent frame deltas, in nanoseconds, in a saturating `ArrayDeque` of
/// capacity 1024. Its contents are read through [`deque_items`] and changed only
/// through the deque functions below.
#[verifier::external_body]
pub struct DeltaWindow {
    deque: ArrayDeque<u64, 1024>,
}

#[verifier::external_type_specification]
#[verifier::external_body]
pub struct ExStdInstant(std::time::Instant);

/// What a deque of frame deltas holds, front first.
pub uninterp spec fn deque_items(d: DeltaWindow) -> Seq<u64>;

/// `ArrayDeque::new`: an empty deque.
#[verifier::external_body]
fn deque_new() -> (d: DeltaWindow)
    ensures
        deque_items(d) == Seq::<u64>::empty(),
{
    DeltaWindow { deque: ArrayDeque::new() }
}

/// `ArrayDeque::len` (saturating deque): the number of items held.
#[verifier::external_body]
fn deque_len(d: &DeltaWindow) -> (n: usize)
    ensures
        n == deque_items(*d).len(),
{
    d.deque.len()
}

/// `ArrayDeque::get`: the item at `index` counted from the front, if any.
#[verifier::external_body]
fn deque_get(d: &DeltaWindow, index: usize) -> (r: Option<u64>)
    ensures
        index < deque_items(*d).len() ==> r == Some(deque_items(*d)[index as int]),
        index >= deque_items(*d).len() ==> r is None,
{
    d.deque.get(index).copied()
}

/// `ArrayDeque::push_back` of a saturating deque of capacity 1024: appends at the
/// back when fewer than 1024 items are held, else leaves the deque as it was and
/// hands the element back in the error.
#[verifier::external_body]
fn deque_push_back(d: &mut DeltaWindow, element: u64) -> (r: Result<(), u64>)
    ensures
        deque_items(*old(d)).len() < 1024 ==> (r is Ok && deque_items(*final(d)) == deque_items(*old(d)).push(element)),
        deque_items(*old(d)).len() >= 1024 ==> (r matches Err(e) && e == element && deque_items(*final(d)) == deque_items(*old(d))),
{
    match d.deque.push_back(element) {
        Ok(()) => Ok(()),
        Err(e) => Err(e.element),
    }
}

/// `ArrayDeque::pop_front`: removes and returns the front item, if any.
#[verifier::external_body]
fn deque_pop_front(d: &mut DeltaWindow) -> (r: Option<u64>)
    ensures
        deque_items(*old(d)).len() == 0 ==> (r is None && deque_items(*final(d)) == deque_items(*old(d))),
        deque_items(*old(d)).len() > 0 ==> (r == Some(deque_items(*old(d))[0]) && deque_items(*final(d)) == deque_items(*old(d)).drop_first()),
{
    d.deque.pop_front()
}

/// `std::time::Instant::now`. Nothing is promised of the reading.
#[verifier::external_body]
fn instant_now() -> std::time::Instant {
    std::time::Instant::now()
}

/// `std::time::Instant::elapsed`, in whole nanoseconds. It depends on the clock, so
/// nothing is promised of the value.
#[verifier::external_body]
fn nanos_since(origin: &std::time::Instant) -> u64 {
    origin.elapsed().as_nanos() as u64
}

/// `a - b`, or zero when `b` is the later reading.
pub open spec fn saturating_diff(a: u64, b: u64) -> u64 {
    if a >= b {
        (a - b) as u64
    } else {
        0
    }
}

/// `a + b`, or `u64::MAX` when the sum does not fit.
pub open spec fn saturating_sum(a: u64, b: u64) -> u64 {
    if a + b > u64::MAX {
        u64::MAX
    } else {
        (a + b) as u64
    }
}

/// The sum of a sequence of nanosecond counts.
pub open spec fn seq_sum(s: Seq<u64>) -> int
    decreases s.len(),
{
    if s.len() == 0 {
        0
    } else {
        seq_sum(s.drop_last()) + s.last()
    }
}

/// The window of recent deltas after `delta` is recorded: the oldest entry gives
/// way once the window is full.
pub open spec fn record_delta(past: Seq<u64>, delta: u64) -> Seq<u64> {
    if past.len() < DELTA_WINDOW {
        past.push(delta)
    } else {
        past.drop_first().push(delta)
    }
}

/// The mean of the recorded deltas, rounded down (zero when none is recorded).
pub open spec fn mean(past: Seq<u64>) -> int {
    if past.len() == 0 {
        0
    } else {
        seq_sum(past) / (past.len() as int)
    }
}

/// The length of one fixed tick for a rate of `tick_rate` ticks per second: a
/// second divided by the rate, rounded to the nearest nanosecond (ties to even).
pub open spec fn tick_nanos(tick_rate: u32) -> u64 {
    let q = NANOS_PER_SEC / (tick_rate as u64);
    let rem = NANOS_PER_SEC % (tick_rate as u64);
    if 2 * rem > tick_rate || (2 * rem == tick_rate && q % 2 == 1) {
        (q + 1) as u64
    } else {
        q as u64
    }
}

/// The length of one fixed tick for a rate of `tick_rate` ticks per second.
fn tick_length(tick_rate: u32) -> (t: u64)
    requires
        tick_rate > 0,
    ensures
        t == tick_nanos(tick_rate),
{
    let rate = tick_rate as u64;
    let q = NANOS_PER_SEC / rate;
    let rem = NANOS_PER_SEC % rate;
    if 2 * rem > rate || (2 * rem == rate && q % 2 == 1) {
        q + 1
    } else {
        q
    }
}

/// The state of a [`Time`] as plain values; instants are nanoseconds since the
/// clock was started.
pub struct TimeView {
    pub tick_rate: u32,
    pub tick_time: u64,
    pub lag_time: u64,
    pub step_count: u32,
    pub bail_threshold: u32,
    pub previous_frame: u64,
    pub current_frame: u64,
    pub delta_time: u64,
    pub tick_previous_frame: u64,
    pub tick_current_frame: u64,
    pub tick_delta_time: u64,
    pub past_delta_times: Seq<u64>,
    pub average_delta_time: u64,
}

impl TimeView {
    /// The state after a frame update read `now` from the clock.
    pub open spec fn updated(self, now: u64) -> TimeView {
        let delta = saturating_diff(now, self.previous_frame);
        let past = record_delta(self.past_delta_times, delta);
        TimeView {
            current_frame: now,
            previous_frame: now,
            delta_time: delta,
            lag_time: saturating_sum(self.lag_time, delta),
            step_count: 0,
            past_delta_times: past,
            average_delta_time: mean(past) as u64,
            ..self
        }
    }

    /// The state after a fixed tick read `now` from the clock.
    pub open spec fn ticked(self, now: u64) -> TimeView {
        TimeView {
            tick_current_frame: now,
            tick_previous_frame: now,
            tick_delta_time: saturating_diff(now, self.tick_previous_frame),
            lag_time: (self.lag_time - self.tick_time) as u64,
            step_count: (self.step_count + 1) as u32,
            ..self
        }
    }

    /// Whether enough time has built up for another fixed tick in this frame.
    pub open spec fn should_tick(self) -> bool {
        self.lag_time >= self.tick_time && self.step_count < self.bail_threshold
    }
}

/// A fixed-timestep clock: frames of any length build up lag, which fixed ticks
/// of `tick_time` spend, at most `bail_threshold` ticks per frame.
pub struct Time {
    tick_rate: u32,
    tick_time: u64,
    lag_time: u64,
    step_count: u32,
    bail_threshold: u32,
    start_time: std::time::Instant,
    previous_frame: u64,
    current_frame: u64,
    delta_time: u64,
    tick_previous_frame: u64,
    tick_current_frame: u64,
    tick_delta_time: u64,
    past_delta_times: DeltaWindow,
    average_delta_time: u64,
}

impl View for Time {
    type V = TimeView;

    closed spec fn view(&self) -> TimeView {
        TimeView {
            tick_rate: self.tick_rate,
            tick_time: self.tick_time,
            lag_time: self.lag_time,
            step_count: self.step_count,
            bail_threshold: self.bail_threshold,
            previous_frame: self.previous_frame,
            current_frame: self.current_frame,
            delta_time: self.delta_time,
            tick_previous_frame: self.tick_previous_frame,
            tick_current_frame: self.tick_current_frame,
            tick_delta_time: self.tick_delta_time,
            past_delta_times: deque_items(self.past_delta_times),
            average_delta_time: self.average_delta_time,
        }
    }
}

impl Time {
    /// The window of recent deltas never holds more than its capacity.
    pub open spec fn wf(&self) -> bool {
        self@.past_delta_times.len() <= DELTA_WINDOW
    }

    /// A clock ticking `tick_rate` times per second that allows at most
    /// `bail_threshold` ticks per frame; every instant starts at the moment of
    /// creation.
    pub fn new(tick_rate: u32, bail_threshold: u32) -> (t: Time)
        requires
            tick_rate > 0,
        ensures
            t.wf(),
            t@ == (TimeView {
                tick_rate,
                tick_time: tick_nanos(tick_rate),
                lag_time: 0,
                step_count: 0,
                bail_threshold,
                previous_frame: 0,
                current_frame: 0,
                delta_time: 0,
                tick_previous_frame: 0,
                tick_current_frame: 0,
                tick_delta_time: 0,
                past_delta_times: Seq::empty(),
                average_delta_time: 0,
            }),
    {
        Time {
            tick_rate,
            tick_time: tick_length(tick_rate),
            lag_time: 0,
            step_count: 0,
            bail_threshold,
            start_time: instant_now(),
            previous_frame: 0,
            current_frame: 0,
            delta_time: 0,
            tick_previous_frame: 0,
            tick_current_frame: 0,
            tick_delta_time: 0,
            past_delta_times: deque_new(),
            average_delta_time: 0,
        }
    }

    /// Ticks per second.
    pub fn tick_rate(&self) -> (r: u32)
        ensures
            r == self@.tick_rate,
    {
        self.tick_rate
    }

    /// The length of one fixed tick, in nanoseconds.
    pub fn tick_time(&self) -> (r: u64)
        ensures
            r == self@.tick_time,
    {
        self.tick_time
    }

    /// The length of the last frame, in nanoseconds.
    pub fn delta(&self) -> (r: u64)
        ensures
            r == self@.delta_time,
    {
        self.delta_time
    }

    /// The mean length of the recent frames, in nanoseconds.
    pub fn average_delta(&self) -> (r: u64)
        ensures
            r == self@.average_delta_time,
    {
        self.average_delta_time
    }

    /// The time between the last two fixed ticks, in nanoseconds.
    pub fn delta_tick(&self) -> (r: u64)
        ensures
            r == self@.tick_delta_time,
    {
        self.tick_delta_time
    }

    /// The lag built up and not yet spent by fixed ticks, in nanoseconds.
    pub fn lag(&self) -> (r: u64)
        ensures
            r == self@.lag_time,
    {
        self.lag_time
    }

    /// The number of fixed ticks taken since the last frame update.
    pub fn step_count(&self) -> (r: u32)
        ensures
            r == self@.step_count,
    {
        self.step_count
    }

    /// A reading of the clock: nanoseconds since this `Time` was created.
    pub fn now(&self) -> u64 {
        nanos_since(&self.start_time)
    }

    /// Starts a new frame at clock reading `now`: the frame's delta is added to the
    /// lag and recorded in the window of recent deltas, whose mean becomes the
    /// average delta; the tick count of the frame starts again from zero.
    pub fn update(&mut self, now: u64)
        requires
            old(self).wf(),
        ensures
            final(self).wf(),
            final(self)@ == old(self)@.updated(now),
    {
        let delta = now.saturating_sub(self.previous_frame);
        self.current_frame = now;
        self.delta_time = delta;
        self.previous_frame = now;
        self.lag_time = self.lag_time.saturating_add(delta);
        self.step_count = 0;
        let ghost past = deque_items(self.past_delta_times);
        if let Err(element) = deque_push_back(&mut self.past_delta_times, delta) {
            let _ = deque_pop_front(&mut self.past_delta_times);
            let _ = deque_push_back(&mut self.past_delta_times, element);
        }
        assert(deque_items(self.past_delta_times) == record_delta(past, delta));
        self.average_delta_time = self.mean_of_recorded();
    }

    /// The mean of the recorded deltas, rounded down.
    fn mean_of_recorded(&self) -> (r: u64)
        requires
            self.wf(),
        ensures
            r == mean(self@.past_delta_times),
    {
        let len = deque_len(&self.past_delta_times);
        let ghost s = deque_items(self.past_delta_times);
        if len == 0 {
            return 0;
        }
        let mut sum: u128 = 0;
        let mut i: usize = 0;
        while i < len
            invariant
                s == deque_items(self.past_delta_times),
                len == s.len(),
                len <= DELTA_WINDOW,
                i <= len,
                sum == seq_sum(s.take(i as int)),
                sum <= i * (u64::MAX as int),
            decreases len - i,
        {
            let item = deque_get(&self.past_delta_times, i);
            let x = match item {
                Some(x) => x,
                None => 0,
            };
            assert(s.take(i + 1).drop_last() == s.take(i as int));
            assert(s.take(i + 1).last() == s[i as int]);
            proof {
                assert(sum + x <= (i + 1) * (u64::MAX as int)) by (nonlinear_arith)
                    requires
                        sum <= i * (u64::MAX as int),
                        x <= u64::MAX,
                ;
                assert((i + 1) * (u64::MAX as int) <= DELTA_WINDOW * (u64::MAX as int))
                    by (nonlinear_arith)
                    requires
                        i + 1 <= DELTA_WINDOW,
                ;
            }
            sum = sum + x as u128;
            i = i + 1;
        }
        assert(s.take(len as int) == s);
        let n = len as u128;
        proof {
            assert((sum as int) / (n as int) <= u64::MAX) by (nonlinear_arith)
                requires
                    sum <= n * (u64::MAX as int),
                    n > 0,
            ;
        }
        (sum / n) as u64
    }

    /// Takes one fixed tick at clock reading `now`, spending one tick's worth of lag.
    pub fn tick(&mut self, now: u64)
        requires
            old(self)@.lag_time >= old(self)@.tick_time,
            old(self)@.step_count < u32::MAX,
        ensures
            final(self)@ == old(self)@.ticked(now),
            final(self).wf() == old(self).wf(),
    {
        self.tick_current_frame = now;
        self.tick_delta_time = now.saturating_sub(self.tick_previous_frame);
        self.tick_previous_frame = now;
        self.lag_time = self.lag_time - self.tick_time;
        self.step_count = self.step_count + 1;
    }

    /// Whether another fixed tick is due in this frame: enough lag has built up and
    /// fewer than `bail_threshold` ticks were taken.
    pub fn should_do_tick(&self) -> (r: bool)
        ensures
            r == self@.should_tick(),
    {
        self.lag_time >= self.tick_time && self.step_count < self.bail_threshold
    }

    /// Starts a frame at `update_now`, then takes one fixed tick at `tick_now` when
    /// one is due, and says whether it did.
    pub fn next_tick(&mut self, update_now: u64, tick_now: u64) -> (r: bool)
        requires
            old(self).wf(),
        ensures
            final(self).wf(),
            r == old(self)@.updated(update_now).should_tick(),
            r ==> final(self)@ == old(self)@.updated(update_now).ticked(tick_now),
            !r ==> final(self)@ == old(self)@.updated(update_now),
    {
        self.update(update_now);
        if self.should_do_tick() {
            self.tick(tick_now);
            true
        } else {
            false
        }
    }
}

impl Default for Time {
    fn default() -> (t: Time)
        ensures
            t.wf(),
            t@.tick_rate == 128,
            t@.tick_time == tick_nanos(128),
            t@.bail_threshold == 1024,
            t@.lag_time == 0,
            t@.step_count == 0,
            t@.past_delta_times == Seq::<u64>::empty(),
    {
        Time::new(128, 1024)
    }
}

/// A stage of a game loop at which a hook runs.
#[derive(Debug, Copy, Clone, PartialEq, Eq, Structural)]
pub enum HookCall {
    Start,
    EarlyUpdate,
    FixedUpdate,
    Update,
    Stop,
}

/// The hooks a frame runs, in order: the early update, one fixed update for
/// each of its `ticks` fixed ticks, then the update.
pub open spec fn frame_calls(ticks: nat) -> Seq<HookCall> {
    seq![HookCall::EarlyUpdate] + Seq::new(ticks, |i: int| HookCall::FixedUpdate) + seq![HookCall::Update]
}

/// The callbacks a [`GameLoop`] runs at each stage of its frames. Each
/// callback records its run in [`GameHooks::calls`].
pub trait GameHooks {
    /// The callbacks run so far, oldest first. Hooks that keep no record have
    /// none to show, and cannot meet the callbacks' contracts in verified code.
    open spec fn calls(&self) -> Seq<HookCall> {
        Seq::empty()
    }

    /// Runs once, before the first frame.
    fn start(&mut self, time: &Time)
        ensures
            final(self).calls() == old(self).calls().push(HookCall::Start),
    ;

    /// Runs at the start of each frame, after the clock update.
    fn early_update(&mut self, time: &Time)
        ensures
            final(self).calls() == old(self).calls().push(HookCall::EarlyUpdate),
    ;

    /// Runs after each fixed tick.
    fn fixed_update(&mut self, time: &Time)
        ensures
            final(self).calls() == old(self).calls().push(HookCall::FixedUpdate),
    ;

    /// Runs at the end of each frame.
    fn update(&mut self, time: &Time)
        ensures
            final(self).calls() == old(self).calls().push(HookCall::Update),
    ;

    /// Runs once, after the last frame.
    fn stop(&mut self, time: &Time)
        ensures
            final(self).calls() == old(self).calls().push(HookCall::Stop),
    ;
}

/// Hooks that do nothing but record that they ran.
pub struct NoHooks {
    calls_log: Ghost<Seq<HookCall>>,
}

impl NoHooks {
    /// Hooks that have not run yet.
    pub fn new() -> (h: NoHooks)
        ensures
            h.calls() == Seq::<HookCall>::empty(),
    {
        NoHooks { calls_log: Ghost(Seq::empty()) }
    }
}

impl GameHooks for NoHooks {
    closed spec fn calls(&self) -> Seq<HookCall> {
        self.calls_log@
    }

    fn start(&mut self, time: &Time) {
        proof {
            self.calls_log@ = self.calls_log@.push(HookCall::Start);
        }
    }

    fn early_update(&mut self, time: &Time) {
        proof {
            self.calls_log@ = self.calls_log@.push(HookCall::EarlyUpdate);
        }
    }

    fn fixed_update(&mut self, time: &Time) {
        proof {
            self.calls_log@ = self.calls_log@.push(HookCall::FixedUpdate);
        }
    }

    fn update(&mut self, time: &Time) {
        proof {
            self.calls_log@ = self.calls_log@.push(HookCall::Update);
        }
    }

    fn stop(&mut self, time: &Time) {
        proof {
            self.calls_log@ = self.calls_log@.push(HookCall::Stop);
        }
    }
}

/// A fixed-timestep game loop: a clock and the hooks it drives.
pub struct GameLoop<H: GameHooks> {
    pub time: Time,
    pub hooks: H,
}

impl Default for GameLoop<NoHooks> {
    fn default() -> (g: GameLoop<NoHooks>)
        ensures
            g.time.wf(),
            g.time@.tick_rate == 128,
            g.time@.bail_threshold == 1024,
            g.time@.lag_time == 0,
            g.time@.step_count == 0,
            g.hooks.calls() == Seq::<HookCall>::empty(),
    {
        GameLoop { time: Time::new(128, 1024), hooks: NoHooks::new() }
    }
}

impl<H: GameHooks> GameLoop<H> {
    /// Runs the start hook.
    pub fn start(&mut self)
        ensures
            final(self).time == old(self).time,
            final(self).hooks.calls() == old(self).hooks.calls().push(HookCall::Start),
    {
        self.hooks.start(&self.time);
    }

    /// Runs the stop hook.
    pub fn stop(&mut self)
        ensures
            final(self).time == old(self).time,
            final(self).hooks.calls() == old(self).hooks.calls().push(HookCall::Stop),
    {
        self.hooks.stop(&self.time);
    }

    /// Runs one frame: updates the clock, runs the early hook, then takes fixed
    /// ticks (each followed by the fixed hook) while one is due, and last runs the
    /// update hook. Returns the number of fixed ticks taken.
    pub fn frame(&mut self) -> (ticks: u32)
        requires
            old(self).time.wf(),
        ensures
            final(self).time.wf(),
            ticks == final(self).time@.step_count,
            ticks <= old(self).time@.bail_threshold,
            !final(self).time@.should_tick(),
            final(self).time@ == old(self).time@.updated(final(self).time@.current_frame).ticked_times(ticks, final(self).time@),
            final(self).hooks.calls() == old(self).hooks.calls() + frame_calls(ticks as nat),
    {
        let ghost before = self.hooks.calls();
        let now = self.time.now();
        self.time.update(now);
        let ghost u = self.time@;
        self.hooks.early_update(&self.time);
        let mut ticks: u32 = 0;
        while self.time.should_do_tick()
            invariant
                self.time.wf(),
                ticks == self.time@.step_count,
                ticks <= u.bail_threshold,
                u.step_count == 0,
                ticks * u.tick_time <= u.lag_time,
                self.time@ == u.ticked_times(ticks, self.time@),
                self.hooks.calls() == before + seq![HookCall::EarlyUpdate] + Seq::new(ticks as nat, |i: int| HookCall::FixedUpdate),
            decreases u.bail_threshold - ticks,
        {
            let t = self.time.now();
            self.time.tick(t);
            proof {
                assert((ticks + 1) * u.tick_time == ticks * u.tick_time + u.tick_time)
                    by (nonlinear_arith);
            }
            ticks = ticks + 1;
            self.hooks.fixed_update(&self.time);
            assert(Seq::new(ticks as nat, |i: int| HookCall::FixedUpdate)
                =~= Seq::new((ticks - 1) as nat, |i: int| HookCall::FixedUpdate).push(HookCall::FixedUpdate));
        }
        self.hooks.update(&self.time);
        assert(self.hooks.calls() =~= before + frame_calls(ticks as nat));
        ticks
    }
}

impl TimeView {
    /// `self` after `n` fixed ticks, the last of which left the tick instants of
    /// `last`: only the lag, the tick count and the tick instants change.
    pub open spec fn ticked_times(self, n: u32, last: TimeView) -> TimeView {
        TimeView {
            lag_time: (self.lag_time - n * self.tick_time) as u64,
            step_count: (self.step_count + n) as u32,
            tick_current_frame: if n == 0 { self.tick_current_frame } else { last.tick_current_frame },
            tick_previous_frame: if n == 0 { self.tick_previous_frame } else { last.tick_previous_frame },
            tick_delta_time: if n == 0 { self.tick_delta_time } else { last.tick_delta_time },
            ..self
        }
    }
}

/// The window of recent deltas keeps the most recent ones: after a delta is
/// recorded it holds at most its capacity, ends with that delta, and is the tail
/// of the earlier window followed by the delta.
pub proof fn lemma_record_delta_window(past: Seq<u64>, delta: u64)
    requires
        past.len() <= DELTA_WINDOW,
    ensures
        record_delta(past, delta).len() == (if past.len() < DELTA_WINDOW { (past.len() + 1) as int } else { DELTA_WINDOW as int }),
        record_delta(past, delta).last() == delta,
        record_delta(past, delta) == past.push(delta).subrange(
            past.len() + 1 - record_delta(past, delta).len(),
            (past.len() + 1) as int,
        ),
{
    let r = record_delta(past, delta);
    assert(r =~= past.push(delta).subrange(past.len() + 1 - r.len(), (past.len() + 1) as int));
}

/// A fixed tick spends exactly one tick's worth of lag and counts one more step.
pub proof fn lemma_tick_spends_one_tick(v: TimeView, now: u64)
    requires
        v.lag_time >= v.tick_time,
        v.step_count < u32::MAX,
    ensures
        v.ticked(now).lag_time + v.tick_time == v.lag_time,
        v.ticked(now).step_count == v.step_count + 1,
        v.ticked(now).past_delta_times == v.past_delta_times,
        v.ticked(now).average_delta_time == v.average_delta_time,
{
}

/// Lag is conserved over a frame: the lag left after the frame's ticks, plus
/// the ticks' worth of lag spent, is the lag before the frame plus the frame's
/// delta (short of saturation at `u64::MAX`).
pub proof fn lemma_frame_conserves_lag(v: TimeView, now: u64, ticks: u32, last: TimeView)
    requires
        ticks * v.tick_time <= v.updated(now).lag_time,
        v.lag_time + saturating_diff(now, v.previous_frame) <= u64::MAX,
    ensures
        v.updated(now).ticked_times(ticks, last).lag_time + ticks * v.tick_time == v.lag_time + saturating_diff(now, v.previous_frame),
        v.updated(now).ticked_times(ticks, last).step_count == ticks,
{
}

/// A fixed tick taken at clock reading `now` moves both tick instants to `now`,
/// measures the time since the previous tick (zero if the clock went back),
/// spends one tick's worth of lag and counts one more step; the frame's own
/// readings and the record of frame deltas stay as they were.
pub proof fn lemma_tick_reads_the_clock(v: TimeView, now: u64)
    requires
        v.lag_time >= v.tick_time,
        v.step_count < u32::MAX,
    ensures
        v.ticked(now).tick_current_frame == now,
        v.ticked(now).tick_previous_frame == now,
        now >= v.tick_previous_frame ==> v.ticked(now).tick_delta_time == now - v.tick_previous_frame,
        now < v.tick_previous_frame ==> v.ticked(now).tick_delta_time == 0,
        v.ticked(now).lag_time == v.lag_time - v.tick_time,
        v.ticked(now).step_count == v.step_count + 1,
        v.ticked(now).tick_time == v.tick_time,
        v.ticked(now).tick_rate == v.tick_rate,
        v.ticked(now).bail_threshold == v.bail_threshold,
        v.ticked(now).current_frame == v.current_frame,
        v.ticked(now).previous_frame == v.previous_frame,
        v.ticked(now).delta_time == v.delta_time,
        v.ticked(now).past_delta_times == v.past_delta_times,
        v.ticked(now).average_delta_time == v.average_delta_time,
{
}

/// Two fixed ticks in a row, at readings `a` and then `b >= a`, measure
/// `b - a` between them.
pub proof fn lemma_consecutive_ticks_measure_their_gap(v: TimeView, a: u64, b: u64)
    requires
        v.lag_time >= 2 * v.tick_time,
        v.step_count + 2 <= u32::MAX,
        a <= b,
    ensures
        v.ticked(a).ticked(b).tick_delta_time == b - a,
        v.ticked(a).ticked(b).tick_previous_frame == b,
        v.ticked(a).ticked(b).lag_time == v.lag_time - 2 * v.tick_time,
        v.ticked(a).ticked(b).step_count == v.step_count + 2,
{
}

/// A frame update at clock reading `now` makes `now` both frame instants,
/// measures the frame's delta from the previous frame (zero if the clock went
/// back), adds it to the lag (short of saturation), appends it to the record of
/// deltas (dropping the oldest from a full record) and starts the frame's tick
/// count at zero; the tick length and the tick instants stay.
pub proof fn lemma_update_reads_the_clock(v: TimeView, now: u64)
    requires
        v.past_delta_times.len() <= DELTA_WINDOW,
    ensures
        v.updated(now).current_frame == now,
        v.updated(now).previous_frame == now,
        now >= v.previous_frame ==> v.updated(now).delta_time == now - v.previous_frame,
        now < v.previous_frame ==> v.updated(now).delta_time == 0,
        v.lag_time + v.updated(now).delta_time <= u64::MAX ==> v.updated(now).lag_time == v.lag_time + v.updated(now).delta_time,
        v.lag_time + v.updated(now).delta_time > u64::MAX ==> v.updated(now).lag_time == u64::MAX,
        v.updated(now).step_count == 0,
        v.updated(now).past_delta_times.last() == v.updated(now).delta_time,
        v.past_delta_times.len() < DELTA_WINDOW ==> v.updated(now).past_delta_times.len() == v.past_delta_times.len() + 1,
        v.past_delta_times.len() >= DELTA_WINDOW ==> v.updated(now).past_delta_times.len() == DELTA_WINDOW,
        v.updated(now).tick_time == v.tick_time,
        v.updated(now).tick_rate == v.tick_rate,
        v.updated(now).bail_threshold == v.bail_threshold,
        v.updated(now).tick_previous_frame == v.tick_previous_frame,
        v.updated(now).tick_current_frame == v.tick_current_frame,
        v.updated(now).tick_delta_time == v.tick_delta_time,
{
}

/// No frame takes more ticks than the bail threshold: once that many were
/// taken, no tick is due, however much lag is left.
pub proof fn lemma_bail_threshold_stops_ticks(v: TimeView)
    requires
        v.step_count >= v.bail_threshold,
    ensures
        !v.should_tick(),
{
}

/// The average delta is the mean of the recorded window, and a frame's delta is
/// the time since the previous frame (zero if the clock went back).
pub proof fn lemma_update_average(v: TimeView, now: u64)
    ensures
        v.updated(now).average_delta_time == mean(record_delta(v.past_delta_times, saturating_diff(now, v.previous_frame))) as u64,
        v.updated(now).delta_time == saturating_diff(now, v.previous_frame),
        now >= v.previous_frame ==> v.updated(now).delta_time == now - v.previous_frame,
        v.updated(now).step_count == 0,
{
}

} // verus!
