//! Time bars: a bar closes at each boundary of a fixed interval.
//!
//! The aggregator owns no clock. It says which timer it needs, and is told
//! when that timer fires and when it will fire next.

use vstd::prelude::*;
use crate::aggregator::{BarAggregator, BarAggregatorCore, CoreState};
use crate::bar::{AggregationSource, Bar, BarSpecification, BarType, Instrument};
use crate::builder::BarBuilder;
use crate::types::{Price, Quantity, UnixNanos};

verus! {

/// The firing of a timer.
#[derive(Clone, Copy, Debug, PartialEq, Eq, Structural)]
pub struct TimeEvent {
    pub ts_event: UnixNanos,
    pub ts_init: UnixNanos,
}

/// What the aggregator asks of the clock.
#[derive(Debug, PartialEq, Eq)]
pub enum ClockAction {
    /// Set a timer that fires first at `start_time_ns` and then every
    /// `interval_ns`.
    SetTimer { name: String, interval_ns: u64, start_time_ns: UnixNanos },
    /// Cancel the timer of that name.
    CancelTimer { name: String },
}

/// The length of the interval of a time bar specification: the step times
/// the unit. `None` where the rule does not go by time.
pub open spec fn spec_bar_interval_ns(spec: BarSpecification) -> Option<int> {
    match spec.aggregation.spec_unit_nanos() {
        Some(unit) => Some(spec.step * unit),
        None => None,
    }
}

/// Whether the specification is one of time bars whose interval is positive
/// and can be counted in nanoseconds.
pub open spec fn is_time_spec(spec: BarSpecification) -> bool {
    spec_bar_interval_ns(spec) matches Some(interval) && 0 < interval <= i64::MAX
}

/// The interval in nanoseconds between the bars of `bar_type`. `None` unless
/// the bar type is one of time bars with an interval that is positive and
/// fits.
pub fn get_bar_interval_ns(bar_type: &BarType) -> (r: Option<UnixNanos>)
    ensures
        r is Some <==> is_time_spec(bar_type.spec),
        r matches Some(interval) ==> Some(interval as int) == spec_bar_interval_ns(bar_type.spec),
{
    match bar_type.spec.aggregation.unit_nanos() {
        Some(unit) => {
            let step: u64 = bar_type.spec.step as u64;
            let limit: u64 = 0x7fff_ffff_ffff_ffff;
            if step == 0 || step > limit / unit {
                proof {
                    if step != 0 {
                        assert(step * unit > i64::MAX) by (nonlinear_arith)
                            requires
                                step > limit / unit,
                                limit == i64::MAX,
                                unit > 0,
                        ;
                    }
                }
                None
            } else {
                proof {
                    assert(0 < step * unit <= i64::MAX) by (nonlinear_arith)
                        requires
                            0 < step <= limit / unit,
                            limit == i64::MAX,
                            unit > 0,
                    ;
                }
                Some(step * unit)
            }
        },
        None => None,
    }
}

/// The first multiple of `interval` that is not before `now`.
pub open spec fn first_boundary(now: int, interval: int) -> int
    recommends
        now >= 0,
        interval > 0,
{
    if now % interval == 0 {
        now
    } else {
        now - now % interval + interval
    }
}

/// `first_boundary` is a multiple of the interval, lies at or after `now`
/// and less than one interval after it, and no multiple of the interval lies
/// between `now` and it.
pub proof fn lemma_first_boundary(now: int, interval: int)
    requires
        now >= 0,
        interval > 0,
    ensures
        first_boundary(now, interval) % interval == 0,
        now <= first_boundary(now, interval) < now + interval,
        forall|m: int|
            now <= m && #[trigger] (m % interval) == 0 ==> first_boundary(now, interval) <= m,
{
    let rem = now % interval;
    let quot = now / interval;
    vstd::arithmetic::div_mod::lemma_fundamental_div_mod(now, interval);
    vstd::arithmetic::div_mod::lemma_mod_pos_bound(now, interval);
    let b = first_boundary(now, interval);
    if rem != 0 {
        assert(b == interval * (quot + 1)) by (nonlinear_arith)
            requires
                b == now - rem + interval,
                now == interval * quot + rem,
        ;
        vstd::arithmetic::div_mod::lemma_mod_multiples_basic(quot + 1, interval);
        assert(interval * (quot + 1) == (quot + 1) * interval) by (nonlinear_arith);
    }
    assert forall|m: int| now <= m && #[trigger] (m % interval) == 0 implies b <= m by {
        if m < b {
            // Then now <= m < b, so b is not now, and m lies strictly
            // between two neighbouring multiples.
            vstd::arithmetic::div_mod::lemma_fundamental_div_mod(m, interval);
            let mq = m / interval;
            assert(m == interval * mq);
            assert(b == interval * (quot + 1));
            assert(interval * quot < interval * mq) by {
                assert(interval * quot + rem <= interval * mq);
            }
            assert(quot < mq) by (nonlinear_arith)
                requires
                    interval * quot < interval * mq,
                    interval > 0,
            ;
            assert(interval * (quot + 1) <= interval * mq) by (nonlinear_arith)
                requires
                    quot + 1 <= mq,
                    interval > 0,
            ;
        }
    }
}

/// The time at which the timer of time bars first fires: the first interval
/// boundary at or after `now_ns`, boundaries being the multiples of the
/// interval since the Unix epoch. `None` where the interval is zero or the
/// boundary lies beyond the range of the timestamps.
pub fn get_time_bar_start(now_ns: UnixNanos, interval_ns: u64) -> (r: Option<UnixNanos>)
    ensures
        r is Some <==> interval_ns > 0 && first_boundary(now_ns as int, interval_ns as int)
            <= u64::MAX,
        r matches Some(start) ==> {
            &&& start == first_boundary(now_ns as int, interval_ns as int)
            &&& start % interval_ns == 0
            &&& now_ns <= start < now_ns + interval_ns
        },
{
    if interval_ns == 0 {
        return None;
    }
    proof {
        lemma_first_boundary(now_ns as int, interval_ns as int);
        vstd::arithmetic::div_mod::lemma_mod_decreases(now_ns as nat, interval_ns as nat);
    }
    let rem: u64 = now_ns % interval_ns;
    if rem == 0 {
        Some(now_ns)
    } else {
        let floor: u64 = now_ns - rem;
        if floor > u64::MAX - interval_ns {
            None
        } else {
            Some(floor + interval_ns)
        }
    }
}

/// The event timestamp of a time bar. A bar of a left-open interval that is
/// stamped on its close bears the time of the close; every other bar bears
/// the time at which it was opened.
pub open spec fn spec_bar_ts_event(
    is_left_open: bool,
    timestamp_on_close: bool,
    open_ns: UnixNanos,
    close_ns: UnixNanos,
) -> UnixNanos {
    if is_left_open && timestamp_on_close {
        close_ns
    } else {
        open_ns
    }
}

pub fn bar_ts_event(
    is_left_open: bool,
    timestamp_on_close: bool,
    open_ns: UnixNanos,
    close_ns: UnixNanos,
) -> (ts_event: UnixNanos)
    ensures
        ts_event == spec_bar_ts_event(is_left_open, timestamp_on_close, open_ns, close_ns),
{
    if is_left_open {
        if timestamp_on_close {
            close_ns
        } else {
            open_ns
        }
    } else {
        open_ns
    }
}

/// The state of a [`TimeBarAggregator`], as contracts see it.
pub struct TimeState {
    pub core: CoreState,
    pub build_with_no_updates: bool,
    pub timestamp_on_close: bool,
    pub is_left_open: bool,
    pub build_on_next_tick: bool,
    pub stored_open_ns: UnixNanos,
    pub stored_close_ns: UnixNanos,
    pub timer_name: Seq<char>,
    pub interval_ns: UnixNanos,
    pub next_close_ns: UnixNanos,
}

impl TimeState {
    /// The state of a time aggregator that has seen nothing yet. Its
    /// intervals are closed on the left, and its stored times are zero until
    /// the timer has closed a bar.
    pub open spec fn fresh(
        bar_type: BarType,
        size_precision: u8,
        await_partial: bool,
        build_with_no_updates: bool,
        timestamp_on_close: bool,
    ) -> TimeState {
        TimeState {
            core: CoreState::fresh(bar_type, size_precision, await_partial),
            build_with_no_updates,
            timestamp_on_close,
            is_left_open: false,
            build_on_next_tick: false,
            stored_open_ns: 0,
            stored_close_ns: 0,
            timer_name: bar_type.spec_string(),
            interval_ns: spec_bar_interval_ns(bar_type.spec).unwrap() as u64,
            next_close_ns: 0,
        }
    }

    /// The interval and the timer's name are those of the bar type; the
    /// prices of the bar in progress are in order and its volume is held at
    /// the size precision of the instrument; a bar is owed at the next
    /// update only while no update has been taken at all, and until then the
    /// stored times are zero.
    pub open spec fn wf(self) -> bool {
        &&& self.core.wf()
        &&& self.core.builder.ordered()
        &&& self.core.builder.precise()
        &&& is_time_spec(self.core.bar_type.spec)
        &&& Some(self.interval_ns as int) == spec_bar_interval_ns(self.core.bar_type.spec)
        &&& self.timer_name == self.core.bar_type.spec_string()
        &&& self.build_on_next_tick ==> !self.core.builder.initialized
        &&& !self.core.builder.initialized ==> self.stored_open_ns == 0 && self.stored_close_ns
            == 0 && self.next_close_ns == 0
    }

    /// The event timestamp of a bar closed by the timer firing at
    /// `fired_ns`.
    pub open spec fn timer_ts_event(self, fired_ns: UnixNanos) -> UnixNanos {
        spec_bar_ts_event(self.is_left_open, self.timestamp_on_close, self.stored_open_ns, fired_ns)
    }

    /// The event timestamp of a bar that was owed since the timer fired
    /// before the first update.
    pub open spec fn deferred_ts_event(self) -> UnixNanos {
        spec_bar_ts_event(
            self.is_left_open,
            self.timestamp_on_close,
            self.stored_open_ns,
            self.stored_close_ns,
        )
    }

    /// Whether the timer's firing leaves the bar for the next update: no
    /// update has been taken at all.
    pub open spec fn defers(self) -> bool {
        !self.core.builder.initialized
    }

    /// Whether the timer's firing is passed over: the bar is empty, and
    /// empty bars are not built.
    pub open spec fn skips(self) -> bool {
        !self.defers() && !self.build_with_no_updates && self.core.builder.count == 0
    }

    /// The timer fires: the state that follows, and the bar closed, if any.
    pub open spec fn build_bar(self, event: TimeEvent, next_time_ns: UnixNanos) -> (
        TimeState,
        Option<Bar>,
    ) {
        if self.defers() {
            (
                TimeState {
                    build_on_next_tick: true,
                    stored_close_ns: self.next_close_ns,
                    ..self
                },
                None,
            )
        } else if self.skips() {
            (self, None)
        } else {
            (
                TimeState {
                    core: self.core.with_builder(self.core.builder.built()),
                    stored_open_ns: event.ts_event,
                    next_close_ns: next_time_ns,
                    ..self
                },
                Some(
                    self.core.builder.bar(self.timer_ts_event(event.ts_event), event.ts_event),
                ),
            )
        }
    }

    /// One update of a time aggregator: the update goes into the bar, and
    /// the bar is closed at once where one is owed.
    pub open spec fn update(self, price: Price, size: Quantity, ts_event: UnixNanos) -> (
        TimeState,
        Seq<Bar>,
    ) {
        let taken = self.core.builder.update(price, size, ts_event);
        if self.build_on_next_tick {
            (
                TimeState {
                    core: self.core.with_builder(taken.built()),
                    build_on_next_tick: false,
                    stored_close_ns: 0,
                    ..self
                },
                seq![taken.bar(self.deferred_ts_event(), ts_event)],
            )
        } else {
            (TimeState { core: self.core.with_builder(taken), ..self }, Seq::empty())
        }
    }
}

/// Builds a bar at each boundary of the interval of its bar type.
pub struct TimeBarAggregator {
    core: BarAggregatorCore,
    build_with_no_updates: bool,
    timestamp_on_close: bool,
    is_left_open: bool,
    build_on_next_tick: bool,
    stored_open_ns: UnixNanos,
    stored_close_ns: UnixNanos,
    timer_name: String,
    interval_ns: UnixNanos,
    next_close_ns: UnixNanos,
}

impl View for TimeBarAggregator {
    type V = TimeState;

    closed spec fn view(&self) -> TimeState {
        TimeState {
            core: self.core@,
            build_with_no_updates: self.build_with_no_updates,
            timestamp_on_close: self.timestamp_on_close,
            is_left_open: self.is_left_open,
            build_on_next_tick: self.build_on_next_tick,
            stored_open_ns: self.stored_open_ns,
            stored_close_ns: self.stored_close_ns,
            timer_name: self.timer_name@,
            interval_ns: self.interval_ns,
            next_close_ns: self.next_close_ns,
        }
    }
}

impl TimeBarAggregator {
    /// Creates a time aggregator for the bars of `bar_type` on `instrument`.
    ///
    /// The bar type must name the instrument, be aggregated internally and
    /// be one of time bars (see `get_bar_interval_ns`). The intervals are
    /// closed on the left whatever `interval_type` says.
    pub fn new(
        instrument: &Instrument,
        bar_type: BarType,
        await_partial: bool,
        build_with_no_updates: bool,
        timestamp_on_close: bool,
        interval_type: &str,
    ) -> (aggregator: TimeBarAggregator)
        requires
            instrument.id@ == bar_type.instrument_id@,
            bar_type.aggregation_source == AggregationSource::Internal,
            is_time_spec(bar_type.spec),
        ensures
            aggregator@ == TimeState::fresh(
                bar_type,
                instrument.size_precision,
                await_partial,
                build_with_no_updates,
                timestamp_on_close,
            ),
            aggregator.wf(),
    {
        let timer_name = bar_type.to_string();
        let interval_ns: UnixNanos = get_bar_interval_ns(&bar_type).unwrap();
        TimeBarAggregator {
            core: BarAggregatorCore::new(instrument, bar_type, await_partial),
            build_with_no_updates,
            timestamp_on_close,
            is_left_open: false,
            build_on_next_tick: false,
            stored_open_ns: 0,
            stored_close_ns: 0,
            timer_name,
            interval_ns,
            next_close_ns: 0,
        }
    }

    /// Starts the aggregator at time `now_ns`: asks for a timer that fires
    /// at the first interval boundary at or after `now_ns` and then once
    /// every interval. `None` where that boundary lies beyond the range of
    /// the timestamps.
    pub fn start(&self, now_ns: UnixNanos) -> (r: Option<ClockAction>)
        requires
            self.wf(),
        ensures
            r is Some <==> first_boundary(now_ns as int, self@.interval_ns as int) <= u64::MAX,
            r matches Some(action) ==> {
                &&& action matches ClockAction::SetTimer { name, interval_ns, start_time_ns }
                &&& name@ == self@.timer_name
                &&& interval_ns == self@.interval_ns
                &&& start_time_ns == first_boundary(now_ns as int, self@.interval_ns as int)
            },
    {
        match get_time_bar_start(now_ns, self.interval_ns) {
            Some(start_time_ns) => Some(
                ClockAction::SetTimer {
                    name: self.timer_name.clone(),
                    interval_ns: self.interval_ns,
                    start_time_ns,
                },
            ),
            None => None,
        }
    }

    /// Stops the aggregator: asks for its timer to be cancelled. No bar is
    /// built.
    pub fn stop(&self) -> (action: ClockAction)
        ensures
            action matches ClockAction::CancelTimer { name } && name@ == self@.timer_name,
    {
        ClockAction::CancelTimer { name: self.timer_name.clone() }
    }

    /// The timer has fired, and will fire next at `next_time_ns`.
    ///
    /// Before the first update the bar is left for that update to close.
    /// An empty bar is passed over unless empty bars are built. Otherwise
    /// the bar is closed: it is initialized at the time of the firing, and
    /// its event timestamp is chosen by `bar_ts_event` between the time
    /// that the bar was opened and the time of the firing.
    pub fn build_bar(&mut self, event: TimeEvent, next_time_ns: UnixNanos) -> (bar: Option<Bar>)
        requires
            old(self).wf(),
        ensures
            final(self).wf(),
            final(self)@ == old(self)@.build_bar(event, next_time_ns).0,
            bar == old(self)@.build_bar(event, next_time_ns).1,
            bar is Some <==> !old(self)@.defers() && !old(self)@.skips(),
            bar matches Some(b) ==> {
                &&& b.prices_ordered()
                &&& b.volume.precision == old(self)@.core.builder.size_precision
                &&& b.ts_init == event.ts_event
                &&& b.ts_event == old(self)@.timer_ts_event(event.ts_event)
                &&& old(self)@.stored_open_ns <= event.ts_event ==> b.ts_event <= b.ts_init
            },
    {
        if !self.core.builder().initialized() {
            self.build_on_next_tick = true;
            self.stored_close_ns = self.next_close_ns;
            return None;
        }
        if !self.build_with_no_updates && self.core.builder().count() == 0 {
            return None;
        }
        let ts_init: UnixNanos = event.ts_event;
        let ts_event: UnixNanos = bar_ts_event(
            self.is_left_open,
            self.timestamp_on_close,
            self.stored_open_ns,
            event.ts_event,
        );
        let bar = self.core.build_and_send(ts_event, ts_init);
        self.stored_open_ns = event.ts_event;
        self.next_close_ns = next_time_ns;
        Some(bar)
    }

    /// The builder of the bar in progress.
    pub fn builder(&self) -> (r: &BarBuilder)
        ensures
            r@ == self@.core.builder,
    {
        self.core.builder()
    }

    pub fn timer_name(&self) -> (r: &str)
        ensures
            r@ == self@.timer_name,
    {
        self.timer_name.as_str()
    }

    pub fn interval_ns(&self) -> (r: UnixNanos)
        ensures
            r == self@.interval_ns,
    {
        self.interval_ns
    }

    pub fn is_left_open(&self) -> (r: bool)
        ensures
            r == self@.is_left_open,
    {
        self.is_left_open
    }

    /// Whether a bar is owed at the next update.
    pub fn build_on_next_tick(&self) -> (r: bool)
        ensures
            r == self@.build_on_next_tick,
    {
        self.build_on_next_tick
    }

    /// The time at which the bar in progress was opened.
    pub fn stored_open_ns(&self) -> (r: UnixNanos)
        ensures
            r == self@.stored_open_ns,
    {
        self.stored_open_ns
    }

    /// The time at which the bar that is owed should have closed.
    pub fn stored_close_ns(&self) -> (r: UnixNanos)
        ensures
            r == self@.stored_close_ns,
    {
        self.stored_close_ns
    }

    /// The time at which the timer fires next, as last told.
    pub fn next_close_ns(&self) -> (r: UnixNanos)
        ensures
            r == self@.next_close_ns,
    {
        self.next_close_ns
    }
}

impl BarAggregator for TimeBarAggregator {
    open spec fn wf(&self) -> bool {
        self@.wf()
    }

    open spec fn state_bar_type(state: TimeState) -> BarType {
        state.core.bar_type
    }

    open spec fn takes(state: TimeState, ts_event: UnixNanos) -> bool {
        state.core.builder.accepts(ts_event)
    }

    open spec fn fits(state: TimeState, size: Quantity, ts_event: UnixNanos) -> bool {
        state.core.builder.update_fits(size, ts_event)
    }

    open spec fn step(state: TimeState, price: Price, size: Quantity, ts_event: UnixNanos) -> (
        TimeState,
        Seq<Bar>,
    ) {
        state.update(price, size, ts_event)
    }

    fn bar_type(&self) -> (r: BarType) {
        self.core.bar_type().clone()
    }

    fn has_room(&self, size: Quantity, ts_event: UnixNanos) -> (b: bool) {
        self.core.builder().has_room(size, ts_event)
    }

    /// Takes the update. Where the timer fired before the first update, the
    /// bar is closed at once: it is initialized at the time of the update,
    /// and its event timestamp is chosen by `bar_ts_event` between the time
    /// that the bar was opened and the time at which it should have closed.
    /// Both are zero then, as no bar has been closed by the timer yet.
    fn update(&mut self, price: Price, size: Quantity, ts_event: UnixNanos) -> (bars: Vec<Bar>)
        ensures
            bars@.len() == (if old(self)@.build_on_next_tick { 1int } else { 0int }),
            forall|i: int|
                0 <= i < bars@.len() ==> {
                    &&& (#[trigger] bars@[i]).prices_ordered()
                    &&& bars@[i].ts_event == 0
                    &&& bars@[i].ts_init == ts_event
                    &&& bars@[i].open == price
                    &&& bars@[i].close == price
                    &&& bars@[i].volume.raw == size.raw
                },
    {
        let mut bars: Vec<Bar> = Vec::new();
        assert(Self::takes(self@, ts_event) == self@.core.builder.accepts(ts_event));
        self.core.apply_update(price, size, ts_event);
        if self.build_on_next_tick {
            let ts_init: UnixNanos = ts_event;
            let ts_event: UnixNanos = bar_ts_event(
                self.is_left_open,
                self.timestamp_on_close,
                self.stored_open_ns,
                self.stored_close_ns,
            );
            let bar = self.core.build_and_send(ts_event, ts_init);
            bars.push(bar);
            self.build_on_next_tick = false;
            self.stored_close_ns = 0;
        }
        bars
    }
}

} // verus!
