//! What holds over whole streams of updates.
//!
//! A stream is a sequence of updates, applied one after the other. The
//! functions here say what the builder and the aggregators have done once a
//! stream has gone through them.

use vstd::prelude::*;
use crate::aggregator::{BarAggregator, CoreState};
use crate::bar::{Bar, BarType};
use crate::builder::BarBuilderState;
use crate::tick_bars::TickBarAggregator;
use crate::time_bars::{TimeBarAggregator, TimeEvent, TimeState};
use crate::types::{Price, Quantity, UnixNanos};
use crate::volume_bars::{lemma_volume_split, total_volume, VolumeBarAggregator};

verus! {

/// One update of a stream.
pub struct Update {
    pub price: Price,
    pub size: Quantity,
    pub ts_event: UnixNanos,
}

/// The timestamp of the last update taken, after a stream has gone through
/// a builder that stood at `ts_last`.
pub open spec fn clock_after(ts_last: UnixNanos, updates: Seq<Update>) -> UnixNanos
    decreases updates.len(),
{
    if updates.len() == 0 {
        ts_last
    } else {
        let before = clock_after(ts_last, updates.drop_last());
        if updates.last().ts_event >= before {
            updates.last().ts_event
        } else {
            before
        }
    }
}

/// Whether the last update of the stream is taken: it is not older than the
/// last one taken before it.
pub open spec fn last_is_taken(ts_last: UnixNanos, updates: Seq<Update>) -> bool
    recommends
        updates.len() > 0,
{
    updates.last().ts_event >= clock_after(ts_last, updates.drop_last())
}

/// The number of updates of the stream that are taken.
pub open spec fn taken_count(ts_last: UnixNanos, updates: Seq<Update>) -> nat
    decreases updates.len(),
{
    if updates.len() == 0 {
        0
    } else {
        taken_count(ts_last, updates.drop_last()) + if last_is_taken(ts_last, updates) {
            1nat
        } else {
            0nat
        }
    }
}

impl BarBuilderState {
    /// The state after every update of the stream, in order.
    pub open spec fn update_all(self, updates: Seq<Update>) -> BarBuilderState
        decreases updates.len(),
    {
        if updates.len() == 0 {
            self
        } else {
            self.update_all(updates.drop_last()).update(
                updates.last().price,
                updates.last().size,
                updates.last().ts_event,
            )
        }
    }
}

/// The state of an aggregator after every update of the stream, and the bars
/// that the stream completed, oldest first.
pub open spec fn run<A: BarAggregator>(state: A::V, updates: Seq<Update>) -> (A::V, Seq<Bar>)
    decreases updates.len(),
{
    if updates.len() == 0 {
        (state, Seq::empty())
    } else {
        let before = run::<A>(state, updates.drop_last());
        let last = A::step(
            before.0,
            updates.last().price,
            updates.last().size,
            updates.last().ts_event,
        );
        (last.0, before.1 + last.1)
    }
}

/// The number of updates of the stream that the aggregator takes, rather
/// than dropping them as older than the last one taken.
pub open spec fn taken_by<A: BarAggregator>(start: A::V, updates: Seq<Update>) -> nat
    decreases updates.len(),
{
    if updates.len() == 0 {
        0
    } else {
        taken_by::<A>(start, updates.drop_last()) + if A::takes(
            run::<A>(start, updates.drop_last()).0,
            updates.last().ts_event,
        ) {
            1nat
        } else {
            0nat
        }
    }
}

/// The raw sizes of the updates of the stream that the aggregator takes,
/// added up.
pub open spec fn size_taken_by<A: BarAggregator>(start: A::V, updates: Seq<Update>) -> int
    decreases updates.len(),
{
    if updates.len() == 0 {
        0
    } else {
        size_taken_by::<A>(start, updates.drop_last()) + if A::takes(
            run::<A>(start, updates.drop_last()).0,
            updates.last().ts_event,
        ) {
            updates.last().size.raw as int
        } else {
            0
        }
    }
}

/// However a stream goes through a builder, the bar built after it has its
/// prices in order: `low <= open <= high` and `low <= close <= high`.
pub proof fn lemma_built_bar_prices_ordered(
    start: BarBuilderState,
    updates: Seq<Update>,
    ts_event: UnixNanos,
    ts_init: UnixNanos,
)
    requires
        start.wf(),
        start.ordered(),
        start.update_all(updates).can_build(),
    ensures
        start.update_all(updates).wf(),
        start.update_all(updates).ordered(),
        start.update_all(updates).bar(ts_event, ts_init).prices_ordered(),
{
    lemma_update_all_keeps_order(start, updates);
}

/// A stream of updates keeps a builder well formed and its prices in order.
pub proof fn lemma_update_all_keeps_order(start: BarBuilderState, updates: Seq<Update>)
    requires
        start.wf(),
        start.ordered(),
    ensures
        start.update_all(updates).wf(),
        start.update_all(updates).ordered(),
    decreases updates.len(),
{
    if updates.len() > 0 {
        lemma_update_all_keeps_order(start, updates.drop_last());
    }
}

/// The timestamp of the last update taken never goes back, and it is the
/// clock of the stream.
pub proof fn lemma_ts_last_never_goes_back(start: BarBuilderState, updates: Seq<Update>)
    ensures
        start.update_all(updates).ts_last == clock_after(start.ts_last, updates),
        start.update_all(updates).ts_last >= start.ts_last,
        updates.len() > 0 ==> start.update_all(updates).ts_last >= start.update_all(
            updates.drop_last(),
        ).ts_last,
    decreases updates.len(),
{
    if updates.len() > 0 {
        lemma_ts_last_never_goes_back(start, updates.drop_last());
    }
}

/// An update older than the last one taken changes nothing: neither the
/// count nor anything else.
pub proof fn lemma_late_update_changes_nothing(
    state: BarBuilderState,
    price: Price,
    size: Quantity,
    ts_event: UnixNanos,
)
    requires
        ts_event < state.ts_last,
    ensures
        state.update(price, size, ts_event) == state,
{
}

/// The count goes up by one for each update taken, and by nothing else.
pub proof fn lemma_count_counts_taken(start: BarBuilderState, updates: Seq<Update>)
    requires
        start.count + taken_count(start.ts_last, updates) <= usize::MAX,
    ensures
        start.update_all(updates).count == start.count + taken_count(start.ts_last, updates),
    decreases updates.len(),
{
    if updates.len() > 0 {
        lemma_count_counts_taken(start, updates.drop_last());
        lemma_ts_last_never_goes_back(start, updates.drop_last());
    }
}

/// A partial bar whose prices are in order leaves the prices of the builder
/// in order.
pub proof fn lemma_set_partial_keeps_order(state: BarBuilderState, partial_bar: Bar)
    requires
        state.wf(),
        state.ordered(),
        partial_bar.prices_ordered(),
    ensures
        state.set_partial(partial_bar).wf(),
        state.set_partial(partial_bar).ordered(),
{
}

/// A second partial bar changes nothing, whatever it holds.
pub proof fn lemma_set_partial_idempotent(state: BarBuilderState, first: Bar, second: Bar)
    ensures
        state.set_partial(first).set_partial(second) == state.set_partial(first),
        state.set_partial(first).set_partial(first) == state.set_partial(first),
{
}

/// What a tick aggregator has done after a stream: with `k` the step, it
/// has closed `(c + n) / k` bars, where `c` is the count it started with and
/// `n` the number of updates taken. It takes the updates that a builder
/// alone would take. Every bar has its prices in order.
pub proof fn lemma_tick_bar_count(start: CoreState, updates: Seq<Update>)
    requires
        start.tick_wf(),
    ensures
        ({
            let (after, bars) = run::<TickBarAggregator>(start, updates);
            let step = start.bar_type.spec.step as int;
            let taken = taken_by::<TickBarAggregator>(start, updates);
            &&& after.tick_wf()
            &&& after.bar_type == start.bar_type
            &&& after.builder.size_precision == start.builder.size_precision
            &&& after.builder.ts_last == clock_after(start.builder.ts_last, updates)
            &&& after.builder.ts_last >= start.builder.ts_last
            &&& taken == taken_count(start.builder.ts_last, updates)
            &&& bars.len() * step + after.builder.count == start.builder.count + taken
            &&& bars.len() == (start.builder.count + taken) / step
            &&& after.builder.count == (start.builder.count + taken) % step
            &&& forall|i: int|
                0 <= i < bars.len() ==> (#[trigger] bars[i]).prices_ordered()
                    && bars[i].volume.precision == start.builder.size_precision
        }),
    decreases updates.len(),
{
    let step = start.bar_type.spec.step as int;
    if updates.len() > 0 {
        lemma_tick_bar_count(start, updates.drop_last());
        let before = run::<TickBarAggregator>(start, updates.drop_last());
        let last = before.0.tick_update(
            updates.last().price,
            updates.last().size,
            updates.last().ts_event,
        );
        let bars = before.1 + last.1;
        assert(bars.len() * step == before.1.len() * step + last.1.len() * step)
            by (nonlinear_arith)
            requires
                bars.len() == before.1.len() + last.1.len(),
        ;
        assert(last.1.len() * step == (if last.1.len() == 0 {
            0
        } else {
            step
        })) by (nonlinear_arith)
            requires
                last.1.len() <= 1,
        ;
    }
    let (after, bars) = run::<TickBarAggregator>(start, updates);
    let taken = taken_by::<TickBarAggregator>(start, updates);
    vstd::arithmetic::div_mod::lemma_fundamental_div_mod_converse(
        start.builder.count + taken,
        step,
        bars.len() as int,
        after.builder.count as int,
    );
}

/// From a fresh tick aggregator with step `k`, a stream of which `n` updates
/// are taken closes `n / k` bars.
pub proof fn lemma_fresh_tick_bar_count(
    bar_type: BarType,
    size_precision: u8,
    await_partial: bool,
    updates: Seq<Update>,
)
    requires
        bar_type.spec.step > 0,
    ensures
        ({
            let start = CoreState::fresh(bar_type, size_precision, await_partial);
            run::<TickBarAggregator>(start, updates).1.len() == taken_by::<TickBarAggregator>(
                start,
                updates,
            ) / (bar_type.spec.step as nat)
        }),
{
    lemma_tick_bar_count(CoreState::fresh(bar_type, size_precision, await_partial), updates);
}

/// The total volume of two sequences of bars, one after the other.
pub proof fn lemma_total_volume_concat(first: Seq<Bar>, second: Seq<Bar>)
    ensures
        total_volume(first + second) == total_volume(first) + total_volume(second),
    decreases second.len(),
{
    if second.len() == 0 {
        assert(first + second =~= first);
    } else {
        assert((first + second).drop_last() =~= first + second.drop_last());
        lemma_total_volume_concat(first, second.drop_last());
    }
}

/// A volume aggregator loses no volume and makes none up: the volume of the
/// bars closed and the volume in progress add up to the volume it started
/// with and the sizes of the updates taken, to the raw unit. Every bar
/// holds the step's volume exactly and has its prices in order.
pub proof fn lemma_volume_is_conserved(start: CoreState, updates: Seq<Update>)
    requires
        start.volume_wf(),
    ensures
        ({
            let (after, bars) = run::<VolumeBarAggregator>(start, updates);
            let taken = size_taken_by::<VolumeBarAggregator>(start, updates);
            &&& after.volume_wf()
            &&& after.bar_type == start.bar_type
            &&& after.builder.size_precision == start.builder.size_precision
            &&& after.builder.ts_last >= start.builder.ts_last
            &&& total_volume(bars) + after.builder.volume.raw == start.builder.volume.raw + taken
            &&& bars.len() == (start.builder.volume.raw + taken) / (start.raw_step() as int)
            &&& after.builder.volume.raw == (start.builder.volume.raw + taken) % (
            start.raw_step() as int)
            &&& forall|i: int|
                0 <= i < bars.len() ==> (#[trigger] bars[i]).volume.raw == start.raw_step()
                    && bars[i].volume.precision == start.builder.size_precision
                    && bars[i].prices_ordered()
        }),
    decreases updates.len(),
{
    let raw_step = start.raw_step();
    let step = raw_step as int;
    if updates.len() == 0 {
        assert(total_volume(Seq::<Bar>::empty()) == 0);
    } else {
        lemma_volume_is_conserved(start, updates.drop_last());
        let before = run::<VolumeBarAggregator>(start, updates.drop_last());
        let u = updates.last();
        let last = before.0.volume_update(u.price, u.size, u.ts_event);
        if before.0.builder.accepts(u.ts_event) {
            lemma_volume_split(
                before.0.builder,
                raw_step,
                u.price,
                u.size.raw,
                u.size.precision,
                u.ts_event,
            );
        } else {
            assert(total_volume(Seq::<Bar>::empty()) == 0);
        }
        lemma_total_volume_concat(before.1, last.1);
    }
    let (after, bars) = run::<VolumeBarAggregator>(start, updates);
    let taken = size_taken_by::<VolumeBarAggregator>(start, updates);
    lemma_total_volume_of_full_bars(bars, raw_step);
    vstd::arithmetic::div_mod::lemma_fundamental_div_mod_converse(
        start.builder.volume.raw + taken,
        step,
        bars.len() as int,
        after.builder.volume.raw as int,
    );
}

/// Bars that each hold `raw_step` hold `raw_step` times their number.
pub proof fn lemma_total_volume_of_full_bars(bars: Seq<Bar>, raw_step: u64)
    requires
        forall|i: int| 0 <= i < bars.len() ==> (#[trigger] bars[i]).volume.raw == raw_step,
    ensures
        total_volume(bars) == bars.len() * raw_step,
    decreases bars.len(),
{
    if bars.len() > 0 {
        let front = bars.drop_last();
        assert forall|i: int| 0 <= i < front.len() implies (#[trigger] front[i]).volume.raw
            == raw_step by {
            assert(front[i] == bars[i]);
        }
        lemma_total_volume_of_full_bars(front, raw_step);
        assert(bars.len() * raw_step == front.len() * raw_step + raw_step) by (nonlinear_arith)
            requires
                bars.len() == front.len() + 1,
        ;
    }
}

/// What reaches a time aggregator: an update, or the firing of its timer.
pub enum TimeInput {
    Update(Update),
    Timer { event: TimeEvent, next_time_ns: UnixNanos },
}

impl TimeState {
    /// The state after one input, and the bars that it closed.
    pub open spec fn feed(self, input: TimeInput) -> (TimeState, Seq<Bar>) {
        match input {
            TimeInput::Update(u) => self.update(u.price, u.size, u.ts_event),
            TimeInput::Timer { event, next_time_ns } => {
                let fired = self.build_bar(event, next_time_ns);
                (
                    fired.0,
                    match fired.1 {
                        Some(bar) => seq![bar],
                        None => Seq::empty(),
                    },
                )
            },
        }
    }

    /// The state after every input of the stream, and the bars that the
    /// stream closed, oldest first.
    pub open spec fn feed_all(self, inputs: Seq<TimeInput>) -> (TimeState, Seq<Bar>)
        decreases inputs.len(),
    {
        if inputs.len() == 0 {
            (self, Seq::empty())
        } else {
            let before = self.feed_all(inputs.drop_last());
            let last = before.0.feed(inputs.last());
            (last.0, before.1 + last.1)
        }
    }
}

/// However updates and timer firings reach a time aggregator, every bar it
/// closes has its prices in order, and the timestamp of the last update
/// taken never goes back.
pub proof fn lemma_time_bars_prices_ordered(start: TimeState, inputs: Seq<TimeInput>)
    requires
        start.wf(),
    ensures
        ({
            let (after, bars) = start.feed_all(inputs);
            &&& after.wf()
            &&& after.core.bar_type == start.core.bar_type
            &&& after.core.builder.size_precision == start.core.builder.size_precision
            &&& after.core.builder.ts_last >= start.core.builder.ts_last
            &&& forall|i: int|
                0 <= i < bars.len() ==> (#[trigger] bars[i]).prices_ordered()
                    && bars[i].volume.precision == start.core.builder.size_precision
        }),
    decreases inputs.len(),
{
    if inputs.len() > 0 {
        lemma_time_bars_prices_ordered(start, inputs.drop_last());
    }
}

/// What `run` says of a time aggregator is what `feed_all` says of the same
/// updates with no timer firing between them.
pub proof fn lemma_time_run_is_feed_all(start: TimeState, updates: Seq<Update>)
    ensures
        run::<TimeBarAggregator>(start, updates) == start.feed_all(
            updates.map_values(|u: Update| TimeInput::Update(u)),
        ),
    decreases updates.len(),
{
    let inputs = updates.map_values(|u: Update| TimeInput::Update(u));
    if updates.len() > 0 {
        lemma_time_run_is_feed_all(start, updates.drop_last());
        assert(inputs.drop_last() =~= updates.drop_last().map_values(
            |u: Update| TimeInput::Update(u),
        ));
    }
}

} // verus!
