//! Volume bars: a bar closes when it has taken a fixed volume.

use vstd::prelude::*;
use crate::aggregator::{BarAggregator, BarAggregatorCore, CoreState};
use crate::bar::{AggregationSource, Bar, BarType, Instrument};
use crate::builder::{BarBuilder, BarBuilderState};
use crate::types::{raw_step, spec_raw_step, Price, Quantity, UnixNanos};

verus! {

/// The raw volumes of the bars, added up.
pub open spec fn total_volume(bars: Seq<Bar>) -> int
    decreases bars.len(),
{
    if bars.len() == 0 {
        0
    } else {
        total_volume(bars.drop_last()) + bars.last().volume.raw
    }
}

impl BarBuilderState {
    /// Spreads `remaining` raw units of size, traded at `price`, over the bar
    /// in progress and as many further bars as it takes: each bar is filled
    /// up to `raw_step` exactly and closed, and what is left over goes into
    /// the bar that stays in progress.
    pub open spec fn volume_split(
        self,
        raw_step: u64,
        price: Price,
        remaining: u64,
        precision: u8,
        ts_event: UnixNanos,
    ) -> (BarBuilderState, Seq<Bar>)
        decreases remaining,
    {
        if remaining == 0 || self.volume.raw >= raw_step {
            (self, Seq::empty())
        } else if self.volume.raw + remaining < raw_step {
            (self.update(price, Quantity { raw: remaining, precision }, ts_event), Seq::empty())
        } else {
            let slice = (raw_step - self.volume.raw) as u64;
            let filled = self.update(price, Quantity { raw: slice, precision }, ts_event);
            let rest = filled.built().volume_split(
                raw_step,
                price,
                (remaining - slice) as u64,
                precision,
                ts_event,
            );
            (rest.0, seq![filled.bar(filled.ts_last, filled.ts_last)] + rest.1)
        }
    }
}

impl CoreState {
    /// The raw volume at which a volume aggregator in this state closes a
    /// bar.
    pub open spec fn raw_step(self) -> u64 {
        spec_raw_step(self.bar_type.spec.step)
    }

    /// The invariant of a volume aggregator: the bar in progress holds less
    /// than the step's volume, its prices are in order, and its volume is
    /// held at the size precision of the instrument.
    pub open spec fn volume_wf(self) -> bool {
        &&& self.wf()
        &&& self.bar_type.spec.step > 0
        &&& self.builder.volume.raw < self.raw_step()
        &&& self.builder.ordered()
        &&& self.builder.precise()
    }

    /// One update of a volume aggregator: an update older than the last one
    /// taken is dropped; any other is spread over the bars it fills.
    pub open spec fn volume_update(self, price: Price, size: Quantity, ts_event: UnixNanos)
        -> (CoreState, Seq<Bar>) {
        if !self.builder.accepts(ts_event) {
            (self, Seq::empty())
        } else {
            let split = self.builder.volume_split(
                self.raw_step(),
                price,
                size.raw,
                size.precision,
                ts_event,
            );
            (self.with_builder(split.0), split.1)
        }
    }
}

/// What a split gives: the number of bars, what each holds, and what is left
/// in progress. Every closed bar holds `raw_step` exactly, bears the
/// update's price as its close and the update's timestamp; all but the
/// first hold nothing but this update.
pub proof fn lemma_volume_split(
    state: BarBuilderState,
    raw_step: u64,
    price: Price,
    remaining: u64,
    precision: u8,
    ts_event: UnixNanos,
)
    requires
        state.wf(),
        state.accepts(ts_event),
        state.volume.raw < raw_step,
    ensures
        ({
            let (after, bars) = state.volume_split(raw_step, price, remaining, precision, ts_event);
            &&& after.wf()
            &&& after.accepts(ts_event)
            &&& after.bar_type == state.bar_type
            &&& after.size_precision == state.size_precision
            &&& after.partial_set == state.partial_set
            &&& after.volume.raw < raw_step
            &&& state.ordered() ==> after.ordered()
            &&& state.precise() ==> after.precise()
            &&& state.initialized && state.can_build() ==> after.can_build()
            &&& remaining > 0 ==> after.initialized && after.can_build() && after.ts_last
                == ts_event
            &&& bars.len() == (state.volume.raw + remaining) / (raw_step as int)
            &&& after.volume.raw == (state.volume.raw + remaining) % (raw_step as int)
            &&& total_volume(bars) + after.volume.raw == state.volume.raw + remaining
            &&& forall|i: int|
                0 <= i < bars.len() ==> {
                    &&& (#[trigger] bars[i]).volume.raw == raw_step
                    &&& bars[i].bar_type == state.bar_type
                    &&& bars[i].close == price
                    &&& bars[i].ts_event == ts_event
                    &&& bars[i].ts_init == ts_event
                    &&& state.ordered() ==> bars[i].prices_ordered()
                    &&& state.precise() ==> bars[i].volume.precision == state.size_precision
                }
            &&& forall|i: int|
                1 <= i < bars.len() ==> {
                    &&& (#[trigger] bars[i]).open == price
                    &&& bars[i].high == price
                    &&& bars[i].low == price
                }
        }),
    decreases remaining,
{
    let step = raw_step as int;
    let held = state.volume.raw as int;
    if remaining == 0 {
        assert(held / step == 0 && held % step == held) by {
            vstd::arithmetic::div_mod::lemma_basic_div(held, step);
            vstd::arithmetic::div_mod::lemma_small_mod(held as nat, step as nat);
        }
        assert(total_volume(Seq::<Bar>::empty()) == 0);
    } else if held + remaining < step {
        assert((held + remaining) / step == 0 && (held + remaining) % step == held + remaining)
            by {
            vstd::arithmetic::div_mod::lemma_basic_div(held + remaining, step);
            vstd::arithmetic::div_mod::lemma_small_mod((held + remaining) as nat, step as nat);
        }
        assert(total_volume(Seq::<Bar>::empty()) == 0);
    } else {
        let slice = (step - held) as u64;
        let filled = state.update(price, Quantity { raw: slice, precision }, ts_event);
        let first = filled.bar(filled.ts_last, filled.ts_last);
        let left = (remaining - slice) as u64;
        let rest = filled.built().volume_split(raw_step, price, left, precision, ts_event);
        lemma_volume_split(filled.built(), raw_step, price, left, precision, ts_event);
        let bars = seq![first] + rest.1;
        let over = left as int;
        assert(held + remaining == step + over);
        assert((step + over) / step == 1 + over / step && (step + over) % step == over % step)
            by {
            vstd::arithmetic::div_mod::lemma_div_plus_one(over, step);
            vstd::arithmetic::div_mod::lemma_mod_add_multiples_vanish(over, step);
        }
        lemma_total_volume_prepend(first, rest.1);
        assert forall|i: int| 0 <= i < bars.len() implies {
            &&& (#[trigger] bars[i]).volume.raw == raw_step
            &&& bars[i].bar_type == state.bar_type
            &&& bars[i].close == price
            &&& bars[i].ts_event == ts_event
            &&& bars[i].ts_init == ts_event
            &&& state.ordered() ==> bars[i].prices_ordered()
            &&& state.precise() ==> bars[i].volume.precision == state.size_precision
        } by {
            if i > 0 {
                assert(bars[i] == rest.1[i - 1]);
            }
        }
        assert forall|i: int| 1 <= i < bars.len() implies {
            &&& (#[trigger] bars[i]).open == price
            &&& bars[i].high == price
            &&& bars[i].low == price
        } by {
            assert(bars[i] == rest.1[i - 1]);
            if i == 1 {
                lemma_first_after_close(filled.built(), raw_step, price, left, precision, ts_event);
            }
        }
    }
}

/// The first bar that a split closes from a builder that holds no prices
/// bears the update's price four times.
proof fn lemma_first_after_close(
    state: BarBuilderState,
    raw_step: u64,
    price: Price,
    remaining: u64,
    precision: u8,
    ts_event: UnixNanos,
)
    requires
        state.wf(),
        state.accepts(ts_event),
        state.open is None,
    ensures
        ({
            let bars = state.volume_split(raw_step, price, remaining, precision, ts_event).1;
            bars.len() > 0 ==> bars[0].open == price && bars[0].high == price && bars[0].low
                == price
        }),
{
}

/// The total volume of a sequence with one bar put in front.
proof fn lemma_total_volume_prepend(first: Bar, rest: Seq<Bar>)
    ensures
        total_volume(seq![first] + rest) == first.volume.raw + total_volume(rest),
    decreases rest.len(),
{
    let all = seq![first] + rest;
    if rest.len() == 0 {
        assert(all.drop_last() =~= Seq::<Bar>::empty());
        assert(total_volume(all.drop_last()) == 0);
    } else {
        assert(all.drop_last() =~= seq![first] + rest.drop_last());
        lemma_total_volume_prepend(first, rest.drop_last());
    }
}

/// Builds a bar each time the volume taken reaches `step` whole units.
pub struct VolumeBarAggregator {
    core: BarAggregatorCore,
}

impl View for VolumeBarAggregator {
    type V = CoreState;

    closed spec fn view(&self) -> CoreState {
        self.core@
    }
}

impl VolumeBarAggregator {
    /// Creates a volume aggregator for the bars of `bar_type` on
    /// `instrument`.
    ///
    /// The bar type must name the instrument, be aggregated internally and
    /// have a positive step.
    pub fn new(instrument: &Instrument, bar_type: BarType, await_partial: bool) -> (aggregator:
        VolumeBarAggregator)
        requires
            instrument.id@ == bar_type.instrument_id@,
            bar_type.aggregation_source == AggregationSource::Internal,
            bar_type.spec.step > 0,
        ensures
            aggregator@ == CoreState::fresh(bar_type, instrument.size_precision, await_partial),
            aggregator.wf(),
    {
        VolumeBarAggregator { core: BarAggregatorCore::new(instrument, bar_type, await_partial) }
    }

    /// The builder of the bar in progress.
    pub fn builder(&self) -> (r: &BarBuilder)
        ensures
            r@ == self@.builder,
    {
        self.core.builder()
    }
}

impl BarAggregator for VolumeBarAggregator {
    open spec fn wf(&self) -> bool {
        self@.volume_wf()
    }

    open spec fn state_bar_type(state: CoreState) -> BarType {
        state.bar_type
    }

    open spec fn takes(state: CoreState, ts_event: UnixNanos) -> bool {
        state.builder.accepts(ts_event)
    }

    open spec fn fits(state: CoreState, size: Quantity, ts_event: UnixNanos) -> bool {
        state.builder.accepts(ts_event) ==> state.builder.count < usize::MAX
    }

    open spec fn step(state: CoreState, price: Price, size: Quantity, ts_event: UnixNanos) -> (
        CoreState,
        Seq<Bar>,
    ) {
        state.volume_update(price, size, ts_event)
    }

    fn bar_type(&self) -> (r: BarType) {
        self.core.bar_type().clone()
    }

    fn has_room(&self, size: Quantity, ts_event: UnixNanos) -> (b: bool) {
        let builder = self.core.builder();
        ts_event < builder.ts_last() || builder.count() < usize::MAX
    }

    /// Spreads the size of the update over the bars that it fills: the bar
    /// in progress is filled up to the step exactly and closed, then as many
    /// whole bars as the rest of the size holds, and what is left over
    /// starts the next bar. An update older than the last one taken is
    /// dropped.
    fn update(&mut self, price: Price, size: Quantity, ts_event: UnixNanos) -> (bars: Vec<Bar>)
        ensures
            !old(self)@.builder.accepts(ts_event) ==> bars@.len() == 0 && final(self)@ == old(
                self,
            )@,
            old(self)@.builder.accepts(ts_event) ==> {
                &&& bars@.len() == (old(self)@.builder.volume.raw + size.raw) / (old(
                    self,
                )@.raw_step() as int)
                &&& final(self)@.builder.volume.raw == (old(self)@.builder.volume.raw + size.raw)
                    % (old(self)@.raw_step() as int)
                &&& total_volume(bars@) + final(self)@.builder.volume.raw == old(
                    self,
                )@.builder.volume.raw + size.raw
            },
            forall|i: int|
                0 <= i < bars@.len() ==> {
                    &&& (#[trigger] bars@[i]).volume.raw == old(self)@.raw_step()
                    &&& bars@[i].volume.precision == old(self)@.builder.size_precision
                    &&& bars@[i].prices_ordered()
                    &&& bars@[i].close == price
                    &&& bars@[i].ts_event == ts_event
                    &&& bars@[i].ts_init == ts_event
                },
            forall|i: int|
                1 <= i < bars@.len() ==> {
                    &&& (#[trigger] bars@[i]).open == price
                    &&& bars@[i].high == price
                    &&& bars@[i].low == price
                },
    {
        let mut bars: Vec<Bar> = Vec::new();
        assert(Self::takes(self@, ts_event) == self@.builder.accepts(ts_event));
        if ts_event < self.core.builder().ts_last() {
            return bars;
        }
        let step_raw: u64 = raw_step(self.core.bar_type().spec.step);
        let mut remaining: u64 = size.raw;
        let ghost start = self@;
        proof {
            lemma_volume_split(
                start.builder,
                step_raw,
                price,
                size.raw,
                size.precision,
                ts_event,
            );
        }
        while remaining > 0
            invariant
                self@.volume_wf(),
                self@.bar_type == start.bar_type,
                self@.await_partial == start.await_partial,
                step_raw == start.raw_step(),
                self@.builder.accepts(ts_event),
                remaining > 0 ==> self@.builder.count < usize::MAX,
                start.builder.volume_split(step_raw, price, size.raw, size.precision, ts_event).0
                    == self@.builder.volume_split(
                    step_raw,
                    price,
                    remaining,
                    size.precision,
                    ts_event,
                ).0,
                start.builder.volume_split(step_raw, price, size.raw, size.precision, ts_event).1
                    == bars@ + self@.builder.volume_split(
                    step_raw,
                    price,
                    remaining,
                    size.precision,
                    ts_event,
                ).1,
            decreases remaining,
        {
            let held: u64 = self.core.builder().volume().raw;
            let ghost before = self@.builder;
            let ghost emitted = bars@;
            if remaining < step_raw - held {
                self.core.apply_update(
                    price,
                    Quantity::from_raw(remaining, size.precision),
                    ts_event,
                );
                remaining = 0;
                proof {
                    assert(emitted + Seq::<Bar>::empty() =~= emitted);
                }
            } else {
                let slice: u64 = step_raw - held;
                self.core.apply_update(price, Quantity::from_raw(slice, size.precision), ts_event);
                let bar = self.core.build_now_and_send();
                bars.push(bar);
                remaining -= slice;
                proof {
                    let rest = self@.builder.volume_split(
                        step_raw,
                        price,
                        remaining,
                        size.precision,
                        ts_event,
                    ).1;
                    assert(emitted + (seq![bar] + rest) =~= emitted.push(bar) + rest);
                }
            }
        }
        proof {
            assert(bars@ + Seq::<Bar>::empty() =~= bars@);
        }
        bars
    }
}

} // verus!
