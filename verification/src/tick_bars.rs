//! Tick bars: a bar closes when it has taken a fixed number of updates.

use vstd::prelude::*;
use crate::aggregator::{BarAggregator, BarAggregatorCore, CoreState};
use crate::bar::{AggregationSource, Bar, BarType, Instrument};
use crate::builder::BarBuilder;
use crate::types::{Price, Quantity, UnixNanos};

verus! {

impl CoreState {
    /// The invariant of a tick aggregator: the bar in progress holds fewer
    /// updates than the step, its prices are in order, and its volume is
    /// held at the size precision of the instrument.
    pub open spec fn tick_wf(self) -> bool {
        &&& self.wf()
        &&& self.bar_type.spec.step > 0
        &&& self.builder.count < self.bar_type.spec.step
        &&& self.builder.ordered()
        &&& self.builder.precise()
    }

    /// One update of a tick aggregator: the update goes into the bar, and
    /// the bar is closed once it holds as many updates as the step.
    pub open spec fn tick_update(self, price: Price, size: Quantity, ts_event: UnixNanos) -> (
        CoreState,
        Seq<Bar>,
    ) {
        let taken = self.builder.update(price, size, ts_event);
        if taken.count >= self.bar_type.spec.step {
            (self.with_builder(taken.built()), seq![taken.bar(taken.ts_last, taken.ts_last)])
        } else {
            (self.with_builder(taken), Seq::empty())
        }
    }
}

/// Builds a bar from every `step` updates.
pub struct TickBarAggregator {
    core: BarAggregatorCore,
}

impl View for TickBarAggregator {
    type V = CoreState;

    closed spec fn view(&self) -> CoreState {
        self.core@
    }
}

impl TickBarAggregator {
    /// Creates a tick aggregator for the bars of `bar_type` on `instrument`.
    ///
    /// The bar type must name the instrument, be aggregated internally and
    /// have a positive step.
    pub fn new(instrument: &Instrument, bar_type: BarType, await_partial: bool) -> (aggregator:
        TickBarAggregator)
        requires
            instrument.id@ == bar_type.instrument_id@,
            bar_type.aggregation_source == AggregationSource::Internal,
            bar_type.spec.step > 0,
        ensures
            aggregator@ == CoreState::fresh(bar_type, instrument.size_precision, await_partial),
            aggregator.wf(),
    {
        TickBarAggregator { core: BarAggregatorCore::new(instrument, bar_type, await_partial) }
    }

    /// The builder of the bar in progress.
    pub fn builder(&self) -> (r: &BarBuilder)
        ensures
            r@ == self@.builder,
    {
        self.core.builder()
    }
}

impl BarAggregator for TickBarAggregator {
    open spec fn wf(&self) -> bool {
        self@.tick_wf()
    }

    open spec fn state_bar_type(state: CoreState) -> BarType {
        state.bar_type
    }

    open spec fn takes(state: CoreState, ts_event: UnixNanos) -> bool {
        state.builder.accepts(ts_event)
    }

    open spec fn fits(state: CoreState, size: Quantity, ts_event: UnixNanos) -> bool {
        state.builder.accepts(ts_event) ==> state.builder.volume.raw + size.raw <= u64::MAX
    }

    open spec fn step(state: CoreState, price: Price, size: Quantity, ts_event: UnixNanos) -> (
        CoreState,
        Seq<Bar>,
    ) {
        state.tick_update(price, size, ts_event)
    }

    fn bar_type(&self) -> (r: BarType) {
        self.core.bar_type().clone()
    }

    fn has_room(&self, size: Quantity, ts_event: UnixNanos) -> (b: bool) {
        let builder = self.core.builder();
        ts_event < builder.ts_last() || size.raw <= u64::MAX - builder.volume().raw
    }

    /// Takes the update, and closes the bar once it holds `step` updates.
    /// An update older than the last one taken is dropped.
    fn update(&mut self, price: Price, size: Quantity, ts_event: UnixNanos) -> (bars: Vec<Bar>)
        ensures
            bars@.len() <= 1,
            forall|i: int|
                0 <= i < bars@.len() ==> {
                    &&& (#[trigger] bars@[i]).prices_ordered()
                    &&& bars@[i].volume.precision == old(self)@.builder.size_precision
                    &&& bars@[i].close == price
                    &&& bars@[i].ts_event == ts_event
                    &&& bars@[i].ts_init == ts_event
                },
            old(self)@.builder.accepts(ts_event) ==> old(self)@.builder.count + 1
                == bars@.len() * old(self)@.bar_type.spec.step + final(self)@.builder.count,
            !old(self)@.builder.accepts(ts_event) ==> bars@.len() == 0 && final(self)@ == old(
                self,
            )@,
    {
        let mut bars: Vec<Bar> = Vec::new();
        self.core.apply_update(price, size, ts_event);
        if self.core.builder().count() >= self.core.bar_type().spec.step {
            let bar = self.core.build_now_and_send();
            bars.push(bar);
        }
        assert(Self::takes(old(self)@, ts_event) == old(self)@.builder.accepts(ts_event));
        bars
    }
}

} // verus!
