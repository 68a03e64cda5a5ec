//! The aggregator interface and the core that every aggregator owns.

use vstd::prelude::*;
use crate::bar::{AggregationSource, Bar, BarType, Instrument};
use crate::builder::{BarBuilder, BarBuilderState};
use crate::ticks::{QuoteTick, TradeTick};
use crate::types::{Price, Quantity, UnixNanos};

verus! {

/// What every bar aggregator does: it takes updates, drawn from quotes and
/// trades, and gives the bars that they complete, oldest first.
pub trait BarAggregator: View + Sized {
    /// The invariant of the aggregator.
    spec fn wf(&self) -> bool;

    /// The bar type of an aggregator in state `state`.
    spec fn state_bar_type(state: Self::V) -> BarType;

    /// Whether an aggregator in state `state` takes an update stamped
    /// `ts_event`, rather than dropping it as older than the last one taken.
    spec fn takes(state: Self::V, ts_event: UnixNanos) -> bool;

    /// Whether the counters of `state` have room for an update of `size` at
    /// `ts_event`.
    spec fn fits(state: Self::V, size: Quantity, ts_event: UnixNanos) -> bool;

    /// The state that an update leads to, and the bars that it completes.
    spec fn step(state: Self::V, price: Price, size: Quantity, ts_event: UnixNanos) -> (
        Self::V,
        Seq<Bar>,
    );

    fn bar_type(&self) -> (r: BarType)
        ensures
            r == Self::state_bar_type(self@),
    ;

    /// Whether the counters have room for an update of `size` at `ts_event`,
    /// so that `update` can be called with it.
    fn has_room(&self, size: Quantity, ts_event: UnixNanos) -> (b: bool)
        ensures
            b == Self::fits(self@, size, ts_event),
    ;

    /// Applies one update and returns the bars that it completes. An update
    /// that is not taken changes nothing and completes no bar.
    fn update(&mut self, price: Price, size: Quantity, ts_event: UnixNanos) -> (bars: Vec<Bar>)
        requires
            old(self).wf(),
            Self::fits(old(self)@, size, ts_event),
        ensures
            final(self).wf(),
            final(self)@ == Self::step(old(self)@, price, size, ts_event).0,
            bars@ == Self::step(old(self)@, price, size, ts_event).1,
            Self::state_bar_type(final(self)@) == Self::state_bar_type(old(self)@),
            !Self::takes(old(self)@, ts_event) ==> bars@.len() == 0 && final(self)@ == old(self)@,
    ;

    /// Applies the price and size that the bar type's price selector picks
    /// from the quote. Returns `None`, and changes nothing, where the
    /// selector picks none.
    fn handle_quote_tick(&mut self, quote: QuoteTick) -> (r: Option<Vec<Bar>>)
        requires
            old(self).wf(),
            ({
                let price_type = Self::state_bar_type(old(self)@).spec.price_type;
                quote.spec_extract_size(price_type) matches Some(size) ==> Self::fits(
                    old(self)@,
                    size,
                    quote.ts_event,
                )
            }),
        ensures
            final(self).wf(),
            ({
                let price_type = Self::state_bar_type(old(self)@).spec.price_type;
                match (quote.spec_extract_price(price_type), quote.spec_extract_size(price_type)) {
                    (Some(price), Some(size)) => {
                        &&& r matches Some(bars)
                        &&& final(self)@ == Self::step(old(self)@, price, size, quote.ts_event).0
                        &&& bars@ == Self::step(old(self)@, price, size, quote.ts_event).1
                    },
                    _ => r is None && final(self)@ == old(self)@,
                }
            }),
    {
        let price_type = self.bar_type().spec.price_type;
        match (quote.extract_price(price_type), quote.extract_size(price_type)) {
            (Some(price), Some(size)) => Some(self.update(price, size, quote.ts_event)),
            _ => None,
        }
    }

    /// Applies the price and size of the trade.
    fn handle_trade_tick(&mut self, trade: TradeTick) -> (bars: Vec<Bar>)
        requires
            old(self).wf(),
            Self::fits(old(self)@, trade.size, trade.ts_event),
        ensures
            final(self).wf(),
            final(self)@ == Self::step(old(self)@, trade.price, trade.size, trade.ts_event).0,
            bars@ == Self::step(old(self)@, trade.price, trade.size, trade.ts_event).1,
    {
        self.update(trade.price, trade.size, trade.ts_event)
    }
}

/// The state of a [`BarAggregatorCore`], as contracts see it.
pub struct CoreState {
    pub bar_type: BarType,
    pub builder: BarBuilderState,
    pub await_partial: bool,
}

impl CoreState {
    /// The state of a core that has seen nothing yet.
    pub open spec fn fresh(bar_type: BarType, size_precision: u8, await_partial: bool)
        -> CoreState {
        CoreState {
            bar_type,
            builder: BarBuilderState::fresh(bar_type, size_precision),
            await_partial,
        }
    }

    /// The builder is well formed and builds bars of the core's bar type;
    /// once it is initialized, a bar can be built at any time.
    pub open spec fn wf(self) -> bool {
        &&& self.builder.wf()
        &&& self.builder.bar_type == self.bar_type
        &&& self.builder.initialized ==> self.builder.can_build()
    }

    /// The state with another builder state.
    pub open spec fn with_builder(self, builder: BarBuilderState) -> CoreState {
        CoreState { builder, ..self }
    }
}

/// Holds the builder and the settings that every aggregator shares.
///
/// The bars it builds are returned to the caller, who passes them on.
/// `await_partial` is kept for the owner of the aggregator: it says that bars
/// should wait for `set_partial`, and no aggregator here consults it.
pub struct BarAggregatorCore {
    bar_type: BarType,
    builder: BarBuilder,
    await_partial: bool,
}

impl View for BarAggregatorCore {
    type V = CoreState;

    closed spec fn view(&self) -> CoreState {
        CoreState {
            bar_type: self.bar_type,
            builder: self.builder@,
            await_partial: self.await_partial,
        }
    }
}

impl BarAggregatorCore {
    /// Creates a core for the bars of `bar_type` on `instrument`.
    ///
    /// The bar type must name the instrument and be aggregated internally.
    pub fn new(instrument: &Instrument, bar_type: BarType, await_partial: bool) -> (core:
        BarAggregatorCore)
        requires
            instrument.id@ == bar_type.instrument_id@,
            bar_type.aggregation_source == AggregationSource::Internal,
        ensures
            core@ == CoreState::fresh(bar_type, instrument.size_precision, await_partial),
            core@.wf(),
            core@.builder.ordered(),
            core@.builder.precise(),
    {
        let builder = BarBuilder::new(instrument, bar_type.clone());
        BarAggregatorCore { bar_type, builder, await_partial }
    }

    pub fn set_await_partial(&mut self, value: bool)
        ensures
            final(self)@ == (CoreState { await_partial: value, ..old(self)@ }),
    {
        self.await_partial = value;
    }

    /// Seeds the bar in progress from a partly completed bar. Only the first
    /// call has an effect.
    pub fn set_partial(&mut self, partial_bar: Bar)
        requires
            old(self)@.wf(),
        ensures
            final(self)@ == old(self)@.with_builder(old(self)@.builder.set_partial(partial_bar)),
            final(self)@.wf(),
    {
        self.builder.set_partial(partial_bar);
    }

    /// Takes one update into the bar in progress.
    pub fn apply_update(&mut self, price: Price, size: Quantity, ts_event: UnixNanos)
        requires
            old(self)@.wf(),
            old(self)@.builder.update_fits(size, ts_event),
        ensures
            final(self)@ == old(self)@.with_builder(
                old(self)@.builder.update(price, size, ts_event),
            ),
            final(self)@.wf(),
    {
        self.builder.update(price, size, ts_event);
    }

    /// Builds the bar as of the last update taken, for the caller to send.
    pub fn build_now_and_send(&mut self) -> (bar: Bar)
        requires
            old(self)@.wf(),
            old(self)@.builder.can_build(),
        ensures
            bar == old(self)@.builder.bar(old(self)@.builder.ts_last, old(self)@.builder.ts_last),
            final(self)@ == old(self)@.with_builder(old(self)@.builder.built()),
            final(self)@.wf(),
    {
        self.builder.build_now()
    }

    /// Builds the bar with the given timestamps, for the caller to send.
    pub fn build_and_send(&mut self, ts_event: UnixNanos, ts_init: UnixNanos) -> (bar: Bar)
        requires
            old(self)@.wf(),
            old(self)@.builder.can_build(),
        ensures
            bar == old(self)@.builder.bar(ts_event, ts_init),
            final(self)@ == old(self)@.with_builder(old(self)@.builder.built()),
            final(self)@.wf(),
    {
        self.builder.build(ts_event, ts_init)
    }

    pub fn bar_type(&self) -> (r: &BarType)
        ensures
            *r == self@.bar_type,
    {
        &self.bar_type
    }

    pub fn builder(&self) -> (r: &BarBuilder)
        ensures
            r@ == self@.builder,
    {
        &self.builder
    }

    pub fn await_partial(&self) -> (r: bool)
        ensures
            r == self@.await_partial,
    {
        self.await_partial
    }
}

} // verus!
