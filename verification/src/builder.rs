//! The bar builder: OHLCV state accumulated over updates.

use vstd::prelude::*;
use crate::bar::{AggregationSource, Bar, BarType, Instrument};
use crate::types::{Price, Quantity, UnixNanos};

verus! {

/// The state of a [`BarBuilder`], as contracts see it.
pub struct BarBuilderState {
    pub bar_type: BarType,
    pub size_precision: u8,
    pub initialized: bool,
    pub ts_last: UnixNanos,
    pub count: usize,
    pub partial_set: bool,
    pub last_close: Option<Price>,
    pub open: Option<Price>,
    pub high: Option<Price>,
    pub low: Option<Price>,
    pub close: Option<Price>,
    pub volume: Quantity,
}

impl BarBuilderState {
    /// The state of a builder that has seen nothing yet.
    pub open spec fn fresh(bar_type: BarType, size_precision: u8) -> BarBuilderState {
        BarBuilderState {
            bar_type,
            size_precision,
            initialized: false,
            ts_last: 0,
            count: 0,
            partial_set: false,
            last_close: None,
            open: None,
            high: None,
            low: None,
            close: None,
            volume: Quantity::spec_zero(size_precision),
        }
    }

    /// The four prices are set together or not at all; a builder that holds
    /// no open price holds no update either; one that was never initialized
    /// has seen no timestamp and no bar.
    pub open spec fn wf(self) -> bool {
        &&& self.open is Some <==> self.high is Some
        &&& self.open is Some <==> self.low is Some
        &&& self.open is Some <==> self.close is Some
        &&& self.open is Some ==> self.initialized
        &&& self.open is None ==> self.count == 0 && self.volume.raw == 0
        &&& !self.initialized ==> self.ts_last == 0 && self.last_close is None
    }

    /// `low <= open <= high` and `low <= close <= high`, where the prices are
    /// set.
    pub open spec fn ordered(self) -> bool {
        self.open is Some ==> {
            &&& self.low->0.raw <= self.open->0.raw <= self.high->0.raw
            &&& self.low->0.raw <= self.close->0.raw <= self.high->0.raw
        }
    }

    /// The volume is held at the size precision of the instrument.
    pub open spec fn precise(self) -> bool {
        self.volume.precision == self.size_precision
    }

    /// Whether an update stamped `ts_event` is taken: it is dropped when it
    /// is older than the last one taken.
    pub open spec fn accepts(self, ts_event: UnixNanos) -> bool {
        ts_event >= self.ts_last
    }

    /// Whether the counters have room for an update of `size` at `ts_event`.
    pub open spec fn update_fits(self, size: Quantity, ts_event: UnixNanos) -> bool {
        self.accepts(ts_event) ==> self.volume.raw + size.raw <= u64::MAX && self.count
            < usize::MAX
    }

    /// The state after `set_partial`: only the first partial bar is taken.
    pub open spec fn set_partial(self, partial_bar: Bar) -> BarBuilderState {
        if self.partial_set {
            self
        } else {
            BarBuilderState {
                open: Some(partial_bar.open),
                high: if self.high is None || partial_bar.high.raw > self.high->0.raw {
                    Some(partial_bar.high)
                } else {
                    self.high
                },
                low: if self.low is None || partial_bar.low.raw < self.low->0.raw {
                    Some(partial_bar.low)
                } else {
                    self.low
                },
                close: if self.close is None {
                    Some(partial_bar.close)
                } else {
                    self.close
                },
                volume: partial_bar.volume,
                ts_last: if self.ts_last == 0 {
                    partial_bar.ts_init
                } else {
                    self.ts_last
                },
                partial_set: true,
                initialized: true,
                ..self
            }
        }
    }

    /// The state after `update`.
    pub open spec fn update(self, price: Price, size: Quantity, ts_event: UnixNanos)
        -> BarBuilderState {
        if !self.accepts(ts_event) {
            self
        } else {
            BarBuilderState {
                open: if self.open is None {
                    Some(price)
                } else {
                    self.open
                },
                high: if self.open is None || price.raw > self.high->0.raw {
                    Some(price)
                } else {
                    self.high
                },
                low: if self.open is None || price.raw < self.low->0.raw {
                    Some(price)
                } else {
                    self.low
                },
                close: Some(price),
                volume: self.volume.spec_add(size),
                count: (self.count + 1) as usize,
                ts_last: ts_event,
                initialized: self.initialized || self.open is None,
                ..self
            }
        }
    }

    /// The state after `reset`: prices, volume and count are cleared.
    pub open spec fn reset(self) -> BarBuilderState {
        BarBuilderState {
            open: None,
            high: None,
            low: None,
            close: None,
            volume: Quantity::spec_zero(self.size_precision),
            count: 0,
            ..self
        }
    }

    /// Whether a bar can be built: there are prices, or a previous close to
    /// stand for them.
    pub open spec fn can_build(self) -> bool {
        self.open is Some || self.last_close is Some
    }

    /// The close of the bar that `build` would give.
    pub open spec fn closing_price(self) -> Option<Price> {
        if self.open is None {
            self.last_close
        } else {
            self.close
        }
    }

    /// The bar that `build` would give: the prices held, or the previous
    /// close four times where none is held.
    pub open spec fn bar(self, ts_event: UnixNanos, ts_init: UnixNanos) -> Bar
        recommends
            self.wf(),
            self.can_build(),
    {
        if self.open is None {
            Bar {
                bar_type: self.bar_type,
                open: self.last_close->0,
                high: self.last_close->0,
                low: self.last_close->0,
                close: self.last_close->0,
                volume: self.volume,
                ts_event,
                ts_init,
            }
        } else {
            Bar {
                bar_type: self.bar_type,
                open: self.open->0,
                high: self.high->0,
                low: self.low->0,
                close: self.close->0,
                volume: self.volume,
                ts_event,
                ts_init,
            }
        }
    }

    /// The state after `build`: the close is kept as the previous close and
    /// the rest is reset.
    pub open spec fn built(self) -> BarBuilderState {
        BarBuilderState { last_close: self.closing_price(), ..self.reset() }
    }
}

/// Accumulates the open, high, low, close and volume of one bar.
pub struct BarBuilder {
    bar_type: BarType,
    size_precision: u8,
    initialized: bool,
    ts_last: UnixNanos,
    count: usize,
    partial_set: bool,
    last_close: Option<Price>,
    open: Option<Price>,
    high: Option<Price>,
    low: Option<Price>,
    close: Option<Price>,
    volume: Quantity,
}

impl View for BarBuilder {
    type V = BarBuilderState;

    closed spec fn view(&self) -> BarBuilderState {
        BarBuilderState {
            bar_type: self.bar_type,
            size_precision: self.size_precision,
            initialized: self.initialized,
            ts_last: self.ts_last,
            count: self.count,
            partial_set: self.partial_set,
            last_close: self.last_close,
            open: self.open,
            high: self.high,
            low: self.low,
            close: self.close,
            volume: self.volume,
        }
    }
}

impl BarBuilder {
    /// Creates a builder for the bars of `bar_type` on `instrument`.
    ///
    /// The bar type must name the instrument and be aggregated internally.
    pub fn new(instrument: &Instrument, bar_type: BarType) -> (builder: BarBuilder)
        requires
            instrument.id@ == bar_type.instrument_id@,
            bar_type.aggregation_source == AggregationSource::Internal,
        ensures
            builder@ == BarBuilderState::fresh(bar_type, instrument.size_precision),
            builder@.wf(),
            builder@.ordered(),
            builder@.precise(),
    {
        BarBuilder {
            bar_type,
            size_precision: instrument.size_precision,
            initialized: false,
            ts_last: 0,
            count: 0,
            partial_set: false,
            last_close: None,
            open: None,
            high: None,
            low: None,
            close: None,
            volume: Quantity::zero(instrument.size_precision),
        }
    }

    /// Seeds the bar in progress from a partly completed bar. Only the first
    /// call has an effect.
    pub fn set_partial(&mut self, partial_bar: Bar)
        requires
            old(self)@.wf(),
        ensures
            final(self)@ == old(self)@.set_partial(partial_bar),
            final(self)@.wf(),
            final(self)@.partial_set,
            old(self)@.partial_set ==> final(self)@ == old(self)@,
            final(self)@.ts_last >= old(self)@.ts_last,
            old(self)@.ordered() && partial_bar.prices_ordered() ==> final(self)@.ordered(),
    {
        if self.partial_set {
            return ;
        }
        self.open = Some(partial_bar.open);
        if self.high.is_none() || partial_bar.high.raw > self.high.unwrap().raw {
            self.high = Some(partial_bar.high);
        }
        if self.low.is_none() || partial_bar.low.raw < self.low.unwrap().raw {
            self.low = Some(partial_bar.low);
        }
        if self.close.is_none() {
            self.close = Some(partial_bar.close);
        }
        self.volume = partial_bar.volume;
        if self.ts_last == 0 {
            self.ts_last = partial_bar.ts_init;
        }
        self.partial_set = true;
        self.initialized = true;
    }

    /// Takes one update into the bar in progress. An update older than the
    /// last one taken is dropped and changes nothing.
    pub fn update(&mut self, price: Price, size: Quantity, ts_event: UnixNanos)
        requires
            old(self)@.wf(),
            old(self)@.update_fits(size, ts_event),
        ensures
            final(self)@ == old(self)@.update(price, size, ts_event),
            final(self)@.wf(),
            !old(self)@.accepts(ts_event) ==> final(self)@ == old(self)@,
            old(self)@.accepts(ts_event) ==> {
                &&& final(self)@.count == old(self)@.count + 1
                &&& final(self)@.volume.raw == old(self)@.volume.raw + size.raw
                &&& final(self)@.ts_last == ts_event
                &&& final(self)@.close == Some(price)
                &&& final(self)@.open is Some
            },
            final(self)@.ts_last >= old(self)@.ts_last,
            old(self)@.ordered() ==> final(self)@.ordered(),
            old(self)@.precise() ==> final(self)@.precise(),
    {
        if ts_event < self.ts_last {
            return ;
        }
        if self.open.is_none() {
            self.open = Some(price);
            self.high = Some(price);
            self.low = Some(price);
            self.initialized = true;
        } else {
            if price.raw > self.high.unwrap().raw {
                self.high = Some(price);
            }
            if price.raw < self.low.unwrap().raw {
                self.low = Some(price);
            }
        }
        self.close = Some(price);
        self.volume = self.volume.add(size);
        self.count += 1;
        self.ts_last = ts_event;
    }

    /// Clears prices, volume and count.
    pub fn reset(&mut self)
        ensures
            final(self)@ == old(self)@.reset(),
            final(self)@.ordered(),
            final(self)@.precise(),
            old(self)@.wf() ==> final(self)@.wf(),
    {
        self.open = None;
        self.high = None;
        self.low = None;
        self.close = None;
        self.volume = Quantity::zero(self.size_precision);
        self.count = 0;
    }

    /// Builds the bar as of the last update taken, and resets.
    pub fn build_now(&mut self) -> (bar: Bar)
        requires
            old(self)@.wf(),
            old(self)@.can_build(),
        ensures
            bar == old(self)@.bar(old(self)@.ts_last, old(self)@.ts_last),
            final(self)@ == old(self)@.built(),
            final(self)@.wf(),
            final(self)@.ordered(),
            final(self)@.precise(),
            final(self)@.can_build(),
            old(self)@.ordered() ==> bar.prices_ordered(),
    {
        let ts: UnixNanos = self.ts_last;
        self.build(ts, ts)
    }

    /// Builds the bar with the given timestamps, and resets. Without an
    /// update since the last bar, the bar repeats the previous close.
    pub fn build(&mut self, ts_event: UnixNanos, ts_init: UnixNanos) -> (bar: Bar)
        requires
            old(self)@.wf(),
            old(self)@.can_build(),
        ensures
            bar == old(self)@.bar(ts_event, ts_init),
            final(self)@ == old(self)@.built(),
            final(self)@.wf(),
            final(self)@.ordered(),
            final(self)@.precise(),
            final(self)@.can_build(),
            old(self)@.ordered() ==> bar.prices_ordered(),
    {
        if self.open.is_none() {
            self.open = self.last_close;
            self.high = self.last_close;
            self.low = self.last_close;
            self.close = self.last_close;
        }
        let bar = Bar::new(
            self.bar_type.clone(),
            self.open.unwrap(),
            self.high.unwrap(),
            self.low.unwrap(),
            self.close.unwrap(),
            self.volume,
            ts_event,
            ts_init,
        );
        self.last_close = self.close;
        self.reset();
        bar
    }

    /// Whether the counters have room for an update of `size` at `ts_event`,
    /// so that `update` can be called with it.
    pub fn has_room(&self, size: Quantity, ts_event: UnixNanos) -> (b: bool)
        ensures
            b == self@.update_fits(size, ts_event),
    {
        ts_event < self.ts_last || (size.raw <= u64::MAX - self.volume.raw && self.count
            < usize::MAX)
    }

    /// Whether `build` and `build_now` can be called: the builder holds
    /// prices, or the close of an earlier bar.
    pub fn can_build(&self) -> (b: bool)
        ensures
            b == self@.can_build(),
    {
        self.open.is_some() || self.last_close.is_some()
    }

    pub fn bar_type(&self) -> (r: &BarType)
        ensures
            *r == self@.bar_type,
    {
        &self.bar_type
    }

    pub fn size_precision(&self) -> (r: u8)
        ensures
            r == self@.size_precision,
    {
        self.size_precision
    }

    /// Whether an update or a partial bar has been taken since creation.
    pub fn initialized(&self) -> (r: bool)
        ensures
            r == self@.initialized,
    {
        self.initialized
    }

    /// The timestamp of the last update taken.
    pub fn ts_last(&self) -> (r: UnixNanos)
        ensures
            r == self@.ts_last,
    {
        self.ts_last
    }

    /// The number of updates taken into the bar in progress.
    pub fn count(&self) -> (r: usize)
        ensures
            r == self@.count,
    {
        self.count
    }

    pub fn partial_set(&self) -> (r: bool)
        ensures
            r == self@.partial_set,
    {
        self.partial_set
    }

    /// The close of the last bar built.
    pub fn last_close(&self) -> (r: Option<Price>)
        ensures
            r == self@.last_close,
    {
        self.last_close
    }

    pub fn open(&self) -> (r: Option<Price>)
        ensures
            r == self@.open,
    {
        self.open
    }

    pub fn high(&self) -> (r: Option<Price>)
        ensures
            r == self@.high,
    {
        self.high
    }

    pub fn low(&self) -> (r: Option<Price>)
        ensures
            r == self@.low,
    {
        self.low
    }

    pub fn close(&self) -> (r: Option<Price>)
        ensures
            r == self@.close,
    {
        self.close
    }

    pub fn volume(&self) -> (r: Quantity)
        ensures
            r == self@.volume,
    {
        self.volume
    }
}

} // verus!
