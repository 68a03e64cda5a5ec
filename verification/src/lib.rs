//! Bar aggregation: OHLCV bars built from a stream of price/size updates.
//!
//! An aggregator consumes the updates of one instrument and hands back a bar
//! each time its boundary is crossed: a tick count, a traded volume, or a
//! point in time.

pub mod aggregator;
pub mod bar;
pub mod builder;
pub mod persistence;
pub mod streams;
pub mod tick_bars;
pub mod ticks;
pub mod time_bars;
pub mod types;
pub mod volume_bars;

pub use aggregator::{BarAggregator, BarAggregatorCore};
pub use bar::{
    AggregationSource, Bar, BarAggregation, BarSpecification, BarType, Instrument, InstrumentId,
    PriceType,
};
pub use builder::BarBuilder;
pub use persistence::{
    eq_ignoring_ascii_case, AggressorSide, AggressorSideModel, AssetClass, AssetClassModel,
    CurrencyType, CurrencyTypeModel, TrailingOffsetType, TrailingOffsetTypeModel,
};
pub use tick_bars::TickBarAggregator;
pub use ticks::{QuoteTick, TradeTick};
pub use time_bars::{
    bar_ts_event, get_bar_interval_ns, get_time_bar_start, ClockAction, TimeBarAggregator,
    TimeEvent,
};
pub use types::{raw_step, Price, Quantity, UnixNanos, FIXED_PRECISION, FIXED_SCALAR};
pub use volume_bars::VolumeBarAggregator;
