//! Instruments, bar types and bars.

use vstd::prelude::*;
use vstd::string::StringExecFns;
use crate::types::{Price, Quantity, UnixNanos};

verus! {

/// Identifies an instrument by its symbol and the venue it trades on.
#[derive(Debug, PartialEq, Eq)]
pub struct InstrumentId {
    pub symbol: String,
    pub venue: String,
}

impl View for InstrumentId {
    type V = (Seq<char>, Seq<char>);

    open spec fn view(&self) -> (Seq<char>, Seq<char>) {
        (self.symbol@, self.venue@)
    }
}

impl Clone for InstrumentId {
    fn clone(&self) -> (r: Self)
        ensures
            r == *self,
    {
        InstrumentId { symbol: self.symbol.clone(), venue: self.venue.clone() }
    }
}

impl InstrumentId {
    pub fn new(symbol: &str, venue: &str) -> (id: InstrumentId)
        ensures
            id@ == (symbol@, venue@),
    {
        InstrumentId { symbol: String::from_str(symbol), venue: String::from_str(venue) }
    }

    /// Whether both identifiers spell the same symbol and venue.
    pub fn same_as(&self, other: &InstrumentId) -> (b: bool)
        ensures
            b == (self@ == other@),
    {
        self.symbol == other.symbol && self.venue == other.venue
    }
}

/// What an aggregator needs to know of an instrument.
#[derive(Debug, PartialEq, Eq)]
pub struct Instrument {
    pub id: InstrumentId,
    pub size_precision: u8,
}

impl Instrument {
    pub fn new(id: InstrumentId, size_precision: u8) -> (i: Instrument)
        ensures
            i == (Instrument { id, size_precision }),
    {
        Instrument { id, size_precision }
    }
}

/// Which side of a quote stands for its price and size.
#[derive(Clone, Copy, Debug, PartialEq, Eq, Structural)]
pub enum PriceType {
    Bid,
    Ask,
    Mid,
    Last,
}

impl PriceType {
    /// The name of the selector in the text form of a bar type.
    pub open spec fn spec_name(self) -> Seq<char> {
        match self {
            PriceType::Bid => "BID"@,
            PriceType::Ask => "ASK"@,
            PriceType::Mid => "MID"@,
            PriceType::Last => "LAST"@,
        }
    }

    pub fn name(&self) -> (s: &'static str)
        ensures
            s@ == self.spec_name(),
    {
        match self {
            PriceType::Bid => "BID",
            PriceType::Ask => "ASK",
            PriceType::Mid => "MID",
            PriceType::Last => "LAST",
        }
    }
}

/// The rule that closes a bar.
#[derive(Clone, Copy, Debug, PartialEq, Eq, Structural)]
pub enum BarAggregation {
    Tick,
    Volume,
    Value,
    Second,
    Minute,
    Hour,
    Day,
}

impl BarAggregation {
    /// The name of the rule in the text form of a bar type.
    pub open spec fn spec_name(self) -> Seq<char> {
        match self {
            BarAggregation::Tick => "TICK"@,
            BarAggregation::Volume => "VOLUME"@,
            BarAggregation::Value => "VALUE"@,
            BarAggregation::Second => "SECOND"@,
            BarAggregation::Minute => "MINUTE"@,
            BarAggregation::Hour => "HOUR"@,
            BarAggregation::Day => "DAY"@,
        }
    }

    /// The length in nanoseconds of the unit of a rule that goes by time.
    pub open spec fn spec_unit_nanos(self) -> Option<u64> {
        match self {
            BarAggregation::Second => Some(1_000_000_000u64),
            BarAggregation::Minute => Some(60_000_000_000u64),
            BarAggregation::Hour => Some(3_600_000_000_000u64),
            BarAggregation::Day => Some(86_400_000_000_000u64),
            _ => None,
        }
    }

    pub fn name(&self) -> (s: &'static str)
        ensures
            s@ == self.spec_name(),
    {
        match self {
            BarAggregation::Tick => "TICK",
            BarAggregation::Volume => "VOLUME",
            BarAggregation::Value => "VALUE",
            BarAggregation::Second => "SECOND",
            BarAggregation::Minute => "MINUTE",
            BarAggregation::Hour => "HOUR",
            BarAggregation::Day => "DAY",
        }
    }

    pub fn unit_nanos(&self) -> (r: Option<u64>)
        ensures
            r == self.spec_unit_nanos(),
    {
        match self {
            BarAggregation::Second => Some(1_000_000_000),
            BarAggregation::Minute => Some(60_000_000_000),
            BarAggregation::Hour => Some(3_600_000_000_000),
            BarAggregation::Day => Some(86_400_000_000_000),
            _ => None,
        }
    }
}

/// Where the bars of a bar type come from.
#[derive(Clone, Copy, Debug, PartialEq, Eq, Structural)]
pub enum AggregationSource {
    External,
    Internal,
}

impl AggregationSource {
    /// The name of the source in the text form of a bar type.
    pub open spec fn spec_name(self) -> Seq<char> {
        match self {
            AggregationSource::External => "EXTERNAL"@,
            AggregationSource::Internal => "INTERNAL"@,
        }
    }

    pub fn name(&self) -> (s: &'static str)
        ensures
            s@ == self.spec_name(),
    {
        match self {
            AggregationSource::External => "EXTERNAL",
            AggregationSource::Internal => "INTERNAL",
        }
    }
}

/// The character of a decimal digit.
pub open spec fn digit_char(digit: nat) -> char
    recommends
        digit < 10,
{
    if digit == 0 {
        '0'
    } else if digit == 1 {
        '1'
    } else if digit == 2 {
        '2'
    } else if digit == 3 {
        '3'
    } else if digit == 4 {
        '4'
    } else if digit == 5 {
        '5'
    } else if digit == 6 {
        '6'
    } else if digit == 7 {
        '7'
    } else if digit == 8 {
        '8'
    } else {
        '9'
    }
}

/// The decimal digits of a number, without leading zeros.
pub open spec fn decimal(n: nat) -> Seq<char>
    decreases n,
{
    if n < 10 {
        seq![digit_char(n)]
    } else {
        decimal(n / 10).push(digit_char(n % 10))
    }
}

fn digit_str(digit: usize) -> (s: &'static str)
    requires
        digit < 10,
    ensures
        s@ == seq![digit_char(digit as nat)],
{
    proof {
        reveal_strlit("0");
        reveal_strlit("1");
        reveal_strlit("2");
        reveal_strlit("3");
        reveal_strlit("4");
        reveal_strlit("5");
        reveal_strlit("6");
        reveal_strlit("7");
        reveal_strlit("8");
        reveal_strlit("9");
    }
    let s = if digit == 0 {
        "0"
    } else if digit == 1 {
        "1"
    } else if digit == 2 {
        "2"
    } else if digit == 3 {
        "3"
    } else if digit == 4 {
        "4"
    } else if digit == 5 {
        "5"
    } else if digit == 6 {
        "6"
    } else if digit == 7 {
        "7"
    } else if digit == 8 {
        "8"
    } else {
        "9"
    };
    assert(s@ =~= seq![digit_char(digit as nat)]);
    s
}

/// Appends the decimal digits of `n` to `text`.
fn append_decimal(text: &mut String, n: usize)
    ensures
        final(text)@ == old(text)@ + decimal(n as nat),
    decreases n,
{
    if n >= 10 {
        append_decimal(text, n / 10);
    }
    text.append(digit_str(n % 10));
    proof {
        let before = old(text)@;
        if n >= 10 {
            assert((before + decimal((n / 10) as nat)) + seq![digit_char((n % 10) as nat)]
                =~= before + decimal(n as nat));
        }
    }
}

/// Step, aggregation rule and price selector of a bar type.
#[derive(Clone, Copy, Debug, PartialEq, Eq, Structural)]
pub struct BarSpecification {
    pub step: usize,
    pub aggregation: BarAggregation,
    pub price_type: PriceType,
}

impl BarSpecification {
    pub fn new(step: usize, aggregation: BarAggregation, price_type: PriceType) -> (s:
        BarSpecification)
        ensures
            s == (BarSpecification { step, aggregation, price_type }),
    {
        BarSpecification { step, aggregation, price_type }
    }
}

/// Identifies a stream of bars.
#[derive(Debug, PartialEq, Eq)]
pub struct BarType {
    pub instrument_id: InstrumentId,
    pub spec: BarSpecification,
    pub aggregation_source: AggregationSource,
}

impl Clone for BarType {
    fn clone(&self) -> (r: Self)
        ensures
            r == *self,
    {
        BarType {
            instrument_id: self.instrument_id.clone(),
            spec: self.spec,
            aggregation_source: self.aggregation_source,
        }
    }
}

impl BarType {
    /// The text form of the bar type: symbol, venue, step, rule, price
    /// selector and source, as in `AAPL.XNAS-3-TICK-LAST-INTERNAL`.
    pub open spec fn spec_string(self) -> Seq<char> {
        self.instrument_id.symbol@ + "."@ + self.instrument_id.venue@ + "-"@ + decimal(
            self.spec.step as nat,
        ) + "-"@ + self.spec.aggregation.spec_name() + "-"@ + self.spec.price_type.spec_name()
            + "-"@ + self.aggregation_source.spec_name()
    }

    pub fn new(
        instrument_id: InstrumentId,
        spec: BarSpecification,
        aggregation_source: AggregationSource,
    ) -> (t: BarType)
        ensures
            t == (BarType { instrument_id, spec, aggregation_source }),
    {
        BarType { instrument_id, spec, aggregation_source }
    }

    /// The text form of the bar type.
    pub fn to_string(&self) -> (text: String)
        ensures
            text@ == self.spec_string(),
    {
        let mut text = self.instrument_id.symbol.clone();
        text.append(".");
        text.append(self.instrument_id.venue.as_str());
        text.append("-");
        append_decimal(&mut text, self.spec.step);
        text.append("-");
        text.append(self.spec.aggregation.name());
        text.append("-");
        text.append(self.spec.price_type.name());
        text.append("-");
        text.append(self.aggregation_source.name());
        text
    }
}

/// An OHLCV summary of the updates of one window.
#[derive(Debug, PartialEq, Eq)]
pub struct Bar {
    pub bar_type: BarType,
    pub open: Price,
    pub high: Price,
    pub low: Price,
    pub close: Price,
    pub volume: Quantity,
    pub ts_event: UnixNanos,
    pub ts_init: UnixNanos,
}

impl Clone for Bar {
    fn clone(&self) -> (r: Self)
        ensures
            r == *self,
    {
        Bar {
            bar_type: self.bar_type.clone(),
            open: self.open,
            high: self.high,
            low: self.low,
            close: self.close,
            volume: self.volume,
            ts_event: self.ts_event,
            ts_init: self.ts_init,
        }
    }
}

impl Bar {
    /// `low <= open <= high` and `low <= close <= high`.
    pub open spec fn prices_ordered(self) -> bool {
        &&& self.low.raw <= self.open.raw <= self.high.raw
        &&& self.low.raw <= self.close.raw <= self.high.raw
    }

    pub fn new(
        bar_type: BarType,
        open: Price,
        high: Price,
        low: Price,
        close: Price,
        volume: Quantity,
        ts_event: UnixNanos,
        ts_init: UnixNanos,
    ) -> (bar: Bar)
        ensures
            bar == (Bar { bar_type, open, high, low, close, volume, ts_event, ts_init }),
    {
        Bar { bar_type, open, high, low, close, volume, ts_event, ts_init }
    }
}

} // verus!
