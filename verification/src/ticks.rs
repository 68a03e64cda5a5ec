//! Quotes and trades, the events that updates are drawn from.

use vstd::prelude::*;
use crate::bar::PriceType;
use crate::types::{Price, Quantity, UnixNanos, FIXED_PRECISION};

verus! {

/// The best bid and ask of an instrument at one moment.
#[derive(Clone, Copy, Debug, PartialEq, Eq, Structural)]
pub struct QuoteTick {
    pub bid_price: Price,
    pub ask_price: Price,
    pub bid_size: Quantity,
    pub ask_size: Quantity,
    pub ts_event: UnixNanos,
    pub ts_init: UnixNanos,
}

/// One trade of an instrument.
#[derive(Clone, Copy, Debug, PartialEq, Eq, Structural)]
pub struct TradeTick {
    pub price: Price,
    pub size: Quantity,
    pub ts_event: UnixNanos,
    pub ts_init: UnixNanos,
}

/// Half of `total`, rounded toward zero.
pub open spec fn half_toward_zero(total: int) -> int {
    if total >= 0 {
        total / 2
    } else {
        -((-total) / 2)
    }
}

/// The precision of a midpoint: one place more than its sides, as far as
/// `FIXED_PRECISION` allows.
pub open spec fn mid_precision(precision: u8) -> u8 {
    if precision >= FIXED_PRECISION {
        FIXED_PRECISION
    } else {
        (precision + 1) as u8
    }
}

fn widen_precision(precision: u8) -> (p: u8)
    ensures
        p == mid_precision(precision),
{
    if precision >= FIXED_PRECISION {
        FIXED_PRECISION
    } else {
        precision + 1
    }
}

impl QuoteTick {
    /// The price that the selector picks: the bid, the ask, or the point
    /// halfway between them. A quote has no last price.
    pub open spec fn spec_extract_price(self, price_type: PriceType) -> Option<Price> {
        match price_type {
            PriceType::Bid => Some(self.bid_price),
            PriceType::Ask => Some(self.ask_price),
            PriceType::Mid => Some(
                Price {
                    raw: half_toward_zero(self.bid_price.raw + self.ask_price.raw) as i64,
                    precision: mid_precision(self.bid_price.precision),
                },
            ),
            PriceType::Last => None,
        }
    }

    /// The size that the selector picks: the bid size, the ask size, or
    /// half their sum. A quote has no last size.
    pub open spec fn spec_extract_size(self, price_type: PriceType) -> Option<Quantity> {
        match price_type {
            PriceType::Bid => Some(self.bid_size),
            PriceType::Ask => Some(self.ask_size),
            PriceType::Mid => Some(
                Quantity {
                    raw: ((self.bid_size.raw + self.ask_size.raw) / 2) as u64,
                    precision: mid_precision(self.bid_size.precision),
                },
            ),
            PriceType::Last => None,
        }
    }

    pub fn new(
        bid_price: Price,
        ask_price: Price,
        bid_size: Quantity,
        ask_size: Quantity,
        ts_event: UnixNanos,
        ts_init: UnixNanos,
    ) -> (quote: QuoteTick)
        ensures
            quote == (QuoteTick { bid_price, ask_price, bid_size, ask_size, ts_event, ts_init }),
    {
        QuoteTick { bid_price, ask_price, bid_size, ask_size, ts_event, ts_init }
    }

    pub fn extract_price(&self, price_type: PriceType) -> (r: Option<Price>)
        ensures
            r == self.spec_extract_price(price_type),
            r is None <==> price_type == PriceType::Last,
    {
        match price_type {
            PriceType::Bid => Some(self.bid_price),
            PriceType::Ask => Some(self.ask_price),
            PriceType::Mid => {
                let total: i128 = self.bid_price.raw as i128 + self.ask_price.raw as i128;
                let raw: i64 = (total / 2) as i64;
                Some(Price { raw, precision: widen_precision(self.bid_price.precision) })
            },
            PriceType::Last => None,
        }
    }

    pub fn extract_size(&self, price_type: PriceType) -> (r: Option<Quantity>)
        ensures
            r == self.spec_extract_size(price_type),
            r is None <==> price_type == PriceType::Last,
    {
        match price_type {
            PriceType::Bid => Some(self.bid_size),
            PriceType::Ask => Some(self.ask_size),
            PriceType::Mid => {
                let total: u128 = self.bid_size.raw as u128 + self.ask_size.raw as u128;
                let raw: u64 = (total / 2) as u64;
                Some(Quantity { raw, precision: widen_precision(self.bid_size.precision) })
            },
            PriceType::Last => None,
        }
    }
}

impl TradeTick {
    pub fn new(price: Price, size: Quantity, ts_event: UnixNanos, ts_init: UnixNanos) -> (trade:
        TradeTick)
        ensures
            trade == (TradeTick { price, size, ts_event, ts_init }),
    {
        TradeTick { price, size, ts_event, ts_init }
    }
}

} // verus!
