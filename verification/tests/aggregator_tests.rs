use bar_aggregation::{
    AggregationSource, Bar, BarAggregation, BarAggregator, BarAggregatorCore, BarSpecification,
    BarType, Instrument, InstrumentId, Price, PriceType, Quantity, QuoteTick, TickBarAggregator,
    TradeTick, VolumeBarAggregator,
};

fn equity_aapl() -> Instrument {
    Instrument::new(InstrumentId::new("AAPL", "XNAS"), 0)
}

fn bar_type(
    instrument: &Instrument,
    step: usize,
    aggregation: BarAggregation,
    price_type: PriceType,
) -> BarType {
    BarType::new(
        instrument.id.clone(),
        BarSpecification::new(step, aggregation, price_type),
        AggregationSource::Internal,
    )
}

/// A price of eight decimal places from its value in units of 1e-5.
fn price(hundred_thousandths: i64) -> Price {
    Price::from_raw(hundred_thousandths * 10_000, 8)
}

/// A whole quantity.
fn qty(units: u64) -> Quantity {
    Quantity::from_raw(units * 1_000_000_000, 0)
}

fn total_volume(bars: &[Bar]) -> u128 {
    bars.iter().map(|bar| bar.volume.raw as u128).sum()
}

#[test]
fn test_core_builds_what_its_builder_holds() {
    let instrument = equity_aapl();
    let bt = bar_type(&instrument, 3, BarAggregation::Tick, PriceType::Last);
    let mut core = BarAggregatorCore::new(&instrument, bt.clone(), false);
    assert_eq!(*core.bar_type(), bt);
    assert!(!core.await_partial());
    core.set_await_partial(true);
    assert!(core.await_partial());

    core.apply_update(price(100_001), qty(2), 10);
    core.apply_update(price(100_003), qty(1), 20);
    assert_eq!(core.builder().count(), 2);
    let bar = core.build_now_and_send();
    assert_eq!(bar.open, price(100_001));
    assert_eq!(bar.high, price(100_003));
    assert_eq!(bar.low, price(100_001));
    assert_eq!(bar.close, price(100_003));
    assert_eq!(bar.volume, qty(3));
    assert_eq!(bar.ts_event, 20);
    assert_eq!(bar.ts_init, 20);
    assert_eq!(bar.bar_type, bt);

    let empty = core.build_and_send(30, 40);
    assert_eq!(empty.open, price(100_003));
    assert_eq!(empty.close, price(100_003));
    assert_eq!(empty.volume, Quantity::zero(0));
    assert_eq!(empty.ts_event, 30);
    assert_eq!(empty.ts_init, 40);
}

#[test]
fn test_core_set_partial_seeds_the_builder_once() {
    let instrument = equity_aapl();
    let bt = bar_type(&instrument, 3, BarAggregation::Tick, PriceType::Last);
    let mut core = BarAggregatorCore::new(&instrument, bt.clone(), true);
    let first = Bar::new(
        bt.clone(),
        price(100_001),
        price(100_010),
        price(100_000),
        price(100_002),
        qty(1),
        1_000_000_000,
        1_000_000_000,
    );
    let second = Bar::new(
        bt.clone(),
        price(200_001),
        price(200_010),
        price(200_000),
        price(200_002),
        qty(2),
        3_000_000_000,
        3_000_000_000,
    );
    core.set_partial(first);
    core.set_partial(second);
    let bar = core.build_and_send(4_000_000_000, 4_000_000_000);
    assert_eq!(bar.open, price(100_001));
    assert_eq!(bar.high, price(100_010));
    assert_eq!(bar.low, price(100_000));
    assert_eq!(bar.close, price(100_002));
    assert_eq!(bar.volume, qty(1));
    assert_eq!(bar.ts_init, 4_000_000_000);
    assert_eq!(core.builder().ts_last(), 1_000_000_000);
}

#[test]
fn test_tick_bar_aggregator_handle_trade_tick_when_count_below_threshold_updates() {
    let instrument = equity_aapl();
    let bt = bar_type(&instrument, 3, BarAggregation::Tick, PriceType::Last);
    let mut aggregator = TickBarAggregator::new(&instrument, bt.clone(), false);
    assert_eq!(aggregator.bar_type(), bt);

    let bars = aggregator.handle_trade_tick(TradeTick::new(price(100_001), qty(1), 0, 0));

    assert_eq!(bars.len(), 0);
    assert_eq!(aggregator.builder().count(), 1);
    assert_eq!(aggregator.builder().close(), Some(price(100_001)));
}

#[test]
fn test_tick_bar_aggregator_handle_quote_tick_when_count_below_threshold_updates() {
    let instrument = equity_aapl();
    let bt = bar_type(&instrument, 3, BarAggregation::Tick, PriceType::Mid);
    let mut aggregator = TickBarAggregator::new(&instrument, bt, false);

    let quote = QuoteTick::new(price(100_001), price(100_004), qty(1), qty(1), 0, 0);
    let bars = aggregator.handle_quote_tick(quote).unwrap();

    assert_eq!(bars.len(), 0);
    assert_eq!(aggregator.builder().count(), 1);
}

#[test]
fn test_tick_bar_aggregator_handle_quote_tick_when_count_at_threshold_sends_bar_to_handler() {
    let instrument = equity_aapl();
    let bt = bar_type(&instrument, 3, BarAggregation::Tick, PriceType::Mid);
    let mut aggregator = TickBarAggregator::new(&instrument, bt, false);

    let quote1 = QuoteTick::new(price(100_001), price(100_004), qty(1), qty(1), 0, 0);
    let quote2 = QuoteTick::new(price(100_002), price(100_005), qty(1), qty(1), 0, 0);
    let quote3 = QuoteTick::new(price(100_000), price(100_003), qty(1), qty(1), 0, 0);

    let mut sent: Vec<Bar> = Vec::new();
    sent.extend(aggregator.handle_quote_tick(quote1).unwrap());
    sent.extend(aggregator.handle_quote_tick(quote2).unwrap());
    sent.extend(aggregator.handle_quote_tick(quote3).unwrap());

    assert_eq!(sent.len(), 1);
    let bar = &sent[0];
    assert_eq!(bar.open.raw, 1_000_025_000);
    assert_eq!(bar.high.raw, 1_000_035_000);
    assert_eq!(bar.low.raw, 1_000_015_000);
    assert_eq!(bar.close.raw, 1_000_015_000);
    assert_eq!(bar.volume.raw, 3_000_000_000);
    assert_eq!(aggregator.builder().count(), 0);
}

#[test]
fn test_tick_bar_aggregator_three_updates_build_one_bar() {
    let instrument = equity_aapl();
    let bt = bar_type(&instrument, 3, BarAggregation::Tick, PriceType::Last);
    let mut aggregator = TickBarAggregator::new(&instrument, bt.clone(), false);

    assert_eq!(aggregator.update(price(100_001), qty(2), 0).len(), 0);
    assert_eq!(aggregator.update(price(100_002), qty(2), 0).len(), 0);
    let bars = aggregator.update(price(100_000), qty(1), 1_000_000_000);

    assert_eq!(bars.len(), 1);
    let bar = &bars[0];
    assert_eq!(bar.bar_type, bt);
    assert_eq!(bar.open, price(100_001));
    assert_eq!(bar.high, price(100_002));
    assert_eq!(bar.low, price(100_000));
    assert_eq!(bar.close, price(100_000));
    assert_eq!(bar.volume, qty(5));
    assert_eq!(bar.ts_event, 1_000_000_000);
    assert_eq!(bar.ts_init, 1_000_000_000);
    assert_eq!(aggregator.builder().count(), 0);
    assert_eq!(aggregator.builder().ts_last(), 1_000_000_000);
}

#[test]
fn test_tick_bar_aggregator_builds_one_bar_for_every_step_updates_taken() {
    let instrument = equity_aapl();
    let bt = bar_type(&instrument, 3, BarAggregation::Tick, PriceType::Last);
    let mut aggregator = TickBarAggregator::new(&instrument, bt, false);

    // Ten are taken; the ones stamped 2 arrive late and are dropped.
    let stamps: [u64; 13] = [1, 2, 3, 2, 4, 5, 6, 2, 7, 8, 9, 2, 10];
    let mut sent: Vec<Bar> = Vec::new();
    let mut taken = 0;
    for ts in stamps {
        if ts >= aggregator.builder().ts_last() {
            taken += 1;
        }
        sent.extend(aggregator.update(price(100_000 + ts as i64), qty(1), ts));
        assert_eq!(sent.len(), taken / 3);
    }

    assert_eq!(taken, 10);
    assert_eq!(sent.len(), 3);
    assert_eq!(aggregator.builder().count(), 1);
    assert_eq!(sent[0].ts_event, 3);
    assert_eq!(sent[1].ts_event, 6);
    assert_eq!(sent[2].ts_event, 9);
    for bar in &sent {
        assert_eq!(bar.volume, qty(3));
        assert!(bar.low.raw <= bar.open.raw.min(bar.close.raw));
        assert!(bar.open.raw.max(bar.close.raw) <= bar.high.raw);
    }
}

#[test]
fn test_tick_bar_aggregator_step_one_builds_a_bar_per_update() {
    let instrument = equity_aapl();
    let bt = bar_type(&instrument, 1, BarAggregation::Tick, PriceType::Last);
    let mut aggregator = TickBarAggregator::new(&instrument, bt, false);

    for i in 0..4u64 {
        let bars = aggregator.update(price(100_000 + i as i64), qty(2), i);
        assert_eq!(bars.len(), 1);
        assert_eq!(bars[0].open, price(100_000 + i as i64));
        assert_eq!(bars[0].close, price(100_000 + i as i64));
        assert_eq!(bars[0].volume, qty(2));
    }
}

#[test]
fn test_tick_bar_aggregator_late_update_changes_nothing() {
    let instrument = equity_aapl();
    let bt = bar_type(&instrument, 2, BarAggregation::Tick, PriceType::Last);
    let mut aggregator = TickBarAggregator::new(&instrument, bt, false);

    aggregator.update(price(100_000), qty(1), 1_000);
    let bars = aggregator.update(price(100_001), qty(1), 500);

    assert_eq!(bars.len(), 0);
    assert_eq!(aggregator.builder().count(), 1);
    assert_eq!(aggregator.builder().ts_last(), 1_000);
    assert_eq!(aggregator.builder().close(), Some(price(100_000)));
    assert_eq!(aggregator.builder().volume(), qty(1));
}

#[test]
fn test_handle_quote_tick_with_last_selector_gives_none_and_changes_nothing() {
    let instrument = equity_aapl();
    let bt = bar_type(&instrument, 3, BarAggregation::Tick, PriceType::Last);
    let mut aggregator = TickBarAggregator::new(&instrument, bt, false);

    let quote = QuoteTick::new(price(100_001), price(100_004), qty(1), qty(1), 5, 5);
    assert!(aggregator.handle_quote_tick(quote).is_none());
    assert_eq!(aggregator.builder().count(), 0);
    assert!(!aggregator.builder().initialized());
    assert_eq!(aggregator.builder().ts_last(), 0);
}

#[test]
fn test_handle_quote_tick_takes_the_side_that_the_selector_names() {
    let instrument = equity_aapl();
    let quote = QuoteTick::new(price(100_001), price(100_004), qty(2), qty(6), 5, 5);

    let bid = bar_type(&instrument, 3, BarAggregation::Tick, PriceType::Bid);
    let mut on_bid = TickBarAggregator::new(&instrument, bid, false);
    on_bid.handle_quote_tick(quote).unwrap();
    assert_eq!(on_bid.builder().close(), Some(price(100_001)));
    assert_eq!(on_bid.builder().volume(), qty(2));

    let ask = bar_type(&instrument, 3, BarAggregation::Tick, PriceType::Ask);
    let mut on_ask = TickBarAggregator::new(&instrument, ask, false);
    on_ask.handle_quote_tick(quote).unwrap();
    assert_eq!(on_ask.builder().close(), Some(price(100_004)));
    assert_eq!(on_ask.builder().volume(), qty(6));

    let mid = bar_type(&instrument, 3, BarAggregation::Tick, PriceType::Mid);
    let mut on_mid = TickBarAggregator::new(&instrument, mid, false);
    on_mid.handle_quote_tick(quote).unwrap();
    assert_eq!(on_mid.builder().close(), Some(Price::from_raw(1_000_025_000, 9)));
    assert_eq!(on_mid.builder().volume().raw, 4_000_000_000);
    assert_eq!(on_mid.builder().ts_last(), 5);
}

#[test]
fn test_volume_bar_aggregator_splits_an_oversized_update() {
    let instrument = equity_aapl();
    let bt = bar_type(&instrument, 10, BarAggregation::Volume, PriceType::Last);
    let mut aggregator = VolumeBarAggregator::new(&instrument, bt.clone(), false);
    assert_eq!(aggregator.bar_type(), bt);

    let bars = aggregator.update(price(100_005), qty(25), 1_000);

    assert_eq!(bars.len(), 2);
    for bar in &bars {
        assert_eq!(bar.bar_type, bt);
        assert_eq!(bar.open, price(100_005));
        assert_eq!(bar.high, price(100_005));
        assert_eq!(bar.low, price(100_005));
        assert_eq!(bar.close, price(100_005));
        assert_eq!(bar.volume, qty(10));
        assert_eq!(bar.ts_event, 1_000);
        assert_eq!(bar.ts_init, 1_000);
    }
    assert_eq!(aggregator.builder().volume(), qty(5));
    assert_eq!(aggregator.builder().count(), 1);
    assert_eq!(aggregator.builder().open(), Some(price(100_005)));
}

#[test]
fn test_volume_bar_aggregator_below_step_builds_nothing() {
    let instrument = equity_aapl();
    let bt = bar_type(&instrument, 10, BarAggregation::Volume, PriceType::Last);
    let mut aggregator = VolumeBarAggregator::new(&instrument, bt, false);

    assert_eq!(aggregator.update(price(100_005), qty(4), 1).len(), 0);
    assert_eq!(aggregator.update(price(100_007), qty(5), 2).len(), 0);

    assert_eq!(aggregator.builder().volume(), qty(9));
    assert_eq!(aggregator.builder().count(), 2);
    assert_eq!(aggregator.builder().high(), Some(price(100_007)));
}

#[test]
fn test_volume_bar_aggregator_completes_the_bar_in_progress_with_an_exact_slice() {
    let instrument = equity_aapl();
    let bt = bar_type(&instrument, 10, BarAggregation::Volume, PriceType::Last);
    let mut aggregator = VolumeBarAggregator::new(&instrument, bt, false);

    aggregator.update(price(100_001), qty(4), 1);
    aggregator.update(price(100_009), qty(3), 2);
    let bars = aggregator.update(price(100_004), qty(15), 3);

    assert_eq!(bars.len(), 2);
    assert_eq!(bars[0].open, price(100_001));
    assert_eq!(bars[0].high, price(100_009));
    assert_eq!(bars[0].low, price(100_001));
    assert_eq!(bars[0].close, price(100_004));
    assert_eq!(bars[0].volume, qty(10));
    assert_eq!(bars[0].ts_event, 3);
    assert_eq!(bars[1].open, price(100_004));
    assert_eq!(bars[1].close, price(100_004));
    assert_eq!(bars[1].volume, qty(10));
    assert_eq!(aggregator.builder().volume(), qty(2));
}

#[test]
fn test_volume_bar_aggregator_exact_multiple_leaves_nothing_in_progress() {
    let instrument = equity_aapl();
    let bt = bar_type(&instrument, 10, BarAggregation::Volume, PriceType::Last);
    let mut aggregator = VolumeBarAggregator::new(&instrument, bt, false);

    let bars = aggregator.update(price(100_005), qty(20), 9);

    assert_eq!(bars.len(), 2);
    assert_eq!(aggregator.builder().volume(), Quantity::zero(0));
    assert_eq!(aggregator.builder().count(), 0);
    assert_eq!(aggregator.builder().open(), None);
    assert_eq!(aggregator.builder().last_close(), Some(price(100_005)));
    assert_eq!(aggregator.builder().ts_last(), 9);
}

#[test]
fn test_volume_bar_aggregator_step_one_ends_with_one_bar_per_unit() {
    let instrument = equity_aapl();
    let bt = bar_type(&instrument, 1, BarAggregation::Volume, PriceType::Last);
    let mut aggregator = VolumeBarAggregator::new(&instrument, bt, false);

    let bars = aggregator.update(price(100_005), Quantity::from_raw(25_500_000_000, 1), 9);

    assert_eq!(bars.len(), 25);
    for bar in &bars {
        assert_eq!(bar.volume.raw, 1_000_000_000);
    }
    assert_eq!(aggregator.builder().volume().raw, 500_000_000);
}

#[test]
fn test_volume_bar_aggregator_splits_in_raw_units() {
    let instrument = Instrument::new(InstrumentId::new("AAPL", "XNAS"), 9);
    let bt = bar_type(&instrument, 1, BarAggregation::Volume, PriceType::Last);
    let mut aggregator = VolumeBarAggregator::new(&instrument, bt, false);

    aggregator.update(price(100_005), Quantity::from_raw(999_999_999, 9), 1);
    let bars = aggregator.update(price(100_006), Quantity::from_raw(2, 9), 2);

    assert_eq!(bars.len(), 1);
    assert_eq!(bars[0].volume, Quantity::from_raw(1_000_000_000, 9));
    assert_eq!(bars[0].open, price(100_005));
    assert_eq!(bars[0].close, price(100_006));
    assert_eq!(aggregator.builder().volume(), Quantity::from_raw(1, 9));
}

#[test]
fn test_volume_bar_aggregator_conserves_volume_over_a_stream() {
    let instrument = equity_aapl();
    let bt = bar_type(&instrument, 7, BarAggregation::Volume, PriceType::Last);
    let mut aggregator = VolumeBarAggregator::new(&instrument, bt, false);

    let stream: [(i64, u64, u64); 9] = [
        (100_000, 3, 1),
        (100_004, 30, 2),
        (100_002, 5, 1), // late
        (100_001, 0, 3),
        (99_998, 1, 3),
        (100_010, 14, 5),
        (100_003, 100, 4), // late
        (100_007, 6, 6),
        (100_005, 2, 6),
    ];
    let mut sent: Vec<Bar> = Vec::new();
    let mut taken: u128 = 0;
    for (p, size, ts) in stream {
        if ts >= aggregator.builder().ts_last() {
            taken += qty(size).raw as u128;
        }
        sent.extend(aggregator.update(price(p), qty(size), ts));
        assert_eq!(total_volume(&sent) + aggregator.builder().volume().raw as u128, taken);
    }

    assert_eq!(taken, 56_000_000_000);
    assert_eq!(sent.len(), 8);
    for bar in &sent {
        assert_eq!(bar.volume, qty(7));
        assert!(bar.low.raw <= bar.open.raw.min(bar.close.raw));
        assert!(bar.open.raw.max(bar.close.raw) <= bar.high.raw);
    }
    assert_eq!(aggregator.builder().volume(), Quantity::zero(0));
}

#[test]
fn test_volume_bar_aggregator_late_update_changes_nothing() {
    let instrument = equity_aapl();
    let bt = bar_type(&instrument, 10, BarAggregation::Volume, PriceType::Last);
    let mut aggregator = VolumeBarAggregator::new(&instrument, bt, false);

    aggregator.update(price(100_005), qty(4), 1_000);
    let bars = aggregator.update(price(100_009), qty(50), 500);

    assert_eq!(bars.len(), 0);
    assert_eq!(aggregator.builder().volume(), qty(4));
    assert_eq!(aggregator.builder().count(), 1);
    assert_eq!(aggregator.builder().ts_last(), 1_000);
    assert_eq!(aggregator.builder().high(), Some(price(100_005)));
}

#[test]
fn test_volume_bar_aggregator_handle_trade_tick() {
    let instrument = equity_aapl();
    let bt = bar_type(&instrument, 10, BarAggregation::Volume, PriceType::Last);
    let mut aggregator = VolumeBarAggregator::new(&instrument, bt, false);

    let bars = aggregator.handle_trade_tick(TradeTick::new(price(100_005), qty(12), 7, 8));

    assert_eq!(bars.len(), 1);
    assert_eq!(bars[0].volume, qty(10));
    assert_eq!(bars[0].ts_event, 7);
    assert_eq!(aggregator.builder().volume(), qty(2));
}

#[test]
fn test_tick_bar_aggregator_has_room() {
    let instrument = equity_aapl();
    let bt = bar_type(&instrument, 3, BarAggregation::Tick, PriceType::Last);
    let mut aggregator = TickBarAggregator::new(&instrument, bt, false);

    aggregator.update(price(100_000), Quantity::from_raw(5, 0), 10);
    assert!(aggregator.has_room(Quantity::from_raw(u64::MAX - 5, 0), 10));
    assert!(!aggregator.has_room(Quantity::from_raw(u64::MAX - 4, 0), 10));
    assert!(aggregator.has_room(Quantity::from_raw(u64::MAX, 0), 9));
}

#[test]
fn test_volume_bar_aggregator_has_room_for_any_size() {
    let instrument = equity_aapl();
    let bt = bar_type(&instrument, 10, BarAggregation::Volume, PriceType::Last);
    let mut aggregator = VolumeBarAggregator::new(&instrument, bt, false);

    aggregator.update(price(100_000), qty(9), 10);
    assert!(aggregator.has_room(Quantity::from_raw(u64::MAX, 0), 10));
    assert!(aggregator.has_room(Quantity::from_raw(u64::MAX, 0), 9));
}

#[test]
fn test_volume_bar_aggregator_takes_the_largest_size() {
    let instrument = equity_aapl();
    let bt = bar_type(&instrument, 4_000_000_000, BarAggregation::Volume, PriceType::Last);
    let mut aggregator = VolumeBarAggregator::new(&instrument, bt, false);

    aggregator.update(price(100_000), qty(3_999_999_999), 10);
    let bars = aggregator.update(price(100_001), Quantity::from_raw(u64::MAX, 0), 11);

    // 3_999_999_999e9 + (2^64 - 1) raw units fill five bars of 4e18.
    assert_eq!(bars.len(), 5);
    for bar in &bars {
        assert_eq!(bar.volume.raw, 4_000_000_000_000_000_000);
    }
    assert_eq!(
        aggregator.builder().volume().raw as u128,
        3_999_999_999_000_000_000u128 + u64::MAX as u128 - 5 * 4_000_000_000_000_000_000u128
    );
}
