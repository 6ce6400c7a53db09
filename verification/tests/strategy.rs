use manguins::strategy::{
    Confidence, IndicatorChecks, PositionSide, StrategyAnalyzer, StrategyConfig, StrategyError,
    StrategySignal,
};

fn none() -> IndicatorChecks {
    IndicatorChecks {
        price_above_ema_short: false,
        ema_short_above_long: false,
        price_below_ema_short: false,
        ema_short_below_long: false,
        rsi_below_40: false,
        rsi_below_50: false,
        rsi_above_60: false,
        rsi_above_50: false,
        rsi_rising: false,
        rsi_falling: false,
        macd_above_signal: false,
        macd_below_signal: false,
        histogram_positive: false,
        histogram_negative: false,
        histogram_rising: false,
        histogram_falling: false,
        volume_spike: false,
        price_near_lower_band: false,
        price_near_upper_band: false,
    }
}

#[test]
fn strategy_config_default() {
    let c = StrategyConfig::default();
    assert_eq!(c.rsi_period, 14);
    assert_eq!(c.ema_short, 9);
    assert_eq!(c.ema_long, 21);
    assert_eq!(c.bb_period, 20);
    assert_eq!(c.volume_period, 20);
}

#[test]
fn no_evidence_holds_at_quarter_confidence() {
    let d = StrategyAnalyzer::decide(&none());
    assert_eq!(d.signal, StrategySignal::Hold);
    assert_eq!(d.confidence, Confidence { numerator: 1, denominator: 4 });
}

#[test]
fn full_buy_evidence_is_strong_buy() {
    let mut c = none();
    c.price_above_ema_short = true;
    c.ema_short_above_long = true;
    c.rsi_below_40 = true;
    c.rsi_below_50 = true;
    c.macd_above_signal = true;
    c.histogram_positive = true;
    c.histogram_rising = true;
    c.price_near_lower_band = true;
    assert_eq!(StrategyAnalyzer::buy_score(&c), 11);
    assert_eq!(StrategyAnalyzer::sell_score(&c), 0);
    let d = StrategyAnalyzer::decide(&c);
    assert_eq!(d.signal, StrategySignal::StrongBuy);
    assert_eq!(d.confidence, Confidence { numerator: 11, denominator: 14 });
}

#[test]
fn moderate_buy() {
    let mut c = none();
    c.rsi_below_40 = true;
    c.price_near_lower_band = true;
    // 2.5 points against none: a buy, but not a strong one.
    let d = StrategyAnalyzer::decide(&c);
    assert_eq!(d.signal, StrategySignal::Buy);
    assert_eq!(d.confidence, Confidence { numerator: 5, denominator: 14 });
}

#[test]
fn lead_of_exactly_one_and_a_half_points_holds() {
    let mut c = none();
    c.rsi_below_40 = true;
    let d = StrategyAnalyzer::decide(&c);
    assert_eq!(d.signal, StrategySignal::Hold);
    assert_eq!(d.confidence, Confidence { numerator: 3, denominator: 28 });
}

#[test]
fn rising_rsi_counts_only_below_fifty() {
    let mut c = none();
    c.rsi_below_50 = true;
    c.rsi_rising = true;
    assert_eq!(StrategyAnalyzer::buy_score(&c), 2);
    c.rsi_below_50 = false;
    assert_eq!(StrategyAnalyzer::buy_score(&c), 0);
}

#[test]
fn volume_spike_counts_for_both_sides() {
    let mut c = none();
    c.volume_spike = true;
    assert_eq!(StrategyAnalyzer::buy_score(&c), 1);
    assert_eq!(StrategyAnalyzer::sell_score(&c), 1);
    assert_eq!(StrategyAnalyzer::decide(&c).confidence, Confidence { numerator: 1, denominator: 4 });
}

#[test]
fn strong_sell_mirrors_strong_buy() {
    let mut c = none();
    c.price_below_ema_short = true;
    c.ema_short_below_long = true;
    c.rsi_above_60 = true;
    c.rsi_above_50 = true;
    c.macd_below_signal = true;
    c.histogram_negative = true;
    c.histogram_falling = true;
    c.volume_spike = true;
    let d = StrategyAnalyzer::decide(&c);
    assert_eq!(d.signal, StrategySignal::StrongSell);
    assert_eq!(d.confidence, Confidence { numerator: 10, denominator: 14 });
}

#[test]
fn sell_favoured_hold() {
    let mut c = none();
    c.rsi_above_50 = true;
    c.rsi_falling = true;
    c.price_near_upper_band = true;
    c.price_near_lower_band = true;
    let d = StrategyAnalyzer::decide(&c);
    assert_eq!(d.signal, StrategySignal::Hold);
    assert_eq!(d.confidence, Confidence { numerator: 4, denominator: 28 });
}

#[test]
fn position_sides() {
    assert_eq!(StrategySignal::StrongBuy.position_side(), PositionSide::Long);
    assert_eq!(StrategySignal::Buy.position_side(), PositionSide::Long);
    assert_eq!(StrategySignal::Sell.position_side(), PositionSide::Short);
    assert_eq!(StrategySignal::StrongSell.position_side(), PositionSide::Short);
    assert_eq!(StrategySignal::Hold.position_side(), PositionSide::Flat);
}

#[test]
fn history_needs_thirty_klines() {
    assert_eq!(
        StrategyAnalyzer::check_history(29),
        Err(StrategyError::NotEnoughKlines { required: 30, got: 29 })
    );
    assert_eq!(StrategyAnalyzer::check_history(30), Ok(()));
    assert_eq!(
        StrategyAnalyzer::check_history(0),
        Err(StrategyError::NotEnoughKlines { required: 30, got: 0 })
    );
}

#[test]
fn mirrored_checks_give_opposite_signal() {
    let mut buy = none();
    buy.price_above_ema_short = true;
    buy.ema_short_above_long = true;
    buy.rsi_below_50 = true;
    buy.rsi_rising = true;
    buy.volume_spike = true;
    let mut sell = none();
    sell.price_below_ema_short = true;
    sell.ema_short_below_long = true;
    sell.rsi_above_50 = true;
    sell.rsi_falling = true;
    sell.volume_spike = true;
    let b = StrategyAnalyzer::decide(&buy);
    let s = StrategyAnalyzer::decide(&sell);
    assert_eq!(b.signal, StrategySignal::Buy);
    assert_eq!(s.signal, StrategySignal::Sell);
    assert_eq!(b.confidence, s.confidence);
    assert_eq!(b.confidence, Confidence { numerator: 6, denominator: 14 });
}

#[test]
fn confidence_stays_below_one() {
    let mut c = none();
    c.price_above_ema_short = true;
    c.ema_short_above_long = true;
    c.rsi_below_40 = true;
    c.macd_above_signal = true;
    c.histogram_positive = true;
    c.histogram_rising = true;
    c.volume_spike = true;
    c.price_near_lower_band = true;
    let d = StrategyAnalyzer::decide(&c);
    assert_eq!(d.signal, StrategySignal::StrongBuy);
    assert_eq!(d.confidence, Confidence { numerator: 12, denominator: 14 });
    assert!(d.confidence.numerator < d.confidence.denominator);
}
