use vstd::prelude::*;

verus! {

/// The recommendation of the strategy.
#[derive(Debug, Clone, Copy, PartialEq, Eq, Structural)]
pub enum StrategySignal {
    StrongBuy,
    Buy,
    Sell,
    StrongSell,
    Hold,
}

/// The strategy's indicator computations and decision rules.
pub struct StrategyAnalyzer;

/// The periods of the indicators the strategy uses.
#[derive(Debug, Clone)]
pub struct StrategyConfig {
    pub rsi_period: usize,
    pub ema_short: usize,
    pub ema_long: usize,
    pub bb_period: usize,
    pub volume_period: usize,
}

impl Default for StrategyConfig {
    /// RSI over 14 candles, EMAs over 9 and 21, Bollinger Bands and the volume
    /// average over 20.
    fn default() -> (res: Self)
        ensures
            res.rsi_period == 14,
            res.ema_short == 9,
            res.ema_long == 21,
            res.bb_period == 20,
            res.volume_period == 20,
    {
        StrategyConfig { rsi_period: 14, ema_short: 9, ema_long: 21, bb_period: 20, volume_period: 20 }
    }
}

/// The outcomes of the comparisons the strategy makes on the latest values
/// of its indicators. Each field is one comparison, true when it holds.
#[derive(Debug, Clone, Copy, PartialEq, Eq, Structural)]
pub struct IndicatorChecks {
    /// The price is above the short EMA.
    pub price_above_ema_short: bool,
    /// The short EMA is above the long EMA.
    pub ema_short_above_long: bool,
    /// The price is below the short EMA.
    pub price_below_ema_short: bool,
    /// The short EMA is below the long EMA.
    pub ema_short_below_long: bool,
    /// The RSI is below 40.
    pub rsi_below_40: bool,
    /// The RSI is below 50.
    pub rsi_below_50: bool,
    /// The RSI is above 60.
    pub rsi_above_60: bool,
    /// The RSI is above 50.
    pub rsi_above_50: bool,
    /// There is an earlier RSI value and it is below the latest.
    pub rsi_rising: bool,
    /// There is an earlier RSI value and it is above the latest.
    pub rsi_falling: bool,
    /// The MACD line is above the signal line.
    pub macd_above_signal: bool,
    /// The MACD line is below the signal line.
    pub macd_below_signal: bool,
    /// The histogram is above zero.
    pub histogram_positive: bool,
    /// The histogram is below zero.
    pub histogram_negative: bool,
    /// The histogram is above its previous value (zero when there is none).
    pub histogram_rising: bool,
    /// The histogram is below its previous value (zero when there is none).
    pub histogram_falling: bool,
    /// The volume exceeds 1.2 times its moving average.
    pub volume_spike: bool,
    /// The price is below 1.01 times the lower Bollinger Band.
    pub price_near_lower_band: bool,
    /// The price is above 0.99 times the upper Bollinger Band.
    pub price_near_upper_band: bool,
}

/// The buy score in half points: trend 1.5, RSI 1.5 (oversold) or 1.0
/// (rising below 50), MACD 1.5, volume 0.5, lower band 1.0.
pub open spec fn buy_points(c: IndicatorChecks) -> nat {
    (if c.price_above_ema_short && c.ema_short_above_long { 3nat } else { 0nat })
        + (if c.rsi_below_40 { 3nat } else if c.rsi_below_50 && c.rsi_rising { 2nat } else { 0nat })
        + (if c.macd_above_signal && c.histogram_positive && c.histogram_rising { 3nat } else { 0nat })
        + (if c.volume_spike { 1nat } else { 0nat })
        + (if c.price_near_lower_band { 2nat } else { 0nat })
}

/// The sell score in half points: trend 1.5, RSI 1.5 (overbought) or 1.0
/// (falling above 50), MACD 1.5, volume 0.5, upper band 1.0.
pub open spec fn sell_points(c: IndicatorChecks) -> nat {
    (if c.price_below_ema_short && c.ema_short_below_long { 3nat } else { 0nat })
        + (if c.rsi_above_60 { 3nat } else if c.rsi_above_50 && c.rsi_falling { 2nat } else { 0nat })
        + (if c.macd_below_signal && c.histogram_negative && c.histogram_falling { 3nat } else { 0nat })
        + (if c.volume_spike { 1nat } else { 0nat })
        + (if c.price_near_upper_band { 2nat } else { 0nat })
}

/// A confidence as the exact fraction `numerator / denominator`.
#[derive(Debug, Clone, Copy, PartialEq, Eq, Structural)]
pub struct Confidence {
    pub numerator: u32,
    pub denominator: u32,
}

/// The outcome of the analysis: a signal and how confident it is.
#[derive(Debug, Clone, Copy, PartialEq, Eq, Structural)]
pub struct Decision {
    pub signal: StrategySignal,
    pub confidence: Confidence,
}

/// The signal for buy and sell scores `b` and `s` (in half points): a side
/// wins when it leads by more than 1.5 points, strongly from 4.5 points on;
/// otherwise hold.
pub open spec fn signal_for(b: nat, s: nat) -> StrategySignal {
    if b > s + 3 {
        if b >= 9 { StrategySignal::StrongBuy } else { StrategySignal::Buy }
    } else if s > b + 3 {
        if s >= 9 { StrategySignal::StrongSell } else { StrategySignal::Sell }
    } else {
        StrategySignal::Hold
    }
}

/// The confidence for scores `b` and `s` (in half points): the winning score
/// over 7 points; when holding, half of the larger score over 7, or 0.25 when
/// the scores tie.
pub open spec fn confidence_for(b: nat, s: nat) -> Confidence {
    if b > s + 3 {
        Confidence { numerator: b as u32, denominator: 14 }
    } else if s > b + 3 {
        Confidence { numerator: s as u32, denominator: 14 }
    } else if b > s {
        Confidence { numerator: b as u32, denominator: 28 }
    } else if s > b {
        Confidence { numerator: s as u32, denominator: 28 }
    } else {
        Confidence { numerator: 1, denominator: 4 }
    }
}

/// The decision for the given comparison outcomes.
pub open spec fn decision(c: IndicatorChecks) -> Decision {
    Decision {
        signal: signal_for(buy_points(c), sell_points(c)),
        confidence: confidence_for(buy_points(c), sell_points(c)),
    }
}

/// The comparison outcomes seen from the other side: every buy-side
/// comparison is exchanged with its sell-side counterpart.
pub open spec fn mirrored(c: IndicatorChecks) -> IndicatorChecks {
    IndicatorChecks {
        price_above_ema_short: c.price_below_ema_short,
        ema_short_above_long: c.ema_short_below_long,
        price_below_ema_short: c.price_above_ema_short,
        ema_short_below_long: c.ema_short_above_long,
        rsi_below_40: c.rsi_above_60,
        rsi_below_50: c.rsi_above_50,
        rsi_above_60: c.rsi_below_40,
        rsi_above_50: c.rsi_below_50,
        rsi_rising: c.rsi_falling,
        rsi_falling: c.rsi_rising,
        macd_above_signal: c.macd_below_signal,
        macd_below_signal: c.macd_above_signal,
        histogram_positive: c.histogram_negative,
        histogram_negative: c.histogram_positive,
        histogram_rising: c.histogram_falling,
        histogram_falling: c.histogram_rising,
        volume_spike: c.volume_spike,
        price_near_lower_band: c.price_near_upper_band,
        price_near_upper_band: c.price_near_lower_band,
    }
}

/// The signal on the other side of the market.
pub open spec fn opposite(s: StrategySignal) -> StrategySignal {
    match s {
        StrategySignal::StrongBuy => StrategySignal::StrongSell,
        StrategySignal::Buy => StrategySignal::Sell,
        StrategySignal::Sell => StrategySignal::Buy,
        StrategySignal::StrongSell => StrategySignal::StrongBuy,
        StrategySignal::Hold => StrategySignal::Hold,
    }
}

/// Which way the protective levels of a trade lie from the entry price.
#[derive(Debug, Clone, Copy, PartialEq, Eq, Structural)]
pub enum PositionSide {
    /// A buy: stop loss two ATRs below the entry, take profit three above.
    Long,
    /// A sell: stop loss two ATRs above the entry, take profit three below.
    Short,
    /// A hold: both levels at the entry price.
    Flat,
}

/// The position side of a signal.
pub open spec fn side_of(s: StrategySignal) -> PositionSide {
    match s {
        StrategySignal::StrongBuy | StrategySignal::Buy => PositionSide::Long,
        StrategySignal::Sell | StrategySignal::StrongSell => PositionSide::Short,
        StrategySignal::Hold => PositionSide::Flat,
    }
}

impl StrategySignal {
    /// The side on which the stop loss and take profit of this signal lie.
    pub fn position_side(&self) -> (res: PositionSide)
        ensures
            res == side_of(*self),
    {
        match self {
            StrategySignal::StrongBuy | StrategySignal::Buy => PositionSide::Long,
            StrategySignal::Sell | StrategySignal::StrongSell => PositionSide::Short,
            StrategySignal::Hold => PositionSide::Flat,
        }
    }
}

/// The fewest candles the analysis accepts.
pub const MIN_KLINES: usize = 30;

/// Why the strategy could not analyse the data.
#[derive(Debug, Clone, Copy, PartialEq, Eq, Structural)]
pub enum StrategyError {
    /// Fewer candles than the analysis needs were given.
    NotEnoughKlines { required: usize, got: usize },
}

impl StrategyAnalyzer {
    /// Refuses a history of fewer than 30 candles.
    pub fn check_history(kline_count: usize) -> (res: Result<(), StrategyError>)
        ensures
            kline_count < MIN_KLINES ==> res == Err::<(), StrategyError>(
                StrategyError::NotEnoughKlines { required: MIN_KLINES, got: kline_count },
            ),
            kline_count >= MIN_KLINES ==> res is Ok,
    {
        if kline_count < MIN_KLINES {
            Err(StrategyError::NotEnoughKlines { required: MIN_KLINES, got: kline_count })
        } else {
            Ok(())
        }
    }

    /// The buy score, in half points.
    pub fn buy_score(checks: &IndicatorChecks) -> (res: u32)
        ensures
            res == buy_points(*checks),
    {
        let mut score: u32 = 0;
        if checks.price_above_ema_short && checks.ema_short_above_long {
            score = score + 3;
        }
        if checks.rsi_below_40 {
            score = score + 3;
        } else if checks.rsi_below_50 && checks.rsi_rising {
            score = score + 2;
        }
        if checks.macd_above_signal && checks.histogram_positive && checks.histogram_rising {
            score = score + 3;
        }
        if checks.volume_spike {
            score = score + 1;
        }
        if checks.price_near_lower_band {
            score = score + 2;
        }
        score
    }

    /// The sell score, in half points.
    pub fn sell_score(checks: &IndicatorChecks) -> (res: u32)
        ensures
            res == sell_points(*checks),
    {
        let mut score: u32 = 0;
        if checks.price_below_ema_short && checks.ema_short_below_long {
            score = score + 3;
        }
        if checks.rsi_above_60 {
            score = score + 3;
        } else if checks.rsi_above_50 && checks.rsi_falling {
            score = score + 2;
        }
        if checks.macd_below_signal && checks.histogram_negative && checks.histogram_falling {
            score = score + 3;
        }
        if checks.volume_spike {
            score = score + 1;
        }
        if checks.price_near_upper_band {
            score = score + 2;
        }
        score
    }

    /// Weighs the buy and sell evidence and decides on a signal and its
    /// confidence.
    pub fn decide(checks: &IndicatorChecks) -> (res: Decision)
        ensures
            res == decision(*checks),
    {
        let b = Self::buy_score(checks);
        let s = Self::sell_score(checks);
        if b > s + 3 {
            let signal = if b >= 9 { StrategySignal::StrongBuy } else { StrategySignal::Buy };
            Decision { signal, confidence: Confidence { numerator: b, denominator: 14 } }
        } else if s > b + 3 {
            let signal = if s >= 9 { StrategySignal::StrongSell } else { StrategySignal::Sell };
            Decision { signal, confidence: Confidence { numerator: s, denominator: 14 } }
        } else if b > s {
            Decision { signal: StrategySignal::Hold, confidence: Confidence { numerator: b, denominator: 28 } }
        } else if s > b {
            Decision { signal: StrategySignal::Hold, confidence: Confidence { numerator: s, denominator: 28 } }
        } else {
            Decision { signal: StrategySignal::Hold, confidence: Confidence { numerator: 1, denominator: 4 } }
        }
    }
}

/// Each score is at most 6 points (12 half points).
pub proof fn lemma_scores_bounded(c: IndicatorChecks)
    ensures
        buy_points(c) <= 12,
        sell_points(c) <= 12,
{
}

/// The confidence always lies between 0 and 1, and is in fact below 1: the
/// largest possible score, 6 points, is less than the 7 points it is measured
/// against.
pub proof fn lemma_confidence_in_unit_interval(c: IndicatorChecks)
    ensures
        decision(c).confidence.denominator > 0,
        decision(c).confidence.numerator < decision(c).confidence.denominator,
{
}

/// The strategy treats both sides alike: mirroring every comparison turns
/// each signal into its opposite and keeps the confidence.
pub proof fn lemma_decision_symmetric(c: IndicatorChecks)
    ensures
        decision(mirrored(c)).signal == opposite(decision(c).signal),
        decision(mirrored(c)).confidence == decision(c).confidence,
{
}

/// A buy signal needs the buy score to lead by more than 1.5 points, a sell
/// signal the sell score; a strong signal needs at least 4.5 points; and the
/// strategy holds exactly when neither score leads by more than 1.5 points.
pub proof fn lemma_signal_thresholds(c: IndicatorChecks)
    ensures
        (decision(c).signal == StrategySignal::Buy || decision(c).signal == StrategySignal::StrongBuy)
            <==> buy_points(c) > sell_points(c) + 3,
        (decision(c).signal == StrategySignal::Sell || decision(c).signal == StrategySignal::StrongSell)
            <==> sell_points(c) > buy_points(c) + 3,
        decision(c).signal == StrategySignal::StrongBuy ==> buy_points(c) >= 9,
        decision(c).signal == StrategySignal::StrongSell ==> sell_points(c) >= 9,
        decision(c).signal == StrategySignal::Hold <==> (buy_points(c) <= sell_points(c) + 3
            && sell_points(c) <= buy_points(c) + 3),
{
}

/// Buy signals protect a long position, sell signals a short one, and a hold
/// opens neither.
pub proof fn lemma_protection_follows_signal(c: IndicatorChecks)
    ensures
        side_of(decision(c).signal) == PositionSide::Long <==> buy_points(c) > sell_points(c) + 3,
        side_of(decision(c).signal) == PositionSide::Short <==> sell_points(c) > buy_points(c) + 3,
{
}

/// Without any buy-side evidence the buy score is zero, and without any
/// sell-side evidence the sell score is zero.
pub proof fn lemma_no_evidence_scores_zero(c: IndicatorChecks)
    ensures
        !c.price_above_ema_short && !c.rsi_below_40 && !c.rsi_below_50 && !c.macd_above_signal
            && !c.volume_spike && !c.price_near_lower_band ==> buy_points(c) == 0,
        !c.price_below_ema_short && !c.rsi_above_60 && !c.rsi_above_50 && !c.macd_below_signal
            && !c.volume_spike && !c.price_near_upper_band ==> sell_points(c) == 0,
{
}

/// The trend adds 1.5 points to the buy score exactly when the price is
/// above the short EMA and the short EMA above the long one.
pub proof fn lemma_buy_trend_weight(c: IndicatorChecks)
    ensures
        buy_points(c) == buy_points(IndicatorChecks { price_above_ema_short: false, ..c })
            + (if c.price_above_ema_short && c.ema_short_above_long { 3int } else { 0int }),
{
}

/// The RSI adds 1.5 points to the buy score when it is below 40, otherwise
/// 1 point when it is below 50 and rising, and nothing else.
pub proof fn lemma_buy_rsi_weight(c: IndicatorChecks)
    ensures
        buy_points(c) == buy_points(IndicatorChecks { rsi_below_40: false, rsi_below_50: false, ..c })
            + (if c.rsi_below_40 { 3int } else if c.rsi_below_50 && c.rsi_rising { 2int } else { 0int }),
{
}

/// The MACD adds 1.5 points to the buy score exactly when the MACD line is
/// above the signal line and the histogram is both positive and rising; a
/// positive but shrinking histogram adds nothing.
pub proof fn lemma_buy_macd_weight(c: IndicatorChecks)
    ensures
        buy_points(c) == buy_points(IndicatorChecks { macd_above_signal: false, ..c })
            + (if c.macd_above_signal && c.histogram_positive && c.histogram_rising { 3int } else { 0int }),
        !c.histogram_rising ==> buy_points(c) == buy_points(IndicatorChecks { macd_above_signal: false, ..c }),
{
}

/// A volume spike adds half a point to the buy score.
#[verifier::rlimit(50)]
pub proof fn lemma_buy_volume_weight(c: IndicatorChecks)
    ensures
        buy_points(c) == buy_points(IndicatorChecks { volume_spike: false, ..c })
            + (if c.volume_spike { 1int } else { 0int }),
{
}

/// A price near the lower band adds 1 point to the buy score.
#[verifier::rlimit(50)]
pub proof fn lemma_buy_band_weight(c: IndicatorChecks)
    ensures
        buy_points(c) == buy_points(IndicatorChecks { price_near_lower_band: false, ..c })
            + (if c.price_near_lower_band { 2int } else { 0int }),
{
}

/// The sell score is the buy score of the mirrored comparisons: each sell
/// condition weighs what its buy counterpart weighs, and the MACD counts for
/// selling only with a negative and falling histogram.
pub proof fn lemma_sell_score_mirrors_buy(c: IndicatorChecks)
    ensures
        sell_points(c) == buy_points(mirrored(c)),
        !c.histogram_falling ==> sell_points(c) == sell_points(IndicatorChecks { macd_below_signal: false, ..c }),
{
}

/// Neither score depends on the other side's conditions.
pub proof fn lemma_scores_one_sided(c: IndicatorChecks)
    ensures
        buy_points(c) == buy_points(IndicatorChecks {
            price_below_ema_short: false,
            ema_short_below_long: false,
            rsi_above_60: false,
            rsi_above_50: false,
            rsi_falling: false,
            macd_below_signal: false,
            histogram_negative: false,
            histogram_falling: false,
            price_near_upper_band: false,
            ..c
        }),
        sell_points(c) == sell_points(IndicatorChecks {
            price_above_ema_short: false,
            ema_short_above_long: false,
            rsi_below_40: false,
            rsi_below_50: false,
            rsi_rising: false,
            macd_above_signal: false,
            histogram_positive: false,
            histogram_rising: false,
            price_near_lower_band: false,
            ..c
        }),
{
}

/// The confidence is the winning score over 7 points; when holding, half the
/// larger score over 7 points, or a quarter when the scores tie.
pub proof fn lemma_confidence_value(c: IndicatorChecks)
    ensures
        buy_points(c) > sell_points(c) + 3 ==> decision(c).confidence.numerator == buy_points(c)
            && decision(c).confidence.denominator == 14,
        sell_points(c) > buy_points(c) + 3 ==> decision(c).confidence.numerator == sell_points(c)
            && decision(c).confidence.denominator == 14,
        decision(c).signal == StrategySignal::Hold && buy_points(c) != sell_points(c)
            ==> decision(c).confidence.denominator == 28 && decision(c).confidence.numerator == (
            if buy_points(c) > sell_points(c) { buy_points(c) } else { sell_points(c) }),
        buy_points(c) == sell_points(c) ==> decision(c).signal == StrategySignal::Hold
            && decision(c).confidence.numerator == 1 && decision(c).confidence.denominator == 4,
{
    lemma_scores_bounded(c);
}

} // verus!
