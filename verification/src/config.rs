use vstd::prelude::*;
use crate::text::{decimal, lemma_parse_decimal_round_trip, parse_decimal, parse_unsigned};

verus! {

/// The application's tunable settings.
#[derive(Debug, Clone)]
pub struct Config {
    pub rsi_period: usize,
    pub kline_limit: usize,
    pub request_timeout_secs: u64,
    pub rate_limit_secs: u64,
}

/// The value a setting takes: the number its text denotes when it is set and
/// parses as an unsigned integer no greater than `max`, else `default`.
pub open spec fn setting_value(text: Option<&str>, default: nat, max: nat) -> nat {
    match text {
        Some(s) => match parse_unsigned(s@, max) {
            Some(n) => n,
            None => default,
        },
        None => default,
    }
}

fn setting_u64(text: Option<&str>, default: u64, max: u64) -> (res: u64)
    requires
        default <= max,
    ensures
        res == setting_value(text, default as nat, max as nat),
        res <= max,
{
    match text {
        Some(s) => match parse_decimal(s, max) {
            Some(n) => n,
            None => default,
        },
        None => default,
    }
}

impl Config {
    /// The configuration given the texts of the `RSI_PERIOD`, `KLINE_LIMIT`,
    /// `REQUEST_TIMEOUT_SECS` and `RATE_LIMIT_SECS` settings (`None` when
    /// unset). A setting that is unset or does not parse takes its default:
    /// 14, 50, 10 and 2 respectively.
    pub fn from_settings(
        rsi_period: Option<&str>,
        kline_limit: Option<&str>,
        request_timeout_secs: Option<&str>,
        rate_limit_secs: Option<&str>,
    ) -> (res: Config)
        ensures
            res.rsi_period == setting_value(rsi_period, 14, usize::MAX as nat),
            res.kline_limit == setting_value(kline_limit, 50, usize::MAX as nat),
            res.request_timeout_secs == setting_value(request_timeout_secs, 10, u64::MAX as nat),
            res.rate_limit_secs == setting_value(rate_limit_secs, 2, u64::MAX as nat),
            forall|n: nat| #![trigger decimal(n)]
                n <= usize::MAX && rsi_period is Some && rsi_period->0@ == decimal(n)
                    ==> res.rsi_period == n,
            forall|n: nat| #![trigger decimal(n)]
                n <= usize::MAX && kline_limit is Some && kline_limit->0@ == decimal(n)
                    ==> res.kline_limit == n,
            forall|n: nat| #![trigger decimal(n)]
                n <= u64::MAX && request_timeout_secs is Some && request_timeout_secs->0@ == decimal(n)
                    ==> res.request_timeout_secs == n,
            forall|n: nat| #![trigger decimal(n)]
                n <= u64::MAX && rate_limit_secs is Some && rate_limit_secs->0@ == decimal(n)
                    ==> res.rate_limit_secs == n,
    {
        let usize_max = usize::MAX as u64;
        let rsi = setting_u64(rsi_period, 14, usize_max);
        let klines = setting_u64(kline_limit, 50, usize_max);
        let timeout = setting_u64(request_timeout_secs, 10, u64::MAX);
        let rate = setting_u64(rate_limit_secs, 2, u64::MAX);
        proof {
            assert forall|n: nat, m: nat| n <= m implies #[trigger] parse_unsigned(decimal(n), m) == Some(n) by {
                lemma_parse_decimal_round_trip(n, m);
            }
        }
        Config {
            rsi_period: rsi as usize,
            kline_limit: klines as usize,
            request_timeout_secs: timeout,
            rate_limit_secs: rate,
        }
    }
}

/// A setting written as the decimal form of a number no greater than the
/// setting's maximum takes exactly that number, whatever its default: no
/// value in range is replaced by the default.
pub proof fn lemma_setting_reads_decimal(text: &str, n: nat, default: nat, max: nat)
    requires
        n <= max,
        text@ == decimal(n),
    ensures
        setting_value(Some(text), default, max) == n,
{
    lemma_parse_decimal_round_trip(n, max);
}

/// An unset setting takes its default, and a set one falls back to the
/// default only when its text does not read as a number within range.
pub proof fn lemma_setting_default(text: Option<&str>, default: nat, max: nat)
    ensures
        text is None ==> setting_value(text, default, max) == default,
        text matches Some(t) ==> (parse_unsigned(t@, max) is None ==> setting_value(text, default, max) == default),
        text matches Some(t) ==> (parse_unsigned(t@, max) matches Some(k) ==> setting_value(text, default, max) == k),
{
}

} // verus!
