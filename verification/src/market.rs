use vstd::prelude::*;
use crate::signing::{url_encode, url_encoded};
use crate::text::{decimal, lemma_decimal_injective, lemma_parse_decimal_round_trip, parse_unsigned, u64_to_decimal};

verus! {

/// The address that lists the hourly candles of `symbol`, `limit` of them.
pub open spec fn klines_url_spec(symbol: Seq<char>, limit: nat) -> Seq<char> {
    "https://api.binance.com/api/v3/klines?symbol="@ + url_encoded(symbol) + "&interval=1h&limit="@
        + decimal(limit)
}

/// The address of Binance's public candle data for `symbol`: hourly candles,
/// the last `limit` of them.
pub fn klines_url(symbol: &str, limit: usize) -> (res: String)
    ensures
        res@ == klines_url_spec(symbol@, limit as nat),
{
    let mut url = "https://api.binance.com/api/v3/klines?symbol=".to_owned();
    let encoded = url_encode(symbol);
    url.append(encoded.as_str());
    url.append("&interval=1h&limit=");
    let digits = u64_to_decimal(limit as u64);
    url.append(digits.as_str());
    url
}

/// The text of the fields of a candle that the strategy reads.
#[derive(Debug, Clone)]
pub struct KlineFields {
    pub open: String,
    pub high: String,
    pub low: String,
    pub close: String,
    pub volume: String,
}

/// Where in a row of Binance's candle data each field stands: open 1, high 2,
/// low 3, close 4, volume 7; rows without all of these as text have none.
pub open spec fn kline_fields_spec(row: Seq<Option<String>>) -> Option<KlineFields> {
    if row.len() < 8 {
        None
    } else if row[1] is Some && row[2] is Some && row[3] is Some && row[4] is Some && row[7] is Some {
        Some(KlineFields {
            open: row[1]->0,
            high: row[2]->0,
            low: row[3]->0,
            close: row[4]->0,
            volume: row[7]->0,
        })
    } else {
        None
    }
}

/// Picks the fields of a candle out of a row of Binance's candle data, each
/// row entry given as its text when it is a JSON string. A row too short to
/// hold the volume entry (fewer than eight entries), or one whose needed
/// entries are not all strings, has insufficient fields and gives `None`.
pub fn kline_fields(row: &Vec<Option<String>>) -> (res: Option<KlineFields>)
    ensures
        res == kline_fields_spec(row@),
{
    if row.len() < 8 {
        return None;
    }
    let open = match &row[1] {
        Some(t) => t.clone(),
        None => return None,
    };
    let high = match &row[2] {
        Some(t) => t.clone(),
        None => return None,
    };
    let low = match &row[3] {
        Some(t) => t.clone(),
        None => return None,
    };
    let close = match &row[4] {
        Some(t) => t.clone(),
        None => return None,
    };
    let volume = match &row[7] {
        Some(t) => t.clone(),
        None => return None,
    };
    Some(KlineFields { open, high, low, close, volume })
}

/// The candle address asks for exactly the requested number of candles: it
/// is the symbol's part followed by a limit text that reads back as `limit`.
pub proof fn lemma_klines_url_limit(symbol: Seq<char>, limit: nat)
    ensures
        exists|t: Seq<char>|
            klines_url_spec(symbol, limit) == "https://api.binance.com/api/v3/klines?symbol="@
                + url_encoded(symbol) + "&interval=1h&limit="@ + t && parse_unsigned(t, limit)
                == Some(limit),
{
    let t = decimal(limit);
    lemma_parse_decimal_round_trip(limit, limit);
    assert(klines_url_spec(symbol, limit) == "https://api.binance.com/api/v3/klines?symbol="@
        + url_encoded(symbol) + "&interval=1h&limit="@ + t);
}

/// Different limits give different candle addresses.
pub proof fn lemma_klines_url_injective_in_limit(symbol: Seq<char>, l1: nat, l2: nat)
    requires
        l1 != l2,
    ensures
        klines_url_spec(symbol, l1) != klines_url_spec(symbol, l2),
{
    let p = "https://api.binance.com/api/v3/klines?symbol="@ + url_encoded(symbol) + "&interval=1h&limit="@;
    assert(klines_url_spec(symbol, l1) == p + decimal(l1));
    assert(klines_url_spec(symbol, l2) == p + decimal(l2));
    if klines_url_spec(symbol, l1) == klines_url_spec(symbol, l2) {
        assert((p + decimal(l1)).skip(p.len() as int) =~= decimal(l1));
        assert((p + decimal(l2)).skip(p.len() as int) =~= decimal(l2));
        lemma_decimal_injective(l1, l2);
    }
}

} // verus!
