use vstd::prelude::*;
use crate::signing::{
    param_view, params_view, query_pair, sign_params, signature,
    url_encode, SigningError,
};
use crate::clock::{epoch_millis, is_clock_reading, millis_of, now_epoch_nanos};
use crate::text::{decimal, i64_to_decimal, signed_decimal, u64_to_decimal};

verus! {

/// The balance of one asset in a Binance account, as the exchange reports it.
#[derive(Debug)]
pub struct AccountBalance {
    pub asset: String,
    pub free: String,
    pub locked: String,
}

/// The account information that Binance reports.
#[derive(Debug)]
pub struct AccountInfo {
    pub balances: Vec<AccountBalance>,
    pub can_trade: bool,
    pub can_deposit: bool,
    pub can_withdraw: bool,
}

/// Binance's answer to an order.
#[derive(Debug)]
pub struct OrderResponse {
    pub symbol: String,
    pub order_id: u64,
    pub client_order_id: String,
    pub transact_time: u64,
    pub price: String,
    pub orig_qty: String,
    pub executed_qty: String,
    pub cum_quote_asset_transacted_qty: String,
    pub status: String,
    pub time_in_force: String,
    pub side: String,
}

/// Whether some balance in `bs` is for `asset`.
pub open spec fn has_asset(bs: Seq<AccountBalance>, asset: Seq<char>) -> bool {
    exists|i: int| 0 <= i < bs.len() && #[trigger] bs[i].asset@ == asset
}

/// `i` is the first position in `bs` whose balance is for `asset`.
pub open spec fn is_first_of_asset(bs: Seq<AccountBalance>, asset: Seq<char>, i: int) -> bool {
    &&& 0 <= i < bs.len()
    &&& bs[i].asset@ == asset
    &&& forall|j: int| 0 <= j < i ==> #[trigger] bs[j].asset@ != asset
}

impl AccountInfo {
    /// The `free` amount of the first balance for `asset`, as text; `None`
    /// when the account lists no balance for it.
    pub fn free_balance(&self, asset: &str) -> (res: Option<String>)
        ensures
            res is None <==> !has_asset(self.balances@, asset@),
            res matches Some(f) ==> exists|i: int|
                is_first_of_asset(self.balances@, asset@, i) && f@ == self.balances@[i].free@,
    {
        let target = asset.to_owned();
        let n = self.balances.len();
        for i in 0..n
            invariant
                n == self.balances@.len(),
                target@ == asset@,
                forall|j: int| 0 <= j < i ==> #[trigger] self.balances@[j].asset@ != asset@,
        {
            if self.balances[i].asset == target {
                assert(is_first_of_asset(self.balances@, asset@, i as int));
                return Some(self.balances[i].free.clone());
            }
        }
        None
    }
}

impl OrderResponse {
    /// The order id as decimal text.
    pub fn order_id_text(&self) -> (res: String)
        ensures
            res@ == decimal(self.order_id as nat),
    {
        u64_to_decimal(self.order_id)
    }
}

/// Why a Binance request could not be prepared.
#[derive(Debug, PartialEq, Eq, Structural)]
pub enum ClientError {
    /// No API key was configured.
    MissingApiKey,
    /// No API secret was configured.
    MissingApiSecret,
    /// The HMAC key was refused.
    InvalidSigningKey,
    /// The clock reads a time whose milliseconds do not fit in an `i64`.
    ClockOutOfRange,
}

/// `t` is the time in milliseconds of some reading of the system clock.
pub open spec fn is_clock_millis(t: i64) -> bool {
    exists|n: i128| is_clock_reading(n as int) && millis_of(n as int) == Some(t)
}

/// The side of a market order.
#[derive(Debug, Clone, Copy, PartialEq, Eq, Structural)]
pub enum OrderSide {
    Buy,
    Sell,
}

/// The name Binance uses for an order side.
pub open spec fn side_name(side: OrderSide) -> Seq<char> {
    match side {
        OrderSide::Buy => "BUY"@,
        OrderSide::Sell => "SELL"@,
    }
}

impl OrderSide {
    /// `BUY` or `SELL`.
    pub fn as_str(&self) -> (res: &'static str)
        ensures
            res@ == side_name(*self),
    {
        match self {
            OrderSide::Buy => "BUY",
            OrderSide::Sell => "SELL",
        }
    }
}

/// The address of Binance's REST API.
pub open spec fn binance_base_url() -> Seq<char> {
    "https://api.binance.com"@
}

/// The request address: the endpoint, `?`, then each parameter as
/// `name=encoded-value&`.
pub open spec fn url_with_params(endpoint: Seq<char>, ps: Seq<(Seq<char>, Seq<char>)>) -> Seq<char>
    decreases ps.len(),
{
    if ps.len() == 0 {
        endpoint + seq!['?']
    } else {
        url_with_params(endpoint, ps.drop_last()) + query_pair(ps.last()) + seq!['&']
    }
}

/// The signed request address: the parameters, then `signature=` and the
/// signature.
pub open spec fn signed_url(endpoint: Seq<char>, ps: Seq<(Seq<char>, Seq<char>)>, sig: Seq<char>) -> Seq<char> {
    url_with_params(endpoint, ps) + "signature="@ + sig
}

/// The parameters of an account request made at `timestamp` (milliseconds).
pub open spec fn account_params(timestamp: int) -> Seq<(Seq<char>, Seq<char>)> {
    seq![("timestamp"@, signed_decimal(timestamp))]
}

/// The parameters of a market order, in the order in which they are signed.
pub open spec fn order_params(symbol: Seq<char>, side: OrderSide, quantity: Seq<char>, timestamp: int) -> Seq<(Seq<char>, Seq<char>)> {
    seq![
        ("symbol"@, symbol),
        ("side"@, side_name(side)),
        ("type"@, "MARKET"@),
        ("quantity"@, quantity),
        ("timestamp"@, signed_decimal(timestamp)),
    ]
}

/// The credentials and address with which requests to Binance are signed.
pub struct RealBinanceClient {
    api_key: String,
    api_secret: String,
    base_url: String,
}

impl RealBinanceClient {
    pub closed spec fn spec_api_key(&self) -> Seq<char> {
        self.api_key@
    }

    pub closed spec fn spec_api_secret(&self) -> Seq<char> {
        self.api_secret@
    }

    pub closed spec fn spec_base_url(&self) -> Seq<char> {
        self.base_url@
    }

    /// A client for `https://api.binance.com` with the configured key and
    /// secret; the key is looked for first.
    pub fn new(api_key: Option<String>, api_secret: Option<String>) -> (res: Result<Self, ClientError>)
        ensures
            api_key is None ==> res == Err::<Self, ClientError>(ClientError::MissingApiKey),
            api_key is Some && api_secret is None ==> res == Err::<Self, ClientError>(
                ClientError::MissingApiSecret,
            ),
            api_key is Some && api_secret is Some ==> (res matches Ok(c) && c.spec_api_key()
                == api_key->0@ && c.spec_api_secret() == api_secret->0@ && c.spec_base_url()
                == binance_base_url()),
    {
        let api_key = match api_key {
            Some(k) => k,
            None => return Err(ClientError::MissingApiKey),
        };
        let api_secret = match api_secret {
            Some(s) => s,
            None => return Err(ClientError::MissingApiSecret),
        };
        Ok(RealBinanceClient { api_key, api_secret, base_url: "https://api.binance.com".to_owned() })
    }

    /// The API key, sent in the `X-MBX-APIKEY` header.
    pub fn api_key(&self) -> (res: &str)
        ensures
            res@ == self.spec_api_key(),
    {
        self.api_key.as_str()
    }

    /// The HMAC-SHA256 signature of the query string of `params`, in
    /// lower-case hex.
    pub fn generate_signature(&self, params: &[(String, String)]) -> (res: Result<String, ClientError>)
        ensures
            res is Ok,
            res matches Ok(sig) ==> sig@ == signature(self.spec_api_secret(), params_view(params@))
                && sig@.len() == 64,
    {
        match sign_params(self.api_secret.as_str(), params) {
            Ok(sig) => Ok(sig),
            Err(SigningError::InvalidKey) => Err(ClientError::InvalidSigningKey),
        }
    }

    /// The address of the account endpoint.
    pub fn account_endpoint(&self) -> (res: String)
        ensures
            res@ == self.spec_base_url() + "/api/v3/account"@,
    {
        let mut url = self.base_url.clone();
        url.append("/api/v3/account");
        url
    }

    /// The address of the order endpoint.
    pub fn order_endpoint(&self) -> (res: String)
        ensures
            res@ == self.spec_base_url() + "/api/v3/order"@,
    {
        let mut url = self.base_url.clone();
        url.append("/api/v3/order");
        url
    }

    /// The signed address of an account request made at `timestamp`
    /// (milliseconds since the Unix epoch).
    pub fn account_url_at(&self, timestamp: i64) -> (res: Result<String, ClientError>)
        ensures
            res is Ok,
            res matches Ok(url) ==> url@ == signed_url(
                self.spec_base_url() + "/api/v3/account"@,
                account_params(timestamp as int),
                signature(self.spec_api_secret(), account_params(timestamp as int)),
            ),
            signature(self.spec_api_secret(), account_params(timestamp as int)).len() == 64,
    {
        let mut params: Vec<(String, String)> = Vec::new();
        params.push(("timestamp".to_owned(), i64_to_decimal(timestamp)));
        assert(params_view(params@) =~= account_params(timestamp as int));
        let sig = match self.generate_signature(params.as_slice()) {
            Ok(s) => s,
            Err(e) => return Err(e),
        };
        let endpoint = self.account_endpoint();
        let mut url = endpoint;
        url.push('?');
        let n = params.len();
        let ghost ps = params_view(params@);
        for i in 0..n
            invariant
                n == params@.len(),
                ps == params_view(params@),
                url@ == url_with_params(self.spec_base_url() + "/api/v3/account"@, ps.take(i as int)),
        {
            url.append(params[i].0.as_str());
            url.push('=');
            let encoded = url_encode(params[i].1.as_str());
            url.append(encoded.as_str());
            url.push('&');
            proof {
                assert(ps.take(i + 1).drop_last() =~= ps.take(i as int));
                assert(ps[i as int] == param_view(params@[i as int]));
                assert(url@ =~= url_with_params(self.spec_base_url() + "/api/v3/account"@, ps.take(i + 1)));
            }
        }
        assert(ps.take(n as int) =~= ps);
        url.append("signature=");
        url.append(sig.as_str());
        Ok(url)
    }

    /// The signed address of an account request made now, stamped with the
    /// clock's time in milliseconds; refused when that time does not fit in an
    /// `i64`.
    pub fn account_url(&self) -> (res: Result<String, ClientError>)
        ensures
            res is Err ==> res == Err::<String, ClientError>(ClientError::ClockOutOfRange)
                && exists|n: i128| is_clock_reading(n as int) && millis_of(n as int) is None,
            res matches Ok(url) ==> exists|t: i64| is_clock_millis(t) && url@ == signed_url(
                self.spec_base_url() + "/api/v3/account"@,
                account_params(t as int),
                signature(self.spec_api_secret(), account_params(t as int)),
            ),
    {
        let nanos = now_epoch_nanos();
        match epoch_millis(nanos) {
            Some(t) => {
                let res = self.account_url_at(t);
                assert(is_clock_millis(t));
                res
            },
            None => {
                assert(is_clock_reading(nanos as int) && millis_of(nanos as int) is None);
                Err(ClientError::ClockOutOfRange)
            },
        }
    }

    /// The form of a market order made at `timestamp` (milliseconds): the
    /// order's parameters, then its `signature`.
    pub fn order_form_at(&self, symbol: &str, side: OrderSide, quantity: &str, timestamp: i64) -> (res: Result<Vec<(String, String)>, ClientError>)
        ensures
            res is Ok,
            res matches Ok(form) ==> params_view(form@) == order_params(symbol@, side, quantity@, timestamp as int).push(
                ("signature"@, signature(self.spec_api_secret(), order_params(symbol@, side, quantity@, timestamp as int))),
            ),
            signature(self.spec_api_secret(), order_params(symbol@, side, quantity@, timestamp as int)).len() == 64,
    {
        let mut params: Vec<(String, String)> = Vec::new();
        params.push(("symbol".to_owned(), symbol.to_owned()));
        params.push(("side".to_owned(), side.as_str().to_owned()));
        params.push(("type".to_owned(), "MARKET".to_owned()));
        params.push(("quantity".to_owned(), quantity.to_owned()));
        params.push(("timestamp".to_owned(), i64_to_decimal(timestamp)));
        let ghost expected = order_params(symbol@, side, quantity@, timestamp as int);
        assert(params_view(params@) =~= expected);
        let sig = match self.generate_signature(params.as_slice()) {
            Ok(s) => s,
            Err(e) => return Err(e),
        };
        let ghost before = params@;
        params.push(("signature".to_owned(), sig));
        assert(params_view(params@) =~= params_view(before).push(("signature"@, sig@)));
        Ok(params)
    }

    /// The form of a market order made now, stamped with the clock's time in
    /// milliseconds; refused when that time does not fit in an `i64`.
    pub fn order_form(&self, symbol: &str, side: OrderSide, quantity: &str) -> (res: Result<Vec<(String, String)>, ClientError>)
        ensures
            res is Err ==> res == Err::<Vec<(String, String)>, ClientError>(ClientError::ClockOutOfRange)
                && exists|n: i128| is_clock_reading(n as int) && millis_of(n as int) is None,
            res matches Ok(form) ==> exists|t: i64| is_clock_millis(t) && params_view(form@) == order_params(symbol@, side, quantity@, t as int).push(
                ("signature"@, signature(self.spec_api_secret(), order_params(symbol@, side, quantity@, t as int))),
            ),
    {
        let nanos = now_epoch_nanos();
        match epoch_millis(nanos) {
            Some(t) => {
                let res = self.order_form_at(symbol, side, quantity, t);
                assert(is_clock_millis(t));
                res
            },
            None => {
                assert(is_clock_reading(nanos as int) && millis_of(nanos as int) is None);
                Err(ClientError::ClockOutOfRange)
            },
        }
    }
}

/// Every market order is signed over five parameters in a fixed order: the
/// symbol, the side (`BUY` or `SELL`), the order type, always `MARKET`
/// whatever the side, the quantity, and the timestamp in decimal.
pub proof fn lemma_order_params_layout(symbol: Seq<char>, side: OrderSide, quantity: Seq<char>, timestamp: int)
    ensures
        order_params(symbol, side, quantity, timestamp).len() == 5,
        order_params(symbol, side, quantity, timestamp)[0] == ("symbol"@, symbol),
        order_params(symbol, side, quantity, timestamp)[1].0 == "side"@,
        side == OrderSide::Buy ==> order_params(symbol, side, quantity, timestamp)[1].1 == "BUY"@,
        side == OrderSide::Sell ==> order_params(symbol, side, quantity, timestamp)[1].1 == "SELL"@,
        order_params(symbol, side, quantity, timestamp)[2] == ("type"@, "MARKET"@),
        order_params(symbol, side, quantity, timestamp)[3] == ("quantity"@, quantity),
        order_params(symbol, side, quantity, timestamp)[4] == ("timestamp"@, signed_decimal(timestamp)),
{
}

/// A buy and a sell of the same quantity at the same time differ only in
/// their side parameter.
pub proof fn lemma_order_sides_differ_only_in_side(symbol: Seq<char>, quantity: Seq<char>, timestamp: int)
    ensures
        order_params(symbol, OrderSide::Buy, quantity, timestamp).update(1, ("side"@, "SELL"@))
            == order_params(symbol, OrderSide::Sell, quantity, timestamp),
{
    assert(order_params(symbol, OrderSide::Buy, quantity, timestamp).update(1, ("side"@, "SELL"@))
        =~= order_params(symbol, OrderSide::Sell, quantity, timestamp));
}

} // verus!
