use manguins::binance::{ClientError, OrderSide, RealBinanceClient};
use manguins::market::klines_url;

const DOC_SECRET: &str = "NhqPtmdSJYdKjVHjA7PZj4Mge3R5YNiP1e3UZjInClVN65XAbvqqM6A7H5fATj0j";

fn client() -> RealBinanceClient {
    match RealBinanceClient::new(Some("key".to_string()), Some(DOC_SECRET.to_string())) {
        Ok(c) => c,
        Err(_) => panic!("client"),
    }
}

fn pairs(items: &[(&str, &str)]) -> Vec<(String, String)> {
    items.iter().map(|(k, v)| (k.to_string(), v.to_string())).collect()
}

#[test]
fn new_requires_key_then_secret() {
    assert!(matches!(RealBinanceClient::new(None, None), Err(ClientError::MissingApiKey)));
    assert!(matches!(RealBinanceClient::new(None, Some("s".to_string())), Err(ClientError::MissingApiKey)));
    assert!(matches!(RealBinanceClient::new(Some("k".to_string()), None), Err(ClientError::MissingApiSecret)));
    let c = client();
    assert_eq!(c.api_key(), "key");
}

#[test]
fn signature_matches_binance_documentation() {
    let params = pairs(&[
        ("symbol", "LTCBTC"),
        ("side", "BUY"),
        ("type", "LIMIT"),
        ("timeInForce", "GTC"),
        ("quantity", "1"),
        ("price", "0.1"),
        ("recvWindow", "5000"),
        ("timestamp", "1499827319559"),
    ]);
    let sig = client().generate_signature(&params).unwrap();
    assert_eq!(sig, "c8db56825ae71d6d79447849e617115f4a920fa2acdcab2b053c4b2838bd6b71");
}

#[test]
fn signature_depends_on_parameters() {
    let a = client().generate_signature(&pairs(&[("timestamp", "1")])).unwrap();
    let b = client().generate_signature(&pairs(&[("timestamp", "2")])).unwrap();
    assert_ne!(a, b);
    assert_eq!(a.len(), 64);
    assert!(a.chars().all(|c| c.is_ascii_digit() || ('a'..='f').contains(&c)));
}

#[test]
fn account_url_layout() {
    let c = client();
    let url = c.account_url_at(1499827319559).unwrap();
    let sig = c.generate_signature(&pairs(&[("timestamp", "1499827319559")])).unwrap();
    assert_eq!(
        url,
        format!("https://api.binance.com/api/v3/account?timestamp=1499827319559&signature={}", sig)
    );
}

#[test]
fn account_url_now_is_signed() {
    let url = client().account_url().unwrap();
    assert!(url.starts_with("https://api.binance.com/api/v3/account?timestamp="));
    assert!(url.contains("&signature="));
}

#[test]
fn order_form_layout() {
    let c = client();
    let form = c.order_form_at("BTCUSDT", OrderSide::Buy, "0.001", 1700000000000).unwrap();
    let expected = pairs(&[
        ("symbol", "BTCUSDT"),
        ("side", "BUY"),
        ("type", "MARKET"),
        ("quantity", "0.001"),
        ("timestamp", "1700000000000"),
    ]);
    assert_eq!(form.len(), 6);
    assert_eq!(&form[..5], &expected[..]);
    assert_eq!(form[5].0, "signature");
    assert_eq!(form[5].1, c.generate_signature(&expected).unwrap());
}

#[test]
fn order_form_sell_side() {
    let form = client().order_form("ETHUSDT", OrderSide::Sell, "2").unwrap();
    assert_eq!(form[1], ("side".to_string(), "SELL".to_string()));
    assert_eq!(form[5].0, "signature");
}

#[test]
fn endpoints() {
    let c = client();
    assert_eq!(c.account_endpoint(), "https://api.binance.com/api/v3/account");
    assert_eq!(c.order_endpoint(), "https://api.binance.com/api/v3/order");
}

#[test]
fn klines_url_percent_encodes_symbol() {
    assert_eq!(
        klines_url("a b/é~-._", 1),
        "https://api.binance.com/api/v3/klines?symbol=a%20b%2F%C3%A9~-._&interval=1h&limit=1"
    );
}

#[test]
fn klines_url_layout() {
    assert_eq!(
        klines_url("BTCUSDT", 50),
        "https://api.binance.com/api/v3/klines?symbol=BTCUSDT&interval=1h&limit=50"
    );
    assert_eq!(
        klines_url("BTC/USDT", 7),
        "https://api.binance.com/api/v3/klines?symbol=BTC%2FUSDT&interval=1h&limit=7"
    );
}

#[test]
fn signature_encodes_values() {
    let c = client();
    let a = c.generate_signature(&pairs(&[("symbol", "A B")])).unwrap();
    let b = c.generate_signature(&pairs(&[("symbol", "A%20B")])).unwrap();
    assert_ne!(a, b);
}
