use manguins::binance::{AccountBalance, AccountInfo, OrderResponse};
use manguins::market::kline_fields;

fn balance(asset: &str, free: &str) -> AccountBalance {
    AccountBalance { asset: asset.to_string(), free: free.to_string(), locked: "0".to_string() }
}

#[test]
fn free_balance_first_match() {
    let info = AccountInfo {
        balances: vec![balance("BTC", "0.5"), balance("USDT", "100.25"), balance("USDT", "7")],
        can_trade: true,
        can_deposit: true,
        can_withdraw: false,
    };
    assert_eq!(info.free_balance("USDT"), Some("100.25".to_string()));
    assert_eq!(info.free_balance("BTC"), Some("0.5".to_string()));
    assert_eq!(info.free_balance("ETH"), None);
    assert_eq!(info.free_balance("usdt"), None);
}

#[test]
fn free_balance_empty_account() {
    let info = AccountInfo { balances: vec![], can_trade: false, can_deposit: false, can_withdraw: false };
    assert_eq!(info.free_balance("USDT"), None);
}

#[test]
fn order_id_as_text() {
    let order = OrderResponse {
        symbol: "BTCUSDT".to_string(),
        order_id: 28457,
        client_order_id: "x".to_string(),
        transact_time: 1507725176595,
        price: "0.0".to_string(),
        orig_qty: "0.001".to_string(),
        executed_qty: "0.001".to_string(),
        cum_quote_asset_transacted_qty: "30.1".to_string(),
        status: "FILLED".to_string(),
        time_in_force: "GTC".to_string(),
        side: "BUY".to_string(),
    };
    assert_eq!(order.order_id_text(), "28457");
}

fn row(items: &[Option<&str>]) -> Vec<Option<String>> {
    items.iter().map(|o| o.map(|s| s.to_string())).collect()
}

#[test]
fn kline_fields_picks_columns() {
    let r = row(&[
        None,
        Some("1.0"),
        Some("2.0"),
        Some("0.5"),
        Some("1.5"),
        Some("999"),
        None,
        Some("42.0"),
        None,
        None,
        None,
        None,
    ]);
    let f = kline_fields(&r).unwrap();
    assert_eq!(f.open, "1.0");
    assert_eq!(f.high, "2.0");
    assert_eq!(f.low, "0.5");
    assert_eq!(f.close, "1.5");
    assert_eq!(f.volume, "42.0");
}

#[test]
fn kline_fields_skips_short_and_non_text_rows() {
    assert!(kline_fields(&row(&[Some("1"), Some("2")])).is_none());
    assert!(kline_fields(&row(&[])).is_none());
    let r = row(&[None, Some("1"), None, Some("1"), Some("1"), None, None, Some("1")]);
    assert!(kline_fields(&r).is_none());
}

#[test]
fn kline_fields_rows_without_volume_are_skipped() {
    for len in 5..8 {
        let r: Vec<Option<String>> = (0..len).map(|i| Some(format!("{}.0", i))).collect();
        assert!(kline_fields(&r).is_none());
    }
}
