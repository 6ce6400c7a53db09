use manguins::bot::{
    action_label, auto_trade_action, screen_command, screen_command_at, start_message, status_message, Admission,
    AutoTradeAction,
};
use manguins::binance::OrderSide;
use manguins::rate_limit::{RateLimitError, RateLimiter};
use manguins::strategy::StrategySignal;

#[test]
fn stranger_is_refused_without_touching_the_limiter() {
    let mut l = RateLimiter::new(2);
    assert_eq!(screen_command_at(Some(5), 1, &mut l, 0), Admission::Unauthorized);
    assert_eq!(screen_command_at(None, 1, &mut l, 0), Admission::Unauthorized);
    assert_eq!(screen_command_at(Some(1), 1, &mut l, 0), Admission::Admitted);
}

#[test]
fn owner_is_rate_limited() {
    let mut l = RateLimiter::new(2);
    assert_eq!(screen_command_at(Some(1), 1, &mut l, 0), Admission::Admitted);
    assert_eq!(
        screen_command_at(Some(1), 1, &mut l, 1_000_000_000),
        Admission::RateLimited(RateLimitError { wait_secs: 2 })
    );
    assert_eq!(screen_command_at(Some(1), 1, &mut l, 2_000_000_000), Admission::Admitted);
}

#[test]
fn labels() {
    assert_eq!(action_label(StrategySignal::StrongBuy), "🟢 STRONG BUY");
    assert_eq!(action_label(StrategySignal::Buy), "🟢 BUY");
    assert_eq!(action_label(StrategySignal::Sell), "🔴 SELL");
    assert_eq!(action_label(StrategySignal::StrongSell), "🔴 STRONG SELL");
    assert_eq!(action_label(StrategySignal::Hold), "⏸️ HOLD");
}

#[test]
fn auto_trade_actions() {
    let buy = AutoTradeAction::Trade { side: OrderSide::Buy, open_position: true };
    let sell = AutoTradeAction::Trade { side: OrderSide::Sell, open_position: false };
    assert_eq!(auto_trade_action(StrategySignal::StrongBuy), buy);
    assert_eq!(auto_trade_action(StrategySignal::Buy), buy);
    assert_eq!(auto_trade_action(StrategySignal::Sell), sell);
    assert_eq!(auto_trade_action(StrategySignal::StrongSell), sell);
    assert_eq!(auto_trade_action(StrategySignal::Hold), AutoTradeAction::LogHold);
}

#[test]
fn status_text() {
    assert_eq!(
        status_message("BTCUSDT", 14),
        "🤖 \\*Bot Status\\*\n✅ Running\n📊 Symbol: BTCUSDT\n📈 Strategy: RSI \\(14\\)\n⏱️ Uptime: Online"
    );
}

#[test]
fn start_text_is_escaped_again() {
    let m = start_message();
    assert!(m.starts_with("🤖 \\*Trading Bot Started\\\\\\!\\*\n\nCommands:\n/balance \\\\\\- Check your balance"));
    assert!(m.ends_with("/help \\\\\\- Show this message"));
}

#[test]
fn screening_with_clock() {
    let mut l = RateLimiter::new(600);
    assert_eq!(screen_command(Some(3), 4, &mut l), Admission::Unauthorized);
    assert_eq!(screen_command(Some(4), 4, &mut l), Admission::Admitted);
    assert_eq!(
        screen_command(Some(4), 4, &mut l),
        Admission::RateLimited(RateLimitError { wait_secs: 600 })
    );
}
