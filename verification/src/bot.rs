use vstd::prelude::*;
use crate::markdown::{escape_markdown, escaped};
use crate::binance::OrderSide;
use crate::clock::{is_clock_reading, now_epoch_nanos};
use crate::rate_limit::{check_outcome, RateLimitError, RateLimiter};
use crate::strategy::StrategySignal;
use crate::text::{decimal, u64_to_decimal};

verus! {

/// What becomes of an incoming command.
#[derive(Debug, Clone, Copy, PartialEq, Eq, Structural)]
pub enum Admission {
    /// The sender is not the bot's owner: the command is refused.
    Unauthorized,
    /// The owner sent commands too quickly: the command is refused.
    RateLimited(RateLimitError),
    /// The command is carried out.
    Admitted,
}

/// The admission that a rate-limit outcome amounts to.
pub open spec fn admission_of(r: Result<(), RateLimitError>) -> Admission {
    match r {
        Ok(()) => Admission::Admitted,
        Err(e) => Admission::RateLimited(e),
    }
}

/// Only the owner may command the bot, and the owner's commands pass the rate
/// limiter. A stranger's command is refused before the rate limiter is
/// consulted, so it never uses up the owner's allowance.
pub fn screen_command_at(sender: Option<u64>, owner: u64, limiter: &mut RateLimiter, now: i128) -> (res: Admission)
    ensures
        final(limiter).cooldown() == old(limiter).cooldown(),
        sender != Some(owner) ==> res == Admission::Unauthorized && final(limiter).last_requests()
            == old(limiter).last_requests(),
        sender == Some(owner) ==> exists|r: Result<(), RateLimitError>|
            res == admission_of(r) && check_outcome(
                old(limiter).last_requests(),
                old(limiter).cooldown(),
                owner,
                now,
                r,
                final(limiter).last_requests(),
            ),
{
    let authorized = match sender {
        Some(id) => id == owner,
        None => false,
    };
    if !authorized {
        return Admission::Unauthorized;
    }
    let r = limiter.check_at(owner, now);
    let res = match r {
        Ok(()) => Admission::Admitted,
        Err(e) => Admission::RateLimited(e),
    };
    assert(res == admission_of(r));
    res
}

/// [`screen_command_at`] with the current time.
pub fn screen_command(sender: Option<u64>, owner: u64, limiter: &mut RateLimiter) -> (res: Admission)
    ensures
        final(limiter).cooldown() == old(limiter).cooldown(),
        sender != Some(owner) ==> res == Admission::Unauthorized && final(limiter).last_requests()
            == old(limiter).last_requests(),
        sender == Some(owner) ==> exists|now: i128, r: Result<(), RateLimitError>|
            is_clock_reading(now as int) && res == admission_of(r) && check_outcome(
                old(limiter).last_requests(),
                old(limiter).cooldown(),
                owner,
                now,
                r,
                final(limiter).last_requests(),
            ),
{
    let now = now_epoch_nanos();
    screen_command_at(sender, owner, limiter, now)
}

/// The label of a signal in the analysis message.
pub open spec fn action_label_spec(signal: StrategySignal) -> Seq<char> {
    match signal {
        StrategySignal::StrongBuy => "🟢 STRONG BUY"@,
        StrategySignal::Buy => "🟢 BUY"@,
        StrategySignal::Sell => "🔴 SELL"@,
        StrategySignal::StrongSell => "🔴 STRONG SELL"@,
        StrategySignal::Hold => "⏸️ HOLD"@,
    }
}

/// The label of a signal in the analysis message.
pub fn action_label(signal: StrategySignal) -> (res: &'static str)
    ensures
        res@ == action_label_spec(signal),
{
    match signal {
        StrategySignal::StrongBuy => "🟢 STRONG BUY",
        StrategySignal::Buy => "🟢 BUY",
        StrategySignal::Sell => "🔴 SELL",
        StrategySignal::StrongSell => "🔴 STRONG SELL",
        StrategySignal::Hold => "⏸️ HOLD",
    }
}

/// The welcome and help text, before escaping.
pub open spec fn start_text() -> Seq<char> {
    "🤖 *Trading Bot Started\\!*\n\nCommands:\n/balance \\- Check your balance\n/positions \\- View open positions\n/analyze \\- Get current market analysis\n/buy [amount] \\- Buy crypto (e.g., /buy 100)\n/sell [amount] \\- Sell crypto (e.g., /sell 50)\n/status \\- Bot status\n/help \\- Show this message"@
}

/// The reply to `/start` and `/help`, escaped for MarkdownV2.
pub fn start_message() -> (res: String)
    ensures
        res@ == escaped(start_text()),
{
    escape_markdown(
        "🤖 *Trading Bot Started\\!*\n\nCommands:\n/balance \\- Check your balance\n/positions \\- View open positions\n/analyze \\- Get current market analysis\n/buy [amount] \\- Buy crypto (e.g., /buy 100)\n/sell [amount] \\- Sell crypto (e.g., /sell 50)\n/status \\- Bot status\n/help \\- Show this message",
    )
}

/// The status text for `symbol` and the RSI period, before escaping.
pub open spec fn status_text(symbol: Seq<char>, rsi_period: nat) -> Seq<char> {
    "🤖 *Bot Status*\n✅ Running\n📊 Symbol: "@ + symbol + "\n📈 Strategy: RSI ("@ + decimal(rsi_period)
        + ")\n⏱️ Uptime: Online"@
}

/// The reply to `/status`, escaped for MarkdownV2.
pub fn status_message(symbol: &str, rsi_period: usize) -> (res: String)
    ensures
        res@ == escaped(status_text(symbol@, rsi_period as nat)),
{
    let mut text = "🤖 *Bot Status*\n✅ Running\n📊 Symbol: ".to_owned();
    text.append(symbol);
    text.append("\n📈 Strategy: RSI (");
    let period = u64_to_decimal(rsi_period as u64);
    text.append(period.as_str());
    text.append(")\n⏱️ Uptime: Online");
    escape_markdown(text.as_str())
}

/// What the automatic trading loop does with a signal.
#[derive(Debug, Clone, Copy, PartialEq, Eq, Structural)]
pub enum AutoTradeAction {
    /// Place a market order of the configured size on `side`, announce it,
    /// and, when `open_position` holds, record the position it opens.
    Trade { side: OrderSide, open_position: bool },
    /// Only log that the strategy holds.
    LogHold,
}

/// The automatic trading loop's reaction to a signal.
pub open spec fn auto_trade_action_spec(signal: StrategySignal) -> AutoTradeAction {
    match signal {
        StrategySignal::StrongBuy | StrategySignal::Buy => AutoTradeAction::Trade {
            side: OrderSide::Buy,
            open_position: true,
        },
        StrategySignal::Sell | StrategySignal::StrongSell => AutoTradeAction::Trade {
            side: OrderSide::Sell,
            open_position: false,
        },
        StrategySignal::Hold => AutoTradeAction::LogHold,
    }
}

/// The automatic trading loop's reaction to a signal: a buy signal places a
/// market buy and opens a position, a sell signal places a market sell, a
/// hold is only logged.
pub fn auto_trade_action(signal: StrategySignal) -> (res: AutoTradeAction)
    ensures
        res == auto_trade_action_spec(signal),
{
    match signal {
        StrategySignal::StrongBuy | StrategySignal::Buy => AutoTradeAction::Trade {
            side: OrderSide::Buy,
            open_position: true,
        },
        StrategySignal::Sell | StrategySignal::StrongSell => AutoTradeAction::Trade {
            side: OrderSide::Sell,
            open_position: false,
        },
        StrategySignal::Hold => AutoTradeAction::LogHold,
    }
}

} // verus!
