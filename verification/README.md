# manguins

The verified core of a Telegram-controlled Binance trading bot.

- `src/` is the library, verified with Verus:
  - `markdown`: escaping for Telegram's MarkdownV2, with its round-trip laws;
  - `clock`: reading the system clock relative to the Unix epoch;
  - `text`: decimal rendering and parsing of integers;
  - `config`: the application settings and their defaults;
  - `signing`: query strings and HMAC-SHA256 request signatures;
  - `binance`: account and order data, signed account and order requests;
  - `market`: candle data addresses and row fields;
  - `rate_limit`: per-user cooldowns;
  - `strategy`: the scoring and decision rules of the trading strategy;
  - `bot`: command screening, message texts and the automatic trading reactions.
- `app/` is the bot itself: environment, HTTP, Telegram, and the
  floating-point indicator arithmetic.
- `tests/` exercises the library on concrete values.
