# yfinance — a verified core for a Yahoo Finance client

`src/` is the library, written in Verus: the client's decisions and its
text and integer logic, each function with a contract that Verus proves.

- `types` — periods and intervals and their wire names (round trips proved).
- `request` — query strings of every endpoint; decimal formatting of numbers.
- `history` — settings of a history request and of a multi-symbol download,
  the chart query, the bar an event is attached to, symbol normalization.
- `client` — request policy: retries and backoff, status handling, the crumb
  token, the session's User-Agent.
- `isin`, `profile`, `news`, `analysis`, `holders`, `domain`, `info`, `options`, `esg`,
  `fundamentals`, `stream` — parsing rules and bookkeeping of the individual data sets.
- `text`, `json` — character-level helpers and a model of parsed JSON.
- `error`, `outside` — the error type and the outside types it carries.

`app/` is the asynchronous client around it (HTTP session, WebSocket
streaming, `serde` readers, date conversion with `chrono`), in ordinary Rust,
and it also holds the price and ratio arithmetic, which works on floats.
`tests/` exercises the library on concrete values.
