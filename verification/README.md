# protest

Decision logic of a single-direction spread-arbitrage bot between OKX
(long) and Bybit (short) perpetual swaps, verified with Verus.

- `src/` — the verified library:
  - `decimal`, `text`: exact signed decimal numbers (billionths) and whole numbers
    read from and written to text;
  - `signing`: HMAC-SHA256 login signatures (Base64 for OKX, hex for Bybit);
  - `model`, `strategy`: quotes, signals and the entry/exit rule;
  - `engine`: the trading state machine (events in, actions out): entry
    only when flat, the OKX leg first, one retry per leg after a new login,
    a lone OKX leg sold back when the Bybit leg cannot be placed, and a
    forced exit after the maximum holding time;
  - `market`, `monitor`: order-book and account pushes, feed rules;
  - `auth`, `orders`, `config`: login handshakes, order requests, settings;
  - `json`, `frames`: JSON field tests and the text of the subscription,
    login and order frames.
- `app/` — the program: WebSockets, HTTP, clock, environment and JSON
  (de)serialisation around the library.
- `tests/` — tests of the library on concrete values.
