# calma

The arithmetic, market state machine and account decoding of the calma
lending protocol, written in Verus: every function in `src/` carries a
contract that states what it returns or changes, and Verus proves it.

## Layout

- `src/math.rs`, `src/jbl_math.rs`, `src/arith.rs` — interest, share
  conversion, LTV and health-factor arithmetic, each pinned to a spec
  function over mathematical integers.
- `src/engine.rs` — `Core`, the market state machine (deposits, exits, the
  withdrawal queue's settlement, borrows, repayments, collateral, flash
  loans, interest accrual), specified operation by operation over
  `MarketView`.
- `src/laws.rs` — properties that span operations: balanced books, share
  prices that never fall for those who stay, flash-loan round trips,
  rounding that never favours the borrower.
- `src/state.rs`, `src/withdrawal_queue.rs`, `src/jbl_state.rs` — the
  programs' accounts, the FIFO withdrawal queue and the error codes.
- `src/price_feed.rs`, `src/rate_curve.rs` — the oracle header and its
  staleness rules; the piecewise-linear rate curve and its validation.
- `src/accounts.rs`, `src/jbl_accounts.rs`, `src/replay.rs`,
  `src/amount_text.rs`, `src/exports.rs`, `src/seeds.rs` — byte-exact
  account decoders for the browser, replays of `Core` on decoded state,
  amount formatting and the values the browser reads instead of copying.
- `app/` — the wasm-bindgen layer, the browser clock, Anchor error codes
  and the `AccountInfo` adapter; nothing there is verified.
- `tests/` — scenarios run against the compiled library.
