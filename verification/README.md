# insurance

Default insurance for funded invoices: premium pricing, the sale of coverage, the payment of
claims, and the books of a per-token reserve, with the rules proved in Verus.

- `src/` is the verified library.
  - `pricing`, `bps`: premiums and basis-point arithmetic
  - `reserve`: the stored state, its administration and the read-only calls
  - `purchase`, `claim`: selling coverage and paying claims
  - `state`, `books`, `history`, `laws`: the mathematical model, what the books add up to, and
    what holds after every sequence of calls
  - `address`, `table`, `types`, `error`: the values the rules work on
- `app/` is the Soroban contract around it: authorisation, ledger storage, calls to other
  contracts, token transfers, events.
- `tests/` runs the library.
