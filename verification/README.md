# cross_asset_payment

A verified model of a Soroban contract that takes payments into escrow and
routes them to a receiver in another asset through an anchor.

- `src/status.rs`: the payment status machine (`pending`, `process`,
  `complete`, `failed`) and the symbols of its statuses.
- `src/error.rs`: why a request is refused.
- `src/record.rs`: stored payments and the token transfers the contract asks for.
- `src/rules.rs`: one function per entry point, from the stored values it reads
  to what it writes and the transfer to carry out.
- `src/sender_ledgers.rs`: the ledger of each sender's last payment.
- `src/ledger.rs`: the whole contract state and its entry points, specified
  over `LedgerView`.
- `src/laws.rs`: properties that hold across the entry points.
- `app/lib.rs`: the Soroban contract itself; it reads storage, calls the rules,
  and performs storage writes, token transfers, authorization and events.
