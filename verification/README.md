# stellar_wrap

Verified storage model of the Stellar Wrap soulbound-token registry.

- `src/constants.rs`: ledger and hash constants, with proofs that they agree.
- `src/storage_types.rs`: wrap records (all schema versions), the optional-record
  enum, comparison and statistics records, storage keys, schema versions, and the
  rendering of a wrap record, proved equal to its character-level specification
  and proved to tell records apart by period, timestamp and hash preview; the check
  that text can be held by a Soroban symbol, and checked record constructors that
  ensure it of the archetype.
- `src/text.rs`: decimal and two-digit hexadecimal rendering, with their specifications
  and proofs that both are one-to-one.
- `app/lib.rs`: the same types as the Soroban contract encodes them
  (`#[contracttype]`), with conversions to and from the library's plain values.
