# iaam_server

The transport layer of a personal ledger: the wire types of its API, what each of
them says of the record it was rendered from, what a submitted body states, and the
decisions around a request (authentication, claiming an instance, the catalogs that
are resolved against the generated contract).

The library under `src/` is written in Verus. Every function there has a contract and
a proof; the calls into other crates stand in `src/outside.rs`, and what is said of
them is taken on trust.

## Layout

- `src/money.rs`, `src/calendar.rs`, `src/ids.rs`, `src/text.rs` — numbers, dates,
  identifiers and texts, with what each of them is as characters.
- `src/relate.rs` — relating collections item by item.
- `src/ledger/` — the records the ledger hands over and takes, as plain values.
- `src/dto/` — the wire types. A type that is shown has a predicate `shows`, which says
  what the wire form states of a record; a type that is read has `refusal`, the first
  field that is refused, and `states`, what the rest says.
- `src/openapi.rs`, `src/action_catalog.rs`, `src/api_catalog.rs` — resolving
  operations and links against the generated contract.
- `src/auth.rs`, `src/claim.rs` — authentication step by step, and the claim code.
- `src/outside.rs` — the calls into other crates.
- `tests/` — ordinary tests of the library.
- `app/` — the HTTP side: serialisable copies of the wire types, the authentication
  layer, the clock of the claim, and the reading of the generated contract.

What holds of the library as a whole is stated in public proof functions whose names
begin with `law_`.
