# tiplink_gateway

A custodial Solana wallet gateway. Users sign up (their password and a
separate asset password are hashed with Argon2, and a pre-generated wallet is
assigned to them), sign in (which issues a 24-hour session token of the form
`<expiry>:<uuid>` stored in a cookie and on the user row), and request swap
transactions from the Jupiter API for their wallet. A separate dealer
ceremony generates the wallets: each key is split 2-of-3 with FROST over
Ed25519, one share per signing node, and the public key is registered with
the backend.

Layout:

- `src/` — the verified library (Verus). Session tokens and their expiry
  (`session`), decimal text (`text`), hex/base58 (`encoding`), JSON text
  (`json`), Argon2 (`password`), UUIDs (`ids`), the clock (`time`), the
  signup/signin state machines (`auth`), the quote and swap endpoints
  (`jupiter`), and the wallet ceremony (`ceremony`). Calls into argon2,
  chrono, uuid, hex, bs58, serde_json and frost-ed25519 go through small
  trusted wrappers whose contracts are stated next to them.
- `app/` — the HTTP server (actix-web), the database (sea-orm), the HTTP
  client (reqwest) and the ceremony's main loop; each handler runs the
  library's state machine and performs the database or network call that
  each step asks for.
- `tests/` — tests of the library against the outside crates.
