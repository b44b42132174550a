# wave_rs

A unified mobile-money SDK for West Africa (Wave, Orange Money, MTN MoMo,
Moov Africa), whose logic is written and proved in Verus.

## Layout

- `src/` — the verified library:
  - `types.rs`, `error.rs`: money, E.164 phone numbers (with a type
    invariant), transactions, requests and the SDK's error type;
  - `phone.rs`: the calls into the `phonenumber` crate, behind contracts;
  - `text.rs`: decimal printing and parsing, trimming;
  - `operator.rs`: what the four operators share: error classification,
    settings, query strings, listing conversion;
  - `wave.rs`, `orange.rs`, `mtn.rs`, `moov.rs`: each operator's
    configuration, request bodies and reply conversion;
  - `token.rs`: the OAuth token cache and its laws;
  - `cli.rs`, `dashboard.rs`: the decisions of the command line and of the
    web dashboard (provider selection, formatting, input checks).
- `tests/`: tests run against the compiled library.
- `app/`: the unverified shell: HTTP providers over `reqwest` behind an
  async `Provider` trait, the `wave` command line (`clap`, `comfy-table`) and
  the local dashboard (`axum`), plus the serde copies of the library's types.
  One program serves both tools: started under a name containing
  `dashboard` it runs the dashboard, otherwise the command line.
