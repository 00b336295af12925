# forgefin

The verified core of the ForgeFin bookkeeping front end. Every decision the
screens take on the records exchanged with the ledger backend is a function
of `src/` with a contract proved by Verus: validation of forms, list filters
and search highlighting, pagination, voucher totals and balance checks, the
account tree, the bank balance bar, the menu and session state.

- `src/` — the library, one module per screen area (`voucher_entry`,
  `vouchers`, `accounts`, `contacts`, `imports`, `balance`, `records`,
  `record_table`, `highlight`, `pagination`, `nav`, `session`, `shell`,
  `answers` for what the screens do with the backend's answers, …)
  and the shared text and number primitives (`text`, `number`).
- `tests/` — executable tests of the library on concrete values.
- `app/` — the browser side: the bridge to the Tauri backend, serde shapes of
  the exchanged records, the session flows that await the backend, and the
  browser clock.

The one outside call the library makes is `serde_json` parsing, behind a
single trusted wrapper in `data_summary.rs`; lower-casing uses
`str::to_lowercase` behind a wrapper in `text.rs`.
