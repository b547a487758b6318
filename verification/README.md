# dannesk

The form state, credential checks, trade rules and key handling of the Dannesk wallet, as a
library whose behaviour is stated in Verus contracts and proved.

- `src/` — the verified library. Form buffers (`send_buffers`, `trustline`, `trade_buffers`,
  `import_buffers`, `create_buffers`, over `keyed_store`), the managers that keep a form and its stored copy in
  step (`euro_modify`, `rlusd_send`), entry checks and dialog steps (`validation`, `send_form`, `trade`, `wallet_setup`),
  the requests sent to the wallet backend (`commands`, `logic`, `euro_enable`), what the
  screens show (`display`, `review`, `controls`, `progress`, `name`, `words`,
  `transactions`) and the BIP39 / XRP Ledger seed handling (`wallet_keys`). Calls into
  `bip39`, `ripple-address-codec`, `chrono`, `rand`, `uuid` and `zeroize` sit behind small
  trusted wrappers whose doc comments say what is assumed of them.
- `tests/` — tests of the library on concrete values.
- `app/` — the shell around it: per-thread stores behind the signatures the UI calls, serde
  records, files on disk, and the floating-point formatting of amounts.
