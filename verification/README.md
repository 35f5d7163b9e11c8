# AlterSendme core

The peer-to-peer file-transfer client AlterSendme, with its decisions written as a
Verus-verified library and a thin GPUI application around it.

## Layout

- `src/` — the verified library (`alter_sendme`):
  - `transfer.rs` — upload-rate and receive-cache preferences mapped to transport values.
  - `tables.rs`, `locale.rs` — the 21 locales, their text tables and the lookup with its
    English fallback.
  - `text.rs` — string helpers stated over character sequences.
  - `version.rs`, `update.rs` — release-version comparison and the choice of update offer.
  - `ticket.rs` — the ticket text field: UTF-16/UTF-8 offsets, edits, trimming.
  - `workbench.rs`, `steps.rs` — the workbench state machine: its state, the effects each
    action asks of the GUI, the transitions stated over the state's view, and their laws.
- `tests/` — tests of the library on concrete values.
- `app/` — the GPUI window, the async transport adapter and the update download; it
  performs the effects the workbench returns and reports outcomes back.

Every public function of the library carries a contract; the laws (fallback completeness,
stale transfer outcomes being ignored, a failure recorded on the failing side with its
error, tab locking, the theme and language cycles, version
ordering, offset round trips) are proof functions next to the code they describe.
