# gossip (verified core)

The decision-making parts of the gossip nostr client, proved with Verus:

- `src/schema.rs` — the database schema check and upgrade, as a state
  machine that answers one database command at a time.
- `src/relay_entry.rs` — what the relay entry widget shows and how it reacts
  to the pointer.
- `src/autobuy.rs` — the request for bought proof of work and the
  reconstruction of the event from what the provider mined.
- `src/decimal.rs`, `src/text.rs` — number spelling and parsing, substring
  search and joining, with exact contracts.

`app/` holds the plumbing around them: SQLite through r2d2, the egui widget,
and the PoW WoW client calls.
