# raffle_bot

A Discord bot that runs raffles against a backend service. Its decisions and texts
live in a library verified with Verus (`src/`); the Discord and HTTP plumbing lives
in a thin program (`app/`).

- `src/text.rs`: decimal numbers, unsigned and flag parsing, substring search.
- `src/record_id.rs`: the service's twelve-byte ids (through `bson`).
- `src/model.rs`: raffles and tickets.
- `src/tally.rs`: tickets sold, progress bars, the export of a raffle's entrants.
- `src/table.rs`: tables (through `ascii_table`) and times (through `chrono`).
- `src/rows.rs`, `src/messages.rs`: the texts of every reply.
- `src/commands.rs`: what each `~raffle`, `~ticket`, `~status` and `~export` command does.
- `src/reply.rs`: self-destructing replies and the status board.
- `src/api.rs`: the requests sent to the raffle service.
