# tickethub

A ticket marketplace — users, artists, events, ticket tiers and orders —
whose rules are verified with Verus.

- `src/` is the verified library. `state.rs` models the tables
  mathematically, states the integrity rules (distinct keys, resolvable
  references, positive prices and capacities, counts that never go
  negative) and describes every change of state as a function;
  `tables.rs`, `queries.rs` and `hub.rs` implement those changes and the
  listings and prove them against that model. `like.rs`, `sort.rs` and
  `text.rs` hold the search pattern matcher, the stable sorts and the text
  order that listings use; `laws.rs` and `integrity.rs` prove properties
  that relate operations to each other; `seed.rs` is the starting catalog;
  `ids.rs` wraps the random id and password-hash generators.
- `app/` is the HTTP server: it turns JSON into library requests and back,
  and writes each accepted change to a SQLite file, which it reads into
  the library at start-up.
- `tests/` exercises the library on concrete data.

The tables live in the library rather than being queried from SQLite at
each request: the database is a file, which a verified library cannot
reach, so the library holds the rows, enforces the schema's rules (keys,
references, checks) and answers the listings (joins, `LIKE` search, sort
orders) itself, and the file only keeps them between runs. Where SQL
leaves a choice open, the library makes a fixed one: when a row breaks
several rules at once, the first rule checked is the one reported (id,
then username, then email for users; check, key, reference for events and
tickets), and rows with equal sort keys are listed in stored order. Names
are listed alphabetically with ASCII case ignored, and users newest first
by their creation time read as a time.
