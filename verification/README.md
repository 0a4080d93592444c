# Pulsar

The account and administration core of a community site, verified with Verus, and the
web application around it.

- `src/datetime.rs`: points in time, and their stored form
- `src/text.rs`: decimal notation
- `src/models/`: accounts and profiles: their columns, lookups and writes, password
  checks, and the search for an account's profile
- `src/controllers/`: the dashboard and the administrators' list of accounts
- `src/bootstrap.rs`: the plan of the start, and what every page is given
- `app/`: the web application that carries out what the core asks for. It needs the
  `suprnova` framework, which `Cargo.toml` does not name: the core does without it
- `tests/`: tests of the core

The core does no I/O. A lookup or a write is a value that the application carries out;
the reply goes back to the core, which says what comes next. Each `law_` function states
what holds of the core as a whole.
