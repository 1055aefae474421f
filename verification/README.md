# marketd

A daemon that aggregates the offers of coinswap makers and serves them over
HTTP. `src/` is the verified library:

- `state` — the API records (`ApiMaker`, `ApiOffer`, …), the offer-book
  entries they are built from, and the store of the latest snapshot;
- `api` — the maker listing (optionally narrowed to one state) and the health
  summary behind `/api/makers` and `/api/health`;
- `sync` — the taker settings, the snapshot of the offer book, and the sync
  loop's decisions as a state machine (`SyncDriver`);
- `text` — hexadecimal and decimal text forms;
- `config` — the daemon's settings.

`app/` holds the program: argument parsing, the axum server, JSON copies of
the records, and the loop that performs the sync driver's actions against the
taker.

The taker library (`coinswap`) is not available from the crate registry used
here (only an empty placeholder of that name exists), so it is not listed in
`Cargo.toml`, and `app/sync.rs`, which converts its types, does not compile in
this environment.
