# following_feed

The logic of a Bluesky "following" feed generator, written in Verus and
proved against its contracts: did:key and multikey encoding and signature
checks (`crypto`), DID documents, handles and a DID document cache
(`identity`), the feed generator's queries, cursors, ordering, request
authentication and record indexing (`feedgen`), the firehose subscriber's
decisions and counters (`jetstream`), and the janitor's schedule (`janitor`).

Layout:

- `src/` — the verified library. Calls into outside crates (multibase,
  p256, secp256k1, sha2, hmac, base64, urlencoding, chrono, cron) go through
  small trusted wrappers whose contracts say what the crate's source shows.
- `tests/` — tests of the library on concrete values.
- `app/` — the services around the library: the axum HTTP server with its
  database access (diesel), DNS and HTTP resolution, the Jetstream
  WebSocket client and the janitor loop. It reads, writes and sequences the
  library's steps; the decisions it acts on are the library's.
