# Token manager

A socket-activated server on which users sign in at OAuth providers, and which
keeps the tokens that it gets for them. It shuts down when it has been idle for a
while, and keeps its state in an encrypted file in between. The library also
decides when a token has to be refreshed; no route hands tokens out yet.

- `src/` is the verified library: the counting of connections and the watchdog
  (`activity_tracker`), signing in (`auth`), the tokens and their file (`state`),
  the key file (`keys`) and the interface for other programs (`rpc`). `oauth`,
  `cookie_jar`, `cipher` and `timestamp` hold what is taken from other crates, and
  `offset_date_time` the dates of the state file.
- `app/` is the server around it: configuration, routes, sockets and files.
- `tests/` runs the library with the real cipher, cookies and URLs.
