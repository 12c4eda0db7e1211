# nodedb_studio

The verified core of a desktop studio for NodeDB, written in Verus.

`src/` is the library. Its own functions are checked by Verus against their
contracts; the calls into the NodeDB client, `serde_json` and a few std
functions sit in small `external_body` wrappers whose contracts are trusted,
each documented with the outside function it calls:

- `registry`, `session`, `models`: saved connections (connect-config only,
  never a secret), the live session and its capabilities, collections and
  notifications.
- `mock`: the data behind the mock connection service.
- `auth`: the redacting `Secret`, the per-connect `AuthInput`, and the client
  settings and client for one connect attempt.
- `capabilities_map`: the server capability bitmask as studio feature flags.
- `identity`: identity and database list from the connect probes, with their
  fallbacks.
- `error`: client errors sorted into the categories views branch on. The
  client exposes an error's kind only as the `kind` tag of its serialized
  details, so `serde_json` writes the details and the library reads the tag;
  matching the details type's variants one by one would take dozens of arms.
- `async_state`: the loading / empty / loaded / error state of a read.
- `service`: the mock service, session description, and the live service's
  connect and disconnect decisions.
- `routes`, `ui`: views and their required capabilities, shortcuts, popovers,
  connection cards, the quick switch, notification grouping and read marks.
- `laws`: properties that span functions.
- `text`: trimming, decimal rendering, text comparison.

`app/` is ordinary Rust around it: the async service seam and the network
round-trips of a real connect, the serde form of the saved registry, the
stream payload documents (which hold floating-point numbers), and the Dioxus
components of the connection manager, the connection popover and the
notification popover.
