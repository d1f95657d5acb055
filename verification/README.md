# lightning_liquidity (LSPS0 serialization)

A verified Verus library for the JSON-RPC 2.0 framing of LSPS messages.

- `src/method.rs`: the LSPS methods, their wire names, and parsing a wire name.
- `src/msgs.rs`: the message model (`LSPSMessage`, `RequestId`, `ResponseError`, the
  per-protocol requests, responses and notifications) and its abstract view.
- `src/jsonrpc.rs`: the members of the JSON-RPC object a message is written as, how the
  members of a received object are gathered, and which message they stand for; the
  read-back law.
- `src/id_map.rs`: the outstanding request ids with the methods of their requests. It is a
  `Vec` of pairs with the invariant that no id occurs twice, whose contracts are stated over
  an exact map view keyed by the id's text.
- `src/address.rs`: bitcoin addresses read from strings through bitcoin's `Address::from_str`.
- `src/raw.rs`: the Lightning message that carries an LSPS message (written without a
  length prefix through `lightning`'s `WithoutLength`).
- `src/amount.rs`: amounts as decimal strings, fee rates as `u32`.
- `app/lib.rs`: the serde and Lightning trait glue (serde_json reading and writing,
  `Writeable`/`Readable`/`wire::Type`, serde helper modules); it takes no decision itself.

Parameters and results are carried as JSON text (`JsonPayload`), which must be a JSON
object or array (checked through serde_json): the parameter and result types of every
method are structs, which serde reads only from an object or an array. Their fields are
not checked: the protocol types are not part of this library.
The LSPS5 methods and messages are always part of the library.
