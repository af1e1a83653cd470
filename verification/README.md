# iugu_connector

The Iugu connector of a payment router, written in Verus.

- `src/status.rs`: Iugu's charge and invoice states and the attempt state each one reads as.
- `src/domain.rs`: the router's data that the connector reads and fills (amounts, cards,
  credentials, request payloads, the router data record).
- `src/transformers.rs`: Iugu's requests and replies and the verified conversions between them
  and the router's data.
- `src/laws.rs`: properties of the connector as a whole, proved over the conversions' specs.
- `src/json.rs`: the JSON value type of `serde_json`, carried through unread.
- `app/`: the JSON shapes of the requests and replies (serde), converted to and from the
  library's types.
