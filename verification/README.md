# monero_node_module

A proxyable, fail-closed monerod JSON-RPC client for a Monero wallet, written in Verus. One
configuration per network (`mainnet`, `stagenet`, `testnet`, `regtest`): an endpoint, a proxy
policy, and whether the network's node is a remote or the local one. It never runs a node and
holds no key material.

A network that requires a proxy and has no usable one is not called: there is no client to call it
with. A proxy whose address the HTTP library would drop without a word is refused too. That, and
what every request carries and every answer means, is stated in the contracts of `src/` and proved;
`src/laws.rs` holds what follows for the library as a whole.

- `src/text.rs` - strings as sequences of characters
- `src/json.rs` - JSON values, read and printed by `serde_json`
- `src/proxy.rs` - the one constructor of an HTTP client
- `src/node.rs` - networks, one network's configuration, errors
- `src/registry.rs` - the registry of configurations, its defaults and its status
- `src/call.rs` - requests, answers, health
- `src/saved.rs` - the registry's file: what is written and how it is read
- `src/persist.rs` - the steps of saving the registry
- `src/module.rs` - the module's interface and its replies
- `src/shape.rs` - that replies read back as what was meant
- `src/laws.rs` - what holds of the library as a whole
- `app/` - files, locks, the network and the clock around it

Every method of the module replies with JSON text, `{ "ok": true, "result": .., "route":
"proxied"|"direct" }` or `{ "ok": false, "error": .. }`.

Nodes without authentication and with HTTP Basic authentication are supported. monerod's
`--rpc-login` wants HTTP Digest: a challenge for it (status 401 with a `WWW-Authenticate` value of
that scheme) is an error, whatever its body holds.
