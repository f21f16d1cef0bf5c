# tls_parser

Parsers for TLS extensions (server name, supported groups, signature
algorithms, ALPN, key share, supported versions, GREASE and the other
registered extensions), written in Verus and proved correct against a
specification of the wire format.

Layout of `src/`:

- `error.rs`: the parse result and error types, and their meaning as
  mathematical values.
- `combinator.rs`: bytes, big-endian integers, length-prefixed data, type
  bytes and repetition, each with its specification.
- `tls_common.rs`: named groups, protocol versions, cipher suites and
  signature schemes, with the list parsers that extensions use.
- `tls_extensions.rs`: the extension types and values, and their models.
- `grammar.rs`: the wire format of every extension as functions on byte
  sequences.
- `parsers.rs`: the executable parsers, each proved to compute what
  `grammar.rs` says on every input.
- `laws.rs`: properties of the parsers as a whole (framing, GREASE, unknown
  types, agreement between the parsers, lists that never fail).
- `names.rs`: the readable names of extension, server name and certificate
  status types.

`app/` holds copies of the value types that derive serde's `Serialize`, with
conversions to and from the library's types, and their `Display`
implementations.
