# srcmv

A verified library for exact, language-server-backed source selection and for
the decisions of the `srcmv` command line, written in Verus.

- `src/` is the library. Every item is verified: JSON-RPC framing and envelopes,
  transport arbitration, position conversion, symbol normalization and
  resolution, the selection and outline protocols, the commands as state
  machines over a workspace, and a scripted language server.
- `tests/` runs the library on concrete values.
- `app/` holds the command line, the streams and processes, and the loops that
  perform what the library decides.

What is trusted rather than proved is small and marked in the sources: the JSON
parser and serializer (`src/json.rs`), serialization into a bounded sink and
UTF-8 decoding (`src/wire.rs`), the decoding of document symbols
(`src/normalize.rs`), SHA-256 (`src/digest.rs`), file URIs
(`src/location.rs`), and `String::push` (`src/text.rs`).
