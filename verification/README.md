# genai-client

JSON models and wire-level helpers for the Gemini Interactions API, with their
behaviour stated as Verus contracts and proved.

## Layout

- `src/` — the verified library.
  - `json.rs` — the JSON value type, its mathematical model, and rendering
    through `serde_json`.
  - `fields.rs` — reading records (named members or positional arrays).
  - `models/` — interaction content, requests, responses, streaming chunks,
    metadata, tools and the `generateContent` types, each with a decoder and
    an encoder and round-trip laws.
  - `sse.rs` — splitting a server-sent-event byte stream into `data:`
    payloads, with the law that, for a stream whose bytes are valid UTF-8, how it is
    cut into chunks does not change the result.
  - `loud_wire.rs` — request ids, UTC timestamps, log prefixes and the
    shortening of long base64 fields.
  - `errors.rs`, `error_helpers.rs` — the error type and the messages built
    around failed requests.
  - `common.rs`, `text.rs`, `order.rs`, `tool_schema.rs` — endpoints,
    decimal text, byte order of names, and naming/type-mapping helpers for
    tool declarations.
- `tests/` — tests run against the compiled library.
- `app/` — the HTTP client, logging and serde glue around the library.
