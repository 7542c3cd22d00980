# eunha

The Mastodon API layer of the eunha server, as a verified library: the
conversions from stored rows to API entities, the rendering of statuses and
profiles, the metadata that media carry, and the validation, paging and
decision rules of the endpoints. Every function in `src/` is checked by Verus
against its `requires`/`ensures` contract, except the small wrappers marked
`#[verifier::external_body]` that make the calls into `std` and the outside
crates (`ammonia`, `chrono`, `emojis`, `hex`, `rand`, `regex`, `sha2`, `url`,
`urlencoding`): their contracts are trusted, each stated in its doc comment.
`src/laws.rs` states and proves the properties that hold across functions.

- `src/` — the library (one module per area of the API, plus `text`, `json`,
  `batch` and `pagination` for the shared building blocks).
- `tests/` — tests on concrete values, run against the compiled library with
  the outside crates linked.
- `app/` — what stays outside the verified code: serde shapes of bodies and
  entities, JSON and time conversions, and the calls whose inputs are checked
  before the library is asked.
