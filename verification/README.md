# rumba

The core logic of the MDN Plus back-end, written in Verus and verified:
every public function states in `requires`/`ensures` what it does, and
Verus proves it.

Layout:

- `src/text.rs` — string helpers with their models over `Seq<char>`:
  joining, splitting at a separator, trimming white space, prefixes.
- `src/ai/` — AI Help, "ask" and AI Explain: message filtering, fitting a
  conversation into a model's token budget, choosing the documentation
  context, signatures and cache keys of explain requests, errors.
- `src/api/` — the decisions of the HTTP endpoints: quotas and plan limits,
  search request bodies and parameter checks, the error model, saved
  documents and collections, watched documents, settings, newsletter,
  playground ids, login redirects, account events, the browser
  compatibility import and the grouping of its updates.
- `src/ai_test.rs` — the files and Markdown reports of the AI Help test
  runner.
- `tests/` — tests on concrete values, run with the real outside crates.
- `app/` — the plain Rust around the library: reading query strings and
  data files into the library's values, JSON forms of its answers, and the
  test runner's file writes.

Calls into outside crates (token counting, HMAC and SHA-256, AES-GCM,
base64, URL parsing, date parsing, percent-encoding, query-string decoding)
sit behind small trusted functions whose contracts name or state their
results; everything around them is verified.
