# encounter

Resolution engine for multi-character scenes, written in Verus. Given a
catalog of actions and the characters present, it runs one of three
protocols (`SingleExchange`, `MultiBeat`, `BackgroundScheme`) and returns a
structured sequence of beats and typed effects.

Layout:

- `src/` — the verified library. Every function it implements carries a
  contract (the two consumer traits, `ActionScorer` and `AcceptanceEval`,
  promise nothing of the impls their users write); the protocols, effect categorization, escalation detection, scheme lifecycle and
  value-argument rules are proved against them. Binary64 quantities are held
  as bit patterns (`binary64::Real`) and compared exactly as binary64 does.
- `tests/` — tests of the library on concrete values.
- `app/` — ordinary Rust around the library: the serde (TOML) forms of its
  data, the catalog directory loader, the error type, and the binary64
  arithmetic (sums, products, decimal formatting) whose results the library
  takes as inputs.
