# aspect_core

Aspect-oriented programming support, verified with Verus.

- `src/` — the verified library: join points and proceeding join points
  (`joinpoint`), the `Aspect` trait with its default `around` advice
  (`aspect`), the around-advice lifecycle used by asynchronous advice
  (`lifecycle`), and the decision logic of the aspect-weaving attribute:
  the syntax it reads (`syntax`), when an aspect may be applied and which
  wrapper is generated (`weave`), reading aspect impls out of source text
  (`inspect`) and walking a source tree (`scan`). `report` and `web` hold the
  text and response logic of the example programs; `text` renders numbers.
- `app/` — the parts that cannot be verified: parsing and emitting tokens for
  the attribute, reading the file system, the asynchronous aspect trait, and
  the example programs (a tokio program and an axum server).
- `tests/` — tests of the library.
