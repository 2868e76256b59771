# prefer_mocked

The `prefer-jest-mocked` and `prefer-vi-mocked` lint rules for TypeScript test
code, written in Verus and verified.

- `src/` is the verified library. `ast` describes the part of a syntax tree that
  the rules read, `context` reads spans of the source text, `text` holds the string
  comparisons, `prefer_jest_vi_mocked` the shared checks, `prefer_jest_mocked` and
  `prefer_vi_mocked` the two rules, and `laws` the properties proved of them.
- `app/` connects the library to oxc: it builds the library's model of a node from
  oxc's semantic tree and turns reports into oxc diagnostics.
- `tests/` runs the rules over sources parsed by oxc.
