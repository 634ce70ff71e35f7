# acepe_reconciler

Verified core of the desktop session surface: how a raw tool call is
classified, named and associated with its task, how session logs are found
in the session store, and how a parsing benchmark is summarized.

## Layout

- `src/` — the verified library (Verus).
  - `text.rs` — trimming, ASCII case folding, prefixes and substrings over
    characters, each with a specification.
  - `tool_kind.rs`, `signals.rs` — tool kinds, fallback signals, their names.
  - `names.rs` — unknown/usable tool names and the normalization name.
  - `json.rs` — JSON values as plain data, member lookup.
  - `classify.rs` — fallback classification and the todo-SQL, web-search and
    browser promotions.
  - `session_tool.rs` — identity resolution of live and replayed tool calls,
    the argument parse plan, and the final kind/name after parsing.
  - `semantic.rs` — typed arguments and semantic tool records.
  - `task_reconciler.rs` — buffering sub-agent calls until their task arrives.
  - `snapshot.rs` — empty thread snapshots.
  - `paths.rs` — project slugs, session file names, the store root.
  - `benchmark.rs` — benchmark statistics, stable orders, size groups.
- `tests/` — tests of the library.
- `app/` — host glue: directory scanning and printing for the benchmark,
  serializable wire copies, JSON conversion, cache statistics.

## Heuristic answers as inputs

Classification consults heuristics (argument shape, ACP kind hint, title,
web-search and browser name tests, the provider's name table). Their
answers enter the library as plain values (`SignalResults`,
`ProviderAnswers`); every decision taken on them is verified, for every
combination of answers. Nothing in the library ties those answers to the
frame they describe: the caller computes them from the frame's id, name,
title, kind hint and arguments, and the library takes them as given. The
fields of `RawClassificationInput` other than the arguments (which the
todo-SQL promotion reads) are carried for that caller and not read by the
library's own decisions.
