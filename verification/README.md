# colossus-runtime

The decisions of a local agent runtime, written and proved in Verus: how a configuration is read and
checked, which access and sandbox grants follow from it, how a runtime is opened, what the tools of
an agent ask the effect gateway for and what they show of the answers, how plans and goals are
carried out within their budgets, how instruction snapshots are captured and kept, what plugins and
packs may do, and what the runtime reports of itself.

- `src/` is the library. Every function states in its contract what it returns for every input; the
  properties that span functions are public proof functions next to the functions they speak of.
  Calls into other crates (YAML, JSON, URLs, base64, hexadecimal, SHA-256, identifiers) stand behind
  small wrappers, each with a doc comment that says what is taken on trust.
- `tests/` runs the library, with the other crates linked.
- `app/` is the host side in ordinary Rust: files, YAML settings, and the loops that perform the steps
  which the library decides on.
