# passop

A password manager whose vault is a YAML map of names to passwords, kept
encrypted on disk by SOPS with an age key.

The library (`src/`) is written in Verus and verified:

- `vault` — the vault as a map with an order of names, and its laws;
- `session` — the add / call / remove / edit sessions as a state machine,
  with laws on what a session may save and on its termination;
- `setup` and `keyfile` — first-time setup as a state machine, the SOPS
  configuration text, and reading the public key out of an age key file;
- `backend`, `yaml` — SOPS arguments and outcomes, and the YAML text of the
  vault (through `serde_yaml`);
- `paths`, `password`, `two_factor`, `cli` — file locations, password
  generation (through `rand`), the enrolment URL and QR code (through
  `qrcode`), and what a command line asks for.

`app/main.rs` is the `po` program: argument parsing, prompts, files and the
`sops` / `age-keygen` processes, driving the library's state machines.

Notes on choices:

- The vault is a vector of `(name, password)` pairs in which no name occurs
  twice, not a `HashMap<String, String>`: with `String` keys Verus proves
  nothing about std's `HashMap` operations, so the vault keeps its entries in
  a vector and states the no-repeat rule as its type invariant.
- Paths are strings; the home directory is converted with
  `to_string_lossy`, so a home path that is not valid UTF-8 is looked at
  through its lossy form. Paths are joined with `/`, as on Unix.
- What `serde_yaml` and `sops` do is named, not restated: the library does
  not claim that YAML it writes reads back to the same vault.
