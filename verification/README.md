# oid

The verified core of Open Intelligence Desktop: governed operations
(plans, policy, approvals, evidence, the operation journal and the run
state machine that drives them), the intent lifecycle, the plugin
capability registry, the model catalog and backend manager, the console's
command language, line editor, history, prompt and status bar, the audio
control rules, and the Marina daemon's line protocol.

- `src/` is the library, verified by Verus. Its functions carry contracts,
  except the few whose results no contract can fix (the cancellation
  token's shared flag); the trusted items are a few wrappers around `std`
  formatting and character functions, each documented where it stands.
- `app/` is the program around it: terminal I/O, signals, the shell child,
  files on disk, the Unix socket and the host facts. It hands the library
  plain values and performs the actions the library decides.
- `tests/` runs the library on concrete values.
