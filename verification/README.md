# eco_clipboard

The decisions of a clipboard history and of its paste commands, proved with Verus.

- `src/` is the library. It decides which clipboard change becomes which record of the history,
  recognises the changes that the program caused itself, decides how a record goes back to the
  clipboard, and plans the keystrokes and waits of a paste. Its `law_*` functions state what holds
  across several calls.
- `tests/` runs the library on concrete values.
- `app/` performs what the library asks for: it reads and writes the system clipboard, watches it,
  presses keys, waits, and talks to the surrounding application through the trait `Host`.

Where outside work and decisions alternate, the library hands out a value that says what to do next
(`action`) and takes the answer in (`step`, or `on_clipboard_change` for a clipboard change).
