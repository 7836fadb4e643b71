# winget_interfacer

A desktop window for updating Windows packages through WinGet's PowerShell
module, built around a verified library.

- `src/` is the library. Verus checks all of it:
  - `text`: substring search, Unicode-aware trimming, decimal notation and
    string assembly, each against a specification over `Seq<char>`;
  - `winget_manager`: package records, the error taxonomy, classification of
    PowerShell's standard error, PowerShell quoting of package ids (every
    single-quote character PowerShell knows, ASCII and typographic, is
    doubled; a round-trip law shows that, as the tokenizer reads quotes, an
    id stays inside its literal in the install script), the
    scripts, and the interpretation of process output and parsed JSON;
  - `cancellation`: the token shared between the window and an install;
  - `gui`: the window's state machine (listing, installing, "update all",
    cancel escalation, search), with its consistency laws; `gui::app` the
    queue-based window; `gui::notices` the texts shown.
- `app/` is the program: the egui/eframe window, the promises and threads
  that run PowerShell, serde decoding of its JSON, and opening web pages.
- `tests/` runs the library on concrete values.
