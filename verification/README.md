# console_client

The decision-making core of `pcloud-cli`, a console client for pCloud Drive,
written in Verus. The library's functions carry contracts that Verus proves.
The exceptions are a few no-op initialisers, which have no contract, and six
small wrappers around std and outside-crate calls (`String::push`,
`str::to_lowercase`, `Duration::from_secs`, `zeroize`, and two `qrcode`
calls). Verus trusts those wrappers' contracts without proof; each doc
comment says what it claims of the call.

## Layout

- `src/` — the verified library.
  - `cli/` — the command-line model, interactive commands, the decisions
    behind the login prompts, and shell completion (the bash script and the
    candidate lines).
  - `daemon/` — IPC commands and replies, message framing, command handling,
    the activity log, PID-file parsing and signal flags.
  - `service/` — choosing an init-system backend, rendering unit files,
    scripts, plists and crontab lines, quoting, and the step-by-step plans for
    installing, removing and restarting the service.
  - `tui/` — the dashboard's view state, what each key does in each input
    mode, the header's texts, and how daemon replies are shown.
  - `utils/` — boxed terminal output, distribution detection and package
    hints, the dependency doctor's checks, QR codes for the login URL,
    browser launching and mountpoint preparation.
  - `security/` — wiping secrets and resolving secrets from the environment.
  - `error.rs`, `text.rs` — error types with their messages, and the string
    specifications and helpers the rest is written with.
- `tests/` — tests run against the compiled library.
- `app/` — the program around the library: argument parsing, the socket, file
  and process I/O, signals, and the terminal.

Properties that relate several operations (a frame read back from its
encoding, a PID read back from its file, a key press that keeps the selection
in range, an uninstall that removes what the install wrote, and others) are
stated and proved as `law_*` proof functions next to the code they concern.
