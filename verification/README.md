# verge

The decision logic of a macOS front end for the Mihomo proxy core, written in
Verus: every function under `src/` carries a contract that Verus proves.

## Layout

- `src/ui.rs`, `src/ui/`: the UI state reducer (`UiState`), the typed requests
  that each user action dispatches, which responses may update the state, and
  the laws of that reducer (`src/ui/laws.rs`).
- `src/forms.rs`: what the profile and settings forms do with what was typed.
- `src/filters.rs`, `src/proxies.rs`, `src/telemetry.rs`: the models behind the
  rules, connections, logs, proxies and home pages.
- `src/mihomo.rs`, `src/mihomo/`: controller addresses, configuration and
  sidecar manifest checks, the supervisor's restart policy, and the realtime
  subscription's reconnect policy and bounded buffers.
- `src/platform.rs`, `src/platform/`: the system proxy transaction
  (`system_proxy.rs`, a state machine whose actions the caller performs), the
  writes it plans (`proxy_ops.rs`), how `networksetup` output and recovery
  records are read (`proxy_state.rs`), the privileged helper installer, the
  login item, the tray menu, the PAC responder and the rotating log.
- `src/script.rs`: the limits on profile scripts and their previews.
- `src/digest.rs`, `src/text.rs`: SHA-256 and text operations over the
  `Seq<char>` view of strings.
- `app/`: a command-line front end that performs the I/O the library leaves
  out (processes, files, sockets, `networksetup`) and drives the library.
- `tests/`: tests of the library on concrete values.

Outside crates are called from `src/` only through `#[verifier::external_body]`
wrappers whose doc comments say what their contracts claim.
