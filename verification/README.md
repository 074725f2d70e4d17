# dsh_desktop

The decisions of a desktop shell for the dsh web UI, verified with Verus.

- `src/text.rs`: trimming, line splitting, decimal text, byte search, joining.
- `src/version.rs`: dsh package versions, read and ordered through `semver`.
- `src/npm.rs`: the global npm install of dsh, its manifest, and the npm
  query and upgrade processes.
- `src/launch.rs`: the port, the addresses and command lines that start and
  reach dsh, and what the two web views may load.
- `src/startup.rs`: attaching to or starting dsh, as a state machine.
- `src/update.rs`: the update check, as a state machine, and its lock.
- `src/chrome.rs`: the title bar's status, scripts, window actions and layout.
- `app/lib.rs`: the Tauri window, processes, sockets and dialogs that carry
  the library's decisions out.
