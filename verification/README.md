# launchpad

A manager for macOS `launchd` jobs, written in Verus: the job list, its filters and
stars, the actions and the guarded delete, the plist editor with its diagnostics, the
AI assistants' request and reply handling, and the QuickLaunch menubar companion.

- `src/` is the verified library. `domain/` holds the job, status, action, filter and
  plist-document models; `adapter/` the parsers and trait boundaries towards launchctl,
  plist files, logs, the clipboard and the AI services; `service/` the flows that use
  them; `controller/` the app's state and what each user action does to it;
  `companion/` the QuickLaunch helper and menubar logic.
- `app/` runs the library from the command line and does the I/O: processes,
  files, HTTP and the serde copies of the library's JSON types.
- `tests/` exercise the library with in-memory stand-ins for the system.
