# winio_ui

The decisions of the winio GUI backends for Win32 and UIKit, stated as
contracts and proved with Verus.

- `src/` is the verified library. Each module holds the logic of one part of
  the backends over plain values: window messages and the registry of futures
  waiting for them (`message`, `registry`, `window`, `event_loop`, `compat`),
  dialogs (`filebox`, `msgbox`), controls (`style`, `scroll`, `tab_view`,
  `combo`, `edit`, `link`, `progress`, `canvas`, `icon`, `font`, `tooltip`,
  `media`), keyboard input (`keyboard`), text line endings (`text`), files
  opened by URI (`uri`) and the
  cookies of the web view (`cookies`).
- `app/` is the system side: the calls into Win32 that the library's
  decisions drive, and the conversions to the `cookie` crate.
- `tests/` runs the library on concrete values.
