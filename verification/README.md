# alfred_pinboard_rs

The decisions and the result lists of an Alfred workflow for Pinboard
bookmarks, verified with Verus.

- `src/` — the library. `text` holds the character-level helpers
  (splitting, trimming, searching, number formatting and parsing) with their
  specifications; `item` the plain model of an Alfred result entry;
  `workflow_config` the settings and the Alfred version; `commands/*` what
  each sub-command decides and shows (`config`, `list`, `search`, `post`,
  `delete`, `rename`, `update`, `self`). Calls into `semver`, `url` and `chrono` stand
  behind a few trusted wrappers whose contracts are documented next to them.
- `tests/` — tests of the library on concrete values.
- `app/` — the command line program: argument parsing, the settings file,
  the Pinboard client, the browser script and writing Alfred's output.
