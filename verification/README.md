# win-theme-switcher

A Windows tray tool that swaps between a light and a dark desktop theme at
local sunrise and sunset, keeps manual overrides until the next natural
transition, and retries failed applies a bounded number of times.

Layout:

- `src/` — the verified library (Verus): the tick decision and retry
  bookkeeping (`tick`), the sunrise/sunset schedule (`schedule`), the
  `.theme` display-name parser (`theme_file`), config loading rules and
  theme-file choice (`config`), the apply fallback chain and commit watch
  (`apply`), session rules (`session`), text helpers (`text`), the tray
  icon bitmap (`icon`) and the themes themselves (`theme`).
- `app/` — the Windows program around it: event loop, tray, registry, COM,
  shell calls, files, the clock and the floating-point astronomy.
- `tests/` — tests of the library.
