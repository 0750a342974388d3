# melors

A keyboard-first terminal MP3 player whose logic is a library verified with
Verus.

- `src/` is the verified library: the track model, queue and shuffle, the
  session (what playing, skipping, repeat, shuffle and playlists do), search
  query parsing and fuzzy ranking, playlist rules, the library scanner's
  decisions and the watcher's debouncing, the scan scheduler, the terminal
  UI's state machine and every text it shows, the audio analysis
  bookkeeping, the quality gate and the release readiness rules. Each public function
  states its result in its contract; the laws that span functions are public
  proof functions (`law_*`).
- `app/` is the program around it: configuration files, the SQLite database,
  walking and watching the music directory, ID3 tags, the audio output and
  spectrum analysis, and drawing with ratatui.
- `tests/` runs the library on concrete values.

Keys: `q` quit, `Tab` switch between library and queue, `Up`/`Down` move,
`Enter` play, `Space` play/pause, `n`/`p` next/previous, `Left`/`Right` seek
5 s (10 s with Shift), `[`/`]` volume, `e` repeat, `u` shuffle, `s` search,
`l` playlists, `a` add the selected track to the queue, `A` add it to a playlist, `x` remove from the queue,
`Shift+Up`/`Shift+Down` reorder the queue, `f` favourite, `t` edit tags,
`r` rescan, `Alt+0..3` visualizer, `Alt+T` theme.
