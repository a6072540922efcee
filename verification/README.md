# terminal_music_player

A terminal music player that streams audio from any site that yt-dlp
supports into an in-memory buffer and plays it while the download runs.

The library (`src/`) holds the player's logic, each part stated and proved
with Verus:

- `text` — trimming, prefix tests, decimal rendering and parsing.
- `playlist` — songs, the playlist, the choice of the next song.
- `stream` — the shared audio buffer: what a read copies, where a seek
  lands, when a reader waits.
- `player` — the messages to and from the playback thread, the interface's
  mailbox, and the playback loop's decisions (`PlayerLoop`).
- `app` — the application state and every change that keys, player events
  and the clock make to it, each stated as a function on `AppView`.
- `keys` — what each key does on each screen.
- `view` — the texts the screens show.
- `laws` — properties that span several operations.

Times in the library are integer milliseconds.

`app/` is the program around it: the terminal and the event loop
(crossterm), drawing (ratatui), the playlist file (serde_json in the
platform's config directory), and the playback thread (yt-dlp and rodio),
which performs what `PlayerLoop` decides and, as a reader of the shared
buffer, blocks on its condvar while the library's `must_wait` says so.
