# discord_music_bot

A Discord music bot whose rules are a library verified with Verus.

- `src/` — the verified library: per-server queues with repeat and shuffle
  (`queue`), query planning, yt-dlp answers, Spotify pages, YouTube ids and
  the autoplay steps (`source`), the command and component routing, replies,
  embeds, keyword-search candidates and player buttons (`commands`,
  `utils`), and exact string helpers (`text`).
- `tests/` — tests of the library on concrete values.
- `app/` — the program around it: the Discord gateway, slash commands,
  voice playback, yt-dlp and ffmpeg processes, HTTP and JSON decoding.
