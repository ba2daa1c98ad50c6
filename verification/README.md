# tuidal

A terminal client for the Tidal music service, whose decisions are verified
with Verus.

- `src/` is the library: the application state and what every key, tick,
  finished background task and remote command does to it (`app`, `events`,
  `keys`), the search state and its history (`search`), the library tab
  (`library`), the player's state and the commands it hands to the audio
  process (`player`), lyrics and their LRC timing (`lyrics`), the catalogue
  types (`tidal`), the interface texts in four languages (`i18n`), what the
  remote-control API and MPRIS report (`remote`), text helpers (`text`) and
  screen geometry and the marks the screen shows (`layout`, `display`). Work with the outside world is queued as
  effects and player commands.
- `app/` is the runtime around it: the terminal and its drawing, the
  Python daemon that talks to Tidal, the mpv process, the HTTP API, the
  MPRIS server and the settings file. It performs the queued work and feeds
  the outcomes back as events.
- `tests/` exercises the library.
