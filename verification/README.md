# music_bot

A Discord music bot: slash commands that join a voice channel, play tracks
from links, searches or the Yandex music service, and show, skip, pause and
resume the queue.

- `src/` is the verified library (Verus): the command registry and dispatch,
  each command's decisions, the `/play` and Yandex track lookups as state
  machines, and the text they produce.
- `app/` is the bot itself: the Discord gateway, voice, HTTP and process
  plumbing, which feeds the library plain values and acts on its answers.
- `tests/` runs the library on concrete values.
