# Presence for Plex

Shows on Discord what a Plex server plays.

`src/` is a verified library: everything that the program computes and decides.
Each public function has a contract, and the modules state as proof functions
what holds across functions.

- `config`: the settings, where they are kept, and what becomes of a file that
  cannot be used
- `frame`, `json`: the frames of Discord's local protocol
- `presence`, `rich`: the activity that a presence becomes
- `discord`, `session`: the connection to a Discord client, and what a run of it
  comes to
- `discovery`: the search for Plex servers
- `auth`: the sign-in to Plex
- `tray`, `playback`: how the tray and the media updates are answered
- `media`, `paths`, `text`: what the others share

`app/` is the program around it: files, pipes, timers and tasks. It performs the
actions that the library asks for and reports how they went. It is generic over
the parts that talk to Plex, word a presence and draw the tray icon.

`tests/` runs the library on concrete values.
