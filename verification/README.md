# spotify_recorder

A service that records the tracks a media player (Spotify, over MPRIS on the
session bus) plays while recording is switched on, and exports each finished
track as a tagged file below `~/Music/Spotify/<artist>/<album>/`.

The library under `src/` is written in Verus and holds the service's logic,
each function with a contract that Verus proves:

- `track`: the player's metadata and the track information taken from it;
- `control`: the state behind the control interface (recording wanted,
  connection status, current track, waiting for the next track);
- `monitor`: the decisions on the player's events, as lists of actions;
- `export`, `tagging`: where a recording goes and the ID3 tag it gets;
- `audio`, `text`: reading the audio server's answers;
- `laws`: properties that span several operations.

`app/` is the program around it: the session bus, the recorder process, the
exporter task and the files.
