# cs2love

The reward logic of CS2 Love, a Counter-Strike 2 companion that plays a sound
and vibrates toys (through Intiface Central) when the player gets kills or
finishes a round with enough kills, verified with Verus.

- `src/` is the verified library:
  - `config` – settings, their documented defaults and validation;
  - `sounds` – bundled and custom reward sounds;
  - `gamestateintegration` – the parts of a game state integration payload the rewards read;
  - `rewards` – the tracked game state and what each payload triggers (`apply_payload`),
    with its properties as proof functions;
  - `intiface` – toys reported by Intiface and which of them a vibration drives;
  - `intiface_session_controller` – URL checks and the connect/discovery state machine;
  - `gui` – auto-save debouncing, setup titles and toy selection of the settings screen;
  - `text` – whitespace trimming and decimal rendering.
- `tests/` runs the library on concrete values.
- `app/` is the program: settings file, the HTTP endpoint the game posts to, the
  Buttplug client, and the session loop. It runs without the settings window:
  eframe and egui, which draw it, are left out of the dependencies to keep the
  dependency tree small (they alone would double it). The window's
  decisions (auto-save timing, toy checklist, setup titles, URL commits and
  rescans) are in the library, ready for a front end to call.
