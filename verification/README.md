# steve

The logic of "Steve", a Discord music bot, as a Verus-verified library, with
the bot program around it.

- `src/` — the verified library (crate `steve`):
  - `text.rs`: character-level string helpers (label truncation, decimal
    numbers, substring and prefix tests, newline join/split and their
    round-trip lemmas).
  - `models.rs`: the user, guild and membership records, with views; the
    guild's stored search titles and the laws of storing and reading them.
  - `cache.rs`: the in-memory caches and every gateway event's effect on
    them, stated as spec functions over the caches' view; each event returns
    the database writes it calls for. Laws relating the events sit at the
    end of the file.
  - `spotify.rs`: search kinds, result texts and the token-refresh decision.
  - `commands.rs`: prefix checks, how `play` routes and lists a query,
    queue and voice command plans, queue listing, track status, when the
    bot leaves a channel and how often it retries the database.
  - `play.rs`: the `play` command as a state machine from state and event
    to next state and action, with laws on the order of its steps.
  - `replies.rs`: the title, text, colour and image of every reply the
    commands send, and the ids and labels of the search buttons.
- `tests/` — tests of the library on concrete values.
- `app/` — the bot itself: Discord, voice, YouTube, Spotify and database
  I/O. It runs the `play` state machine, performs each action it names and
  hands back the outcome; it takes replies, colours, search counts and retry
  arguments from the library and maps `ReplyColour` to Discord colours.
  Log lines written to the console stay in `app/`.
