# rexmit

The decision logic of rexmit, a Discord music bot, as a verified library,
with the bot itself around it.

- `src/` — the library, verified with Verus:
  - `number`: reading and writing decimal `u64` text (Discord ids are kept
    as text), with the proof that written text reads back.
  - `models`, `history`: the stored records; `Guild` with its reservation
    test and the channels it records.
  - `store`: the updates and queries sent to the guild store, their
    meaning, and what is made of the store's replies.
  - `slots`: who may have the bot in a voice channel, both as one decision
    and as a step-by-step check.
  - `commands`: what each chat command and voice event does.
  - `replies`: every message the bot posts.
  - `settings`: what the `DEBUG` setting selects.
- `app/` — the bot: Discord client, voice driver and MongoDB store, calling
  the library for every decision.
- `tests/` — tests of the library.
