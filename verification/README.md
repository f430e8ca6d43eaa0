# openvtc

The decisions behind a terminal client for verifiable trust communities: what an
account shows, what a key press does, what a message changes, and what is to be
done next. The library is written in Verus: its functions state what they return
or change, and Verus proves it. Nothing is stated of what the clock reads or which
identifier is drawn (`utc_now`, `seconds_since_epoch` and `random_id` in
`outside`); the functions that go by such a reading have a twin that takes it as
an argument and states what follows from each.

- `src/` holds the library. It performs no I/O: it takes the state and an event,
  and says what the state becomes and which step follows.
  - `message`, `protocol_urls`, `did`, `credential_kind`, `key_purpose`: the
    messages and credentials that are exchanged.
  - `persona_binding`, `content`, `state`, `config`: what is known and shown.
  - `navigation`, `communities_panel`, `lifecycle`: keys, the communities panel and
    the activity log.
  - `background_dispatch`, `capabilities`, `vic`, `agent_names`, `persona_mint`,
    `identities`, `communities`: work that runs beside the loops.
  - `startup`, `degraded`, `runtime`, `sessions`, `save`: the loops, step by step.
  - `outside`: the calls into other crates, with what is taken for granted of each.
- `tests/` runs the library.
- `app/` is the program around it: the event loops, the jobs, the drawing, and the
  shapes that are stored.
