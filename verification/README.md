# secretary

A bot that runs a community server by direct democracy: members with the
voter role propose actions (sending or deleting a message, creating,
renaming or purging channels, creating, deleting, moving or renaming roles,
giving or taking roles, kicking members), every proposal becomes a yes/no
vote with buttons, and a proposal is carried out once its tally reaches the
quorum (half of the voters, rounded up).

Layout:

- `src/` — the library, verified with Verus:
  - `ballot.rs`: a vote's tally and recorded ballots, and the laws of casting
    a ballot;
  - `actions/`: the kinds of proposal, the commands that turn a request into
    a proposal (or refuse it for a protected role or channel), and what a
    passed proposal asks of the server;
  - `session.rs`: the session state, opening a vote, counting a button press,
    the quorum, and the laws that span several presses;
  - `interaction.rs`: the custom ids of the vote buttons, written and read;
  - `messages.rs`, `views.rs`: the texts the bot posts;
  - `locale.rs`: the texts of a language file (YAML, read with `serde_yaml`);
  - `clock.rs`: elapsed hours, and instants written with `chrono`;
  - `text.rs`: decimal numbers, written and read as `str::parse` reads them.
- `app/` — the Discord bot itself (poise/serenity): commands, events, and
  carrying out passed proposals.
- `tests/` — tests of the library.
