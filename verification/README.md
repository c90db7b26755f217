# phoenix_cmc

The verified core of Phoenix, a conferencing (chat) server reached over
TELNET.  The library in `src/` is written in Verus: every function carries a
contract over mathematical models (sequences, sets, spec functions) that
Verus proves.  The program in `app/` is ordinary Rust: the TCP listener,
the per-connection tasks, the shared registry of sessions and discussions,
and the dispatch of commands to the library.

Layout of `src/`:

- `words`, `chars`, `constants`: word splitting, keyword abbreviations and
  name matching.
- `sendlist`, `sendable`: explicit sendlists at the start of a message,
  how each entry finds its recipients, and the reports on entries that
  matched no one or several users.
- `telnet`, `telnet_input`: the TELNET option negotiation and the input
  line editor, as a state machine over bytes.
- `discussion`, `moderation`: discussions with their permit/depermit and
  moderator rules, and what a moderator is told.
- `login`, `registry`: names at login, the registry of claimed names, and
  the shutdown countdown.
- `session`, `variables`, `commands`, `help`: command lines, time and idle
  reports, `/set`, `/display`, `/signal`, `/create`, `/send`, `/blurb` and
  the help texts.
- `report`, `listing`, `who`, `message`, `dump`: the message confirmation,
  the `/who`, `/idle`, `/why`, `/what` and `/howmany` lists and whom they
  show, received messages with word wrap, and the debugging hex dump.
- `output`, `name`, `user`, `timestamp`, `types`, `atomic`: notifications,
  names and blurbs, the password file and password checks, time stamps,
  and the single-word atomic options.

The tests in `tests/` exercise the library on concrete values.
