# Fermix for Linux: the client library

The library behind the Fermix desktop window. Fermix itself is a background
service run by the user's own service manager; this client talks to it over the
management socket and holds no configuration and no secrets of its own.

Everything the client decides is in `src/` and is proved against its contract
with Verus. Words a person reads come from the gettext catalogue of whatever
locale the session runs in, so what a translation says is not stated: each
function that draws catalogue words has a core that takes what gettext
answered (`copy::render`, `copy::fill_rendered`, `uptime_in`, `facts_in`,
`skew_rows_in`, `protocol_refusal_in`) and is exact over it.

- `management/`: the published contract (version window, method minimums,
  limits), the vocabularies the daemon publishes, the framing of one exchange,
  the negotiation and connection epochs of the client, and the one question
  asked of the daemon's web door.
- `models/`: one value per surface (Home, Settings, Doctor, Logs, jobs, the
  Setup assistant, the activation transaction, providers, integrations,
  meetings, this computer, the permission ledger), each with the transitions an
  answer from the daemon or the command line makes.
- `copy/`: the string catalogue, the lookup through gettext, header
  capitalization and marker filling.
- `actions`, `registry`, `paths`, `runtime`, `cli`, `capture`, `metrics`,
  `motion`, `fixtures`: the action map, the surface registry, where the command
  line and socket are, the environment a child is given, the command line this
  binary answers, the layout and motion numbers, and the rules the fixture peer
  answers by, with the records its goldens and scenarios are read into.

`app/` is the program around it: the entry point, the socket and web-door
exchanges, the fixture goldens on disk, and the toolkit shell.
`tests/` exercises the library from outside.
