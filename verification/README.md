# jeopardy

A server for hosting Jeopardy games in lobbies, with the game rules, the
lobby and manager state machines, and the request handling decisions
verified with Verus.

Layout:

- `src/` — the verified library.
  - `text`, `validators`: character predicates, name sanitising and
    credential checks.
  - `board`, `player`, `players`, `game`: the Jeopardy board, players, the
    roster and the game itself, with its host and player commands.
  - `lobby`, `manager`: a lobby as a state machine over commands, and the
    store of password-protected lobbies.
  - `handlers`, `conn`, `server`: the decisions behind creating, deleting
    and commanding lobbies and behind a player's connection, written as
    steps from an outside answer to the next action.
  - `web_game`: the simpler lobby, player and connection model.
- `tests/` — tests run against the compiled library.
- `app/` — the HTTP and websocket server around the library: routing, JSON,
  the lobby tasks and the connection loops.

Laws that span several operations (what a join followed by a leave gives
back, that host commands keep the configuration and roster, that point
updates add up, that redaction hides every answer) are stated as public
proof functions next to the operations they speak of.
