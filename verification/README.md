# mo_de_backend

The rules of a real-time multiplayer Monopoly-like game (rooms, dice, rent,
auctions, jail, building, mortgages, trades, bankruptcy and bots), written in
Verus: every operation has a contract over a mathematical model of the game,
and the properties the game keeps are proved.

- `src/game/` — the board, the game state and its view, the rules as spec
  functions (`rules`), the operations that follow them (`engine`, `lobby`,
  `trade`, `bankruptcy`), the laws (`laws`) and the range in which every
  event stays within `i32` (`limits`).
- `src/bot/` — deterministic decisions of computer players.
- `src/ws/` — the hub of connections per room.
- `src/api/` — request and response bodies, and a room's summary.
- `app/` — the server: Axum routes and WebSocket, Redis storage, JSON forms
  of the library's types, the bot loop and the bot's float-valued rules.
