//! Game logic of a web-hosted Jeopardy server: the board model, the game
//! state machine, player rosters, lobby bookkeeping and request validation.

pub mod text;
pub mod validators;
pub mod board;
pub mod players;
pub mod player;
pub mod game;
pub mod lobby;
pub mod manager;
pub mod handlers;
pub mod conn;
pub mod web_game;
pub mod server;
