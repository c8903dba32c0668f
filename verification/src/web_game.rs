//! Lobby bookkeeping of a web server: players with wagers and free
//! responses, password-protected lobbies of them, and a map of lobbies by
//! name.

pub mod player;
pub mod lobby;
pub mod lobby_manager;
pub mod json_websocket;
pub mod connection;
