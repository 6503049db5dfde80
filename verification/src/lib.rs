//! State machines of a two-player quiz server.
//!
//! The server is authoritative for the lobby, the phases of a game, the questions, the timing
//! and the scoring. Each of the three machines here takes one event at a time and answers with
//! what is to be sent: [`connection::Session`] per client, [`lobby::LobbyActor`] once, and
//! [`game::GameActor`] per game. Queues, sockets and timers belong to the program that runs
//! them; the machines know a queue by its number.
pub mod clock;
pub mod connection;
pub mod connection_laws;
pub mod connection_model;
pub mod connection_step_laws;
pub mod game;
pub mod game_laws;
pub mod game_model;
pub mod game_step_laws;
pub mod ids;
pub mod lobby;
pub mod lobby_laws;
pub mod lobby_model;
pub mod lobby_step_laws;
pub mod messages;
pub mod questions;
pub mod text;
