//! Event routing for a Matrix bot: one sync response is partitioned by room
//! membership and every event in it is handed to the handler registered for
//! its type, which forwards it on the channel of the matching command.

pub mod bot;
pub mod channel;
pub mod client;
pub mod command;
pub mod error;
pub mod event;
pub mod event_handler;
pub mod table;

pub use bot::{Bot, BotConfig};
pub use error::Error;
pub use event_handler::EventHandler;
