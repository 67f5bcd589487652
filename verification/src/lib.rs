pub mod action;
pub mod client;
pub mod codec;
pub mod commands;
pub mod directory;
pub mod events;
pub mod message;
pub mod router;
pub mod state;
pub mod util;
