//! Verified core of a chat bot that gates a catalog of remote files behind an
//! activation key, searches the catalog by name and relays a selected file.

pub mod text;
pub mod catalog;
pub mod keyboard;
pub mod command;
pub mod profile;
pub mod audit;
pub mod outgoing;
pub mod chat_server;
pub mod handler;
pub mod relay;
pub mod store;
