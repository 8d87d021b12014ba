//! A chat-bot command framework: named command handlers, a normalised request
//! model, and a reply protocol that picks between an interaction acknowledgement
//! and a follow-up message.
pub mod command;
pub mod config;
pub mod decimal;
pub mod gateway;
pub mod logger;
pub mod message;
pub mod ping;
pub mod purge;
pub mod registry;
pub mod request;
pub mod response;
