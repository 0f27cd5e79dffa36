//! A client library for a chat platform's real-time gateway and REST API:
//! the gateway session state machine, the REST rate limiter, the command and
//! event routers, and the slash-command reconciler, each verified against its
//! contract.

pub mod client;
pub mod commands;
pub mod events;
pub mod gateway;
pub mod lru;
pub mod models;
pub mod ratelimit;
pub mod reconcile;
pub mod rest;
pub mod text;
pub mod wire;

pub use client::{Client, Command, EventHandler, Invocation, RegistrationError, Route};
pub use commands::{ParamType, Value};
pub use events::Event;
pub use models::{Channel, CreateMessageData, Message, MessageResponse};
pub use rest::get_headers;
