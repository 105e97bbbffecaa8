//! Core logic of a location-aware chat service: the chat message model and
//! its routing, the replies of the position endpoints, connection retry
//! policy, channel subscription control and the distributed lock.

pub mod message;
pub mod lock;
pub mod retry;
pub mod position;
pub mod websocket;
pub mod channel;
pub mod service;
pub mod connection;
