//! Conversational agent: message types, the agent's conversation state and
//! the decisions around each inference round trip.
pub mod types;
pub mod client;
