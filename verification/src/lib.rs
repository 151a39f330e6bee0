//! Durable channel-autothreading core: a persistent toggle store of channel
//! identifiers together with the triage logic that classifies every inbound
//! message of an autothreaded channel as ignore, delete, or thread-and-announce.

pub mod codec;
pub mod dispatch;
pub mod store;
pub mod triage;
