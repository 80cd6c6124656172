//! A deployment orchestrator for an actor platform: the deployer actor installs
//! code into the platform's code registry, instantiates an actor from it and
//! invokes a method on the new instance. Every handler is split at its outbound
//! call: one function builds the message to send, another takes the reply and
//! commits the state change.

pub mod address;
pub mod builtin;
pub mod content_id;
pub mod deployer_actor;
pub mod encoding;
pub mod error;
pub mod hello_world;
pub mod lifecycle;
pub mod message;
pub mod state;
pub mod types;
