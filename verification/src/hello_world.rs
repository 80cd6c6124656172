//! The hello world actor: the target that the deployer instantiates and
//! invokes.

pub mod hello_world_actor;
pub mod state;
