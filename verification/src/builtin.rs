//! What the platform fixes: the init actor, the numbers of its methods, and
//! the check that a constructor makes of its caller.

use vstd::prelude::*;
use crate::address::{Address, id_address_bytes};
use crate::error::{ActorError, ActorErrorView, USR_FORBIDDEN};

verus! {

/// The numeric identifier of the init actor, which constructs actors and keeps
/// the code registry.
pub const INIT_ACTOR_ID: u64 = 1;

/// The number of the constructor of every actor.
pub const METHOD_CONSTRUCTOR: u64 = 1;

/// The number of the init actor's method that instantiates an actor.
pub const EXEC_METHOD: u64 = 2;

/// The number of the init actor's method that installs code.
pub const INSTALL_METHOD: u64 = 4;

/// The address of the init actor.
pub open spec fn init_actor_address() -> Seq<u8> {
    id_address_bytes(INIT_ACTOR_ID)
}

/// The error for a constructor call that does not come from the init actor.
pub open spec fn not_the_init_actor() -> ActorErrorView {
    ActorErrorView::plain(USR_FORBIDDEN, "caller is not the init actor"@)
}

/// The address of the init actor.
pub fn init_actor() -> (addr: Address)
    ensures
        addr@ == init_actor_address(),
{
    Address::new_id(INIT_ACTOR_ID)
}

/// Accepts the init actor as caller and refuses every other address.
pub fn validate_caller_is_init_actor(caller: &Address) -> (r: Result<(), ActorError>)
    ensures
        caller@ == init_actor_address() ==> r is Ok,
        caller@ != init_actor_address() ==> (r matches Err(e) && e@ == not_the_init_actor()),
{
    let init = init_actor();
    if caller.same_as(&init) {
        Ok(())
    } else {
        Err(ActorError::unchecked(USR_FORBIDDEN, String::from_str("caller is not the init actor")))
    }
}

} // verus!
