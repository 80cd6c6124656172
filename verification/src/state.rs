//! The deployer's persisted record of progress.

use vstd::prelude::*;
use crate::address::{Address, id_address_bytes};
use crate::content_id::{Cid, CidView, default_cid};

verus! {

/// What the deployer keeps between messages: the code it installed last and
/// the actor it instantiated last.
#[derive(Clone, Debug, PartialEq, Eq)]
pub struct State {
    /// The identifier of the code that the registry accepted last; the default
    /// identifier until it has accepted any.
    pub installed_actor_cid: Cid,
    /// The ID address of the actor instantiated last; the address of ID 0
    /// until an instantiation has succeeded.
    pub deployed_actor_id: Address,
    /// The reorg safe address of the same actor, recorded with the ID address.
    pub deployed_actor_robust: Address,
}

/// What a [`State`] holds.
pub struct StateView {
    pub installed_actor_cid: CidView,
    pub deployed_actor_id: Seq<u8>,
    pub deployed_actor_robust: Seq<u8>,
}

impl View for State {
    type V = StateView;

    open spec fn view(&self) -> StateView {
        StateView {
            installed_actor_cid: self.installed_actor_cid@,
            deployed_actor_id: self.deployed_actor_id@,
            deployed_actor_robust: self.deployed_actor_robust@,
        }
    }
}

impl StateView {
    /// The state of a deployer that has installed and instantiated nothing.
    pub open spec fn initial() -> StateView {
        StateView {
            installed_actor_cid: default_cid(),
            deployed_actor_id: id_address_bytes(0),
            deployed_actor_robust: id_address_bytes(0),
        }
    }

    /// Whether the registry has accepted code from this deployer.
    pub open spec fn has_installed_code(self) -> bool {
        self.installed_actor_cid != default_cid()
    }

    /// Whether the recorded ID address is that of an instantiated actor.
    pub open spec fn is_deployed(self) -> bool {
        self.deployed_actor_id != id_address_bytes(0)
    }
}

impl State {
    /// The state of a deployer that has installed and instantiated nothing.
    pub fn new() -> (st: State)
        ensures
            st@ == StateView::initial(),
    {
        State {
            installed_actor_cid: Cid::default(),
            deployed_actor_id: Address::new_id(0),
            deployed_actor_robust: Address::new_id(0),
        }
    }

    /// Whether the registry has accepted code from this deployer.
    pub fn has_installed_code(&self) -> (installed: bool)
        ensures
            installed == self@.has_installed_code(),
    {
        let none = Cid::default();
        !self.installed_actor_cid.same_as(&none)
    }
}

} // verus!
