//! The hello world actor: it answers one query with a fixed greeting.

use vstd::prelude::*;
use crate::address::Address;
use crate::builtin::{
    init_actor_address, not_the_init_actor, validate_caller_is_init_actor, METHOD_CONSTRUCTOR,
};
use crate::deployer_actor::SAY_HELLO_METHOD;
use crate::error::ActorError;
use crate::hello_world::state::State;

verus! {

/// The methods of the hello world actor.
#[derive(Clone, Copy, Debug, PartialEq, Eq)]
pub enum Method {
    Constructor,
    SayHello,
}

impl Method {
    /// The number that a message names the method by.
    pub open spec fn number_of(self) -> u64 {
        match self {
            Method::Constructor => METHOD_CONSTRUCTOR,
            Method::SayHello => SAY_HELLO_METHOD,
        }
    }

    /// The number that a message names the method by.
    pub fn number(self) -> (n: u64)
        ensures
            n == self.number_of(),
    {
        match self {
            Method::Constructor => METHOD_CONSTRUCTOR,
            Method::SayHello => SAY_HELLO_METHOD,
        }
    }

    /// The method that `n` names, if it names one.
    pub open spec fn of_number(n: u64) -> Option<Method> {
        if n == METHOD_CONSTRUCTOR {
            Some(Method::Constructor)
        } else if n == SAY_HELLO_METHOD {
            Some(Method::SayHello)
        } else {
            None
        }
    }

    /// The method that `n` names, if it names one: the method whose number is
    /// `n`, and none where no method has that number.
    pub fn from_u64(n: u64) -> (method: Option<Method>)
        ensures
            method == Method::of_number(n),
            match method {
                Some(m) => m.number_of() == n,
                None => forall|m: Method| m.number_of() != n,
            },
    {
        if n == METHOD_CONSTRUCTOR {
            Some(Method::Constructor)
        } else if n == SAY_HELLO_METHOD {
            Some(Method::SayHello)
        } else {
            None
        }
    }
}

/// The handlers of the hello world actor.
pub trait HelloWorldActor {
    /// Constructs the actor's state. Only the init actor may call this: for
    /// any other caller it fails, and no state comes into being.
    fn constructor(caller: &Address) -> (r: Result<State, ActorError>)
        ensures
            caller@ == init_actor_address() ==> r == Ok::<State, ActorError>(State {  }),
            caller@ != init_actor_address() ==> (r matches Err(e) && e@ == not_the_init_actor()),
    ;

    /// The greeting.
    fn say_hello() -> (greeting: String)
        ensures
            greeting@ == "Hello world!"@,
    ;
}

/// The hello world actor.
pub struct Actor;

impl Actor {
    /// The actor's name.
    pub fn name() -> (name: &'static str)
        ensures
            name@ == "HelloWorld"@,
    {
        "HelloWorld"
    }
}

impl HelloWorldActor for Actor {
    fn constructor(caller: &Address) -> (r: Result<State, ActorError>) {
        match validate_caller_is_init_actor(caller) {
            Ok(()) => Ok(State::new()),
            Err(e) => Err(e),
        }
    }

    fn say_hello() -> (greeting: String) {
        String::from_str("Hello world!")
    }
}

} // verus!
