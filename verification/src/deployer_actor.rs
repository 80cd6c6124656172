//! The deployer actor: it installs code into the registry, instantiates an
//! actor from the installed code, and invokes the new actor.
//!
//! A handler that sends a message comes in two parts. The first builds the
//! message, or fails before anything is sent. The second takes what the send
//! returned, decodes it, and only then changes the state.

use vstd::prelude::*;
use crate::address::Address;
use crate::builtin::{
    init_actor, init_actor_address, not_the_init_actor, validate_caller_is_init_actor,
    EXEC_METHOD, INSTALL_METHOD, METHOD_CONSTRUCTOR,
};
use crate::content_id::{cid_text, text_of_parts};
use crate::encoding::{
    block_of_raw_bytes, deserialize_text, option_block_view, raw_bytes_into_block,
    text_of_block, IpldBlock, IpldBlockView, CBOR,
};
use crate::error::{
    ActorError, ActorErrorView, USR_ASSERTION_FAILED, USR_ILLEGAL_STATE, USR_SERIALIZATION,
};
use crate::message::{
    send_result_view, OutboundMessage, OutboundMessageView, SendResult, SendResultView,
};
use crate::state::{State, StateView};
use crate::types::{
    code_cbor, deserialize_exec_return, deserialize_install_return, exec_params_cbor,
    exec_return_of_block, install_params_cbor, install_return_of_block, serialize_code,
    serialize_exec_params, serialize_install_params, ExecParams, ExecReturn, ExecReturnView,
    InstallParams, InstallReturn, InstallReturnView,
};

verus! {

/// The method number of the name `CheckAddress`.
pub const CHECK_ADDRESS_METHOD: u64 = 2881763653;

/// The method number of the name `CheckCid`.
pub const CHECK_CID_METHOD: u64 = 3711484711;

/// The method number of the name `InstallActor`.
pub const INSTALL_ACTOR_METHOD: u64 = 1800657257;

/// The method number of the name `DeployActor`.
pub const DEPLOY_ACTOR_METHOD: u64 = 4266815605;

/// The method number of the name `CallActorMethod`.
pub const CALL_ACTOR_METHOD_METHOD: u64 = 1343012348;

/// The method number of the name `SayHello`, which the deployed actor answers.
pub const SAY_HELLO_METHOD: u64 = 3310437020;

/// The methods of the deployer.
#[derive(Clone, Copy, Debug, PartialEq, Eq)]
pub enum Method {
    Constructor,
    CheckAddress,
    CheckCid,
    InstallActor,
    DeployActor,
    CallActorMethod,
}

impl Method {
    /// The number that a message names the method by.
    pub open spec fn number_of(self) -> u64 {
        match self {
            Method::Constructor => METHOD_CONSTRUCTOR,
            Method::CheckAddress => CHECK_ADDRESS_METHOD,
            Method::CheckCid => CHECK_CID_METHOD,
            Method::InstallActor => INSTALL_ACTOR_METHOD,
            Method::DeployActor => DEPLOY_ACTOR_METHOD,
            Method::CallActorMethod => CALL_ACTOR_METHOD_METHOD,
        }
    }

    /// The number that a message names the method by.
    pub fn number(self) -> (n: u64)
        ensures
            n == self.number_of(),
    {
        match self {
            Method::Constructor => METHOD_CONSTRUCTOR,
            Method::CheckAddress => CHECK_ADDRESS_METHOD,
            Method::CheckCid => CHECK_CID_METHOD,
            Method::InstallActor => INSTALL_ACTOR_METHOD,
            Method::DeployActor => DEPLOY_ACTOR_METHOD,
            Method::CallActorMethod => CALL_ACTOR_METHOD_METHOD,
        }
    }

    /// The method that `n` names, if it names one.
    pub open spec fn of_number(n: u64) -> Option<Method> {
        if n == METHOD_CONSTRUCTOR {
            Some(Method::Constructor)
        } else if n == CHECK_ADDRESS_METHOD {
            Some(Method::CheckAddress)
        } else if n == CHECK_CID_METHOD {
            Some(Method::CheckCid)
        } else if n == INSTALL_ACTOR_METHOD {
            Some(Method::InstallActor)
        } else if n == DEPLOY_ACTOR_METHOD {
            Some(Method::DeployActor)
        } else if n == CALL_ACTOR_METHOD_METHOD {
            Some(Method::CallActorMethod)
        } else {
            None
        }
    }

    /// The method that `n` names, if it names one: the method whose number is
    /// `n`, and none where no method has that number.
    pub fn from_u64(n: u64) -> (method: Option<Method>)
        ensures
            method == Method::of_number(n),
            match method {
                Some(m) => m.number_of() == n,
                None => forall|m: Method| m.number_of() != n,
            },
    {
        if n == METHOD_CONSTRUCTOR {
            Some(Method::Constructor)
        } else if n == CHECK_ADDRESS_METHOD {
            Some(Method::CheckAddress)
        } else if n == CHECK_CID_METHOD {
            Some(Method::CheckCid)
        } else if n == INSTALL_ACTOR_METHOD {
            Some(Method::InstallActor)
        } else if n == DEPLOY_ACTOR_METHOD {
            Some(Method::DeployActor)
        } else if n == CALL_ACTOR_METHOD_METHOD {
            Some(Method::CallActorMethod)
        } else {
            None
        }
    }
}

/// Every method is the one that its own number names.
pub proof fn lemma_method_numbers_name_their_methods(m: Method)
    ensures
        Method::of_number(m.number_of()) == Some(m),
{
}

/// The error for an instantiation while no code is installed.
pub open spec fn nothing_installed() -> ActorErrorView {
    ActorErrorView::plain(USR_ASSERTION_FAILED, "nothing installed"@)
}

/// The error for a send that succeeded and returned nothing.
pub open spec fn return_expected() -> ActorErrorView {
    ActorErrorView::plain(USR_ASSERTION_FAILED, "return expected"@)
}

/// The error for a state whose code identifier has no text form.
pub open spec fn invalid_code_identifier() -> ActorErrorView {
    ActorErrorView::plain(USR_ILLEGAL_STATE, "installed code identifier is not valid"@)
}

/// The error for data that could not be encoded or decoded, with the reason
/// that the codec gave.
pub open spec fn serialization_error(reason: Seq<char>) -> ActorErrorView {
    ActorErrorView::plain(USR_SERIALIZATION, reason)
}

/// The message that installs code: to the init actor, for its install method,
/// with the encoded parameters and no funds.
pub open spec fn install_message_of(params: Option<IpldBlockView>) -> OutboundMessageView {
    OutboundMessageView { to: init_actor_address(), method: INSTALL_METHOD, params, value: 0 }
}

/// The message that instantiates an actor: to the init actor, for its exec
/// method, with the encoded parameters and no funds.
pub open spec fn exec_message_of(params: Option<IpldBlockView>) -> OutboundMessageView {
    OutboundMessageView { to: init_actor_address(), method: EXEC_METHOD, params, value: 0 }
}

/// The message that invokes the deployed actor: to the recorded ID address,
/// for the method `SayHello`, without parameters or funds.
pub open spec fn say_hello_message_of(s: StateView) -> OutboundMessageView {
    OutboundMessageView {
        to: s.deployed_actor_id,
        method: SAY_HELLO_METHOD,
        params: None,
        value: 0,
    }
}

/// What the install handler does before anything is sent: the message that
/// carries `code` to the registry, or the error where `code` cannot be
/// encoded.
pub open spec fn install_request(code: Seq<u8>) -> Result<OutboundMessageView, ActorErrorView> {
    match code_cbor(code) {
        Err(reason) => Err(serialization_error(reason)),
        Ok(raw) => match install_params_cbor(raw) {
            Err(reason) => Err(serialization_error(reason)),
            Ok(data) => Ok(install_message_of(Some(IpldBlockView { codec: CBOR, data }))),
        },
    }
}

/// What the deploy handler does before anything is sent: the error where no
/// code is installed, else the message that asks the registry to instantiate
/// the installed code with empty constructor arguments, or the error where
/// the parameters cannot be encoded.
pub open spec fn exec_request(s: StateView) -> Result<OutboundMessageView, ActorErrorView> {
    if !s.has_installed_code() {
        Err(nothing_installed())
    } else {
        let id = s.installed_actor_cid;
        match exec_params_cbor(id.version, id.codec, id.hash_code, id.digest, Seq::empty()) {
            Err(reason) => Err(serialization_error(reason)),
            Ok(raw) => Ok(exec_message_of(block_of_raw_bytes(raw))),
        }
    }
}

/// The block that a send returned, or the error that the handler fails with:
/// that of the send, with `context` before its message, or the error for a
/// send that returned nothing.
pub open spec fn returned_block(reply: SendResultView, context: Seq<char>) -> Result<
    IpldBlockView,
    ActorErrorView,
> {
    match reply {
        Err(e) => Err(e.with_context(context)),
        Ok(None) => Err(return_expected()),
        Ok(Some(block)) => Ok(block),
    }
}

/// What the registry answered to an install message, or the error that the
/// install handler fails with.
pub open spec fn install_outcome(reply: SendResultView) -> Result<
    InstallReturnView,
    ActorErrorView,
> {
    match returned_block(reply, "failed to send install message to init actor"@) {
        Err(e) => Err(e),
        Ok(block) => match install_return_of_block(block.codec, block.data) {
            Err(reason) => Err(serialization_error(reason)),
            Ok(ret) => Ok(ret),
        },
    }
}

/// What the registry answered to an exec message, or the error that the
/// deploy handler fails with.
pub open spec fn exec_outcome(reply: SendResultView) -> Result<ExecReturnView, ActorErrorView> {
    match returned_block(reply, "failed to send exec message to init actor"@) {
        Err(e) => Err(e),
        Ok(block) => match exec_return_of_block(block.codec, block.data) {
            Err(reason) => Err(serialization_error(reason)),
            Ok(ret) => Ok(ret),
        },
    }
}

/// What the deployed actor answered, or the error that the call handler fails
/// with.
pub open spec fn say_hello_outcome(reply: SendResultView) -> Result<Seq<char>, ActorErrorView> {
    match returned_block(reply, "failed to send message to HelloWorld actor"@) {
        Err(e) => Err(e),
        Ok(block) => match text_of_block(block.codec, block.data) {
            Err(reason) => Err(serialization_error(reason)),
            Ok(text) => Ok(text),
        },
    }
}

/// The state after the registry's answer to an install message: the code
/// identifier is replaced where the registry accepted the code, and nothing
/// changes where it did not.
pub open spec fn after_install(s: StateView, ret: InstallReturnView) -> StateView {
    if ret.installed {
        StateView {
            installed_actor_cid: ret.code_cid,
            deployed_actor_id: s.deployed_actor_id,
            deployed_actor_robust: s.deployed_actor_robust,
        }
    } else {
        s
    }
}

/// The state after the registry's answer to an exec message: both addresses
/// are replaced together.
pub open spec fn after_exec(s: StateView, ret: ExecReturnView) -> StateView {
    StateView {
        installed_actor_cid: s.installed_actor_cid,
        deployed_actor_id: ret.id_address,
        deployed_actor_robust: ret.robust_address,
    }
}

/// The handlers of the deployer. A handler that sends a message has two
/// parts: the first gives the message, the second, named with `_reply`, takes
/// what the send returned.
pub trait DeployerActor {
    /// Constructs the deployer's state. Only the init actor may call this: for
    /// any other caller it fails, and no state comes into being.
    fn constructor(caller: &Address) -> (r: Result<State, ActorError>)
        ensures
            caller@ == init_actor_address() ==> (r matches Ok(st) && st@ == StateView::initial()),
            caller@ != init_actor_address() ==> (r matches Err(e) && e@ == not_the_init_actor()),
    ;

    /// The ID address of the actor instantiated last, as the state holds it.
    fn check_address(st: &State) -> (addr: Address)
        ensures
            addr@ == st@.deployed_actor_id,
    ;

    /// The text form of the identifier of the installed code. Fails where the
    /// state holds parts that make no valid identifier.
    fn check_cid(st: &State) -> (r: Result<String, ActorError>)
        ensures
            match cid_text(
                st.installed_actor_cid.version,
                st.installed_actor_cid.codec,
                st.installed_actor_cid.hash_code,
                st.installed_actor_cid.digest@,
            ) {
                Some(text) => r matches Ok(t) && t@ == text,
                None => r matches Err(e) && e@ == invalid_code_identifier(),
            },
    ;

    /// First part of the install handler: wraps `code` into the registry's
    /// install parameters and gives the message to send. Fails, with nothing
    /// to send, where the code or the parameters cannot be encoded.
    fn install_actor(code: Vec<u8>) -> (r: Result<OutboundMessage, ActorError>)
        ensures
            match install_request(code@) {
                Ok(msg) => r matches Ok(m) && m@ == msg,
                Err(e) => r matches Err(err) && err@ == e,
            },
    ;

    /// Second part of the install handler: takes what the send returned. A
    /// failed send, a missing or an undecodable return value fails the handler
    /// and leaves the state as it was; so does, without failing, an answer
    /// that the registry did not accept the code.
    fn install_actor_reply(st: &mut State, reply: SendResult) -> (r: Result<(), ActorError>)
        ensures
            match install_outcome(send_result_view(reply)) {
                Ok(ret) => r is Ok && final(st)@ == after_install(old(st)@, ret) && (!ret.installed
                    ==> *final(st) == *old(st)),
                Err(e) => r matches Err(err) && err@ == e && *final(st) == *old(st),
            },
    ;

    /// First part of the deploy handler: gives the message that asks the
    /// registry to instantiate the installed code. Fails, with nothing to
    /// send, where no code is installed or the parameters cannot be encoded.
    fn deploy_actor(st: &State) -> (r: Result<OutboundMessage, ActorError>)
        ensures
            match exec_request(st@) {
                Ok(msg) => r matches Ok(m) && m@ == msg,
                Err(e) => r matches Err(err) && err@ == e,
            },
            !st@.has_installed_code() ==> (r matches Err(e) && e@ == nothing_installed()),
    ;

    /// Second part of the deploy handler: takes what the send returned. A
    /// failed send, a missing or an undecodable return value fails the handler
    /// and leaves the state as it was; else both addresses are recorded.
    fn deploy_actor_reply(st: &mut State, reply: SendResult) -> (r: Result<(), ActorError>)
        ensures
            match exec_outcome(send_result_view(reply)) {
                Ok(ret) => r is Ok && final(st)@ == after_exec(old(st)@, ret),
                Err(e) => r matches Err(err) && err@ == e && *final(st) == *old(st),
            },
    ;

    /// First part of the call handler: the message that invokes `SayHello` on
    /// the actor at the recorded ID address, whatever that address is.
    fn call_actor_method(st: &State) -> (msg: OutboundMessage)
        ensures
            msg@ == say_hello_message_of(st@),
    ;

    /// Second part of the call handler: the text that the deployed actor
    /// returned. A failed send, a missing or an undecodable return value fails
    /// the handler.
    fn call_actor_method_reply(reply: SendResult) -> (r: Result<String, ActorError>)
        ensures
            match say_hello_outcome(send_result_view(reply)) {
                Ok(text) => r matches Ok(t) && t@ == text,
                Err(e) => r matches Err(err) && err@ == e,
            },
    ;
}

/// The deployer actor.
pub struct Actor;

impl Actor {
    /// The actor's name.
    pub fn name() -> (name: &'static str)
        ensures
            name@ == "Deployer"@,
    {
        "Deployer"
    }

    /// The message that carries encoded install parameters to the registry.
    pub fn install_message(params: Option<IpldBlock>) -> (msg: OutboundMessage)
        ensures
            msg@ == install_message_of(option_block_view(params)),
    {
        OutboundMessage { to: init_actor(), method: INSTALL_METHOD, params, value: 0 }
    }

    /// The message that carries encoded exec parameters to the registry.
    pub fn exec_message(params: Option<IpldBlock>) -> (msg: OutboundMessage)
        ensures
            msg@ == exec_message_of(option_block_view(params)),
    {
        OutboundMessage { to: init_actor(), method: EXEC_METHOD, params, value: 0 }
    }

    /// The block that a send returned. Fails with the send's own error, its
    /// message prefixed with `context`, where the send failed or the receiver
    /// aborted, and with an assertion failure where nothing was returned.
    pub fn expect_return(reply: SendResult, context: &str) -> (r: Result<IpldBlock, ActorError>)
        ensures
            match returned_block(send_result_view(reply), context@) {
                Ok(block) => r matches Ok(b) && b@ == block,
                Err(e) => r matches Err(err) && err@ == e,
            },
    {
        match reply {
            Err(e) => Err(e.context(context)),
            Ok(None) => Err(
                ActorError::unchecked(USR_ASSERTION_FAILED, String::from_str("return expected")),
            ),
            Ok(Some(block)) => Ok(block),
        }
    }

    /// Records the registry's answer to an install message: the code
    /// identifier is overwritten where the registry accepted the code; where
    /// it did not, the state stays as it is.
    pub fn commit_install(st: &mut State, ret: InstallReturn)
        ensures
            final(st)@ == after_install(old(st)@, ret@),
            !ret.installed ==> *final(st) == *old(st),
    {
        if ret.installed {
            st.installed_actor_cid = ret.code_cid;
        }
    }

    /// Records the registry's answer to an exec message: both addresses of the
    /// new actor, together.
    pub fn commit_exec(st: &mut State, ret: ExecReturn)
        ensures
            final(st)@ == after_exec(old(st)@, ret@),
    {
        st.deployed_actor_id = ret.id_address;
        st.deployed_actor_robust = ret.robust_address;
    }
}

impl DeployerActor for Actor {
    fn constructor(caller: &Address) -> (r: Result<State, ActorError>) {
        match validate_caller_is_init_actor(caller) {
            Ok(()) => Ok(State::new()),
            Err(e) => Err(e),
        }
    }

    fn check_address(st: &State) -> (addr: Address) {
        st.deployed_actor_id.duplicate()
    }

    fn check_cid(st: &State) -> (r: Result<String, ActorError>) {
        match text_of_parts(&st.installed_actor_cid) {
            Some(text) => Ok(text),
            None => Err(
                ActorError::unchecked(
                    USR_ILLEGAL_STATE,
                    String::from_str("installed code identifier is not valid"),
                ),
            ),
        }
    }

    fn install_actor(code: Vec<u8>) -> (r: Result<OutboundMessage, ActorError>) {
        let raw = match serialize_code(&code) {
            Ok(raw) => raw,
            Err(reason) => {
                return Err(ActorError::unchecked(USR_SERIALIZATION, reason));
            },
        };
        let params = InstallParams { code: raw };
        match serialize_install_params(&params) {
            Ok(sent) => Ok(Actor::install_message(sent)),
            Err(reason) => Err(ActorError::unchecked(USR_SERIALIZATION, reason)),
        }
    }

    fn install_actor_reply(st: &mut State, reply: SendResult) -> (r: Result<(), ActorError>) {
        let block = Actor::expect_return(reply, "failed to send install message to init actor")?;
        match deserialize_install_return(&block) {
            Ok(ret) => {
                Actor::commit_install(st, ret);
                Ok(())
            },
            Err(reason) => Err(ActorError::unchecked(USR_SERIALIZATION, reason)),
        }
    }

    fn deploy_actor(st: &State) -> (r: Result<OutboundMessage, ActorError>) {
        if !st.has_installed_code() {
            return Err(
                ActorError::unchecked(USR_ASSERTION_FAILED, String::from_str("nothing installed")),
            );
        }
        let params = ExecParams {
            code_cid: st.installed_actor_cid.duplicate(),
            constructor_params: Vec::new(),
        };
        match serialize_exec_params(&params) {
            Ok(raw) => Ok(Actor::exec_message(raw_bytes_into_block(raw))),
            Err(reason) => Err(ActorError::unchecked(USR_SERIALIZATION, reason)),
        }
    }

    fn deploy_actor_reply(st: &mut State, reply: SendResult) -> (r: Result<(), ActorError>) {
        let block = Actor::expect_return(reply, "failed to send exec message to init actor")?;
        match deserialize_exec_return(&block) {
            Ok(ret) => {
                Actor::commit_exec(st, ret);
                Ok(())
            },
            Err(reason) => Err(ActorError::unchecked(USR_SERIALIZATION, reason)),
        }
    }

    fn call_actor_method(st: &State) -> (msg: OutboundMessage) {
        OutboundMessage {
            to: st.deployed_actor_id.duplicate(),
            method: SAY_HELLO_METHOD,
            params: None,
            value: 0,
        }
    }

    fn call_actor_method_reply(reply: SendResult) -> (r: Result<String, ActorError>) {
        let block = Actor::expect_return(reply, "failed to send message to HelloWorld actor")?;
        match deserialize_text(&block) {
            Ok(text) => Ok(text),
            Err(reason) => Err(ActorError::unchecked(USR_SERIALIZATION, reason)),
        }
    }
}

} // verus!
