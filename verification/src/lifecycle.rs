//! The deployer's life as a sequence of requests, and what holds of every
//! such sequence.
//!
//! A request stands for one handler run to its end: what the caller asked
//! for, together with what the platform answered to the message that the
//! handler sent, if it sent one.

use vstd::prelude::*;
use crate::content_id::cid_text;
use crate::deployer_actor::{
    after_exec, after_install, exec_outcome, exec_request, install_outcome, install_request,
    nothing_installed,
};
use crate::error::ActorErrorView;
use crate::message::SendResultView;
use crate::state::StateView;

verus! {

/// One request to the deployer.
pub enum Request {
    /// Asks for the ID address of the deployed actor.
    CheckAddress,
    /// Asks for the identifier of the installed code.
    CheckCid,
    /// Asks to install `code`; `reply` is what the send to the registry
    /// returned, if the handler came to send.
    InstallActor { code: Seq<u8>, reply: SendResultView },
    /// Asks to instantiate the installed code; `reply` is what the send to the
    /// registry returned, if the handler came to send.
    DeployActor { reply: SendResultView },
    /// Asks to invoke the deployed actor; `reply` is what the send returned.
    CallActorMethod { reply: SendResultView },
}

/// Whether the request only reads the state.
pub open spec fn is_query(req: Request) -> bool {
    req is CheckAddress || req is CheckCid
}

/// The error that the handler of an install or deploy request fails with, if
/// it fails: before the send, or on what the send returned.
pub open spec fn failure(s: StateView, req: Request) -> Option<ActorErrorView> {
    match req {
        Request::InstallActor { code, reply } => match install_request(code) {
            Err(e) => Some(e),
            Ok(_) => match install_outcome(reply) {
                Err(e) => Some(e),
                Ok(_) => None,
            },
        },
        Request::DeployActor { reply } => match exec_request(s) {
            Err(e) => Some(e),
            Ok(_) => match exec_outcome(reply) {
                Err(e) => Some(e),
                Ok(_) => None,
            },
        },
        _ => None,
    }
}

/// Whether the request is an install request that the registry answered by
/// declining the code.
pub open spec fn is_rejected(req: Request) -> bool {
    match req {
        Request::InstallActor { code, reply } => install_request(code) is Ok && match install_outcome(
            reply,
        ) {
            Ok(ret) => !ret.installed,
            Err(_) => false,
        },
        _ => false,
    }
}

/// Whether the request is an install request that the registry answered by
/// accepting the code.
pub open spec fn is_accepted(req: Request) -> bool {
    match req {
        Request::InstallActor { code, reply } => install_request(code) is Ok && match install_outcome(
            reply,
        ) {
            Ok(ret) => ret.installed,
            Err(_) => false,
        },
        _ => false,
    }
}

/// Whether the request is a deploy request that succeeds in state `s`.
pub open spec fn instantiates(s: StateView, req: Request) -> bool {
    req is DeployActor && failure(s, req) is None
}

/// The state after the handler of `req` has run in state `s`.
pub open spec fn state_after(s: StateView, req: Request) -> StateView {
    match req {
        Request::InstallActor { code, reply } => match install_request(code) {
            Err(_) => s,
            Ok(_) => match install_outcome(reply) {
                Err(_) => s,
                Ok(ret) => after_install(s, ret),
            },
        },
        Request::DeployActor { reply } => match exec_request(s) {
            Err(_) => s,
            Ok(_) => match exec_outcome(reply) {
                Err(_) => s,
                Ok(ret) => after_exec(s, ret),
            },
        },
        _ => s,
    }
}

/// The state after the handlers of `reqs` have run one after another, the
/// first of them in state `s`.
pub open spec fn state_after_all(s: StateView, reqs: Seq<Request>) -> StateView
    decreases reqs.len(),
{
    if reqs.len() == 0 {
        s
    } else {
        state_after_all(state_after(s, reqs[0]), reqs.drop_first())
    }
}

/// Whether no request of `reqs`, run one after another from state `s`, is a
/// deploy request that succeeds.
pub open spec fn none_instantiates(s: StateView, reqs: Seq<Request>) -> bool
    decreases reqs.len(),
{
    if reqs.len() == 0 {
        true
    } else {
        !instantiates(s, reqs[0]) && none_instantiates(state_after(s, reqs[0]), reqs.drop_first())
    }
}

/// Whether no request of `reqs` is an install request that the registry
/// answered by accepting the code.
pub open spec fn none_is_accepted(reqs: Seq<Request>) -> bool {
    forall|i: int| 0 <= i < reqs.len() ==> !is_accepted(#[trigger] reqs[i])
}

/// The answer to an address query in state `s`.
pub open spec fn address_answer(s: StateView) -> Seq<u8> {
    s.deployed_actor_id
}

/// The answer to a code query in state `s`: the text of the identifier, if it
/// has one.
pub open spec fn cid_answer(s: StateView) -> Option<Seq<char>> {
    let id = s.installed_actor_cid;
    cid_text(id.version, id.codec, id.hash_code, id.digest)
}

/// An install or deploy request that fails, and an install request that the
/// registry declines, leave the state exactly as it was, whatever state that
/// is.
pub proof fn lemma_failure_or_rejection_keeps_state(s: StateView, req: Request)
    requires
        req is InstallActor || req is DeployActor,
        failure(s, req) is Some || is_rejected(req),
    ensures
        state_after(s, req) == s,
{
}

/// Repeating an install or deploy request with the same answer repeats the
/// same transition: a second run leaves the state where the first left it.
pub proof fn lemma_retry_repeats_the_transition(s: StateView, req: Request)
    requires
        req is InstallActor || req is DeployActor,
    ensures
        state_after(state_after(s, req), req) == state_after(s, req),
        failure(state_after(s, req), req) == failure(s, req),
{
}

/// A deploy request in a state without installed code fails with the error
/// for that, whatever a send would have returned, and changes nothing.
pub proof fn lemma_deploy_needs_installed_code(s: StateView, reply: SendResultView)
    requires
        !s.has_installed_code(),
    ensures
        exec_request(s) == Err::<crate::message::OutboundMessageView, ActorErrorView>(
            nothing_installed(),
        ),
        failure(s, Request::DeployActor { reply }) == Some(nothing_installed()),
        state_after(s, Request::DeployActor { reply }) == s,
{
}

/// A query leaves the state as it was, so a query that follows it gets the
/// same answer.
pub proof fn lemma_queries_repeat(s: StateView, req: Request)
    requires
        is_query(req),
    ensures
        state_after(s, req) == s,
        address_answer(state_after(s, req)) == address_answer(s),
        cid_answer(state_after(s, req)) == cid_answer(s),
{
}

/// A deploy request replaces both recorded addresses, by those that the
/// registry returned, or neither; the installed code stays in either case.
pub proof fn lemma_deploy_replaces_both_addresses_or_none(s: StateView, reply: SendResultView)
    ensures
        instantiates(s, Request::DeployActor { reply }) ==> (exec_outcome(reply) matches Ok(ret)
            && state_after(s, Request::DeployActor { reply }) == after_exec(s, ret)
            && after_exec(s, ret).deployed_actor_id == ret.id_address
            && after_exec(s, ret).deployed_actor_robust == ret.robust_address),
        !instantiates(s, Request::DeployActor { reply }) ==> state_after(
            s,
            Request::DeployActor { reply },
        ) == s,
        state_after(s, Request::DeployActor { reply }).installed_actor_cid
            == s.installed_actor_cid,
{
}

/// Requests of which none is an install that the registry accepted leave the
/// recorded code identifier as it was.
pub proof fn lemma_code_stays_without_accepted_install(s: StateView, reqs: Seq<Request>)
    requires
        none_is_accepted(reqs),
    ensures
        state_after_all(s, reqs).installed_actor_cid == s.installed_actor_cid,
    decreases reqs.len(),
{
    if reqs.len() > 0 {
        let rest = reqs.drop_first();
        assert(!is_accepted(reqs[0]));
        assert forall|i: int| 0 <= i < rest.len() implies !is_accepted(#[trigger] rest[i]) by {
            assert(rest[i] == reqs[i + 1]);
        }
        lemma_code_stays_without_accepted_install(state_after(s, reqs[0]), rest);
    }
}

/// Through any sequence of requests the state changes only where the registry
/// accepts code or a deploy succeeds: requests that fail, that the registry
/// declines, or that only read, leave the state exactly as it was.
pub proof fn lemma_state_changes_only_by_commit(s: StateView, reqs: Seq<Request>)
    requires
        none_is_accepted(reqs),
        none_instantiates(s, reqs),
    ensures
        state_after_all(s, reqs) == s,
    decreases reqs.len(),
{
    if reqs.len() > 0 {
        let rest = reqs.drop_first();
        assert(!is_accepted(reqs[0]));
        assert(state_after(s, reqs[0]) == s);
        assert forall|i: int| 0 <= i < rest.len() implies !is_accepted(#[trigger] rest[i]) by {
            assert(rest[i] == reqs[i + 1]);
        }
        lemma_state_changes_only_by_commit(s, rest);
    }
}

/// Requests of which none is a successful deploy leave both recorded
/// addresses as they were.
pub proof fn lemma_addresses_stay_without_deploy(s: StateView, reqs: Seq<Request>)
    requires
        none_instantiates(s, reqs),
    ensures
        state_after_all(s, reqs).deployed_actor_id == s.deployed_actor_id,
        state_after_all(s, reqs).deployed_actor_robust == s.deployed_actor_robust,
    decreases reqs.len(),
{
    if reqs.len() > 0 {
        lemma_addresses_stay_without_deploy(state_after(s, reqs[0]), reqs.drop_first());
    }
}

/// Once a deploy request has succeeded with the ID address of a real actor,
/// every address query answers with that address, through any requests that
/// follow, until a deploy request succeeds again.
pub proof fn lemma_deployed_address_is_kept(
    s: StateView,
    reply: SendResultView,
    later: Seq<Request>,
)
    requires
        instantiates(s, Request::DeployActor { reply }),
        state_after(s, Request::DeployActor { reply }).is_deployed(),
        none_instantiates(state_after(s, Request::DeployActor { reply }), later),
    ensures
        exec_outcome(reply) matches Ok(ret) && address_answer(
            state_after_all(state_after(s, Request::DeployActor { reply }), later),
        ) == ret.id_address,
        state_after_all(state_after(s, Request::DeployActor { reply }), later).is_deployed(),
{
    lemma_addresses_stay_without_deploy(state_after(s, Request::DeployActor { reply }), later);
}

} // verus!
