use std::str::FromStr;

use deployer_actor::address::Address;
use deployer_actor::builtin::{
    init_actor, validate_caller_is_init_actor, EXEC_METHOD, INIT_ACTOR_ID, INSTALL_METHOD,
    METHOD_CONSTRUCTOR,
};
use deployer_actor::content_id::Cid;
use deployer_actor::deployer_actor::{
    Actor, DeployerActor, Method, CALL_ACTOR_METHOD_METHOD, CHECK_ADDRESS_METHOD,
    CHECK_CID_METHOD, DEPLOY_ACTOR_METHOD, INSTALL_ACTOR_METHOD, SAY_HELLO_METHOD,
};
use deployer_actor::encoding::{IpldBlock, CBOR, DAG_CBOR, IPLD_RAW};
use deployer_actor::error::{
    ActorError, USR_ASSERTION_FAILED, USR_FORBIDDEN, USR_ILLEGAL_STATE, USR_SERIALIZATION,
};
use deployer_actor::hello_world::hello_world_actor::{
    Actor as HelloWorld, HelloWorldActor, Method as HelloWorldMethod,
};
use deployer_actor::hello_world::state::State as HelloWorldState;
use deployer_actor::message::{OutboundMessage, SendResult};
use deployer_actor::state::State;
use deployer_actor::types::{ExecReturn, InstallReturn};

/// The code identifier used throughout: a real identifier of version 1.
const CODE_CID: &str = "bafk2bzaceasfvd45kxtyn7kktsmo3bpcgbxm5nqqpqon22e7huoinhhdmkh6q";

struct Blake2b;

impl frc42_dispatch::hasher::hash::Hasher for Blake2b {
    fn hash(&self, bytes: &[u8]) -> Vec<u8> {
        blake2b_simd::blake2b(bytes).as_bytes().to_vec()
    }
}

fn method_number(name: &str) -> u64 {
    frc42_dispatch::hasher::hash::MethodResolver::new(Blake2b).method_number(name).unwrap()
}

fn parts_of(c: &cid::Cid) -> Cid {
    Cid {
        version: c.version().into(),
        codec: c.codec(),
        hash_code: c.hash().code(),
        digest: c.hash().digest().to_vec(),
    }
}

fn code_cid() -> cid::Cid {
    cid::Cid::from_str(CODE_CID).unwrap()
}

fn address_of(a: &fvm_shared::address::Address) -> Address {
    Address { bytes: a.to_bytes() }
}

fn cbor_block<T: serde::Serialize>(value: &T) -> IpldBlock {
    IpldBlock { codec: CBOR, data: fvm_ipld_encoding::to_vec(value).unwrap() }
}

fn install_reply(c: &cid::Cid, installed: bool) -> SendResult {
    Ok(Some(cbor_block(&(*c, installed))))
}

fn exec_reply(id: u64, robust: &[u8]) -> SendResult {
    let id = fvm_shared::address::Address::new_id(id);
    let robust = fvm_shared::address::Address::new_actor(robust);
    Ok(Some(cbor_block(&(id, robust))))
}

fn send_failure(exit_code: u32, msg: &str) -> SendResult {
    Err(ActorError { exit_code, msg: msg.to_string(), data: None })
}

/// A platform that answers every message from a script and counts the sends.
struct Platform {
    sent: Vec<OutboundMessage>,
    registry_accepts: bool,
    next_id: u64,
}

impl Platform {
    fn new(registry_accepts: bool) -> Platform {
        Platform { sent: Vec::new(), registry_accepts, next_id: 1001 }
    }

    fn send(&mut self, msg: &OutboundMessage) -> SendResult {
        self.sent.push(msg.clone());
        if msg.to == init_actor() && msg.method == INSTALL_METHOD {
            install_reply(&code_cid(), self.registry_accepts)
        } else if msg.to == init_actor() && msg.method == EXEC_METHOD {
            exec_reply(self.next_id, b"hello world actor")
        } else if msg.to == Address::new_id(self.next_id) && msg.method == SAY_HELLO_METHOD {
            Ok(Some(cbor_block(&HelloWorld::say_hello())))
        } else {
            send_failure(17, "receiver not found")
        }
    }

    fn install(&mut self, st: &mut State, code: Vec<u8>) -> Result<(), ActorError> {
        let msg = Actor::install_actor(code)?;
        let reply = self.send(&msg);
        Actor::install_actor_reply(st, reply)
    }

    fn deploy(&mut self, st: &mut State) -> Result<(), ActorError> {
        let msg = Actor::deploy_actor(st)?;
        let reply = self.send(&msg);
        Actor::deploy_actor_reply(st, reply)
    }

    fn call(&mut self, st: &State) -> Result<String, ActorError> {
        let msg = Actor::call_actor_method(st);
        let reply = self.send(&msg);
        Actor::call_actor_method_reply(reply)
    }
}

#[test]
fn deployer_constructor_test() {
    let actor_address = Address::new_id(10000);
    assert_ne!(actor_address, init_actor());

    let st = Actor::constructor(&init_actor()).unwrap();

    let addr: Address = Actor::check_address(&st);
    assert_eq!(addr, Address::new_id(0));
}

#[test]
fn deployer_working_test() {
    let actor_address = Address::new_id(10000);
    let mut platform = Platform::new(true);
    let mut st = Actor::constructor(&init_actor()).unwrap();

    platform.install(&mut st, vec![0, 97, 115, 109]).unwrap();
    platform.deploy(&mut st).unwrap();

    let hello_world_addr: Address = Actor::check_address(&st);
    assert_ne!(hello_world_addr, Address::new_id(0));
    assert_ne!(hello_world_addr, actor_address);

    let res = platform.call(&st).unwrap();
    assert_eq!("Hello world!".to_string(), res);

    let last = platform.sent.last().unwrap();
    assert_eq!(last.to, hello_world_addr);
    assert_eq!(last.method, method_number("SayHello"));
    assert_eq!(HelloWorldMethod::from_u64(last.method), Some(HelloWorldMethod::SayHello));
    assert_eq!("Hello world!".to_string(), HelloWorld::say_hello());
}

#[test]
fn hello_world_constructor_test() {
    let actor_address = Address::new_id(10000);
    assert!(HelloWorld::constructor(&actor_address).is_err());
    assert_eq!(HelloWorld::constructor(&init_actor()), Ok(HelloWorldState {}));

    assert_eq!(
        HelloWorldMethod::from_u64(method_number("SayHello")),
        Some(HelloWorldMethod::SayHello)
    );
    let str: String = HelloWorld::say_hello();
    assert_eq!(str, "Hello world!".to_string());
}

#[test]
fn registered_code_is_reported() {
    let mut platform = Platform::new(true);
    let mut st = Actor::constructor(&init_actor()).unwrap();
    platform.install(&mut st, vec![1, 2, 3]).unwrap();
    assert_eq!(Actor::check_cid(&st), Ok(CODE_CID.to_string()));
    assert_eq!(st.installed_actor_cid, parts_of(&code_cid()));
    assert!(st.has_installed_code());
}

#[test]
fn instantiating_without_code_fails() {
    let mut platform = Platform::new(true);
    let mut st = Actor::constructor(&init_actor()).unwrap();
    let err = platform.deploy(&mut st).unwrap_err();
    assert_eq!(err.exit_code, USR_ASSERTION_FAILED);
    assert_eq!(err.msg, "nothing installed");
    assert_eq!(err.data, None);
    assert_eq!(Actor::check_address(&st), Address::new_id(0));
    assert_eq!(st, State::new());
}

#[test]
fn rejected_registration_changes_nothing() {
    let mut platform = Platform::new(false);
    let mut st = Actor::constructor(&init_actor()).unwrap();
    assert_eq!(platform.install(&mut st, vec![1, 2, 3]), Ok(()));
    assert_eq!(platform.sent.len(), 1);
    assert_eq!(Actor::check_cid(&st), Ok(cid::Cid::default().to_string()));
    assert_eq!(st, State::new());
    assert!(!st.has_installed_code());
}

#[test]
fn install_deploy_and_call_end_in_the_greeting() {
    let mut platform = Platform::new(true);
    let mut st = Actor::constructor(&init_actor()).unwrap();
    platform.install(&mut st, vec![1, 2, 3]).unwrap();
    platform.deploy(&mut st).unwrap();
    assert_eq!(platform.call(&st), Ok("Hello world!".to_string()));
    assert_eq!(platform.sent.len(), 3);
    assert_eq!(st.deployed_actor_id, Address::new_id(1001));
    assert_eq!(
        st.deployed_actor_robust,
        address_of(&fvm_shared::address::Address::new_actor(b"hello world actor"))
    );
}

#[test]
fn failed_or_rejected_calls_leave_the_state_identical() {
    let mut st = State::new();
    Actor::commit_install(&mut st, InstallReturn { code_cid: parts_of(&code_cid()), installed: true });
    Actor::commit_exec(
        &mut st,
        ExecReturn { id_address: Address::new_id(77), robust_address: Address::new_id(78) },
    );
    let before = st.clone();

    assert!(Actor::install_actor_reply(&mut st, send_failure(6, "no route")).is_err());
    assert_eq!(st, before);
    assert!(Actor::install_actor_reply(&mut st, Ok(None)).is_err());
    assert_eq!(st, before);
    assert!(Actor::install_actor_reply(&mut st, Ok(Some(cbor_block(&7u8)))).is_err());
    assert_eq!(st, before);
    assert_eq!(Actor::install_actor_reply(&mut st, install_reply(&cid::Cid::default(), false)), Ok(()));
    assert_eq!(st, before);

    assert!(Actor::deploy_actor_reply(&mut st, send_failure(6, "no route")).is_err());
    assert_eq!(st, before);
    assert!(Actor::deploy_actor_reply(&mut st, Ok(None)).is_err());
    assert_eq!(st, before);
    assert!(Actor::deploy_actor_reply(&mut st, Ok(Some(cbor_block(&"text")))).is_err());
    assert_eq!(st, before);
}

#[test]
fn deployed_address_is_kept_until_the_next_instantiation() {
    let mut platform = Platform::new(true);
    let mut st = Actor::constructor(&init_actor()).unwrap();
    platform.install(&mut st, vec![1]).unwrap();
    platform.deploy(&mut st).unwrap();
    let deployed = Actor::check_address(&st);
    assert_ne!(deployed, Address::new_id(0));

    platform.install(&mut st, vec![2]).unwrap();
    assert_eq!(Actor::check_address(&st), deployed);
    assert!(Actor::deploy_actor_reply(&mut st, send_failure(7, "out of gas")).is_err());
    assert_eq!(Actor::check_address(&st), deployed);
    platform.call(&st).unwrap();
    assert_eq!(Actor::check_cid(&st), Ok(CODE_CID.to_string()));
    assert_eq!(Actor::check_address(&st), deployed);

    platform.next_id = 2002;
    platform.deploy(&mut st).unwrap();
    assert_eq!(Actor::check_address(&st), Address::new_id(2002));
}

#[test]
fn instantiate_without_code_sends_nothing() {
    let mut platform = Platform::new(true);
    let mut st = State::new();
    let err = platform.deploy(&mut st).unwrap_err();
    assert_eq!(err, ActorError { exit_code: 24, msg: "nothing installed".to_string(), data: None });
    assert_eq!(platform.sent.len(), 0);
}

#[test]
fn constructor_refuses_every_caller_but_the_init_actor() {
    for id in [0u64, 2, 99, 10000, u64::MAX] {
        let err = Actor::constructor(&Address::new_id(id)).unwrap_err();
        assert_eq!(err.exit_code, USR_FORBIDDEN);
        assert_eq!(err.msg, "caller is not the init actor");
        assert!(validate_caller_is_init_actor(&Address::new_id(id)).is_err());
    }
    let robust = address_of(&fvm_shared::address::Address::new_actor(b"somebody"));
    assert_eq!(Actor::constructor(&robust).unwrap_err().exit_code, 18);
    assert_eq!(Actor::constructor(&Address::new_id(INIT_ACTOR_ID)), Ok(State::new()));
    assert_eq!(validate_caller_is_init_actor(&init_actor()), Ok(()));
}

#[test]
fn queries_repeat_their_answers() {
    let mut st = State::new();
    assert_eq!(Actor::check_address(&st), Actor::check_address(&st));
    assert_eq!(Actor::check_cid(&st), Actor::check_cid(&st));
    Actor::commit_install(&mut st, InstallReturn { code_cid: parts_of(&code_cid()), installed: true });
    Actor::commit_exec(
        &mut st,
        ExecReturn { id_address: Address::new_id(5), robust_address: Address::new_id(6) },
    );
    let before = st.clone();
    let first = (Actor::check_address(&st), Actor::check_cid(&st));
    let second = (Actor::check_address(&st), Actor::check_cid(&st));
    assert_eq!(first, second);
    assert_eq!(first, (Address::new_id(5), Ok(CODE_CID.to_string())));
    assert_eq!(st, before);
}

#[test]
fn initial_state_holds_the_sentinels() {
    let st = State::new();
    assert_eq!(st.installed_actor_cid, Cid { version: 1, codec: 0, hash_code: 0, digest: vec![] });
    assert_eq!(st.installed_actor_cid, parts_of(&cid::Cid::default()));
    assert_eq!(Cid::default(), parts_of(&cid::Cid::default()));
    assert_eq!(st.deployed_actor_id.bytes, vec![0u8, 0]);
    assert_eq!(st.deployed_actor_robust.bytes, vec![0u8, 0]);
    assert!(!st.has_installed_code());
}

#[test]
fn id_addresses_are_encoded_as_the_platform_encodes_them() {
    assert_eq!(Address::new_id(0).bytes, vec![0u8, 0]);
    assert_eq!(Address::new_id(1).bytes, vec![0u8, 1]);
    assert_eq!(Address::new_id(127).bytes, vec![0u8, 127]);
    assert_eq!(Address::new_id(128).bytes, vec![0u8, 0x80, 0x01]);
    assert_eq!(Address::new_id(300).bytes, vec![0u8, 0xac, 0x02]);
    assert_eq!(Address::new_id(10000).bytes, vec![0u8, 0x90, 0x4e]);
    for id in [0u64, 1, 127, 128, 16383, 16384, 10000, u64::MAX] {
        assert_eq!(Address::new_id(id), address_of(&fvm_shared::address::Address::new_id(id)));
    }
    assert_eq!(init_actor(), Address::new_id(1));
    assert!(Address::new_id(9).same_as(&Address::new_id(9)));
    assert!(!Address::new_id(9).same_as(&Address::new_id(10)));
    assert_eq!(Address::new_id(9).duplicate(), Address::new_id(9));
}

#[test]
fn code_identifiers_compare_by_their_parts() {
    let a = parts_of(&code_cid());
    assert!(a.same_as(&a.duplicate()));
    assert!(!a.same_as(&Cid::default()));
    let mut b = a.duplicate();
    b.digest[0] ^= 1;
    assert!(!a.same_as(&b));
    let mut c = a.duplicate();
    c.codec += 1;
    assert!(!a.same_as(&c));
    assert_eq!(a.version, 1);
    assert_eq!(a.digest.len(), 32);
}

#[test]
fn code_query_gives_the_text_form() {
    let mut st = State::new();
    assert_eq!(Actor::check_cid(&st), Ok("baeaaaaa".to_string()));
    st.installed_actor_cid = parts_of(&code_cid());
    assert_eq!(Actor::check_cid(&st), Ok(CODE_CID.to_string()));
}

#[test]
fn code_query_fails_on_parts_that_make_no_identifier() {
    let mut st = State::new();
    st.installed_actor_cid.version = 7;
    let err = Actor::check_cid(&st).unwrap_err();
    assert_eq!(err.exit_code, USR_ILLEGAL_STATE);
    assert_eq!(err.msg, "installed code identifier is not valid");

    let mut st = State::new();
    st.installed_actor_cid.digest = vec![0; 65];
    assert_eq!(Actor::check_cid(&st).unwrap_err().exit_code, 20);

    let mut st = State::new();
    st.installed_actor_cid.version = 0;
    assert_eq!(Actor::check_cid(&st).unwrap_err().exit_code, 20);
}

#[test]
fn install_message_wraps_the_code() {
    let msg = Actor::install_actor(vec![1, 2, 3]).unwrap();
    assert_eq!(msg.to, init_actor());
    assert_eq!(msg.method, 4);
    assert_eq!(msg.value, 0);
    assert_eq!(
        msg.params,
        Some(IpldBlock { codec: 0x51, data: vec![0x81, 0x44, 0x83, 0x01, 0x02, 0x03] })
    );

    let code: Vec<u8> = vec![0, 97, 115, 109, 200];
    let raw = fvm_ipld_encoding::RawBytes::serialize(code.clone()).unwrap();
    let expected = fvm_ipld_encoding::ipld_block::IpldBlock::serialize_cbor(&(raw,)).unwrap().unwrap();
    let msg = Actor::install_actor(code).unwrap();
    assert_eq!(msg.params, Some(IpldBlock { codec: expected.codec, data: expected.data }));

    let empty = Actor::install_actor(vec![]).unwrap();
    assert_eq!(empty.params, Some(IpldBlock { codec: 0x51, data: vec![0x81, 0x41, 0x80] }));
    assert_eq!(empty, Actor::install_message(empty.params.clone()));
}

#[test]
fn install_reply_commits_only_accepted_code() {
    let mut st = State::new();
    assert_eq!(Actor::install_actor_reply(&mut st, install_reply(&code_cid(), true)), Ok(()));
    assert_eq!(st.installed_actor_cid, parts_of(&code_cid()));
    assert_eq!(st.deployed_actor_id, Address::new_id(0));
    assert_eq!(st.deployed_actor_robust, Address::new_id(0));

    let other = cid::Cid::new_v1(0x55, *code_cid().hash());
    assert_eq!(Actor::install_actor_reply(&mut st, install_reply(&other, false)), Ok(()));
    assert_eq!(st.installed_actor_cid, parts_of(&code_cid()));
    assert_eq!(Actor::install_actor_reply(&mut st, install_reply(&other, true)), Ok(()));
    assert_eq!(st.installed_actor_cid, parts_of(&other));

    let dag = IpldBlock { codec: DAG_CBOR, data: fvm_ipld_encoding::to_vec(&(code_cid(), true)).unwrap() };
    assert_eq!(Actor::install_actor_reply(&mut st, Ok(Some(dag))), Ok(()));
    assert_eq!(st.installed_actor_cid, parts_of(&code_cid()));
}

#[test]
fn deploy_message_names_the_installed_code() {
    let mut st = State::new();
    st.installed_actor_cid = parts_of(&code_cid());
    let msg = Actor::deploy_actor(&st).unwrap();
    assert_eq!(msg.to, init_actor());
    assert_eq!(msg.method, 2);
    assert_eq!(msg.value, 0);
    let raw = fvm_ipld_encoding::RawBytes::serialize((code_cid(), fvm_ipld_encoding::RawBytes::default()))
        .unwrap();
    assert_eq!(msg.params, Some(IpldBlock { codec: 0x51, data: raw.bytes().to_vec() }));
    let back: (cid::Cid, fvm_ipld_encoding::RawBytes) =
        fvm_ipld_encoding::from_slice(&msg.params.clone().unwrap().data).unwrap();
    assert_eq!(back.0, code_cid());
    assert!(back.1.is_empty());
    assert_eq!(msg, Actor::exec_message(msg.params.clone()));
    assert_eq!(Actor::exec_message(None).params, None);
}

#[test]
fn deploy_message_fails_on_parts_that_make_no_identifier() {
    let mut st = State::new();
    st.installed_actor_cid.version = 3;
    let err = Actor::deploy_actor(&st).unwrap_err();
    assert_eq!(err.exit_code, USR_SERIALIZATION);
    assert_eq!(err.data, None);
}

#[test]
fn deploy_reply_records_both_addresses() {
    let mut st = State::new();
    st.installed_actor_cid = parts_of(&code_cid());
    assert_eq!(Actor::deploy_actor_reply(&mut st, exec_reply(1234, b"robust")), Ok(()));
    assert_eq!(st.deployed_actor_id, Address::new_id(1234));
    assert_eq!(
        st.deployed_actor_robust,
        address_of(&fvm_shared::address::Address::new_actor(b"robust"))
    );
    assert_eq!(st.deployed_actor_robust.bytes.len(), 21);
    assert_eq!(st.deployed_actor_robust.bytes[0], 2);
    assert_eq!(st.installed_actor_cid, parts_of(&code_cid()));
}

#[test]
fn call_message_goes_to_the_recorded_address() {
    let st = State::new();
    let msg = Actor::call_actor_method(&st);
    assert_eq!(
        msg,
        OutboundMessage { to: Address::new_id(0), method: 3310437020, params: None, value: 0 }
    );
    let mut st = State::new();
    Actor::commit_exec(
        &mut st,
        ExecReturn { id_address: Address::new_id(42), robust_address: Address::new_id(43) },
    );
    assert_eq!(Actor::call_actor_method(&st).to, Address::new_id(42));
}

#[test]
fn call_reply_is_returned_verbatim() {
    assert_eq!(
        Actor::call_actor_method_reply(Ok(Some(cbor_block(&"Hello world!")))),
        Ok("Hello world!".to_string())
    );
    assert_eq!(
        Actor::call_actor_method_reply(Ok(Some(IpldBlock { codec: 0x51, data: vec![0x62, 0x68, 0x69] }))),
        Ok("hi".to_string())
    );
    assert_eq!(Actor::call_actor_method_reply(Ok(Some(cbor_block(&"")))), Ok(String::new()));
}

#[test]
fn send_failures_are_passed_on_with_context() {
    let data = Some(IpldBlock { codec: IPLD_RAW, data: vec![9, 9] });
    let failure = ActorError { exit_code: 33, msg: "send aborted with code 33".to_string(), data: data.clone() };

    let mut st = State::new();
    let err = Actor::install_actor_reply(&mut st, Err(failure.clone())).unwrap_err();
    assert_eq!(err.exit_code, 33);
    assert_eq!(err.msg, "failed to send install message to init actor: send aborted with code 33");
    assert_eq!(err.data, data);

    let err = Actor::deploy_actor_reply(&mut st, Err(failure.clone())).unwrap_err();
    assert_eq!(err.exit_code, 33);
    assert_eq!(err.msg, "failed to send exec message to init actor: send aborted with code 33");
    assert_eq!(err.data, data);

    let err = Actor::call_actor_method_reply(Err(failure.clone())).unwrap_err();
    assert_eq!(err.exit_code, 33);
    assert_eq!(err.msg, "failed to send message to HelloWorld actor: send aborted with code 33");
    assert_eq!(err.data, data);

    assert_eq!(
        failure.clone().context("outer"),
        ActorError { exit_code: 33, msg: "outer: send aborted with code 33".to_string(), data }
    );
    assert_eq!(
        ActorError::unchecked(5, "m".to_string()),
        ActorError { exit_code: 5, msg: "m".to_string(), data: None }
    );
}

#[test]
fn missing_return_values_fail_the_handler() {
    let expected =
        ActorError { exit_code: USR_ASSERTION_FAILED, msg: "return expected".to_string(), data: None };
    let mut st = State::new();
    assert_eq!(Actor::install_actor_reply(&mut st, Ok(None)), Err(expected.clone()));
    assert_eq!(Actor::deploy_actor_reply(&mut st, Ok(None)), Err(expected.clone()));
    assert_eq!(Actor::call_actor_method_reply(Ok(None)), Err(expected.clone()));
    assert_eq!(Actor::expect_return(Ok(None), "anything"), Err(expected));
    let block = IpldBlock { codec: 1, data: vec![2] };
    assert_eq!(Actor::expect_return(Ok(Some(block.clone())), "anything"), Ok(block));
}

#[test]
fn undecodable_return_values_fail_the_handler() {
    let mut st = State::new();
    let garbage = IpldBlock { codec: CBOR, data: vec![0xff, 0x00] };
    let err = Actor::install_actor_reply(&mut st, Ok(Some(garbage.clone()))).unwrap_err();
    assert_eq!(err.exit_code, USR_SERIALIZATION);
    assert_eq!(err.data, None);
    assert!(err.msg.starts_with("Serialization error for Cbor protocol"));
    assert_eq!(Actor::deploy_actor_reply(&mut st, Ok(Some(garbage.clone()))).unwrap_err().exit_code, 21);
    assert_eq!(Actor::call_actor_method_reply(Ok(Some(garbage))).unwrap_err().exit_code, 21);

    let unknown_codec = IpldBlock { codec: 0x99, data: fvm_ipld_encoding::to_vec(&"Hello world!").unwrap() };
    let err = Actor::call_actor_method_reply(Ok(Some(unknown_codec))).unwrap_err();
    assert_eq!(err.exit_code, 21);
    assert_eq!(err.msg, "Serialization error for Unsupported protocol: unsupported protocol");

    let wrong_shape = cbor_block(&(code_cid(), true, 1u8));
    assert_eq!(Actor::install_actor_reply(&mut st, Ok(Some(wrong_shape))).unwrap_err().exit_code, 21);
    assert_eq!(st, State::new());
}

#[test]
fn method_numbers_follow_the_naming_convention() {
    assert_eq!(Method::Constructor.number(), method_number("Constructor"));
    assert_eq!(Method::CheckAddress.number(), method_number("CheckAddress"));
    assert_eq!(Method::CheckCid.number(), method_number("CheckCid"));
    assert_eq!(Method::InstallActor.number(), method_number("InstallActor"));
    assert_eq!(Method::DeployActor.number(), method_number("DeployActor"));
    assert_eq!(Method::CallActorMethod.number(), method_number("CallActorMethod"));
    assert_eq!(HelloWorldMethod::Constructor.number(), method_number("Constructor"));
    assert_eq!(HelloWorldMethod::SayHello.number(), method_number("SayHello"));
    assert_eq!(Method::CheckCid.number(), 3711484711);
    assert_eq!(Method::InstallActor.number(), 1800657257);
    assert_eq!(CHECK_ADDRESS_METHOD, 2881763653);
    assert_eq!(DEPLOY_ACTOR_METHOD, 4266815605);
    assert_eq!(CALL_ACTOR_METHOD_METHOD, 1343012348);
    assert_eq!(CHECK_CID_METHOD, Method::CheckCid.number());
    assert_eq!(INSTALL_ACTOR_METHOD, Method::InstallActor.number());
    assert_eq!(SAY_HELLO_METHOD, 3310437020);
}

#[test]
fn methods_are_found_by_their_numbers() {
    let all = [
        Method::Constructor,
        Method::CheckAddress,
        Method::CheckCid,
        Method::InstallActor,
        Method::DeployActor,
        Method::CallActorMethod,
    ];
    for m in all {
        assert_eq!(Method::from_u64(m.number()), Some(m));
    }
    assert_eq!(Method::from_u64(1), Some(Method::Constructor));
    assert_eq!(Method::from_u64(0), None);
    assert_eq!(Method::from_u64(2), None);
    assert_eq!(Method::from_u64(SAY_HELLO_METHOD), None);
    assert_eq!(HelloWorldMethod::from_u64(1), Some(HelloWorldMethod::Constructor));
    assert_eq!(HelloWorldMethod::from_u64(3310437020), Some(HelloWorldMethod::SayHello));
    assert_eq!(HelloWorldMethod::from_u64(CHECK_CID_METHOD), None);
}

#[test]
fn platform_constants_agree_with_the_platform() {
    assert_eq!(USR_FORBIDDEN, fvm_shared::error::ExitCode::USR_FORBIDDEN.value());
    assert_eq!(USR_ILLEGAL_STATE, fvm_shared::error::ExitCode::USR_ILLEGAL_STATE.value());
    assert_eq!(USR_SERIALIZATION, fvm_shared::error::ExitCode::USR_SERIALIZATION.value());
    assert_eq!(USR_ASSERTION_FAILED, fvm_shared::error::ExitCode::USR_ASSERTION_FAILED.value());
    assert_eq!(METHOD_CONSTRUCTOR, fvm_shared::METHOD_CONSTRUCTOR);
    assert_eq!(CBOR, fvm_ipld_encoding::CBOR);
    assert_eq!(DAG_CBOR, fvm_ipld_encoding::DAG_CBOR);
    assert_eq!(IPLD_RAW, fvm_ipld_encoding::IPLD_RAW);
    assert_eq!(INIT_ACTOR_ID, 1);
    assert_eq!(INSTALL_METHOD, 4);
    assert_eq!(EXEC_METHOD, 2);
}

#[test]
fn actors_have_their_names() {
    assert_eq!(Actor::name(), "Deployer");
    assert_eq!(HelloWorld::name(), "HelloWorld");
    assert_eq!(HelloWorldState::new(), HelloWorldState {});
}

#[test]
fn repeated_requests_repeat_the_same_transition() {
    let mut st = State::new();
    assert_eq!(Actor::install_actor_reply(&mut st, install_reply(&code_cid(), true)), Ok(()));
    let once = st.clone();
    assert_eq!(Actor::install_actor_reply(&mut st, install_reply(&code_cid(), true)), Ok(()));
    assert_eq!(st, once);

    let first = Actor::deploy_actor(&st).unwrap();
    assert_eq!(Actor::deploy_actor_reply(&mut st, exec_reply(300, b"r")), Ok(()));
    let once = st.clone();
    assert_eq!(Actor::deploy_actor(&st).unwrap(), first);
    assert_eq!(Actor::deploy_actor_reply(&mut st, exec_reply(300, b"r")), Ok(()));
    assert_eq!(st, once);
    assert_eq!(st.deployed_actor_id.bytes, vec![0u8, 0xac, 0x02]);
}
