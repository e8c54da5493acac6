use host_bridge::address::AddressCodec;
use host_bridge::bridge::Bridge;
use host_bridge::contract::{
    a, b, c, empty_data, empty_log_key_value, exec_callback_to_init, handle, init,
    init_callback_to_init, migrate, no_data, query, unicode_data,
};
use host_bridge::exercise::{
    canonical_address, failure, finish_binary_query, finish_loop_query,
    finish_send_external_query, finish_send_external_query_panic, finish_string_query,
    human_address, offer, raw_query, read_binary, read_string, read_u8, settle_query,
    wrap_outcome,
};
use host_bridge::gas::GasCosts;
use host_bridge::memory::GuestMemory;
use host_bridge::msg::{HandleMsg, InitMsg, MigrateMsg, QueryMsg};
use host_bridge::query::{Querier, QueryError, QueryRequest, QueryResponse};
use host_bridge::storage::ContractStorage;
use host_bridge::trap::Trap;
use host_bridge::types::{
    generic_err, invalid_base64, invalid_utf8, log, not_found, null_pointer, parse_err,
    serialize_err, unauthorized, underflow, BankMsg, Binary, CanonicalAddr, Coin, CosmosMsg, Env,
    HandleResponse, HumanAddr, InitResponse, LogAttribute, MessageInfo, MigrateResponse, StdError,
    Uint128, WasmMsg,
};

struct Scripted {
    reply: Result<Vec<u8>, Vec<u8>>,
    gas_used: u64,
    asked: Vec<(Vec<u8>, Vec<u8>, Vec<u8>, u32)>,
}

impl Querier for Scripted {
    fn raw_query(&mut self, request: &QueryRequest, depth: u32, _gas_limit: u64) -> QueryResponse {
        if let QueryRequest::Contract { contract_addr, code_hash, msg } = request {
            self.asked.push((contract_addr.clone(), code_hash.clone(), msg.clone(), depth));
        }
        QueryResponse { reply: self.reply.clone(), gas_used: self.gas_used }
    }
}

fn costs() -> GasCosts {
    GasCosts {
        db_read: 10,
        db_write: 20,
        db_remove: 30,
        canonicalize: 40,
        humanize: 50,
        validate: 60,
        query: 70,
        secp256k1_verify: 80,
        secp256k1_recover: 90,
        ed25519_verify: 100,
        ed25519_batch_verify: 110,
        debug: 120,
        per_byte: 1,
    }
}

const GAS: u64 = 1_000_000;

fn deps_with(gas: u64, reply: Result<Vec<u8>, Vec<u8>>) -> Bridge<Scripted> {
    Bridge::new(
        GuestMemory::new(4096),
        gas,
        costs(),
        ContractStorage::new(b"contract-1/".to_vec()),
        AddressCodec::new(b"secret".to_vec()).unwrap(),
        Scripted { reply, gas_used: 0, asked: Vec::new() },
        0,
    )
}

fn deps() -> Bridge<Scripted> {
    deps_with(GAS, Ok(b"3".to_vec()))
}

fn env() -> Env {
    Env {
        message: MessageInfo {
            sender: CanonicalAddr(Binary((1u8..=20).collect())),
            sent_funds: vec![Coin { denom: "uscrt".to_string(), amount: Uint128(17) }],
        },
    }
}

fn addr(text: &str) -> HumanAddr {
    HumanAddr(text.to_string())
}

fn execute(to: &str, hash: &str, msg: &[u8], send: Vec<Coin>) -> CosmosMsg {
    CosmosMsg::Wasm(WasmMsg::Execute {
        contract_addr: addr(to),
        callback_code_hash: hash.to_string(),
        msg: Binary(msg.to_vec()),
        send,
    })
}

fn instantiate(code_id: u64, hash: &str, send: Vec<Coin>) -> CosmosMsg {
    CosmosMsg::Wasm(WasmMsg::Instantiate {
        code_id,
        callback_code_hash: hash.to_string(),
        msg: Binary(b"{\"nop\":{}}".to_vec()),
        send,
        label: None,
    })
}

fn data(bytes: &[u8]) -> HandleResponse {
    HandleResponse { messages: vec![], log: vec![], data: Some(Binary(bytes.to_vec())) }
}

fn nothing() -> HandleResponse {
    HandleResponse { messages: vec![], log: vec![], data: None }
}

fn attribute(key: &str, value: &str) -> LogAttribute {
    LogAttribute { key: key.to_string(), value: value.to_string() }
}

fn run(msg: HandleMsg) -> Result<Result<HandleResponse, StdError>, Trap> {
    handle(&mut deps(), env(), msg)
}

#[test]
fn init_nop() {
    assert_eq!(
        init(&mut deps(), env(), InitMsg::Nop {}),
        Ok(Ok(InitResponse { messages: vec![], log: vec![attribute("init", "🌈")] }))
    );
}

#[test]
fn init_callback() {
    assert_eq!(
        init(
            &mut deps(),
            env(),
            InitMsg::Callback { contract_addr: addr("there"), code_hash: "hash".to_string() }
        ),
        Ok(Ok(InitResponse {
            messages: vec![execute("there", "hash", b"{\"c\":{\"x\":0,\"y\":13}}", vec![])],
            log: vec![attribute("init with a callback", "🦄")],
        }))
    );
}

#[test]
fn init_callback_contract_error() {
    assert_eq!(
        init(
            &mut deps(),
            env(),
            InitMsg::CallbackContractError {
                contract_addr: addr("there"),
                code_hash: "hash".to_string()
            }
        ),
        Ok(Ok(InitResponse {
            messages: vec![execute(
                "there",
                "hash",
                b"{\"contract_error\":{\"error_type\":\"generic_err\"}}",
                vec![]
            )],
            log: vec![attribute("init with a callback with contract error", "🤷‍♀️")],
        }))
    );
}

#[test]
fn init_callback_bad_params() {
    assert_eq!(
        init(
            &mut deps(),
            env(),
            InitMsg::CallbackBadParams { contract_addr: addr("there"), code_hash: "h".to_string() }
        ),
        Ok(Ok(InitResponse {
            messages: vec![execute("there", "h", b"{\"c\":{\"x\":\"banana\",\"y\":3}}", vec![])],
            log: vec![],
        }))
    );
}

#[test]
fn init_callback_to_init_instantiates() {
    let expected = InitResponse {
        messages: vec![instantiate(7, "hash", vec![])],
        log: vec![attribute("instantiating a new contract from init!", "🐙")],
    };
    assert_eq!(
        init(&mut deps(), env(), InitMsg::CallbackToInit { code_id: 7, code_hash: "hash".to_string() }),
        Ok(Ok(expected.clone()))
    );
    assert_eq!(init_callback_to_init(&mut deps(), env(), 7, "hash".to_string()), expected);
}

#[test]
fn init_no_logs_and_panic() {
    assert_eq!(
        init(&mut deps(), env(), InitMsg::NoLogs {}),
        Ok(Ok(InitResponse { messages: vec![], log: vec![] }))
    );
    assert_eq!(init(&mut deps(), env(), InitMsg::Panic {}), Err(Trap::GuestPanic));
}

#[test]
fn every_named_error() {
    let cases = [
        ("generic_err", generic_err("la la 🤯")),
        ("invalid_base64", invalid_base64("ra ra 🤯")),
        ("invalid_utf8", invalid_utf8("ka ka 🤯")),
        ("not_found", not_found("za za 🤯")),
        ("null_pointer", null_pointer()),
        ("parse_err", parse_err("na na 🤯", "pa pa 🤯")),
        ("serialize_err", serialize_err("ba ba 🤯", "ga ga 🤯")),
        ("unauthorized", unauthorized()),
        ("underflow", underflow("minuend 🤯", "subtrahend 🤯")),
        ("anything else", generic_err("catch-all 🤯")),
        ("", generic_err("catch-all 🤯")),
    ];
    for (name, error) in cases {
        assert_eq!(
            init(&mut deps(), env(), InitMsg::ContractError { error_type: name.to_string() }),
            Ok(Err(error.clone()))
        );
        assert_eq!(run(HandleMsg::ContractError { error_type: name.to_string() }), Ok(Err(error.clone())));
        assert_eq!(
            query(&mut deps(), QueryMsg::ContractError { error_type: name.to_string() }),
            Ok(Err(error))
        );
    }
}

#[test]
fn error_constructors() {
    assert_eq!(generic_err("m"), StdError::GenericErr { msg: "m".to_string() });
    assert_eq!(invalid_base64("m"), StdError::InvalidBase64 { msg: "m".to_string() });
    assert_eq!(invalid_utf8("m"), StdError::InvalidUtf8 { msg: "m".to_string() });
    assert_eq!(not_found("k"), StdError::NotFound { kind: "k".to_string() });
    assert_eq!(null_pointer(), StdError::NullPointer);
    assert_eq!(parse_err("t", "m"), StdError::ParseErr { target: "t".to_string(), msg: "m".to_string() });
    assert_eq!(
        serialize_err("s", "m"),
        StdError::SerializeErr { source: "s".to_string(), msg: "m".to_string() }
    );
    assert_eq!(unauthorized(), StdError::Unauthorized);
    assert_eq!(
        underflow("a", "b"),
        StdError::Underflow { minuend: "a".to_string(), subtrahend: "b".to_string() }
    );
    assert_eq!(log("k", "v"), attribute("k", "v"));
}

#[test]
fn a_asks_for_b() {
    let expected = HandleResponse {
        messages: vec![execute(
            "there",
            "hash",
            b"{\"b\":{\"x\":2 ,\"y\": 250,\"contract_addr\": \"there\",\"code_hash\": \"hash\" }}",
            vec![],
        )],
        log: vec![attribute("banana", "🍌")],
        data: Some(Binary(vec![2, 250])),
    };
    assert_eq!(a(&mut deps(), env(), addr("there"), "hash".to_string(), 2, 250), expected);
    assert_eq!(
        run(HandleMsg::A { contract_addr: addr("there"), code_hash: "hash".to_string(), x: 2, y: 250 }),
        Ok(Ok(expected))
    );
}

#[test]
fn b_asks_for_c() {
    let expected = HandleResponse {
        messages: vec![execute("there", "hash", b"{\"c\":{\"x\":3 ,\"y\": 100 }}", vec![])],
        log: vec![attribute("kiwi", "🥝")],
        data: Some(Binary(vec![101])),
    };
    assert_eq!(b(&mut deps(), env(), addr("there"), "hash".to_string(), 2, 99), expected);
    assert_eq!(
        run(HandleMsg::B { contract_addr: addr("there"), code_hash: "hash".to_string(), x: 2, y: 99 }),
        Ok(Ok(expected))
    );
}

#[test]
fn c_adds() {
    let expected = HandleResponse {
        messages: vec![],
        log: vec![attribute("watermelon", "🍉")],
        data: Some(Binary(vec![255])),
    };
    assert_eq!(c(&mut deps(), env(), 200, 55), expected);
    assert_eq!(run(HandleMsg::C { x: 200, y: 55 }), Ok(Ok(expected)));
    assert_eq!(run(HandleMsg::C { x: 0, y: 0 }).unwrap().unwrap().data, Some(Binary(vec![0])));
}

#[test]
fn sums_beyond_a_byte_end_the_contract() {
    assert_eq!(run(HandleMsg::C { x: 200, y: 56 }), Err(Trap::GuestPanic));
    assert_eq!(run(HandleMsg::C { x: 255, y: 255 }), Err(Trap::GuestPanic));
    let b_msg = |x, y| HandleMsg::B { contract_addr: addr("t"), code_hash: "h".to_string(), x, y };
    assert_eq!(run(b_msg(255, 0)), Err(Trap::GuestPanic));
    assert_eq!(run(b_msg(0, 255)), Err(Trap::GuestPanic));
    assert_eq!(run(b_msg(128, 128)), Err(Trap::GuestPanic));
    assert!(run(b_msg(254, 1)).is_ok());
    assert!(run(b_msg(127, 128)).is_ok());
}

#[test]
fn plain_answers() {
    assert_eq!(run(HandleMsg::UnicodeData {}), Ok(Ok(data("🍆🥑🍄".as_bytes()))));
    assert_eq!(unicode_data(&mut deps(), env()), data("🍆🥑🍄".as_bytes()));
    assert_eq!(run(HandleMsg::EmptyData {}), Ok(Ok(data(b""))));
    assert_eq!(empty_data(&mut deps(), env()), data(b""));
    assert_eq!(run(HandleMsg::NoData {}), Ok(Ok(nothing())));
    assert_eq!(no_data(&mut deps(), env()), nothing());
    assert_eq!(run(HandleMsg::NoLogs {}), Ok(Ok(nothing())));
    let two_logs = HandleResponse {
        messages: vec![],
        log: vec![attribute("my value is empty", ""), attribute("", "my key is empty")],
        data: None,
    };
    assert_eq!(run(HandleMsg::EmptyLogKeyValue {}), Ok(Ok(two_logs.clone())));
    assert_eq!(empty_log_key_value(&mut deps(), env()), two_logs);
    assert_eq!(run(HandleMsg::Panic {}), Err(Trap::GuestPanic));
}

#[test]
fn callbacks_from_handle() {
    let to_init = HandleResponse {
        messages: vec![instantiate(9, "hash", vec![])],
        log: vec![attribute("instantiating a new contract", "🪂")],
        data: None,
    };
    assert_eq!(
        run(HandleMsg::CallbackToInit { code_id: 9, code_hash: "hash".to_string() }),
        Ok(Ok(to_init.clone()))
    );
    assert_eq!(exec_callback_to_init(&mut deps(), env(), 9, "hash".to_string()), to_init);
    assert_eq!(
        run(HandleMsg::CallbackBadParams { contract_addr: addr("t"), code_hash: "h".to_string() }),
        Ok(Ok(HandleResponse {
            messages: vec![execute("t", "h", b"{\"c\":{\"x\":\"banana\",\"y\":3}}", vec![])],
            log: vec![],
            data: None,
        }))
    );
    assert_eq!(
        run(HandleMsg::CallbackContractError { contract_addr: addr("t"), code_hash: "h".to_string() }),
        Ok(Ok(HandleResponse {
            messages: vec![execute(
                "t",
                "h",
                b"{\"contract_error\":{\"error_type\":\"generic_err\"}}",
                vec![]
            )],
            log: vec![attribute("exec with a callback with contract error", "🤷‍♂️")],
            data: None,
        }))
    );
    assert_eq!(
        run(HandleMsg::CallbackToLogMsgSender { to: addr("t"), code_hash: "h".to_string() }),
        Ok(Ok(HandleResponse {
            messages: vec![execute("t", "h", b"{\"log_msg_sender\":{}}", vec![])],
            log: vec![attribute("hi", "hey")],
            data: None,
        }))
    );
}

#[test]
fn funds_are_sent() {
    let coin = |amount: u128, denom: &str| Coin { denom: denom.to_string(), amount: Uint128(amount) };
    assert_eq!(
        run(HandleMsg::SendFunds { amount: 5, denom: "uscrt".to_string(), to: addr("t"), from: addr("f") }),
        Ok(Ok(HandleResponse {
            messages: vec![CosmosMsg::Bank(BankMsg::Send {
                from_address: addr("f"),
                to_address: addr("t"),
                amount: vec![coin(5, "uscrt")],
            })],
            log: vec![],
            data: None,
        }))
    );
    assert_eq!(
        run(HandleMsg::SendFundsToInitCallback { amount: u32::MAX, denom: "d".to_string(), code_id: 3 }),
        Ok(Ok(HandleResponse {
            messages: vec![instantiate(3, "", vec![coin(u32::MAX as u128, "d")])],
            log: vec![],
            data: None,
        }))
    );
    assert_eq!(
        run(HandleMsg::SendFundsToExecCallback { amount: 0, denom: "d".to_string(), to: addr("t") }),
        Ok(Ok(HandleResponse {
            messages: vec![execute("t", "", b"{\"no_data\":{}}", vec![coin(0, "d")])],
            log: vec![],
            data: None,
        }))
    );
}

#[test]
fn deposit_answers_with_the_funds_as_json() {
    assert_eq!(
        run(HandleMsg::DepositToContract {}),
        Ok(Ok(data(b"[{\"denom\":\"uscrt\",\"amount\":\"17\"}]")))
    );
    let mut empty = env();
    empty.message.sent_funds.clear();
    assert_eq!(handle(&mut deps(), empty, HandleMsg::DepositToContract {}), Ok(Ok(data(b"[]"))));
}

#[test]
fn state_is_kept_in_its_namespace() {
    let mut deps = deps();
    let set = HandleMsg::SetState { key: "k".to_string(), value: "v".to_string() };
    assert_eq!(handle(&mut deps, env(), set), Ok(Ok(nothing())));
    assert_eq!(deps.storage.get(b"\x00\x09my_prefixk"), Some(b"v".to_vec()));
    assert_eq!(deps.gas.remaining(), GAS - 20 - 12 - 1);
    assert_eq!(
        handle(&mut deps, env(), HandleMsg::GetState { key: "k".to_string() }),
        Ok(Ok(data(b"v")))
    );
    assert_eq!(
        handle(&mut deps, env(), HandleMsg::GetState { key: "other".to_string() }),
        Ok(Ok(nothing()))
    );
    assert_eq!(
        handle(&mut deps, env(), HandleMsg::RemoveState { key: "other".to_string() }),
        Ok(Ok(nothing()))
    );
    assert_eq!(
        handle(&mut deps, env(), HandleMsg::RemoveState { key: "k".to_string() }),
        Ok(Ok(nothing()))
    );
    assert_eq!(
        handle(&mut deps, env(), HandleMsg::GetState { key: "k".to_string() }),
        Ok(Ok(nothing()))
    );
    assert_eq!(deps.storage.into_entries(), vec![]);
}

#[test]
fn state_calls_without_gas_trap() {
    let mut deps = deps_with(30, Ok(vec![]));
    let set = HandleMsg::SetState { key: "k".to_string(), value: "v".to_string() };
    assert_eq!(handle(&mut deps, env(), set), Err(Trap::GasExhausted));
    assert_eq!(deps.storage.get(b"\x00\x09my_prefixk"), None);
    assert_eq!(
        handle(&mut deps, env(), HandleMsg::GetState { key: "k".to_string() }),
        Err(Trap::GasExhausted)
    );
    assert_eq!(
        handle(&mut deps, env(), HandleMsg::RemoveState { key: "k".to_string() }),
        Err(Trap::GasExhausted)
    );
}

#[test]
fn bridge_refuses_the_four_bad_addresses() {
    let mut deps = deps();
    assert_eq!(
        handle(&mut deps, env(), HandleMsg::TestCanonicalizeAddressErrors {}),
        Ok(Ok(data("🤟".as_bytes())))
    );
    assert_eq!(deps.gas.remaining(), GAS - 4 * 40 - 0 - 3 - 24 - 45);
}

#[test]
fn address_test_complains_where_an_address_is_accepted() {
    let mut deps = deps();
    deps.codec = AddressCodec::new(b"cosmos".to_vec()).unwrap();
    assert_eq!(
        handle(&mut deps, env(), HandleMsg::TestCanonicalizeAddressErrors {}),
        Ok(Err(generic_err("bad prefix should have failed with -4")))
    );
    let mut poor = deps_with(41, Ok(vec![]));
    assert_eq!(
        handle(&mut poor, env(), HandleMsg::TestCanonicalizeAddressErrors {}),
        Err(Trap::GasExhausted)
    );
}

#[test]
fn contract_sees_address_faults_as_one_error() {
    let mut deps = deps();
    for human in ["", "   ", "cosmos1h99hrcc54ms9lxxxx", "cosmos1h99hrcc54ms9luwpex9kw0rwdt7etvfdyxh6gu"] {
        assert_eq!(
            canonical_address(&mut deps, &addr(human)),
            Ok(Err(generic_err("canonicalize_address returned error")))
        );
    }
    let human = String::from_utf8(deps.codec.humanize(&[3u8; 20]).unwrap()).unwrap();
    assert_eq!(
        canonical_address(&mut deps, &addr(&human)),
        Ok(Ok(CanonicalAddr(Binary(vec![3u8; 20]))))
    );
    assert_eq!(human_address(&mut deps, &CanonicalAddr(Binary(vec![3u8; 20]))), Ok(Ok(addr(&human))));
    assert_eq!(
        human_address(&mut deps, &CanonicalAddr(Binary(vec![3u8; 21]))),
        Ok(Err(generic_err("humanize_address returned error")))
    );
}

#[test]
fn null_pointers_end_the_contract() {
    for pass_type in [
        "read_db_key",
        "write_db_key",
        "write_db_value",
        "remove_db_key",
        "canonicalize_address_input",
        "humanize_address_input",
    ] {
        let mut deps = deps();
        let msg = HandleMsg::PassNullPointerToImportsShouldThrow { pass_type: pass_type.to_string() };
        assert_eq!(handle(&mut deps, env(), msg), Err(Trap::MemoryAccess));
        assert_eq!(deps.gas.remaining(), GAS);
        assert_eq!(deps.storage.get(b"write key"), None);
    }
}

#[test]
fn null_pointer_test_skips_what_it_does_not_know() {
    for pass_type in ["canonicalize_address_output", "humanize_address_output", "", "other"] {
        let mut deps = deps();
        let msg = HandleMsg::PassNullPointerToImportsShouldThrow { pass_type: pass_type.to_string() };
        assert_eq!(handle(&mut deps, env(), msg), Ok(Ok(nothing())));
        assert_eq!(deps.memory.frontier, 8);
    }
}

#[test]
fn null_pointer_test_in_exhausted_context() {
    let mut deps = deps_with(0, Ok(vec![]));
    let msg = HandleMsg::PassNullPointerToImportsShouldThrow { pass_type: "read_db_key".to_string() };
    assert_eq!(handle(&mut deps, env(), msg), Err(Trap::GasExhausted));
}

#[test]
fn heap_blocks_come_from_guest_memory() {
    let mut deps = deps();
    assert_eq!(
        handle(&mut deps, env(), HandleMsg::AllocateOnHeap { bytes: 100 }),
        Ok(Ok(data("😅".as_bytes())))
    );
    assert_eq!(deps.memory.frontier, 8 + 8 + 100);
    let mut block = vec![0u8; 100];
    block[99] = 1;
    assert_eq!(deps.memory.read_region(8), Ok(block));
    assert_eq!(
        handle(&mut deps, env(), HandleMsg::AllocateOnHeap { bytes: 1 }),
        Ok(Ok(data("😅".as_bytes())))
    );
    assert_eq!(deps.memory.read_region(116), Ok(vec![1]));
}

#[test]
fn heap_runs_out() {
    let mut deps = deps();
    assert_eq!(
        handle(&mut deps, env(), HandleMsg::AllocateOnHeap { bytes: 4096 }),
        Err(Trap::MemoryAccess)
    );
    assert_eq!(
        handle(&mut deps, env(), HandleMsg::AllocateOnHeap { bytes: u32::MAX }),
        Err(Trap::MemoryAccess)
    );
    assert_eq!(
        handle(&mut deps, env(), HandleMsg::AllocateOnHeap { bytes: 4081 }),
        Err(Trap::MemoryAccess)
    );
    assert_eq!(deps.memory.frontier, 8);
    assert!(handle(&mut deps, env(), HandleMsg::AllocateOnHeap { bytes: 4080 }).is_ok());
    assert_eq!(handle(&mut deps, env(), HandleMsg::AllocateOnHeap { bytes: 0 }), Err(Trap::GuestPanic));
}

#[test]
fn sender_is_logged_in_human_form() {
    let mut deps = deps();
    let human = String::from_utf8(deps.codec.humanize(&env().message.sender.0 .0).unwrap()).unwrap();
    assert_eq!(
        handle(&mut deps, env(), HandleMsg::LogMsgSender {}),
        Ok(Ok(HandleResponse {
            messages: vec![],
            log: vec![attribute("msg.sender", &human)],
            data: None,
        }))
    );
    assert_eq!(deps.gas.remaining(), GAS - 50 - 20);
    let mut odd = env();
    odd.message.sender = CanonicalAddr(Binary(vec![1, 2, 3]));
    assert_eq!(handle(&mut deps, odd, HandleMsg::LogMsgSender {}), Err(Trap::GuestPanic));
}

#[test]
fn external_query_answers_with_the_number() {
    let mut deps = deps_with(GAS, Ok(b"3".to_vec()));
    let msg = HandleMsg::SendExternalQuery { to: addr("there"), code_hash: "hash".to_string() };
    assert_eq!(handle(&mut deps, env(), msg), Ok(Ok(data(&[3]))));
    assert_eq!(
        deps.querier.asked,
        vec![(
            b"there".to_vec(),
            b"hash".to_vec(),
            b"{\"receive_external_query\":{\"num\":2}}".to_vec(),
            1
        )]
    );
    assert_eq!(deps.gas.remaining(), GAS - 70 - (1 + 8 + 5 + 8 + 4 + 36));
}

#[test]
fn external_query_insists_on_a_number() {
    for reply in [Ok(b"\"3\"".to_vec()), Ok(b"256".to_vec()), Ok(vec![]), Err(b"no".to_vec())] {
        let mut deps = deps_with(GAS, reply);
        let msg = HandleMsg::SendExternalQuery { to: addr("there"), code_hash: "hash".to_string() };
        assert_eq!(handle(&mut deps, env(), msg), Err(Trap::GuestPanic));
    }
}

#[test]
fn external_query_panic_hands_the_error_on() {
    let mut deps = deps_with(GAS, Err(b"the contract panicked".to_vec()));
    let msg = HandleMsg::SendExternalQueryPanic { to: addr("there"), code_hash: "hash".to_string() };
    assert_eq!(handle(&mut deps, env(), msg), Ok(Err(generic_err("the contract panicked"))));
    assert_eq!(deps.querier.asked[0].2, b"{\"panic\":{}}".to_vec());
    let mut deps = deps_with(GAS, Ok(b"3".to_vec()));
    let msg = HandleMsg::SendExternalQueryPanic { to: addr("there"), code_hash: "hash".to_string() };
    assert_eq!(handle(&mut deps, env(), msg), Err(Trap::GuestPanic));
}

#[test]
fn external_query_error_hands_the_error_on() {
    let mut deps = deps_with(GAS, Err("la la 🤯".as_bytes().to_vec()));
    let msg = HandleMsg::SendExternalQueryError { to: addr("there"), code_hash: "hash".to_string() };
    assert_eq!(handle(&mut deps, env(), msg), Ok(Err(generic_err("la la 🤯"))));
    assert_eq!(
        deps.querier.asked[0].2,
        b"{\"contract_error\":{\"error_type\":\"generic_err\"}}".to_vec()
    );
    let mut deps = deps_with(GAS, Ok(b"\"AQID\"".to_vec()));
    let msg = HandleMsg::SendExternalQueryError { to: addr("there"), code_hash: "hash".to_string() };
    assert_eq!(handle(&mut deps, env(), msg), Ok(Ok(data(&[1, 2, 3]))));
}

#[test]
fn external_query_bad_abi() {
    let mut deps = deps_with(GAS, Err(b"parse error".to_vec()));
    let msg = HandleMsg::SendExternalQueryBadAbi { to: addr("there"), code_hash: "hash".to_string() };
    assert_eq!(handle(&mut deps, env(), msg), Ok(Err(generic_err("parse error"))));
    assert_eq!(
        deps.querier.asked[0].2,
        b"\"contract_error\":{\"error_type\":\"generic_err\"}}".to_vec()
    );
}

#[test]
fn external_query_bad_abi_receiver() {
    let mut deps = deps_with(GAS, Ok(b"26".to_vec()));
    let msg =
        HandleMsg::SendExternalQueryBadAbiReceiver { to: addr("there"), code_hash: "hash".to_string() };
    let answer = handle(&mut deps, env(), msg);
    assert!(matches!(&answer, Ok(Err(StdError::ParseErr { target, .. })) if target == "alloc::string::String"));
    assert_eq!(deps.querier.asked[0].2, b"{\"receive_external_query\":{\"num\":25}}".to_vec());
    let mut deps = deps_with(GAS, Ok(b"\"twenty-six\"".to_vec()));
    let msg =
        HandleMsg::SendExternalQueryBadAbiReceiver { to: addr("there"), code_hash: "hash".to_string() };
    assert_eq!(
        handle(&mut deps, env(), msg),
        Ok(Ok(HandleResponse {
            messages: vec![],
            log: vec![attribute("wtf", "twenty-six")],
            data: None,
        }))
    );
}

#[test]
fn query_adds_one() {
    assert_eq!(
        query(&mut deps(), QueryMsg::ReceiveExternalQuery { num: 2 }),
        Ok(Ok(Binary(b"3".to_vec())))
    );
    assert_eq!(
        query(&mut deps(), QueryMsg::ReceiveExternalQuery { num: 254 }),
        Ok(Ok(Binary(b"255".to_vec())))
    );
    assert_eq!(
        query(&mut deps(), QueryMsg::ReceiveExternalQuery { num: 0 }),
        Ok(Ok(Binary(b"1".to_vec())))
    );
    assert_eq!(query(&mut deps(), QueryMsg::ReceiveExternalQuery { num: 255 }), Err(Trap::GuestPanic));
    assert_eq!(query(&mut deps(), QueryMsg::Panic {}), Err(Trap::GuestPanic));
}

#[test]
fn query_writes_and_removes() {
    let mut deps = deps();
    assert_eq!(query(&mut deps, QueryMsg::WriteToStorage {}), Ok(Ok(Binary(vec![]))));
    assert_eq!(deps.storage.get(b"abcd"), Some(b"dcba".to_vec()));
    assert_eq!(query(&mut deps, QueryMsg::RemoveFromStorage {}), Ok(Ok(Binary(vec![]))));
    assert_eq!(deps.storage.get(b"abcd"), None);
    assert_eq!(deps.gas.remaining(), GAS - 28 - 34);
    let mut poor = deps_with(28, Ok(vec![]));
    assert_eq!(query(&mut poor, QueryMsg::WriteToStorage {}), Err(Trap::GasExhausted));
    assert_eq!(poor.storage.get(b"abcd"), None);
}

#[test]
fn loop_query_asks_for_itself() {
    let mut deps = deps_with(GAS, Ok(b"\"AQID\"".to_vec()));
    let msg = QueryMsg::SendExternalQueryInfiniteLoop { to: addr("me"), code_hash: "h".to_string() };
    assert_eq!(query(&mut deps, msg), Ok(Ok(Binary(vec![1, 2, 3]))));
    assert_eq!(
        deps.querier.asked,
        vec![(
            b"me".to_vec(),
            b"h".to_vec(),
            b"{\"send_external_query_infinite_loop\":{\"to\":\"me\", \"code_hash\":\"h\"}}".to_vec(),
            1
        )]
    );
}

struct Loopback {
    deepest: u32,
    contexts: u32,
}

impl Querier for Loopback {
    fn raw_query(&mut self, request: &QueryRequest, depth: u32, gas_limit: u64) -> QueryResponse {
        let QueryRequest::Contract { contract_addr, code_hash, msg } = request else {
            return QueryResponse { reply: Err(b"no such query".to_vec()), gas_used: 0 };
        };
        let to = String::from_utf8(contract_addr.clone()).unwrap();
        let hash = String::from_utf8(code_hash.clone()).unwrap();
        let expected = format!(
            "{{\"send_external_query_infinite_loop\":{{\"to\":\"{}\", \"code_hash\":\"{}\"}}}}",
            to, hash
        );
        assert_eq!(msg, expected.as_bytes());
        let mut nested = Bridge::new(
            GuestMemory::new(1024),
            gas_limit,
            costs(),
            ContractStorage::new(b"contract-1/".to_vec()),
            AddressCodec::new(b"secret".to_vec()).unwrap(),
            Loopback { deepest: depth, contexts: 1 },
            depth,
        );
        let answer = query(
            &mut nested,
            QueryMsg::SendExternalQueryInfiniteLoop { to: HumanAddr(to), code_hash: hash },
        );
        self.deepest = nested.querier.deepest;
        self.contexts += nested.querier.contexts;
        let gas_used = gas_limit - nested.gas.remaining();
        QueryResponse { reply: wrap_outcome(answer), gas_used }
    }
}

#[test]
fn contract_that_queries_itself_stops_at_the_ceiling() {
    let mut deps = Bridge::new(
        GuestMemory::new(1024),
        u64::MAX,
        costs(),
        ContractStorage::new(b"contract-1/".to_vec()),
        AddressCodec::new(b"secret".to_vec()).unwrap(),
        Loopback { deepest: 0, contexts: 0 },
        0,
    );
    let msg = QueryMsg::SendExternalQueryInfiniteLoop { to: addr("me"), code_hash: "h".to_string() };
    assert_eq!(query(&mut deps, msg), Ok(Err(generic_err("query depth exceeded"))));
    assert_eq!(deps.querier.deepest, 10);
    assert_eq!(deps.querier.contexts, 10);
    assert!(deps.gas.remaining() < u64::MAX);
}

#[test]
fn contract_at_the_ceiling_cannot_query() {
    let mut deps = deps();
    deps.depth = 10;
    let msg = QueryMsg::SendExternalQueryInfiniteLoop { to: addr("me"), code_hash: "h".to_string() };
    assert_eq!(query(&mut deps, msg), Err(Trap::QueryDepthExceeded));
    assert!(deps.querier.asked.is_empty());
    assert_eq!(deps.gas.remaining(), GAS);
}

#[test]
fn migrate_does_nothing() {
    assert_eq!(
        migrate(&mut deps(), env(), MigrateMsg::Migrate {}),
        Ok(MigrateResponse { messages: vec![], log: vec![], data: None })
    );
}

#[test]
fn answers_are_read_as_json() {
    assert_eq!(read_u8(Ok(b"3".to_vec())), Ok(3));
    assert_eq!(read_u8(Ok(b"255".to_vec())), Ok(255));
    assert!(matches!(read_u8(Ok(b"256".to_vec())), Err(StdError::ParseErr { target, .. }) if target == "u8"));
    assert!(matches!(read_u8(Ok(b"x".to_vec())), Err(StdError::ParseErr { .. })));
    assert_eq!(read_u8(Err(unauthorized())), Err(unauthorized()));
    assert_eq!(read_binary(Ok(b"\"AQID\"".to_vec())), Ok(Binary(vec![1, 2, 3])));
    assert_eq!(read_binary(Ok(b"\"\"".to_vec())), Ok(Binary(vec![])));
    assert!(matches!(
        read_binary(Ok(b"\"%%\"".to_vec())),
        Err(StdError::ParseErr { target, .. }) if target == "cosmwasm_std::encoding::Binary"
    ));
    assert_eq!(read_binary(Err(null_pointer())), Err(null_pointer()));
    assert_eq!(read_string(Ok(b"\"hi\"".to_vec())), Ok("hi".to_string()));
    assert!(matches!(read_string(Ok(b"hi".to_vec())), Err(StdError::ParseErr { .. })));
    assert_eq!(read_string(Err(null_pointer())), Err(null_pointer()));
}

#[test]
fn queries_end_as_their_answers_say() {
    assert_eq!(finish_send_external_query(Ok(Ok(b"7".to_vec()))), Ok(Ok(data(&[7]))));
    assert_eq!(finish_send_external_query(Ok(Err(unauthorized()))), Err(Trap::GuestPanic));
    assert_eq!(finish_send_external_query(Err(Trap::GasExhausted)), Err(Trap::GasExhausted));
    assert_eq!(finish_send_external_query_panic(Ok(Ok(b"7".to_vec()))), Err(Trap::GuestPanic));
    assert_eq!(finish_send_external_query_panic(Ok(Err(unauthorized()))), Ok(Err(unauthorized())));
    assert_eq!(
        finish_send_external_query_panic(Err(Trap::QueryDepthExceeded)),
        Err(Trap::QueryDepthExceeded)
    );
    assert_eq!(finish_binary_query(Ok(Ok(b"\"AQID\"".to_vec()))), Ok(Ok(data(&[1, 2, 3]))));
    assert_eq!(finish_binary_query(Ok(Err(unauthorized()))), Ok(Err(unauthorized())));
    assert_eq!(finish_binary_query(Err(Trap::GasExhausted)), Err(Trap::GasExhausted));
    assert_eq!(
        finish_string_query(Ok(Ok(b"\"x\"".to_vec()))),
        Ok(Ok(HandleResponse { messages: vec![], log: vec![attribute("wtf", "x")], data: None }))
    );
    assert_eq!(finish_string_query(Ok(Err(unauthorized()))), Ok(Err(unauthorized())));
    assert_eq!(finish_loop_query(Ok(Ok(b"\"AQID\"".to_vec()))), Ok(Ok(Binary(vec![1, 2, 3]))));
    assert_eq!(finish_loop_query(Ok(Err(unauthorized()))), Ok(Err(unauthorized())));
    assert_eq!(finish_loop_query(Err(Trap::GasExhausted)), Err(Trap::GasExhausted));
}

#[test]
fn failures_of_targets_become_errors() {
    assert_eq!(failure(b"it broke".to_vec()), generic_err("it broke"));
    assert_eq!(failure(vec![0xff, 0xfe]), generic_err("query failed"));
    assert_eq!(failure(vec![]), generic_err(""));
    assert_eq!(settle_query(Ok(Ok(b"a".to_vec()))), Ok(Ok(b"a".to_vec())));
    assert_eq!(settle_query(Ok(Err(QueryError::Failed(b"no".to_vec())))), Ok(Err(generic_err("no"))));
    assert_eq!(settle_query(Ok(Err(QueryError::Malformed))), Ok(Err(generic_err("query refused"))));
    assert_eq!(settle_query(Err(Trap::GasExhausted)), Err(Trap::GasExhausted));
}

#[test]
fn raw_query_and_offer() {
    let mut deps = deps_with(GAS, Ok(b"bytes".to_vec()));
    assert_eq!(
        raw_query(&mut deps, &addr("there"), &"hash".to_string(), b"msg".to_vec()),
        Ok(Ok(b"bytes".to_vec()))
    );
    assert_eq!(deps.querier.asked, vec![(b"there".to_vec(), b"hash".to_vec(), b"msg".to_vec(), 1)]);
    assert_eq!(offer(&mut deps, b"abc"), Ok(8));
    assert_eq!(deps.memory.read_region(8), Ok(b"abc".to_vec()));
    assert_eq!(offer(&mut deps, &vec![0u8; 5000]), Err(Trap::MemoryAccess));
}

#[test]
fn contract_that_queries_itself_runs_out_of_gas_before_the_ceiling() {
    let mut deps = Bridge::new(
        GuestMemory::new(1024),
        400,
        costs(),
        ContractStorage::new(b"contract-1/".to_vec()),
        AddressCodec::new(b"secret".to_vec()).unwrap(),
        Loopback { deepest: 0, contexts: 0 },
        0,
    );
    let msg = QueryMsg::SendExternalQueryInfiniteLoop { to: addr("me"), code_hash: "h".to_string() };
    let answer = query(&mut deps, msg);
    assert!(answer == Ok(Err(generic_err("out of gas"))) || answer == Err(Trap::GasExhausted));
    assert!(deps.querier.deepest < 10);
    assert!(deps.gas.remaining() < 400);
}

#[test]
fn outcomes_of_nested_queries_are_wrapped() {
    assert_eq!(wrap_outcome(Ok(Ok(Binary(b"yes".to_vec())))), Ok(b"yes".to_vec()));
    assert_eq!(wrap_outcome(Ok(Err(generic_err("la la")))), Err(b"la la".to_vec()));
    assert_eq!(wrap_outcome(Ok(Err(unauthorized()))), Err(b"unauthorized".to_vec()));
    assert_eq!(wrap_outcome(Err(Trap::GuestPanic)), Err(b"contract panicked".to_vec()));
    assert_eq!(wrap_outcome(Err(Trap::QueryDepthExceeded)), Err(b"query depth exceeded".to_vec()));
    assert_eq!(Trap::GasExhausted.text(), "out of gas");
    assert_eq!(Trap::MemoryAccess.text(), "memory access out of bounds");
    assert_eq!(Trap::RegionTooSmall.text(), "region too small");
    assert_eq!(Trap::QueryDepthExceeded.text(), "query depth exceeded");
    assert_eq!(Trap::GuestPanic.text(), "contract panicked");
    assert_eq!(generic_err("a").text(), "a");
    assert_eq!(invalid_base64("b").text(), "b");
    assert_eq!(invalid_utf8("c").text(), "c");
    assert_eq!(not_found("d").text(), "d");
    assert_eq!(null_pointer().text(), "null pointer");
    assert_eq!(parse_err("t", "e").text(), "e");
    assert_eq!(serialize_err("s", "f").text(), "f");
    assert_eq!(unauthorized().text(), "unauthorized");
    assert_eq!(underflow("1", "2").text(), "underflow");
}
