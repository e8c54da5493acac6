//! The exercise contract: a contract whose only purpose is to call every
//! part of the bridge, and to answer in every way a contract can.
//!
//! A panic of the contract is a trap of the guest: the entry points hand it
//! back as `Trap::GuestPanic`.

use vstd::prelude::*;
use vstd::utf8::encode_utf8;
use crate::bridge::Bridge;
use crate::bytes::append;
use crate::json::{decimal, decimal_u8};
use crate::exercise::{
    address_test_spec, allocate_on_heap, allocate_on_heap_spec, bad_abi_query, binary_query_end,
    get_state, get_state_spec, log_msg_sender, log_msg_sender_spec, loop_query, loop_query_end,
    null_pointer_spec, pass_null_pointer_to_imports_should_throw, raw_query_spec, receive_query,
    remove_from_storage_in_query, remove_state, send_external_query, send_external_query_bad_abi,
    send_external_query_bad_abi_receiver, send_external_query_end,
    send_external_query_infinite_loop, send_external_query_panic, send_external_query_panic_end,
    send_external_query_stderror, set_state, smart_query, state_key, string_query_end,
    test_canonicalize_address_errors, then_respond, write_to_storage_in_query, wrote,
};
use crate::bridge::{
    humanize_call_spec, storage_read_spec, storage_remove_spec, storage_write_spec,
};
use crate::json::{coins_json, to_json_coins, to_json_u8};
use crate::msg::{HandleMsg, InitMsg, MigrateMsg, QueryMsg};
use crate::query::Querier;
use crate::text::{bytes_of, equals};
use crate::trap::Trap;
use crate::types::{
    answer_view, coin_views, generic_err, invalid_base64, invalid_utf8, log, log_view,
    log_views, message_views, not_found, null_pointer, parse_err, respond, serialize_err,
    unauthorized, underflow, Binary, Coin, CoinView, CosmosMsg, CosmosMsgView, Env,
    HandleResponse, HandleResponseView, HumanAddr, InitResponse, InitResponseView, LogAttribute,
    LogAttributeView, MigrateResponse, StdError, StdErrorView, WasmMsg,
};

verus! {

/// A call to a contract, with no funds.
pub open spec fn execute_view(
    contract_addr: Seq<char>,
    code_hash: Seq<char>,
    msg: Seq<u8>,
    send: Seq<CoinView>,
) -> CosmosMsgView {
    CosmosMsgView::Execute { contract_addr, callback_code_hash: code_hash, msg, send }
}

/// The making of a contract, without a label.
pub open spec fn instantiate_view(
    code_id: u64,
    code_hash: Seq<char>,
    msg: Seq<u8>,
    send: Seq<CoinView>,
) -> CosmosMsgView {
    CosmosMsgView::Instantiate { code_id, callback_code_hash: code_hash, msg, send, label: None }
}

/// A message that calls a contract.
pub(crate) fn execute(
    contract_addr: HumanAddr,
    code_hash: String,
    msg: Vec<u8>,
    send: Vec<Coin>,
) -> (message: CosmosMsg)
    ensures
        message@ == execute_view(contract_addr@, code_hash@, msg@, coin_views(send@)),
{
    CosmosMsg::Wasm(
        WasmMsg::Execute {
            contract_addr,
            callback_code_hash: code_hash,
            msg: Binary(msg),
            send,
        },
    )
}

/// A message that makes a contract.
pub(crate) fn instantiate(
    code_id: u64,
    code_hash: String,
    msg: Vec<u8>,
    send: Vec<Coin>,
) -> (message: CosmosMsg)
    ensures
        message@ == instantiate_view(code_id, code_hash@, msg@, coin_views(send@)),
{
    CosmosMsg::Wasm(
        WasmMsg::Instantiate {
            code_id,
            callback_code_hash: code_hash,
            msg: Binary(msg),
            send,
            label: None,
        },
    )
}

/// A list of one message.
pub(crate) fn one_message(message: CosmosMsg) -> (messages: Vec<CosmosMsg>)
    ensures
        message_views(messages@) == seq![message@],
{
    let mut messages: Vec<CosmosMsg> = Vec::new();
    messages.push(message);
    proof {
        assert(message_views(messages@) =~= seq![message@]);
    }
    messages
}

/// No messages.
pub(crate) fn no_messages() -> (messages: Vec<CosmosMsg>)
    ensures
        message_views(messages@) == Seq::<CosmosMsgView>::empty(),
{
    let messages: Vec<CosmosMsg> = Vec::new();
    proof {
        assert(message_views(messages@) =~= Seq::empty());
    }
    messages
}

/// A log of one attribute.
pub(crate) fn one_log(key: &str, value: &str) -> (attributes: Vec<LogAttribute>)
    ensures
        log_views(attributes@) == seq![log_view(key, value)],
{
    let mut attributes: Vec<LogAttribute> = Vec::new();
    attributes.push(log(key, value));
    proof {
        assert(log_views(attributes@) =~= seq![log_view(key, value)]);
    }
    attributes
}

/// An empty log.
pub(crate) fn no_log() -> (attributes: Vec<LogAttribute>)
    ensures
        log_views(attributes@) == Seq::<LogAttributeView>::empty(),
{
    let attributes: Vec<LogAttribute> = Vec::new();
    proof {
        assert(log_views(attributes@) =~= Seq::empty());
    }
    attributes
}

/// No coins.
pub(crate) fn no_coins() -> (coins: Vec<Coin>)
    ensures
        coin_views(coins@) == Seq::<CoinView>::empty(),
{
    let coins: Vec<Coin> = Vec::new();
    proof {
        assert(coin_views(coins@) =~= Seq::empty());
    }
    coins
}

/// One coin.
pub(crate) fn one_coin(amount: u32, denom: String) -> (coins: Vec<Coin>)
    ensures
        coin_views(coins@) == seq![CoinView { denom: denom@, amount: amount as u128 }],
{
    let mut coins: Vec<Coin> = Vec::new();
    coins.push(Coin { denom, amount: crate::types::Uint128(amount as u128) });
    proof {
        assert(coin_views(coins@) =~= seq![CoinView { denom: denom@, amount: amount as u128 }]);
    }
    coins
}

/// The error that a contract raises when asked for the error of the given
/// name.
pub open spec fn error_for(error_type: Seq<char>) -> StdErrorView {
    if error_type == "generic_err"@ {
        StdErrorView::GenericErr { msg: "la la 🤯"@ }
    } else if error_type == "invalid_base64"@ {
        StdErrorView::InvalidBase64 { msg: "ra ra 🤯"@ }
    } else if error_type == "invalid_utf8"@ {
        StdErrorView::InvalidUtf8 { msg: "ka ka 🤯"@ }
    } else if error_type == "not_found"@ {
        StdErrorView::NotFound { kind: "za za 🤯"@ }
    } else if error_type == "null_pointer"@ {
        StdErrorView::NullPointer
    } else if error_type == "parse_err"@ {
        StdErrorView::ParseErr { target: "na na 🤯"@, msg: "pa pa 🤯"@ }
    } else if error_type == "serialize_err"@ {
        StdErrorView::SerializeErr { source: "ba ba 🤯"@, msg: "ga ga 🤯"@ }
    } else if error_type == "unauthorized"@ {
        StdErrorView::Unauthorized
    } else if error_type == "underflow"@ {
        StdErrorView::Underflow { minuend: "minuend 🤯"@, subtrahend: "subtrahend 🤯"@ }
    } else {
        StdErrorView::GenericErr { msg: "catch-all 🤯"@ }
    }
}

/// Raises the error that was asked for by name.
pub(crate) fn map_string_to_error(error_type: String) -> (error: StdError)
    ensures
        error@ == error_for(error_type@),
{
    if equals(&error_type, "generic_err") {
        generic_err("la la 🤯")
    } else if equals(&error_type, "invalid_base64") {
        invalid_base64("ra ra 🤯")
    } else if equals(&error_type, "invalid_utf8") {
        invalid_utf8("ka ka 🤯")
    } else if equals(&error_type, "not_found") {
        not_found("za za 🤯")
    } else if equals(&error_type, "null_pointer") {
        null_pointer()
    } else if equals(&error_type, "parse_err") {
        parse_err("na na 🤯", "pa pa 🤯")
    } else if equals(&error_type, "serialize_err") {
        serialize_err("ba ba 🤯", "ga ga 🤯")
    } else if equals(&error_type, "unauthorized") {
        unauthorized()
    } else if equals(&error_type, "underflow") {
        underflow("minuend 🤯", "subtrahend 🤯")
    } else {
        generic_err("catch-all 🤯")
    }
}

/// The message that asks a contract for a generic error.
pub open spec fn contract_error_call() -> Seq<u8> {
    encode_utf8("{\"contract_error\":{\"error_type\":\"generic_err\"}}"@)
}

/// A message whose parameters have the wrong types.
pub open spec fn bad_params_call() -> Seq<u8> {
    encode_utf8("{\"c\":{\"x\":\"banana\",\"y\":3}}"@)
}

/// The message that instantiates a contract that does nothing.
pub open spec fn nop_call() -> Seq<u8> {
    encode_utf8("{\"nop\":{}}"@)
}

/// Answers an instantiation by asking for a call that will fail.
pub(crate) fn init_with_callback_contract_error(
    contract_addr: HumanAddr,
    code_hash: String,
) -> (response: InitResponse)
    ensures
        response@ == (InitResponseView {
            messages: seq![
                execute_view(contract_addr@, code_hash@, contract_error_call(), Seq::empty()),
            ],
            log: seq![log_view("init with a callback with contract error", "🤷‍♀️")],
        }),
{
    InitResponse::of(
        one_message(
            execute(
                contract_addr,
                code_hash,
                bytes_of("{\"contract_error\":{\"error_type\":\"generic_err\"}}"),
                no_coins(),
            ),
        ),
        one_log("init with a callback with contract error", "🤷‍♀️"),
    )
}

/// Answers an instantiation by asking for a call with parameters of the
/// wrong types.
pub(crate) fn init_callback_bad_params(contract_addr: HumanAddr, code_hash: String) -> (response:
    InitResponse)
    ensures
        response@ == (InitResponseView {
            messages: seq![
                execute_view(contract_addr@, code_hash@, bad_params_call(), Seq::empty()),
            ],
            log: Seq::empty(),
        }),
{
    InitResponse::of(
        one_message(
            execute(
                contract_addr,
                code_hash,
                bytes_of("{\"c\":{\"x\":\"banana\",\"y\":3}}"),
                no_coins(),
            ),
        ),
        no_log(),
    )
}

/// Answers an instantiation by asking for a call to `c`.
pub(crate) fn init_with_callback<Q: Querier>(
    _deps: &mut Bridge<Q>,
    _env: Env,
    contract_addr: HumanAddr,
    code_hash: String,
) -> (response: InitResponse)
    ensures
        *final(_deps) == *old(_deps),
        response@ == (InitResponseView {
            messages: seq![
                execute_view(
                    contract_addr@,
                    code_hash@,
                    encode_utf8("{\"c\":{\"x\":0,\"y\":13}}"@),
                    Seq::empty(),
                ),
            ],
            log: seq![log_view("init with a callback", "🦄")],
        }),
{
    InitResponse::of(
        one_message(
            execute(contract_addr, code_hash, bytes_of("{\"c\":{\"x\":0,\"y\":13}}"), no_coins()),
        ),
        one_log("init with a callback", "🦄"),
    )
}

/// Answers an instantiation by asking for another one.
pub fn init_callback_to_init<Q: Querier>(
    _deps: &mut Bridge<Q>,
    _env: Env,
    code_id: u64,
    code_hash: String,
) -> (response: InitResponse)
    ensures
        *final(_deps) == *old(_deps),
        response@ == (InitResponseView {
            messages: seq![instantiate_view(code_id, code_hash@, nop_call(), Seq::empty())],
            log: seq![log_view("instantiating a new contract from init!", "🐙")],
        }),
{
    InitResponse::of(
        one_message(instantiate(code_id, code_hash, bytes_of("{\"nop\":{}}"), no_coins())),
        one_log("instantiating a new contract from init!", "🐙"),
    )
}

/// What the contract answers to its instantiation.
pub open spec fn init_spec(msg: InitMsg) -> Result<Result<InitResponseView, StdErrorView>, Trap> {
    match msg {
        InitMsg::Nop {  } => Ok(
            Ok(InitResponseView { messages: Seq::empty(), log: seq![log_view("init", "🌈")] }),
        ),
        InitMsg::Callback { contract_addr, code_hash } => Ok(
            Ok(
                InitResponseView {
                    messages: seq![
                        execute_view(
                            contract_addr@,
                            code_hash@,
                            encode_utf8("{\"c\":{\"x\":0,\"y\":13}}"@),
                            Seq::empty(),
                        ),
                    ],
                    log: seq![log_view("init with a callback", "🦄")],
                },
            ),
        ),
        InitMsg::ContractError { error_type } => Ok(Err(error_for(error_type@))),
        InitMsg::NoLogs {  } => Ok(
            Ok(InitResponseView { messages: Seq::empty(), log: Seq::empty() }),
        ),
        InitMsg::CallbackToInit { code_id, code_hash } => Ok(
            Ok(
                InitResponseView {
                    messages: seq![instantiate_view(code_id, code_hash@, nop_call(), Seq::empty())],
                    log: seq![log_view("instantiating a new contract from init!", "🐙")],
                },
            ),
        ),
        InitMsg::CallbackContractError { contract_addr, code_hash } => Ok(
            Ok(
                InitResponseView {
                    messages: seq![
                        execute_view(
                            contract_addr@,
                            code_hash@,
                            contract_error_call(),
                            Seq::empty(),
                        ),
                    ],
                    log: seq![log_view("init with a callback with contract error", "🤷‍♀️")],
                },
            ),
        ),
        InitMsg::CallbackBadParams { contract_addr, code_hash } => Ok(
            Ok(
                InitResponseView {
                    messages: seq![
                        execute_view(contract_addr@, code_hash@, bad_params_call(), Seq::empty()),
                    ],
                    log: Seq::empty(),
                },
            ),
        ),
        InitMsg::Panic {  } => Err(Trap::GuestPanic),
    }
}

/// Instantiates the contract. The bridge is not touched.
pub fn init<Q: Querier>(deps: &mut Bridge<Q>, env: Env, msg: InitMsg) -> (answer: Result<
    Result<InitResponse, StdError>,
    Trap,
>)
    ensures
        *final(deps) == *old(deps),
        answer_view(answer) == init_spec(msg),
{
    match msg {
        InitMsg::Nop {  } => Ok(Ok(InitResponse::of(no_messages(), one_log("init", "🌈")))),
        InitMsg::Callback { contract_addr, code_hash } => Ok(
            Ok(init_with_callback(deps, env, contract_addr, code_hash)),
        ),
        InitMsg::ContractError { error_type } => Ok(Err(map_string_to_error(error_type))),
        InitMsg::NoLogs {  } => Ok(Ok(InitResponse::default())),
        InitMsg::CallbackToInit { code_id, code_hash } => Ok(
            Ok(init_callback_to_init(deps, env, code_id, code_hash)),
        ),
        InitMsg::CallbackContractError { contract_addr, code_hash } => Ok(
            Ok(init_with_callback_contract_error(contract_addr, code_hash)),
        ),
        InitMsg::CallbackBadParams { contract_addr, code_hash } => Ok(
            Ok(init_callback_bad_params(contract_addr, code_hash)),
        ),
        InitMsg::Panic {  } => Err(Trap::GuestPanic),
    }
}

/// Migrates the contract: nothing happens.
pub fn migrate<Q: Querier>(_deps: &mut Bridge<Q>, _env: Env, _msg: MigrateMsg) -> (answer: Result<
    MigrateResponse,
    StdError,
>)
    ensures
        *final(_deps) == *old(_deps),
        answer is Ok,
        answer->Ok_0@ == crate::types::no_response(),
{
    Ok(MigrateResponse::default())
}

/// The message with which `a` calls `b`.
pub open spec fn a_call(contract_addr: Seq<char>, code_hash: Seq<char>, x: u8, y: u8) -> Seq<u8> {
    encode_utf8("{\"b\":{\"x\":"@) + decimal(x as nat) + encode_utf8(" ,\"y\": "@) + decimal(
        y as nat,
    ) + encode_utf8(",\"contract_addr\": \""@) + encode_utf8(contract_addr) + encode_utf8(
        "\",\"code_hash\": \""@,
    ) + encode_utf8(code_hash) + encode_utf8("\" }}"@)
}

/// The message with which `b` calls `c`.
pub open spec fn b_call(x: u8, y: u8) -> Seq<u8> {
    encode_utf8("{\"c\":{\"x\":"@) + decimal((x + 1) as nat) + encode_utf8(" ,\"y\": "@)
        + decimal((y + 1) as nat) + encode_utf8(" }}"@)
}

/// What `a` answers.
pub open spec fn a_spec(contract_addr: Seq<char>, code_hash: Seq<char>, x: u8, y: u8) -> HandleResponseView {
    HandleResponseView {
        messages: seq![
            execute_view(contract_addr, code_hash, a_call(contract_addr, code_hash, x, y), Seq::empty()),
        ],
        log: seq![log_view("banana", "🍌")],
        data: Some(seq![x, y]),
    }
}

/// What `b` answers.
pub open spec fn b_spec(contract_addr: Seq<char>, code_hash: Seq<char>, x: u8, y: u8) -> HandleResponseView {
    HandleResponseView {
        messages: seq![execute_view(contract_addr, code_hash, b_call(x, y), Seq::empty())],
        log: seq![log_view("kiwi", "🥝")],
        data: Some(seq![(x + y) as u8]),
    }
}

/// What `c` answers.
pub open spec fn c_spec(x: u8, y: u8) -> HandleResponseView {
    HandleResponseView {
        messages: Seq::empty(),
        log: seq![log_view("watermelon", "🍉")],
        data: Some(seq![(x + y) as u8]),
    }
}

/// A list of bytes.
fn bytes1(first: u8) -> (data: Vec<u8>)
    ensures
        data@ == seq![first],
{
    let mut data: Vec<u8> = Vec::new();
    data.push(first);
    proof {
        assert(data@ =~= seq![first]);
    }
    data
}

/// First link of a chain of calls: asks for a call to `b`.
pub fn a<Q: Querier>(
    _deps: &mut Bridge<Q>,
    _env: Env,
    contract_addr: HumanAddr,
    code_hash: String,
    x: u8,
    y: u8,
) -> (response: HandleResponse)
    ensures
        *final(_deps) == *old(_deps),
        response@ == a_spec(contract_addr@, code_hash@, x, y),
{
    let mut msg = bytes_of("{\"b\":{\"x\":");
    append(&mut msg, decimal_u8(x).as_slice());
    append(&mut msg, " ,\"y\": ".as_bytes());
    append(&mut msg, decimal_u8(y).as_slice());
    append(&mut msg, ",\"contract_addr\": \"".as_bytes());
    append(&mut msg, contract_addr.0.as_str().as_bytes());
    append(&mut msg, "\",\"code_hash\": \"".as_bytes());
    append(&mut msg, code_hash.as_str().as_bytes());
    append(&mut msg, "\" }}".as_bytes());
    let mut data = bytes1(x);
    data.push(y);
    proof {
        assert(data@ =~= seq![x, y]);
    }
    respond(
        one_message(execute(contract_addr, code_hash, msg, no_coins())),
        one_log("banana", "🍌"),
        Some(Binary(data)),
    )
}

/// Second link of a chain of calls: asks for a call to `c` with both
/// numbers raised by one, and answers with their sum.
pub fn b<Q: Querier>(
    _deps: &mut Bridge<Q>,
    _env: Env,
    contract_addr: HumanAddr,
    code_hash: String,
    x: u8,
    y: u8,
) -> (response: HandleResponse)
    requires
        x < 255,
        y < 255,
        x + y <= 255,
    ensures
        *final(_deps) == *old(_deps),
        response@ == b_spec(contract_addr@, code_hash@, x, y),
{
    let mut msg = bytes_of("{\"c\":{\"x\":");
    append(&mut msg, decimal_u8(x + 1).as_slice());
    append(&mut msg, " ,\"y\": ".as_bytes());
    append(&mut msg, decimal_u8(y + 1).as_slice());
    append(&mut msg, " }}".as_bytes());
    respond(
        one_message(execute(contract_addr, code_hash, msg, no_coins())),
        one_log("kiwi", "🥝"),
        Some(Binary(bytes1(x + y))),
    )
}

/// Last link of a chain of calls: answers with the sum of the numbers.
pub fn c<Q: Querier>(_deps: &mut Bridge<Q>, _env: Env, x: u8, y: u8) -> (response: HandleResponse)
    requires
        x + y <= 255,
    ensures
        *final(_deps) == *old(_deps),
        response@ == c_spec(x, y),
{
    respond(no_messages(), one_log("watermelon", "🍉"), Some(Binary(bytes1(x + y))))
}

/// A log of two attributes, one without a value and one without a key.
pub open spec fn empty_log_key_value_spec() -> HandleResponseView {
    HandleResponseView {
        messages: Seq::empty(),
        log: seq![log_view("my value is empty", ""), log_view("", "my key is empty")],
        data: None,
    }
}

/// Answers with a log whose attributes lack a value or a key.
pub fn empty_log_key_value<Q: Querier>(_deps: &mut Bridge<Q>, _env: Env) -> (response:
    HandleResponse)
    ensures
        *final(_deps) == *old(_deps),
        response@ == empty_log_key_value_spec(),
{
    let mut attributes = one_log("my value is empty", "");
    let ghost first = attributes@;
    attributes.push(log("", "my key is empty"));
    proof {
        assert(log_views(first).len() == 1);
        assert(log_views(first)[0] == first[0]@);
        assert(log_views(attributes@) =~= seq![
            log_view("my value is empty", ""),
            log_view("", "my key is empty"),
        ]);
    }
    respond(no_messages(), attributes, None)
}

/// A response whose data is there and empty.
pub open spec fn empty_data_spec() -> HandleResponseView {
    HandleResponseView { messages: Seq::empty(), log: Seq::empty(), data: Some(Seq::empty()) }
}

/// Answers with data that is there and empty.
pub fn empty_data<Q: Querier>(_deps: &mut Bridge<Q>, _env: Env) -> (response: HandleResponse)
    ensures
        *final(_deps) == *old(_deps),
        response@ == empty_data_spec(),
{
    respond(no_messages(), no_log(), Some(Binary(Vec::new())))
}

/// A response whose data is text beyond ASCII.
pub open spec fn unicode_data_spec() -> HandleResponseView {
    HandleResponseView {
        messages: Seq::empty(),
        log: Seq::empty(),
        data: Some(encode_utf8("🍆🥑🍄"@)),
    }
}

/// Answers with data that is text beyond ASCII.
pub fn unicode_data<Q: Querier>(_deps: &mut Bridge<Q>, _env: Env) -> (response: HandleResponse)
    ensures
        *final(_deps) == *old(_deps),
        response@ == unicode_data_spec(),
{
    respond(no_messages(), no_log(), Some(Binary(bytes_of("🍆🥑🍄"))))
}

/// Answers with nothing at all.
pub fn no_data<Q: Querier>(_deps: &mut Bridge<Q>, _env: Env) -> (response: HandleResponse)
    ensures
        *final(_deps) == *old(_deps),
        response@ == crate::types::no_response(),
{
    respond(no_messages(), no_log(), None)
}

/// A response that asks for the instantiation of a contract.
pub open spec fn exec_callback_to_init_spec(code_id: u64, code_hash: Seq<char>) -> HandleResponseView {
    HandleResponseView {
        messages: seq![instantiate_view(code_id, code_hash, nop_call(), Seq::empty())],
        log: seq![log_view("instantiating a new contract", "🪂")],
        data: None,
    }
}

/// Answers a call by asking for the instantiation of a contract.
pub fn exec_callback_to_init<Q: Querier>(
    _deps: &mut Bridge<Q>,
    _env: Env,
    code_id: u64,
    code_hash: String,
) -> (response: HandleResponse)
    ensures
        *final(_deps) == *old(_deps),
        response@ == exec_callback_to_init_spec(code_id, code_hash@),
{
    respond(
        one_message(instantiate(code_id, code_hash, bytes_of("{\"nop\":{}}"), no_coins())),
        one_log("instantiating a new contract", "🪂"),
        None,
    )
}

/// A response that asks for a call with parameters of the wrong types.
pub open spec fn exec_callback_bad_params_spec(contract_addr: Seq<char>, code_hash: Seq<char>) -> HandleResponseView {
    HandleResponseView {
        messages: seq![execute_view(contract_addr, code_hash, bad_params_call(), Seq::empty())],
        log: Seq::empty(),
        data: None,
    }
}

/// Answers a call by asking for a call with parameters of the wrong types.
pub(crate) fn exec_callback_bad_params(contract_addr: HumanAddr, code_hash: String) -> (response:
    HandleResponse)
    ensures
        response@ == exec_callback_bad_params_spec(contract_addr@, code_hash@),
{
    respond(
        one_message(
            execute(
                contract_addr,
                code_hash,
                bytes_of("{\"c\":{\"x\":\"banana\",\"y\":3}}"),
                no_coins(),
            ),
        ),
        no_log(),
        None,
    )
}

/// A response that asks for a call that will fail.
pub open spec fn exec_with_callback_contract_error_spec(
    contract_addr: Seq<char>,
    code_hash: Seq<char>,
) -> HandleResponseView {
    HandleResponseView {
        messages: seq![execute_view(contract_addr, code_hash, contract_error_call(), Seq::empty())],
        log: seq![log_view("exec with a callback with contract error", "🤷‍♂️")],
        data: None,
    }
}

/// Answers a call by asking for a call that will fail.
pub(crate) fn exec_with_callback_contract_error(
    contract_addr: HumanAddr,
    code_hash: String,
) -> (response: HandleResponse)
    ensures
        response@ == exec_with_callback_contract_error_spec(contract_addr@, code_hash@),
{
    respond(
        one_message(
            execute(
                contract_addr,
                code_hash,
                bytes_of("{\"contract_error\":{\"error_type\":\"generic_err\"}}"),
                no_coins(),
            ),
        ),
        one_log("exec with a callback with contract error", "🤷‍♂️"),
        None,
    )
}

/// A response, or the trap in its place, as an answer.
pub open spec fn lifted(response: Result<HandleResponseView, Trap>) -> Result<
    Result<HandleResponseView, StdErrorView>,
    Trap,
> {
    match response {
        Ok(response) => Ok(Ok(response)),
        Err(trap) => Err(trap),
    }
}

/// One coin of the given amount and denomination.
pub open spec fn coin_view(amount: u32, denom: Seq<char>) -> Seq<CoinView> {
    seq![CoinView { denom, amount: amount as u128 }]
}

/// What the contract answers to the calls that leave the bridge alone.
/// It is `None` for the calls that reach into the bridge.
pub open spec fn handle_plain_spec(env: Env, msg: HandleMsg) -> Option<
    Result<Result<HandleResponseView, StdErrorView>, Trap>,
> {
    match msg {
        HandleMsg::A { contract_addr, code_hash, x, y } => Some(
            Ok(Ok(a_spec(contract_addr@, code_hash@, x, y))),
        ),
        HandleMsg::B { contract_addr, code_hash, x, y } => Some(
            if x < 255 && y < 255 && x + y <= 255 {
                Ok(Ok(b_spec(contract_addr@, code_hash@, x, y)))
            } else {
                Err(Trap::GuestPanic)
            },
        ),
        HandleMsg::C { x, y } => Some(
            if x + y <= 255 {
                Ok(Ok(c_spec(x, y)))
            } else {
                Err(Trap::GuestPanic)
            },
        ),
        HandleMsg::UnicodeData {  } => Some(Ok(Ok(unicode_data_spec()))),
        HandleMsg::EmptyLogKeyValue {  } => Some(Ok(Ok(empty_log_key_value_spec()))),
        HandleMsg::EmptyData {  } => Some(Ok(Ok(empty_data_spec()))),
        HandleMsg::NoData {  } => Some(Ok(Ok(crate::types::no_response()))),
        HandleMsg::ContractError { error_type } => Some(Ok(Err(error_for(error_type@)))),
        HandleMsg::NoLogs {  } => Some(Ok(Ok(crate::types::no_response()))),
        HandleMsg::CallbackToInit { code_id, code_hash } => Some(
            Ok(Ok(exec_callback_to_init_spec(code_id, code_hash@))),
        ),
        HandleMsg::CallbackBadParams { contract_addr, code_hash } => Some(
            Ok(Ok(exec_callback_bad_params_spec(contract_addr@, code_hash@))),
        ),
        HandleMsg::CallbackContractError { contract_addr, code_hash } => Some(
            Ok(Ok(exec_with_callback_contract_error_spec(contract_addr@, code_hash@))),
        ),
        HandleMsg::Panic {  } => Some(Err(Trap::GuestPanic)),
        HandleMsg::CallbackToLogMsgSender { to, code_hash } => Some(
            Ok(
                Ok(
                    HandleResponseView {
                        messages: seq![
                            execute_view(
                                to@,
                                code_hash@,
                                encode_utf8("{\"log_msg_sender\":{}}"@),
                                Seq::empty(),
                            ),
                        ],
                        log: seq![log_view("hi", "hey")],
                        data: None,
                    },
                ),
            ),
        ),
        HandleMsg::DepositToContract {  } => Some(
            match coins_json(coin_views(env.message.sent_funds@)) {
                Some(json) => Ok(
                    Ok(
                        HandleResponseView {
                            messages: Seq::empty(),
                            log: Seq::empty(),
                            data: Some(json),
                        },
                    ),
                ),
                None => Err(Trap::GuestPanic),
            },
        ),
        HandleMsg::SendFunds { amount, denom, to, from } => Some(
            Ok(
                Ok(
                    HandleResponseView {
                        messages: seq![
                            CosmosMsgView::Send {
                                from_address: from@,
                                to_address: to@,
                                amount: coin_view(amount, denom@),
                            },
                        ],
                        log: Seq::empty(),
                        data: None,
                    },
                ),
            ),
        ),
        HandleMsg::SendFundsToInitCallback { amount, denom, code_id } => Some(
            Ok(
                Ok(
                    HandleResponseView {
                        messages: seq![
                            instantiate_view(
                                code_id,
                                Seq::empty(),
                                nop_call(),
                                coin_view(amount, denom@),
                            ),
                        ],
                        log: Seq::empty(),
                        data: None,
                    },
                ),
            ),
        ),
        HandleMsg::SendFundsToExecCallback { amount, denom, to } => Some(
            Ok(
                Ok(
                    HandleResponseView {
                        messages: seq![
                            execute_view(
                                to@,
                                Seq::empty(),
                                encode_utf8("{\"no_data\":{}}"@),
                                coin_view(amount, denom@),
                            ),
                        ],
                        log: Seq::empty(),
                        data: None,
                    },
                ),
            ),
        ),
        _ => None,
    }
}

/// Whether a call leaves the bridge alone.
pub open spec fn is_plain(msg: HandleMsg) -> bool {
    !(msg is SetState || msg is GetState || msg is RemoveState
        || msg is TestCanonicalizeAddressErrors || msg is AllocateOnHeap
        || msg is PassNullPointerToImportsShouldThrow || msg is LogMsgSender
        || msg is SendExternalQuery || msg is SendExternalQueryPanic
        || msg is SendExternalQueryError || msg is SendExternalQueryBadAbi
        || msg is SendExternalQueryBadAbiReceiver)
}

/// Handles a call that leaves the bridge alone.
fn handle_plain<Q: Querier>(deps: &mut Bridge<Q>, env: Env, msg: HandleMsg) -> (answer: Result<
    Result<HandleResponse, StdError>,
    Trap,
>)
    requires
        is_plain(msg),
    ensures
        *final(deps) == *old(deps),
        handle_plain_spec(env, msg) == Some(answer_view(answer)),
{
    match msg {
        HandleMsg::A { contract_addr, code_hash, x, y } => Ok(
            Ok(a(deps, env, contract_addr, code_hash, x, y)),
        ),
        HandleMsg::B { contract_addr, code_hash, x, y } => {
            if x == 255 || y == 255 || x > 255 - y {
                return Err(Trap::GuestPanic);
            }
            Ok(Ok(b(deps, env, contract_addr, code_hash, x, y)))
        },
        HandleMsg::C { x, y } => {
            if x > 255 - y {
                return Err(Trap::GuestPanic);
            }
            Ok(Ok(c(deps, env, x, y)))
        },
        HandleMsg::UnicodeData {  } => Ok(Ok(unicode_data(deps, env))),
        HandleMsg::EmptyLogKeyValue {  } => Ok(Ok(empty_log_key_value(deps, env))),
        HandleMsg::EmptyData {  } => Ok(Ok(empty_data(deps, env))),
        HandleMsg::NoData {  } => Ok(Ok(no_data(deps, env))),
        HandleMsg::ContractError { error_type } => Ok(Err(map_string_to_error(error_type))),
        HandleMsg::NoLogs {  } => Ok(Ok(HandleResponse::default())),
        HandleMsg::Panic {  } => Err(Trap::GuestPanic),
        HandleMsg::CallbackToInit { code_id, code_hash } => Ok(
            Ok(exec_callback_to_init(deps, env, code_id, code_hash)),
        ),
        HandleMsg::CallbackBadParams { contract_addr, code_hash } => Ok(
            Ok(exec_callback_bad_params(contract_addr, code_hash)),
        ),
        HandleMsg::CallbackContractError { contract_addr, code_hash } => Ok(
            Ok(exec_with_callback_contract_error(contract_addr, code_hash)),
        ),
        HandleMsg::CallbackToLogMsgSender { to, code_hash } => Ok(
            Ok(
                respond(
                    one_message(
                        execute(to, code_hash, bytes_of("{\"log_msg_sender\":{}}"), no_coins()),
                    ),
                    one_log("hi", "hey"),
                    None,
                ),
            ),
        ),
        HandleMsg::DepositToContract {  } => match to_json_coins(&env.message.sent_funds) {
            Some(json) => Ok(Ok(respond(no_messages(), no_log(), Some(Binary(json))))),
            None => Err(Trap::GuestPanic),
        },
        HandleMsg::SendFunds { amount, from, to, denom } => Ok(
            Ok(
                respond(
                    one_message(
                        CosmosMsg::Bank(
                            crate::types::BankMsg::Send {
                                from_address: from,
                                to_address: to,
                                amount: one_coin(amount, denom),
                            },
                        ),
                    ),
                    no_log(),
                    None,
                ),
            ),
        ),
        HandleMsg::SendFundsToInitCallback { amount, denom, code_id } => Ok(
            Ok(
                respond(
                    one_message(
                        instantiate(
                            code_id,
                            String::new(),
                            bytes_of("{\"nop\":{}}"),
                            one_coin(amount, denom),
                        ),
                    ),
                    no_log(),
                    None,
                ),
            ),
        ),
        HandleMsg::SendFundsToExecCallback { amount, denom, to } => Ok(
            Ok(
                respond(
                    one_message(
                        execute(
                            to,
                            String::new(),
                            bytes_of("{\"no_data\":{}}"),
                            one_coin(amount, denom),
                        ),
                    ),
                    no_log(),
                    None,
                ),
            ),
        ),
        _ => Err(Trap::GuestPanic),
    }
}

/// Handles a call to the contract.
///
/// A call that reaches into the bridge leaves it in the state that the
/// bridge's own operations give. A call that sends a query ends as the
/// query service's reply decides. Every other call leaves the bridge as it
/// was.
pub fn handle<Q: Querier>(deps: &mut Bridge<Q>, env: Env, msg: HandleMsg) -> (answer: Result<
    Result<HandleResponse, StdError>,
    Trap,
>)
    requires
        old(deps).wf(),
    ensures
        final(deps).wf(),
        final(deps).config() == old(deps).config(),
        match msg {
            HandleMsg::SetState { key, value } => final(deps).follows(
                old(deps),
                storage_write_spec(
                    old(deps).config(),
                    old(deps).state(),
                    state_key(key@),
                    encode_utf8(value@),
                ).0,
            ) && answer_view(answer) == lifted(
                then_respond(
                    storage_write_spec(
                        old(deps).config(),
                        old(deps).state(),
                        state_key(key@),
                        encode_utf8(value@),
                    ).1,
                    crate::types::no_response(),
                ),
            ),
            HandleMsg::GetState { key } => final(deps).follows(
                old(deps),
                storage_read_spec(old(deps).config(), old(deps).state(), state_key(key@)).0,
            ) && answer_view(answer) == lifted(
                get_state_spec(old(deps).config(), old(deps).state(), key@),
            ),
            HandleMsg::RemoveState { key } => final(deps).follows(
                old(deps),
                storage_remove_spec(old(deps).config(), old(deps).state(), state_key(key@)).0,
            ) && answer_view(answer) == lifted(
                then_respond(
                    storage_remove_spec(old(deps).config(), old(deps).state(), state_key(key@)).1,
                    crate::types::no_response(),
                ),
            ),
            HandleMsg::TestCanonicalizeAddressErrors {  } => final(deps).follows(
                old(deps),
                address_test_spec(old(deps).config(), old(deps).state()).0,
            ) && answer_view(answer) == address_test_spec(
                old(deps).config(),
                old(deps).state(),
            ).1,
            HandleMsg::AllocateOnHeap { bytes } => final(deps).follows(
                old(deps),
                allocate_on_heap_spec(old(deps).state(), bytes).0,
            ) && answer_view(answer) == lifted(allocate_on_heap_spec(old(deps).state(), bytes).1),
            HandleMsg::PassNullPointerToImportsShouldThrow { pass_type } => final(deps).follows(
                old(deps),
                null_pointer_spec(old(deps).config(), old(deps).state(), pass_type@).0,
            ) && answer_view(answer) == lifted(
                null_pointer_spec(old(deps).config(), old(deps).state(), pass_type@).1,
            ),
            HandleMsg::LogMsgSender {  } => final(deps).follows(
                old(deps),
                humanize_call_spec(old(deps).config(), old(deps).state(), env.message.sender@).0,
            ) && answer_view(answer) == lifted(
                log_msg_sender_spec(old(deps).config(), old(deps).state(), env.message.sender@),
            ),
            HandleMsg::SendExternalQuery { to, code_hash } => exists|reply: Result<Seq<u8>, Seq<u8>>, gas_used: u64|
                final(deps).state() == (#[trigger] raw_query_spec(
                    old(deps).config(),
                    old(deps).state(),
                    smart_query(to@, code_hash@, receive_query("2")),
                    reply,
                    gas_used,
                )).0 && answer_view(answer) == send_external_query_end(
                    raw_query_spec(
                        old(deps).config(),
                        old(deps).state(),
                        smart_query(to@, code_hash@, receive_query("2")),
                        reply,
                        gas_used,
                    ).1,
                ),
            HandleMsg::SendExternalQueryPanic { to, code_hash } => exists|reply: Result<Seq<u8>, Seq<u8>>, gas_used: u64|
                final(deps).state() == (#[trigger] raw_query_spec(
                    old(deps).config(),
                    old(deps).state(),
                    smart_query(to@, code_hash@, encode_utf8("{\"panic\":{}}"@)),
                    reply,
                    gas_used,
                )).0 && answer_view(answer) == send_external_query_panic_end(
                    raw_query_spec(
                        old(deps).config(),
                        old(deps).state(),
                        smart_query(to@, code_hash@, encode_utf8("{\"panic\":{}}"@)),
                        reply,
                        gas_used,
                    ).1,
                ),
            HandleMsg::SendExternalQueryError { to, code_hash } => exists|reply: Result<Seq<u8>, Seq<u8>>, gas_used: u64|
                final(deps).state() == (#[trigger] raw_query_spec(
                    old(deps).config(),
                    old(deps).state(),
                    smart_query(to@, code_hash@, contract_error_call()),
                    reply,
                    gas_used,
                )).0 && answer_view(answer) == binary_query_end(
                    raw_query_spec(
                        old(deps).config(),
                        old(deps).state(),
                        smart_query(to@, code_hash@, contract_error_call()),
                        reply,
                        gas_used,
                    ).1,
                ),
            HandleMsg::SendExternalQueryBadAbi { to, code_hash } => exists|reply: Result<Seq<u8>, Seq<u8>>, gas_used: u64|
                final(deps).state() == (#[trigger] raw_query_spec(
                    old(deps).config(),
                    old(deps).state(),
                    smart_query(to@, code_hash@, bad_abi_query()),
                    reply,
                    gas_used,
                )).0 && answer_view(answer) == binary_query_end(
                    raw_query_spec(
                        old(deps).config(),
                        old(deps).state(),
                        smart_query(to@, code_hash@, bad_abi_query()),
                        reply,
                        gas_used,
                    ).1,
                ),
            HandleMsg::SendExternalQueryBadAbiReceiver { to, code_hash } => exists|reply: Result<Seq<u8>, Seq<u8>>, gas_used: u64|
                final(deps).state() == (#[trigger] raw_query_spec(
                    old(deps).config(),
                    old(deps).state(),
                    smart_query(to@, code_hash@, receive_query("25")),
                    reply,
                    gas_used,
                )).0 && answer_view(answer) == string_query_end(
                    raw_query_spec(
                        old(deps).config(),
                        old(deps).state(),
                        smart_query(to@, code_hash@, receive_query("25")),
                        reply,
                        gas_used,
                    ).1,
                ),
            _ => *final(deps) == *old(deps) && handle_plain_spec(env, msg) == Some(
                answer_view(answer),
            ),
        },
{
    match msg {
        HandleMsg::SetState { key, value } => Ok(Ok(set_state(deps, key, value)?)),
        HandleMsg::GetState { key } => Ok(Ok(get_state(deps, key)?)),
        HandleMsg::RemoveState { key } => Ok(Ok(remove_state(deps, key)?)),
        HandleMsg::TestCanonicalizeAddressErrors {  } => test_canonicalize_address_errors(deps),
        HandleMsg::AllocateOnHeap { bytes } => Ok(Ok(allocate_on_heap(deps, bytes)?)),
        HandleMsg::PassNullPointerToImportsShouldThrow { pass_type } => Ok(
            Ok(pass_null_pointer_to_imports_should_throw(deps, pass_type)?),
        ),
        HandleMsg::LogMsgSender {  } => Ok(Ok(log_msg_sender(deps, env)?)),
        HandleMsg::SendExternalQuery { to, code_hash } => send_external_query(deps, to, code_hash),
        HandleMsg::SendExternalQueryPanic { to, code_hash } => send_external_query_panic(
            deps,
            to,
            code_hash,
        ),
        HandleMsg::SendExternalQueryError { to, code_hash } => send_external_query_stderror(
            deps,
            to,
            code_hash,
        ),
        HandleMsg::SendExternalQueryBadAbi { to, code_hash } => send_external_query_bad_abi(
            deps,
            to,
            code_hash,
        ),
        HandleMsg::SendExternalQueryBadAbiReceiver { to, code_hash } => {
            send_external_query_bad_abi_receiver(deps, to, code_hash)
        },
        plain => handle_plain(deps, env, plain),
    }
}

/// The JSON with which the contract answers a query for a number.
pub open spec fn receive_external_query_spec(num: u8) -> Result<
    Result<Seq<u8>, StdErrorView>,
    Trap,
> {
    if num == 255 {
        Err(Trap::GuestPanic)
    } else {
        Ok(Ok(decimal((num + 1) as nat)))
    }
}

/// Handles a query to the contract.
///
/// The queries for an error, a panic and a number leave the bridge alone.
/// The two that write to storage leave it as the storage operation does.
/// The one that queries itself ends as the query service's reply decides,
/// and with the depth trap in a context that stands at the ceiling.
pub fn query<Q: Querier>(deps: &mut Bridge<Q>, msg: QueryMsg) -> (answer: Result<
    Result<Binary, StdError>,
    Trap,
>)
    requires
        old(deps).wf(),
    ensures
        final(deps).wf(),
        final(deps).config() == old(deps).config(),
        match msg {
            QueryMsg::ContractError { error_type } => *final(deps) == *old(deps) && answer_view(
                answer,
            ) == Ok::<Result<Seq<u8>, StdErrorView>, Trap>(Err(error_for(error_type@))),
            QueryMsg::Panic {  } => *final(deps) == *old(deps) && answer == Err::<
                Result<Binary, StdError>,
                Trap,
            >(Trap::GuestPanic),
            QueryMsg::ReceiveExternalQuery { num } => *final(deps) == *old(deps) && answer_view(
                answer,
            ) == receive_external_query_spec(num),
            QueryMsg::SendExternalQueryInfiniteLoop { to, code_hash } => {
                &&& !crate::query::may_forward(old(deps).depth) ==> answer == Err::<
                    Result<Binary, StdError>,
                    Trap,
                >(Trap::QueryDepthExceeded) && final(deps).state() == old(deps).state()
                &&& exists|reply: Result<Seq<u8>, Seq<u8>>, gas_used: u64|
                    final(deps).state() == (#[trigger] raw_query_spec(
                        old(deps).config(),
                        old(deps).state(),
                        smart_query(to@, code_hash@, loop_query(to@, code_hash@)),
                        reply,
                        gas_used,
                    )).0 && answer_view(answer) == loop_query_end(
                        raw_query_spec(
                            old(deps).config(),
                            old(deps).state(),
                            smart_query(to@, code_hash@, loop_query(to@, code_hash@)),
                            reply,
                            gas_used,
                        ).1,
                    )
            },
            QueryMsg::WriteToStorage {  } => final(deps).follows(
                old(deps),
                storage_write_spec(
                    old(deps).config(),
                    old(deps).state(),
                    encode_utf8("abcd"@),
                    encode_utf8("dcba"@),
                ).0,
            ) && answer_view(answer) == wrote(
                storage_write_spec(
                    old(deps).config(),
                    old(deps).state(),
                    encode_utf8("abcd"@),
                    encode_utf8("dcba"@),
                ).1,
            ),
            QueryMsg::RemoveFromStorage {  } => final(deps).follows(
                old(deps),
                storage_remove_spec(old(deps).config(), old(deps).state(), encode_utf8("abcd"@)).0,
            ) && answer_view(answer) == wrote(
                storage_remove_spec(old(deps).config(), old(deps).state(), encode_utf8("abcd"@)).1,
            ),
        },
{
    match msg {
        QueryMsg::ContractError { error_type } => Ok(Err(map_string_to_error(error_type))),
        QueryMsg::Panic {  } => Err(Trap::GuestPanic),
        QueryMsg::ReceiveExternalQuery { num } => {
            if num == 255 {
                return Err(Trap::GuestPanic);
            }
            match to_json_u8(num + 1) {
                Some(json) => Ok(Ok(Binary(json))),
                None => Err(Trap::GuestPanic),
            }
        },
        QueryMsg::SendExternalQueryInfiniteLoop { to, code_hash } => {
            send_external_query_infinite_loop(deps, to, code_hash)
        },
        QueryMsg::WriteToStorage {  } => write_to_storage_in_query(deps),
        QueryMsg::RemoveFromStorage {  } => remove_from_storage_in_query(deps),
    }
}

} // verus!
