//! The handlers of the exercise contract that reach into the bridge:
//! storage, addresses, null pointers, the guest's heap and queries.

use vstd::prelude::*;
use vstd::string::*;
use vstd::utf8::{decode_utf8, encode_utf8, valid_utf8};
use crate::address::CANONICAL_LENGTH;
use crate::bridge::{
    canonicalize_call_spec, humanize_call_spec, query_begin_spec, query_finish_spec,
    storage_read_spec, storage_remove_spec, storage_write_spec, Bridge, HostConfig, HostState,
    QueryStep,
};
use crate::bytes::join;
use crate::contract::{no_log, no_messages, one_log};
use crate::imports::{
    canonicalize_address_spec, db_read_spec, db_remove_spec, db_write_spec,
    humanize_address_spec, WasmiApi,
};
use crate::json::{
    from_json_binary, from_json_string, from_json_u8, json_binary, json_string, json_u8,
    text_from_utf8,
};
use crate::memory::{carve_spec, pointer_of, to_pointer};
use crate::query::{
    encode_request, outcome_of, request_bytes, Querier, QueryError, QueryOutcome, QueryRequest,
    QueryRequestView,
};
use crate::text::{bytes_of, equals};
use crate::trap::{HostResult, Trap};
use crate::types::{
    answer_view, generic_err, generic_err_view, invalid_utf8, no_response, respond,
    Binary, CanonicalAddr, Env, HandleResponse, HandleResponseView, HumanAddr, StdError,
    StdErrorView,
};

verus! {

/// A namespace as a key prefix: its length as two big-endian bytes, then
/// the namespace itself.
pub open spec fn length_prefixed(namespace: Seq<u8>) -> Seq<u8> {
    seq![(namespace.len() / 256) as u8, (namespace.len() % 256) as u8] + namespace
}

/// Calls `cosmwasm_storage::to_length_prefixed`. Trusted: the result is
/// the namespace behind its length as two big-endian bytes. The call
/// panics on a namespace of more than 0xFFFF bytes.
#[verifier::external_body]
fn to_length_prefixed(namespace: &[u8]) -> (prefix: Vec<u8>)
    requires
        namespace@.len() <= 0xFFFF,
    ensures
        prefix@ == length_prefixed(namespace@),
{
    cosmwasm_storage::to_length_prefixed(namespace)
}

/// The key under which the contract keeps the piece of state that it
/// calls `key`: all of its state lives in the namespace `my_prefix`.
pub open spec fn state_key(key: Seq<char>) -> Seq<u8> {
    length_prefixed(encode_utf8("my_prefix"@)) + encode_utf8(key)
}

/// Builds the key under which the contract keeps a piece of its state.
fn state_key_of(key: &String) -> (full: Vec<u8>)
    ensures
        full@ == state_key(key@),
{
    let namespace = "my_prefix";
    proof {
        reveal_strlit("my_prefix");
        assert(is_ascii(namespace));
        is_ascii_spec_bytes(namespace);
    }
    let prefix = to_length_prefixed(namespace.as_bytes());
    join(prefix.as_slice(), key.as_str().as_bytes())
}

/// A host call's end seen from the contract: a trap ends the contract, and
/// anything else lets it answer with the given response.
pub open spec fn then_respond<T>(done: Result<T, Trap>, response: HandleResponseView) -> Result<
    HandleResponseView,
    Trap,
> {
    match done {
        Ok(_) => Ok(response),
        Err(trap) => Err(trap),
    }
}

/// Keeps a piece of state.
pub(crate) fn set_state<Q: Querier>(deps: &mut Bridge<Q>, key: String, value: String) -> (response:
    Result<HandleResponse, Trap>)
    requires
        old(deps).wf(),
    ensures
        final(deps).follows(
            old(deps),
            storage_write_spec(
                old(deps).config(),
                old(deps).state(),
                state_key(key@),
                encode_utf8(value@),
            ).0,
        ),
        response_view(response) == then_respond(
            storage_write_spec(
                old(deps).config(),
                old(deps).state(),
                state_key(key@),
                encode_utf8(value@),
            ).1,
            no_response(),
        ),
{
    let full = state_key_of(&key);
    deps.storage_write(full.as_slice(), value.as_str().as_bytes())?;
    Ok(HandleResponse::default())
}

/// A response or the trap in its place, as plain values.
pub open spec fn response_view(response: Result<HandleResponse, Trap>) -> Result<
    HandleResponseView,
    Trap,
> {
    match response {
        Ok(response) => Ok(response@),
        Err(trap) => Err(trap),
    }
}

/// What the contract answers when asked for a piece of its state: the
/// value as data, or an empty response where there is none.
pub open spec fn get_state_spec(config: HostConfig, state: HostState, key: Seq<char>) -> Result<
    HandleResponseView,
    Trap,
> {
    match storage_read_spec(config, state, state_key(key)).1 {
        Err(trap) => Err(trap),
        Ok(None) => Ok(no_response()),
        Ok(Some(value)) => Ok(
            HandleResponseView { messages: Seq::empty(), log: Seq::empty(), data: Some(value) },
        ),
    }
}

/// Looks up a piece of state.
pub(crate) fn get_state<Q: Querier>(deps: &mut Bridge<Q>, key: String) -> (response: Result<
    HandleResponse,
    Trap,
>)
    requires
        old(deps).wf(),
    ensures
        final(deps).follows(
            old(deps),
            storage_read_spec(old(deps).config(), old(deps).state(), state_key(key@)).0,
        ),
        response_view(response) == get_state_spec(old(deps).config(), old(deps).state(), key@),
{
    let full = state_key_of(&key);
    match deps.storage_read(full.as_slice())? {
        Some(value) => Ok(respond(no_messages(), no_log(), Some(Binary(value)))),
        None => Ok(HandleResponse::default()),
    }
}

/// Forgets a piece of state.
pub(crate) fn remove_state<Q: Querier>(deps: &mut Bridge<Q>, key: String) -> (response: Result<
    HandleResponse,
    Trap,
>)
    requires
        old(deps).wf(),
    ensures
        final(deps).follows(
            old(deps),
            storage_remove_spec(old(deps).config(), old(deps).state(), state_key(key@)).0,
        ),
        response_view(response) == then_respond(
            storage_remove_spec(old(deps).config(), old(deps).state(), state_key(key@)).1,
            no_response(),
        ),
{
    let full = state_key_of(&key);
    deps.storage_remove(full.as_slice())?;
    Ok(HandleResponse::default())
}

/// What a contract sees of a failed address conversion: whatever the
/// fault, one generic error.
pub open spec fn address_error_view() -> StdErrorView {
    generic_err_view("canonicalize_address returned error")
}

/// A conversion to a canonical address as a contract sees it.
pub open spec fn canonical_address_spec(config: HostConfig, state: HostState, human: Seq<char>) -> Result<
    Result<Seq<u8>, StdErrorView>,
    Trap,
> {
    match canonicalize_call_spec(config, state, encode_utf8(human)).1 {
        Err(trap) => Err(trap),
        Ok(Err(fault)) => Ok(Err(address_error_view())),
        Ok(Ok(canonical)) => Ok(Ok(canonical)),
    }
}

/// Asks the bridge for the canonical form of a human address.
pub fn canonical_address<Q: Querier>(deps: &mut Bridge<Q>, human: &HumanAddr) -> (canonical: Result<
    Result<CanonicalAddr, StdError>,
    Trap,
>)
    requires
        old(deps).wf(),
    ensures
        final(deps).follows(
            old(deps),
            canonicalize_call_spec(old(deps).config(), old(deps).state(), encode_utf8(human@)).0,
        ),
        crate::types::answer_view(canonical) == canonical_address_spec(
            old(deps).config(),
            old(deps).state(),
            human@,
        ),
{
    match deps.address_canonicalize(human.0.as_str().as_bytes())? {
        Ok(bytes) => Ok(Ok(CanonicalAddr(Binary(bytes)))),
        Err(_) => Ok(Err(generic_err("canonicalize_address returned error"))),
    }
}

/// How one step of the address test ends: with a trap, with a complaint
/// that the address was accepted, or well.
pub open spec fn refusal_spec(
    config: HostConfig,
    state: HostState,
    human: &str,
    complaint: &str,
) -> Result<Result<(), StdErrorView>, Trap> {
    match canonicalize_call_spec(config, state, encode_utf8(human@)).1 {
        Err(trap) => Err(trap),
        Ok(Err(fault)) => Ok(Ok(())),
        Ok(Ok(canonical)) => Ok(Err(generic_err_view(complaint))),
    }
}

/// The state after one step of the address test.
pub open spec fn refusal_state(config: HostConfig, state: HostState, human: &str) -> HostState {
    canonicalize_call_spec(config, state, encode_utf8(human@)).0
}

/// One step of the address test: the bridge must refuse `human`.
fn expect_refusal<Q: Querier>(deps: &mut Bridge<Q>, human: &str, complaint: &str) -> (step: Result<
    Result<(), StdError>,
    Trap,
>)
    requires
        old(deps).wf(),
    ensures
        final(deps).follows(old(deps), refusal_state(old(deps).config(), old(deps).state(), human)),
        match refusal_spec(old(deps).config(), old(deps).state(), human, complaint) {
            Err(trap) => step == Err::<Result<(), StdError>, Trap>(trap),
            Ok(Ok(_)) => step == Ok::<Result<(), StdError>, Trap>(Ok(())),
            Ok(Err(error)) => step is Ok && step->Ok_0 is Err && step->Ok_0->Err_0@ == error,
        },
{
    match canonical_address(deps, &HumanAddr(human.to_owned()))? {
        Err(StdError::GenericErr { msg }) => {
            if !equals(&msg, "canonicalize_address returned error") {
                return Ok(Err(generic_err(complaint)));
            }
            Ok(Ok(()))
        },
        _ => Ok(Err(generic_err(complaint))),
    }
}

/// The four addresses that the bridge must refuse, and the complaint for
/// each that it accepts.
pub open spec fn address_test_spec(config: HostConfig, state: HostState) -> (
    HostState,
    Result<Result<HandleResponseView, StdErrorView>, Trap>,
) {
    let first = refusal_state(config, state, "");
    let second = refusal_state(config, first, "   ");
    let third = refusal_state(config, second, "cosmos1h99hrcc54ms9lxxxx");
    let fourth = refusal_state(config, third, "cosmos1h99hrcc54ms9luwpex9kw0rwdt7etvfdyxh6gu");
    match refusal_spec(config, state, "", "empty address should have failed with -2") {
        Err(trap) => (first, Err(trap)),
        Ok(Err(error)) => (first, Ok(Err(error))),
        Ok(Ok(_)) => match refusal_spec(
            config,
            first,
            "   ",
            "empty trimmed address should have failed with -2",
        ) {
            Err(trap) => (second, Err(trap)),
            Ok(Err(error)) => (second, Ok(Err(error))),
            Ok(Ok(_)) => match refusal_spec(
                config,
                second,
                "cosmos1h99hrcc54ms9lxxxx",
                "bad bech32 should have failed with -3",
            ) {
                Err(trap) => (third, Err(trap)),
                Ok(Err(error)) => (third, Ok(Err(error))),
                Ok(Ok(_)) => match refusal_spec(
                    config,
                    third,
                    "cosmos1h99hrcc54ms9luwpex9kw0rwdt7etvfdyxh6gu",
                    "bad prefix should have failed with -4",
                ) {
                    Err(trap) => (fourth, Err(trap)),
                    Ok(Err(error)) => (fourth, Ok(Err(error))),
                    Ok(Ok(_)) => (
                        fourth,
                        Ok(
                            Ok(
                                HandleResponseView {
                                    messages: Seq::empty(),
                                    log: Seq::empty(),
                                    data: Some(encode_utf8("🤟"@)),
                                },
                            ),
                        ),
                    ),
                },
            },
        },
    }
}

/// Checks that the bridge refuses an empty address, a blank one, one with
/// a bad checksum and one of another network, each in turn.
pub(crate) fn test_canonicalize_address_errors<Q: Querier>(deps: &mut Bridge<Q>) -> (answer: Result<
    Result<HandleResponse, StdError>,
    Trap,
>)
    requires
        old(deps).wf(),
    ensures
        final(deps).follows(old(deps), address_test_spec(old(deps).config(), old(deps).state()).0),
        crate::types::answer_view(answer) == address_test_spec(
            old(deps).config(),
            old(deps).state(),
        ).1,
{
    match expect_refusal(deps, "", "empty address should have failed with -2")? {
        Err(error) => {
            return Ok(Err(error));
        },
        Ok(_) => {},
    }
    match expect_refusal(deps, "   ", "empty trimmed address should have failed with -2")? {
        Err(error) => {
            return Ok(Err(error));
        },
        Ok(_) => {},
    }
    match expect_refusal(
        deps,
        "cosmos1h99hrcc54ms9lxxxx",
        "bad bech32 should have failed with -3",
    )? {
        Err(error) => {
            return Ok(Err(error));
        },
        Ok(_) => {},
    }
    match expect_refusal(
        deps,
        "cosmos1h99hrcc54ms9luwpex9kw0rwdt7etvfdyxh6gu",
        "bad prefix should have failed with -4",
    )? {
        Err(error) => {
            return Ok(Err(error));
        },
        Ok(_) => {},
    }
    Ok(Ok(respond(no_messages(), no_log(), Some(Binary(bytes_of("🤟"))))))
}

/// The end of a host call seen from the contract that wanted it to trap:
/// the trap, or an empty response if the call came back.
pub open spec fn trapped_or_done(end: (HostState, HostResult)) -> (
    HostState,
    Result<HandleResponseView, Trap>,
) {
    (end.0, then_respond(end.1, no_response()))
}

/// The state after the contract laid `data` into a fresh region of its
/// memory, and the pointer to the region.
pub open spec fn offer_spec(state: HostState, data: Seq<u8>) -> Result<(HostState, i32), Trap> {
    match carve_spec(state.memory, state.frontier, data) {
        Err(trap) => Err(trap),
        Ok((memory, frontier)) => Ok(
            (HostState { memory, frontier, ..state }, pointer_of(state.frontier)),
        ),
    }
}

/// Lays `data` into a fresh region of guest memory, as a contract does
/// before it hands data to an import.
pub fn offer<Q: Querier>(deps: &mut Bridge<Q>, data: &[u8]) -> (ptr: Result<i32, Trap>)
    requires
        old(deps).wf(),
    ensures
        match offer_spec(old(deps).state(), data@) {
            Err(trap) => ptr == Err::<i32, Trap>(trap) && final(deps).follows(
                old(deps),
                old(deps).state(),
            ),
            Ok((state, pointer)) => ptr == Ok::<i32, Trap>(pointer) && final(deps).follows(
                old(deps),
                state,
            ),
        },
        ptr is Err ==> ptr == Err::<i32, Trap>(Trap::MemoryAccess),
{
    let address = deps.memory.carve(data)?;
    Ok(to_pointer(address))
}

/// A block of zero bytes.
pub open spec fn zeros(size: nat) -> Seq<u8> {
    Seq::new(size, |i: int| 0u8)
}

/// Makes a block of zero bytes.
fn zero_block(size: usize) -> (block: Vec<u8>)
    ensures
        block@ == zeros(size as nat),
{
    let mut block: Vec<u8> = Vec::new();
    let mut i: usize = 0;
    while i < size
        invariant
            i <= size,
            block@ == zeros(i as nat),
        decreases size - i,
    {
        block.push(0u8);
        proof {
            assert(block@ =~= zeros((i + 1) as nat));
        }
        i = i + 1;
    }
    block
}

/// The imports that the null-pointer test knows how to call.
pub open spec fn is_null_test(pass_type: Seq<char>) -> bool {
    ||| pass_type == "read_db_key"@
    ||| pass_type == "write_db_key"@
    ||| pass_type == "write_db_value"@
    ||| pass_type == "remove_db_key"@
    ||| pass_type == "canonicalize_address_input"@
    ||| pass_type == "humanize_address_input"@
}

/// What the null-pointer test does: it calls the import that `pass_type`
/// names with a null pointer in the named place, and a region of its own
/// in the other place.
pub open spec fn null_pointer_spec(config: HostConfig, state: HostState, pass_type: Seq<char>) -> (
    HostState,
    Result<HandleResponseView, Trap>,
) {
    if pass_type == "read_db_key"@ {
        trapped_or_done(db_read_spec(config, state, 0))
    } else if pass_type == "write_db_key"@ {
        match offer_spec(state, encode_utf8("write value"@)) {
            Err(trap) => (state, Err(trap)),
            Ok((offered, ptr)) => trapped_or_done(db_write_spec(config, offered, 0, ptr)),
        }
    } else if pass_type == "write_db_value"@ {
        match offer_spec(state, encode_utf8("write key"@)) {
            Err(trap) => (state, Err(trap)),
            Ok((offered, ptr)) => trapped_or_done(db_write_spec(config, offered, ptr, 0)),
        }
    } else if pass_type == "remove_db_key"@ {
        trapped_or_done(db_remove_spec(config, state, 0))
    } else if pass_type == "canonicalize_address_input"@ {
        match offer_spec(state, zeros(20)) {
            Err(trap) => (state, Err(trap)),
            Ok((offered, ptr)) => trapped_or_done(
                canonicalize_address_spec(config, offered, 0, ptr),
            ),
        }
    } else if pass_type == "humanize_address_input"@ {
        match offer_spec(state, zeros(90)) {
            Err(trap) => (state, Err(trap)),
            Ok((offered, ptr)) => trapped_or_done(humanize_address_spec(config, offered, 0, ptr)),
        }
    } else {
        (state, Ok(no_response()))
    }
}

/// Every import that the null-pointer test calls traps: with the memory
/// trap while gas is left, and never with a response.
pub proof fn lemma_null_pointers_trap(config: HostConfig, state: HostState, pass_type: Seq<char>)
    requires
        is_null_test(pass_type),
    ensures
        null_pointer_spec(config, state, pass_type).1 is Err,
        state.gas != 0 ==> null_pointer_spec(config, state, pass_type).1 == Err::<
            HandleResponseView,
            Trap,
        >(Trap::MemoryAccess),
        null_pointer_spec(config, state, pass_type).0.store == state.store,
        null_pointer_spec(config, state, pass_type).0.gas == state.gas,
{
}

/// Calls an import with a null pointer. The import is expected to trap.
pub(crate) fn pass_null_pointer_to_imports_should_throw<Q: Querier>(
    deps: &mut Bridge<Q>,
    pass_type: String,
) -> (response: Result<HandleResponse, Trap>)
    requires
        old(deps).wf(),
    ensures
        final(deps).follows(
            old(deps),
            null_pointer_spec(old(deps).config(), old(deps).state(), pass_type@).0,
        ),
        response_view(response) == null_pointer_spec(
            old(deps).config(),
            old(deps).state(),
            pass_type@,
        ).1,
        is_null_test(pass_type@) ==> response is Err,
{
    proof {
        if is_null_test(pass_type@) {
            lemma_null_pointers_trap(old(deps).config(), old(deps).state(), pass_type@);
        }
    }
    if equals(&pass_type, "read_db_key") {
        deps.db_read(0)?;
    } else if equals(&pass_type, "write_db_key") {
        let value = offer(deps, "write value".as_bytes())?;
        deps.db_write(0, value)?;
    } else if equals(&pass_type, "write_db_value") {
        let key = offer(deps, "write key".as_bytes())?;
        deps.db_write(key, 0)?;
    } else if equals(&pass_type, "remove_db_key") {
        deps.db_remove(0)?;
    } else if equals(&pass_type, "canonicalize_address_input") {
        let block = zero_block(CANONICAL_LENGTH);
        let target = offer(deps, block.as_slice())?;
        deps.canonicalize_address(0, target)?;
    } else if equals(&pass_type, "humanize_address_input") {
        let block = zero_block(90);
        let target = offer(deps, block.as_slice())?;
        deps.humanize_address(0, target)?;
    }
    Ok(HandleResponse::default())
}

/// A block of the guest's heap as the heap test fills it: zeros, and a
/// one in the last place.
pub open spec fn heap_block(size: nat) -> Seq<u8> {
    Seq::new(
        size,
        |i: int|
            if i == size - 1 {
                1u8
            } else {
                0u8
            },
    )
}

/// What the heap test does: it takes a block of `bytes` bytes from the
/// guest's memory. A block of no bytes has no last place to write to.
pub open spec fn allocate_on_heap_spec(state: HostState, bytes: u32) -> (
    HostState,
    Result<HandleResponseView, Trap>,
) {
    if bytes == 0 {
        (state, Err(Trap::GuestPanic))
    } else {
        match offer_spec(state, heap_block(bytes as nat)) {
            Err(trap) => (state, Err(trap)),
            Ok((offered, ptr)) => (
                offered,
                Ok(
                    HandleResponseView {
                        messages: Seq::empty(),
                        log: Seq::empty(),
                        data: Some(encode_utf8("😅"@)),
                    },
                ),
            ),
        }
    }
}

/// Takes a block of the guest's heap and writes to its last byte.
pub(crate) fn allocate_on_heap<Q: Querier>(deps: &mut Bridge<Q>, bytes: u32) -> (response: Result<
    HandleResponse,
    Trap,
>)
    requires
        old(deps).wf(),
    ensures
        final(deps).follows(old(deps), allocate_on_heap_spec(old(deps).state(), bytes).0),
        response_view(response) == allocate_on_heap_spec(old(deps).state(), bytes).1,
{
    if bytes == 0 {
        return Err(Trap::GuestPanic);
    }
    if bytes as usize > deps.memory.size() {
        return Err(Trap::MemoryAccess);
    }
    let mut values = zero_block(bytes as usize);
    values.set(bytes as usize - 1, 1u8);
    proof {
        assert(values@ =~= heap_block(bytes as nat));
    }
    offer(deps, values.as_slice())?;
    Ok(respond(no_messages(), no_log(), Some(Binary(bytes_of("😅")))))
}

/// A conversion to a human address as a contract sees it.
pub open spec fn human_address_spec(config: HostConfig, state: HostState, canonical: Seq<u8>) -> Result<
    Result<Seq<char>, StdErrorView>,
    Trap,
> {
    match humanize_call_spec(config, state, canonical).1 {
        Err(trap) => Err(trap),
        Ok(Err(fault)) => Ok(Err(generic_err_view("humanize_address returned error"))),
        Ok(Ok(text)) => if valid_utf8(text) {
            Ok(Ok(decode_utf8(text)))
        } else {
            Ok(Err(StdErrorView::InvalidUtf8 { msg: "humanize_address returned no text"@ }))
        },
    }
}

/// Asks the bridge for the human form of a canonical address.
pub fn human_address<Q: Querier>(deps: &mut Bridge<Q>, canonical: &CanonicalAddr) -> (human: Result<
    Result<HumanAddr, StdError>,
    Trap,
>)
    requires
        old(deps).wf(),
    ensures
        final(deps).follows(
            old(deps),
            humanize_call_spec(old(deps).config(), old(deps).state(), canonical@).0,
        ),
        answer_view(human) == human_address_spec(
            old(deps).config(),
            old(deps).state(),
            canonical@,
        ),
{
    match deps.address_humanize(canonical.0.0.as_slice())? {
        Err(_) => Ok(Err(generic_err("humanize_address returned error"))),
        Ok(bytes) => match text_from_utf8(bytes) {
            Some(text) => Ok(Ok(HumanAddr(text))),
            None => Ok(Err(invalid_utf8("humanize_address returned no text"))),
        },
    }
}

/// What the contract answers when asked who called it: the caller's
/// human address in the log. A caller without one ends the contract.
pub open spec fn log_msg_sender_spec(config: HostConfig, state: HostState, sender: Seq<u8>) -> Result<
    HandleResponseView,
    Trap,
> {
    match human_address_spec(config, state, sender) {
        Err(trap) => Err(trap),
        Ok(Err(error)) => Err(Trap::GuestPanic),
        Ok(Ok(text)) => Ok(
            HandleResponseView {
                messages: Seq::empty(),
                log: seq![crate::types::LogAttributeView { key: "msg.sender"@, value: text }],
                data: None,
            },
        ),
    }
}

/// Answers with the caller's human address in the log.
pub(crate) fn log_msg_sender<Q: Querier>(deps: &mut Bridge<Q>, env: Env) -> (response: Result<
    HandleResponse,
    Trap,
>)
    requires
        old(deps).wf(),
    ensures
        final(deps).follows(
            old(deps),
            humanize_call_spec(old(deps).config(), old(deps).state(), env.message.sender@).0,
        ),
        response_view(response) == log_msg_sender_spec(
            old(deps).config(),
            old(deps).state(),
            env.message.sender@,
        ),
{
    match human_address(deps, &env.message.sender)? {
        Err(_) => Err(Trap::GuestPanic),
        Ok(sender) => Ok(
            respond(no_messages(), one_log("msg.sender", sender.0.as_str()), None),
        ),
    }
}

/// The answer of a query that wrote or removed: empty bytes.
pub open spec fn wrote<T>(done: Result<T, Trap>) -> Result<Result<Seq<u8>, StdErrorView>, Trap> {
    match done {
        Ok(_) => Ok(Ok(Seq::empty())),
        Err(trap) => Err(trap),
    }
}

/// Writes to storage from within a query.
pub(crate) fn write_to_storage_in_query<Q: Querier>(deps: &mut Bridge<Q>) -> (answer: Result<
    Result<Binary, StdError>,
    Trap,
>)
    requires
        old(deps).wf(),
    ensures
        final(deps).follows(
            old(deps),
            storage_write_spec(
                old(deps).config(),
                old(deps).state(),
                encode_utf8("abcd"@),
                encode_utf8("dcba"@),
            ).0,
        ),
        answer_view(answer) == wrote(
            storage_write_spec(
                old(deps).config(),
                old(deps).state(),
                encode_utf8("abcd"@),
                encode_utf8("dcba"@),
            ).1,
        ),
{
    deps.storage_write("abcd".as_bytes(), "dcba".as_bytes())?;
    Ok(Ok(Binary(Vec::new())))
}

/// Removes from storage from within a query.
pub(crate) fn remove_from_storage_in_query<Q: Querier>(deps: &mut Bridge<Q>) -> (answer: Result<
    Result<Binary, StdError>,
    Trap,
>)
    requires
        old(deps).wf(),
    ensures
        final(deps).follows(
            old(deps),
            storage_remove_spec(old(deps).config(), old(deps).state(), encode_utf8("abcd"@)).0,
        ),
        answer_view(answer) == wrote(
            storage_remove_spec(old(deps).config(), old(deps).state(), encode_utf8("abcd"@)).1,
        ),
{
    deps.storage_remove("abcd".as_bytes())?;
    Ok(Ok(Binary(Vec::new())))
}

/// A query for a contract, as the contract states it.
pub open spec fn smart_query(contract_addr: Seq<char>, code_hash: Seq<char>, msg: Seq<u8>) -> QueryRequestView {
    QueryRequestView::Contract {
        contract_addr: encode_utf8(contract_addr),
        code_hash: encode_utf8(code_hash),
        msg,
    }
}

/// The error that a contract sees when the target of its query failed:
/// the target's own words where they are text.
pub open spec fn failure_view(reason: Seq<u8>) -> StdErrorView {
    StdErrorView::GenericErr {
        msg: if valid_utf8(reason) {
            decode_utf8(reason)
        } else {
            "query failed"@
        },
    }
}

/// What a contract gets for a query, given what the query service
/// replies: the answer's bytes, the target's failure as an error, or the
/// trap that ends the contract.
pub open spec fn raw_query_spec(
    config: HostConfig,
    state: HostState,
    request: QueryRequestView,
    reply: Result<Seq<u8>, Seq<u8>>,
    gas_used: u64,
) -> (HostState, Result<Result<Seq<u8>, StdErrorView>, Trap>) {
    let begun = query_begin_spec(config, state, request_bytes(request));
    match begun.1 {
        QueryStep::Trapped(trap) => (begun.0, Err(trap)),
        QueryStep::Refused => (begun.0, Ok(Err(generic_err_view("query refused")))),
        QueryStep::Dispatch { request: parsed, depth, gas_limit } => (
            query_finish_spec(begun.0, reply, gas_used).0,
            match query_finish_spec(begun.0, reply, gas_used).1 {
                Err(trap) => Err(trap),
                Ok(QueryOutcome::Answer(answer)) => Ok(Ok(answer)),
                Ok(QueryOutcome::Failed(reason)) => Ok(Err(failure_view(reason))),
                Ok(QueryOutcome::Malformed) => Ok(Err(generic_err_view("query refused"))),
            },
        ),
    }
}

/// The error for the failure of a query's target.
pub fn failure(reason: Vec<u8>) -> (error: StdError)
    ensures
        error@ == failure_view(reason@),
{
    match text_from_utf8(reason) {
        Some(text) => StdError::GenericErr { msg: text },
        None => generic_err("query failed"),
    }
}

/// What the forwarder hands back, seen from the contract.
pub open spec fn forwarded_view(answer: Result<Result<Vec<u8>, QueryError>, Trap>) -> Result<
    Result<Seq<u8>, StdErrorView>,
    Trap,
> {
    match answer {
        Err(trap) => Err(trap),
        Ok(answer) => match outcome_of(answer) {
            QueryOutcome::Answer(bytes) => Ok(Ok(bytes)),
            QueryOutcome::Failed(reason) => Ok(Err(failure_view(reason))),
            QueryOutcome::Malformed => Ok(Err(generic_err_view("query refused"))),
        },
    }
}

/// Turns what the forwarder hands back into what the contract sees.
pub fn settle_query(answer: Result<Result<Vec<u8>, QueryError>, Trap>) -> (raw: Result<
    Result<Vec<u8>, StdError>,
    Trap,
>)
    ensures
        answer_view(raw) == forwarded_view(answer),
{
    match answer {
        Err(trap) => Err(trap),
        Ok(Ok(bytes)) => Ok(Ok(bytes)),
        Ok(Err(QueryError::Failed(reason))) => Ok(Err(failure(reason))),
        Ok(Err(QueryError::Malformed)) => Ok(Err(generic_err("query refused"))),
    }
}

/// Sends a query to a contract and hands back the raw answer.
pub fn raw_query<Q: Querier>(
    deps: &mut Bridge<Q>,
    contract_addr: &HumanAddr,
    code_hash: &String,
    msg: Vec<u8>,
) -> (raw: Result<Result<Vec<u8>, StdError>, Trap>)
    requires
        old(deps).wf(),
    ensures
        final(deps).wf(),
        final(deps).config() == old(deps).config(),
        exists|reply: Result<Seq<u8>, Seq<u8>>, gas_used: u64|
            (final(deps).state(), answer_view(raw)) == #[trigger] raw_query_spec(
                old(deps).config(),
                old(deps).state(),
                smart_query(contract_addr@, code_hash@, msg@),
                reply,
                gas_used,
            ),
{
    let ghost config = deps.config();
    let ghost state = deps.state();
    let ghost nothing = Ok::<Seq<u8>, Seq<u8>>(Seq::<u8>::empty());
    let request = QueryRequest::Contract {
        contract_addr: bytes_of(contract_addr.0.as_str()),
        code_hash: bytes_of(code_hash.as_str()),
        msg,
    };
    let bytes = encode_request(&request);
    let ghost begun = query_begin_spec(config, state, bytes@);
    let answer = deps.forward_query(bytes.as_slice());
    let ghost asked = deps.state();
    let ghost seen = forwarded_view(answer);
    proof {
        if begun.1 is Dispatch {
            let (reply, gas_used) = choose|reply: Result<Seq<u8>, Seq<u8>>, gas_used: u64|
                {
                    &&& asked == (#[trigger] query_finish_spec(begun.0, reply, gas_used)).0
                    &&& match query_finish_spec(begun.0, reply, gas_used).1 {
                        Ok(outcome) => answer is Ok && outcome_of(answer->Ok_0) == outcome,
                        Err(trap) => answer == Err::<Result<Vec<u8>, QueryError>, Trap>(trap),
                    }
                };
            assert((asked, seen) == raw_query_spec(config, state, request@, reply, gas_used));
        } else {
            assert((asked, seen) == raw_query_spec(config, state, request@, nothing, 0));
        }
    }
    settle_query(answer)
}

/// The bytes of an answer read as a number.
pub open spec fn typed_u8(raw: Result<Seq<u8>, StdErrorView>) -> Result<u8, StdErrorView> {
    match raw {
        Err(error) => Err(error),
        Ok(json) => match json_u8(json) {
            Ok(n) => Ok(n),
            Err(text) => Err(StdErrorView::ParseErr { target: "u8"@, msg: text }),
        },
    }
}

/// The bytes of an answer read as bytes.
pub open spec fn typed_binary(raw: Result<Seq<u8>, StdErrorView>) -> Result<
    Seq<u8>,
    StdErrorView,
> {
    match raw {
        Err(error) => Err(error),
        Ok(json) => match json_binary(json) {
            Ok(bytes) => Ok(bytes),
            Err(text) => Err(
                StdErrorView::ParseErr { target: "cosmwasm_std::encoding::Binary"@, msg: text },
            ),
        },
    }
}

/// The bytes of an answer read as text.
pub open spec fn typed_string(raw: Result<Seq<u8>, StdErrorView>) -> Result<
    Seq<char>,
    StdErrorView,
> {
    match raw {
        Err(error) => Err(error),
        Ok(json) => match json_string(json) {
            Ok(text) => Ok(text),
            Err(text) => Err(StdErrorView::ParseErr { target: "alloc::string::String"@, msg: text }),
        },
    }
}

/// A raw answer as plain values.
pub open spec fn raw_view(raw: Result<Vec<u8>, StdError>) -> Result<Seq<u8>, StdErrorView> {
    match raw {
        Ok(bytes) => Ok(bytes@),
        Err(error) => Err(error@),
    }
}

/// Reads an answer as a number.
pub fn read_u8(raw: Result<Vec<u8>, StdError>) -> (typed: Result<u8, StdError>)
    ensures
        match typed_u8(raw_view(raw)) {
            Ok(n) => typed == Ok::<u8, StdError>(n),
            Err(error) => typed is Err && typed->Err_0@ == error,
        },
{
    match raw {
        Err(error) => Err(error),
        Ok(json) => match from_json_u8(json.as_slice()) {
            Ok(n) => Ok(n),
            Err(text) => Err(StdError::ParseErr { target: "u8".to_owned(), msg: text }),
        },
    }
}

/// Reads an answer as bytes.
pub fn read_binary(raw: Result<Vec<u8>, StdError>) -> (typed: Result<Binary, StdError>)
    ensures
        match typed_binary(raw_view(raw)) {
            Ok(bytes) => typed is Ok && typed->Ok_0@ == bytes,
            Err(error) => typed is Err && typed->Err_0@ == error,
        },
{
    match raw {
        Err(error) => Err(error),
        Ok(json) => match from_json_binary(json.as_slice()) {
            Ok(bytes) => Ok(Binary(bytes)),
            Err(text) => Err(
                StdError::ParseErr {
                    target: "cosmwasm_std::encoding::Binary".to_owned(),
                    msg: text,
                },
            ),
        },
    }
}

/// Reads an answer as text.
pub fn read_string(raw: Result<Vec<u8>, StdError>) -> (typed: Result<String, StdError>)
    ensures
        match typed_string(raw_view(raw)) {
            Ok(text) => typed is Ok && typed->Ok_0@ == text,
            Err(error) => typed is Err && typed->Err_0@ == error,
        },
{
    match raw {
        Err(error) => Err(error),
        Ok(json) => match from_json_string(json.as_slice()) {
            Ok(text) => Ok(text),
            Err(text) => Err(
                StdError::ParseErr { target: "alloc::string::String".to_owned(), msg: text },
            ),
        },
    }
}

/// A response that carries nothing but data.
pub open spec fn data_response(data: Seq<u8>) -> HandleResponseView {
    HandleResponseView { messages: Seq::empty(), log: Seq::empty(), data: Some(data) }
}

/// The query that asks a contract to add one to a number.
pub open spec fn receive_query(num: &str) -> Seq<u8> {
    encode_utf8("{\"receive_external_query\":{\"num\":"@) + encode_utf8(num@) + encode_utf8(
        "}}"@,
    )
}

/// The end of the plain external query: the contract insists on a number,
/// and answers with it as its data.
pub open spec fn send_external_query_end(raw: Result<Result<Seq<u8>, StdErrorView>, Trap>) -> Result<
    Result<HandleResponseView, StdErrorView>,
    Trap,
> {
    match raw {
        Err(trap) => Err(trap),
        Ok(raw) => match typed_u8(raw) {
            Err(error) => Err(Trap::GuestPanic),
            Ok(n) => Ok(Ok(data_response(seq![n]))),
        },
    }
}

/// The end of the external query that must fail: the contract insists on
/// an error, and hands it on.
pub open spec fn send_external_query_panic_end(
    raw: Result<Result<Seq<u8>, StdErrorView>, Trap>,
) -> Result<Result<HandleResponseView, StdErrorView>, Trap> {
    match raw {
        Err(trap) => Err(trap),
        Ok(raw) => match typed_u8(raw) {
            Err(error) => Ok(Err(error)),
            Ok(n) => Err(Trap::GuestPanic),
        },
    }
}

/// The end of an external query for bytes: the bytes as data, or the
/// error handed on.
pub open spec fn binary_query_end(raw: Result<Result<Seq<u8>, StdErrorView>, Trap>) -> Result<
    Result<HandleResponseView, StdErrorView>,
    Trap,
> {
    match raw {
        Err(trap) => Err(trap),
        Ok(raw) => match typed_binary(raw) {
            Err(error) => Ok(Err(error)),
            Ok(bytes) => Ok(Ok(data_response(bytes))),
        },
    }
}

/// The end of an external query for text: the text in the log, or the
/// error handed on.
pub open spec fn string_query_end(raw: Result<Result<Seq<u8>, StdErrorView>, Trap>) -> Result<
    Result<HandleResponseView, StdErrorView>,
    Trap,
> {
    match raw {
        Err(trap) => Err(trap),
        Ok(raw) => match typed_string(raw) {
            Err(error) => Ok(Err(error)),
            Ok(text) => Ok(
                Ok(
                    HandleResponseView {
                        messages: Seq::empty(),
                        log: seq![crate::types::LogAttributeView { key: "wtf"@, value: text }],
                        data: None,
                    },
                ),
            ),
        },
    }
}

/// The end of the query that queries itself: the inner answer's bytes, or
/// the error handed on.
pub open spec fn loop_query_end(raw: Result<Result<Seq<u8>, StdErrorView>, Trap>) -> Result<
    Result<Seq<u8>, StdErrorView>,
    Trap,
> {
    match raw {
        Err(trap) => Err(trap),
        Ok(raw) => Ok(typed_binary(raw)),
    }
}

/// Ends the plain external query, given what the query brought.
pub fn finish_send_external_query(raw: Result<Result<Vec<u8>, StdError>, Trap>) -> (answer: Result<
    Result<HandleResponse, StdError>,
    Trap,
>)
    ensures
        answer_view(answer) == send_external_query_end(answer_view(raw)),
{
    match read_u8(raw?) {
        Err(_) => Err(Trap::GuestPanic),
        Ok(n) => {
            let mut data: Vec<u8> = Vec::new();
            data.push(n);
            proof {
                assert(data@ =~= seq![n]);
            }
            Ok(Ok(respond(no_messages(), no_log(), Some(Binary(data)))))
        },
    }
}

/// Ends the external query that must fail, given what the query brought.
pub fn finish_send_external_query_panic(raw: Result<Result<Vec<u8>, StdError>, Trap>) -> (answer:
    Result<Result<HandleResponse, StdError>, Trap>)
    ensures
        answer_view(answer) == send_external_query_panic_end(answer_view(raw)),
{
    match read_u8(raw?) {
        Err(error) => Ok(Err(error)),
        Ok(_) => Err(Trap::GuestPanic),
    }
}

/// Ends an external query for bytes, given what the query brought.
pub fn finish_binary_query(raw: Result<Result<Vec<u8>, StdError>, Trap>) -> (answer: Result<
    Result<HandleResponse, StdError>,
    Trap,
>)
    ensures
        answer_view(answer) == binary_query_end(answer_view(raw)),
{
    match read_binary(raw?) {
        Ok(wtf) => Ok(Ok(respond(no_messages(), no_log(), Some(wtf)))),
        Err(e) => Ok(Err(e)),
    }
}

/// Ends an external query for text, given what the query brought.
pub fn finish_string_query(raw: Result<Result<Vec<u8>, StdError>, Trap>) -> (answer: Result<
    Result<HandleResponse, StdError>,
    Trap,
>)
    ensures
        answer_view(answer) == string_query_end(answer_view(raw)),
{
    match read_string(raw?) {
        Ok(wtf) => Ok(Ok(respond(no_messages(), one_log("wtf", wtf.as_str()), None))),
        Err(e) => Ok(Err(e)),
    }
}

/// Ends the query that queries itself, given what the inner query brought.
pub fn finish_loop_query(raw: Result<Result<Vec<u8>, StdError>, Trap>) -> (answer: Result<
    Result<Binary, StdError>,
    Trap,
>)
    ensures
        answer_view(answer) == loop_query_end(answer_view(raw)),
{
    match read_binary(raw?) {
        Ok(wtf) => Ok(Ok(wtf)),
        Err(e) => Ok(Err(e)),
    }
}

/// Asks another contract to add one to 2, and answers with the number.
pub(crate) fn send_external_query<Q: Querier>(
    deps: &mut Bridge<Q>,
    contract_addr: HumanAddr,
    code_hash: String,
) -> (answer: Result<Result<HandleResponse, StdError>, Trap>)
    requires
        old(deps).wf(),
    ensures
        final(deps).wf(),
        final(deps).config() == old(deps).config(),
        exists|reply: Result<Seq<u8>, Seq<u8>>, gas_used: u64|
            final(deps).state() == (#[trigger] raw_query_spec(
                old(deps).config(),
                old(deps).state(),
                smart_query(contract_addr@, code_hash@, receive_query("2")),
                reply,
                gas_used,
            )).0 && answer_view(answer) == send_external_query_end(
                raw_query_spec(
                    old(deps).config(),
                    old(deps).state(),
                    smart_query(contract_addr@, code_hash@, receive_query("2")),
                    reply,
                    gas_used,
                ).1,
            ),
{
    let raw = raw_query(deps, &contract_addr, &code_hash, receive_msg("2"));
    finish_send_external_query(raw)
}

/// Writes the query that asks a contract to add one to `num`.
fn receive_msg(num: &str) -> (msg: Vec<u8>)
    ensures
        msg@ == receive_query(num),
{
    let mut msg = bytes_of("{\"receive_external_query\":{\"num\":");
    crate::bytes::append(&mut msg, num.as_bytes());
    crate::bytes::append(&mut msg, "}}".as_bytes());
    msg
}

/// Asks another contract to panic, and hands on the error that comes
/// back.
pub(crate) fn send_external_query_panic<Q: Querier>(
    deps: &mut Bridge<Q>,
    contract_addr: HumanAddr,
    code_hash: String,
) -> (answer: Result<Result<HandleResponse, StdError>, Trap>)
    requires
        old(deps).wf(),
    ensures
        final(deps).wf(),
        final(deps).config() == old(deps).config(),
        exists|reply: Result<Seq<u8>, Seq<u8>>, gas_used: u64|
            final(deps).state() == (#[trigger] raw_query_spec(
                old(deps).config(),
                old(deps).state(),
                smart_query(contract_addr@, code_hash@, encode_utf8("{\"panic\":{}}"@)),
                reply,
                gas_used,
            )).0 && answer_view(answer) == send_external_query_panic_end(
                raw_query_spec(
                    old(deps).config(),
                    old(deps).state(),
                    smart_query(contract_addr@, code_hash@, encode_utf8("{\"panic\":{}}"@)),
                    reply,
                    gas_used,
                ).1,
            ),
{
    let raw = raw_query(deps, &contract_addr, &code_hash, bytes_of("{\"panic\":{}}"));
    finish_send_external_query_panic(raw)
}

/// Asks another contract for an error, and hands it on.
pub(crate) fn send_external_query_stderror<Q: Querier>(
    deps: &mut Bridge<Q>,
    contract_addr: HumanAddr,
    code_hash: String,
) -> (answer: Result<Result<HandleResponse, StdError>, Trap>)
    requires
        old(deps).wf(),
    ensures
        final(deps).wf(),
        final(deps).config() == old(deps).config(),
        exists|reply: Result<Seq<u8>, Seq<u8>>, gas_used: u64|
            final(deps).state() == (#[trigger] raw_query_spec(
                old(deps).config(),
                old(deps).state(),
                smart_query(contract_addr@, code_hash@, crate::contract::contract_error_call()),
                reply,
                gas_used,
            )).0 && answer_view(answer) == binary_query_end(
                raw_query_spec(
                    old(deps).config(),
                    old(deps).state(),
                    smart_query(contract_addr@, code_hash@, crate::contract::contract_error_call()),
                    reply,
                    gas_used,
                ).1,
            ),
{
    let raw = raw_query(
        deps,
        &contract_addr,
        &code_hash,
        bytes_of("{\"contract_error\":{\"error_type\":\"generic_err\"}}"),
    );
    finish_binary_query(raw)
}

/// A query that is no JSON: its opening brace is missing.
pub open spec fn bad_abi_query() -> Seq<u8> {
    encode_utf8("\"contract_error\":{\"error_type\":\"generic_err\"}}"@)
}

/// Sends another contract a query that is no JSON.
pub(crate) fn send_external_query_bad_abi<Q: Querier>(
    deps: &mut Bridge<Q>,
    contract_addr: HumanAddr,
    code_hash: String,
) -> (answer: Result<Result<HandleResponse, StdError>, Trap>)
    requires
        old(deps).wf(),
    ensures
        final(deps).wf(),
        final(deps).config() == old(deps).config(),
        exists|reply: Result<Seq<u8>, Seq<u8>>, gas_used: u64|
            final(deps).state() == (#[trigger] raw_query_spec(
                old(deps).config(),
                old(deps).state(),
                smart_query(contract_addr@, code_hash@, bad_abi_query()),
                reply,
                gas_used,
            )).0 && answer_view(answer) == binary_query_end(
                raw_query_spec(
                    old(deps).config(),
                    old(deps).state(),
                    smart_query(contract_addr@, code_hash@, bad_abi_query()),
                    reply,
                    gas_used,
                ).1,
            ),
{
    let raw = raw_query(
        deps,
        &contract_addr,
        &code_hash,
        bytes_of("\"contract_error\":{\"error_type\":\"generic_err\"}}"),
    );
    finish_binary_query(raw)
}

/// Asks another contract for a number and reads the answer as text.
pub(crate) fn send_external_query_bad_abi_receiver<Q: Querier>(
    deps: &mut Bridge<Q>,
    contract_addr: HumanAddr,
    code_hash: String,
) -> (answer: Result<Result<HandleResponse, StdError>, Trap>)
    requires
        old(deps).wf(),
    ensures
        final(deps).wf(),
        final(deps).config() == old(deps).config(),
        exists|reply: Result<Seq<u8>, Seq<u8>>, gas_used: u64|
            final(deps).state() == (#[trigger] raw_query_spec(
                old(deps).config(),
                old(deps).state(),
                smart_query(contract_addr@, code_hash@, receive_query("25")),
                reply,
                gas_used,
            )).0 && answer_view(answer) == string_query_end(
                raw_query_spec(
                    old(deps).config(),
                    old(deps).state(),
                    smart_query(contract_addr@, code_hash@, receive_query("25")),
                    reply,
                    gas_used,
                ).1,
            ),
{
    let raw = raw_query(deps, &contract_addr, &code_hash, receive_msg("25"));
    finish_string_query(raw)
}

/// The query with which a contract asks the contract at `to` to ask the
/// contract at `to` the same again.
pub open spec fn loop_query(to: Seq<char>, code_hash: Seq<char>) -> Seq<u8> {
    encode_utf8("{\"send_external_query_infinite_loop\":{\"to\":\""@) + encode_utf8(to)
        + encode_utf8("\", \"code_hash\":\""@) + encode_utf8(code_hash) + encode_utf8("\"}}"@)
}

/// Asks the contract at `contract_addr` to ask the same again. Where that
/// contract is this one, the chain of queries has no end of its own.
pub(crate) fn send_external_query_infinite_loop<Q: Querier>(
    deps: &mut Bridge<Q>,
    contract_addr: HumanAddr,
    code_hash: String,
) -> (answer: Result<Result<Binary, StdError>, Trap>)
    requires
        old(deps).wf(),
    ensures
        final(deps).wf(),
        final(deps).config() == old(deps).config(),
        !crate::query::may_forward(old(deps).depth) ==> answer == Err::<
            Result<Binary, StdError>,
            Trap,
        >(Trap::QueryDepthExceeded) && final(deps).state() == old(deps).state(),
        exists|reply: Result<Seq<u8>, Seq<u8>>, gas_used: u64|
            final(deps).state() == (#[trigger] raw_query_spec(
                old(deps).config(),
                old(deps).state(),
                smart_query(contract_addr@, code_hash@, loop_query(contract_addr@, code_hash@)),
                reply,
                gas_used,
            )).0 && answer_view(answer) == loop_query_end(
                raw_query_spec(
                    old(deps).config(),
                    old(deps).state(),
                    smart_query(
                        contract_addr@,
                        code_hash@,
                        loop_query(contract_addr@, code_hash@),
                    ),
                    reply,
                    gas_used,
                ).1,
            ),
{
    let mut msg = bytes_of("{\"send_external_query_infinite_loop\":{\"to\":\"");
    crate::bytes::append(&mut msg, contract_addr.0.as_str().as_bytes());
    crate::bytes::append(&mut msg, "\", \"code_hash\":\"".as_bytes());
    crate::bytes::append(&mut msg, code_hash.as_str().as_bytes());
    crate::bytes::append(&mut msg, "\"}}".as_bytes());
    let raw = raw_query(deps, &contract_addr, &code_hash, msg);
    finish_loop_query(raw)
}

/// The reply that stands for the outcome of a query in a nested context:
/// the answer as it is, and for anything else the words for it. This is
/// how the failure of a called contract reaches the contract that called.
pub open spec fn reply_for(outcome: Result<Result<Seq<u8>, StdErrorView>, Trap>) -> Result<
    Seq<u8>,
    Seq<u8>,
> {
    match outcome {
        Ok(Ok(answer)) => Ok(answer),
        Ok(Err(error)) => Err(encode_utf8(crate::types::error_text(error))),
        Err(trap) => Err(encode_utf8(crate::trap::trap_text(trap))),
    }
}

/// Wraps the outcome of a query in a nested context as the reply for the
/// context that sent the query.
pub fn wrap_outcome(outcome: Result<Result<Binary, StdError>, Trap>) -> (reply: Result<
    Vec<u8>,
    Vec<u8>,
>)
    ensures
        crate::bridge::reply_view(reply) == reply_for(answer_view(outcome)),
{
    match outcome {
        Ok(Ok(answer)) => Ok(answer.0),
        Ok(Err(error)) => Err(bytes_of(error.text().as_str())),
        Err(trap) => Err(bytes_of(trap.text().as_str())),
    }
}

} // verus!
