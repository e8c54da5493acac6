//! What holds of the imports as a whole, proved from their contracts.

use vstd::prelude::*;
use vstd::utf8::encode_utf8;
use crate::bridge::{
    can_pay, lookup, pay, query_begin_spec, storage_remove_spec, storage_write_spec, HostConfig,
    HostState, QueryStep,
};
use crate::exercise::{loop_query, loop_query_end, raw_query_spec, reply_for, smart_query};
use crate::query::{may_forward, request_bytes, QUERY_DEPTH_CEILING};
use crate::types::StdErrorView;
use crate::crypto::{ed25519_verify_spec, secp256k1_verify_spec};
use crate::gas::HostCall;
use crate::imports::{
    db_read_spec, db_remove_spec, fetch_spec, import_spec, query_chain_spec, Import,
};
use crate::memory::{address_of, read_region_spec};
use crate::trap::{trap_text, HostResult, RuntimeValue, Trap};

verus! {

/// A host call was refused with `trap` and touched nothing.
pub open spec fn refused(state: HostState, end: (HostState, HostResult), trap: Trap) -> bool {
    end.0 == state && end.1 == Err::<Option<RuntimeValue>, Trap>(trap)
}

/// A null pointer never gets through: while gas is left, a null pointer in
/// any pointer argument of any import ends the call with the memory trap,
/// and nothing has changed: neither memory nor storage nor gas.
pub proof fn lemma_null_pointer_is_refused(
    config: HostConfig,
    state: HostState,
    import: Import,
    reply: Result<Seq<u8>, Seq<u8>>,
    gas_used: u64,
)
    requires
        state.gas != 0,
        import.has_null_pointer(),
    ensures
        refused(state, import_spec(config, state, import, reply, gas_used), Trap::MemoryAccess),
{
    match import {
        Import::Ed25519BatchVerify { messages_ptr, signatures_ptr, public_keys_ptr } => {
            lemma_lists_fail_closed(state, messages_ptr);
            lemma_lists_fail_closed(state, signatures_ptr);
            lemma_lists_fail_closed(state, public_keys_ptr);
        },
        _ => {},
    }
}

/// A list of regions that cannot be read fails with the memory trap.
proof fn lemma_lists_fail_closed(state: HostState, ptr: i32)
    requires
        state.gas != 0,
    ensures
        crate::imports::fetch_list_spec(state, ptr) is Err ==> crate::imports::fetch_list_spec(
            state,
            ptr,
        ) == Err::<Seq<Seq<u8>>, Trap>(Trap::MemoryAccess),
{
    match read_region_spec(state.memory, address_of(ptr)) {
        Ok(list) => crate::memory::lemma_list_fails_closed(state.memory, list),
        Err(_) => {},
    }
}

/// Exhaustion is final: in a context whose gas is used up, every import
/// ends with the gas trap, whatever its arguments, and does nothing.
pub proof fn lemma_exhaustion_is_final(
    config: HostConfig,
    state: HostState,
    import: Import,
    reply: Result<Seq<u8>, Seq<u8>>,
    gas_used: u64,
)
    requires
        state.gas == 0,
    ensures
        refused(state, import_spec(config, state, import, reply, gas_used), Trap::GasExhausted),
{
}

/// Every failure of an import is a trap of the closed list, and a call
/// that traps leaves the store as it was: no import does half of its
/// work.
pub proof fn lemma_traps_leave_the_store(
    config: HostConfig,
    state: HostState,
    import: Import,
    reply: Result<Seq<u8>, Seq<u8>>,
    gas_used: u64,
)
    requires
        import_spec(config, state, import, reply, gas_used).1 is Err,
    ensures
        import_spec(config, state, import, reply, gas_used).0.store == state.store,
        import_spec(config, state, import, reply, gas_used).0.debug == state.debug,
        import_spec(config, state, import, reply, gas_used).0.gas <= state.gas,
{
}

/// The depth ceiling holds whatever the gas: while gas is left, a query
/// from a context at the ceiling ends with the depth trap and changes
/// nothing, and a query from any other context is handed on one level
/// deeper.
pub proof fn lemma_ceiling_stops_queries(
    config: HostConfig,
    state: HostState,
    query_ptr: i32,
    reply: Result<Seq<u8>, Seq<u8>>,
    gas_used: u64,
)
    requires
        fetch_spec(state, query_ptr) is Ok,
    ensures
        !crate::query::may_forward(config.depth) ==> refused(
            state,
            query_chain_spec(config, state, query_ptr, reply, gas_used),
            Trap::QueryDepthExceeded,
        ),
        crate::bridge::query_begin_spec(
            config,
            state,
            fetch_spec(state, query_ptr)->Ok_0,
        ).1 matches crate::bridge::QueryStep::Dispatch { request, depth, gas_limit } ==> depth
            == config.depth + 1 && depth <= crate::query::QUERY_DEPTH_CEILING,
{
}

/// Gas never grows: whatever an import does, the context has no more gas
/// after it than before.
pub proof fn lemma_gas_never_grows(
    config: HostConfig,
    state: HostState,
    import: Import,
    reply: Result<Seq<u8>, Seq<u8>>,
    gas_used: u64,
)
    ensures
        import_spec(config, state, import, reply, gas_used).0.gas <= state.gas,
{
}

/// Contracts are kept apart: what a contract writes or removes under its
/// prefix changes nothing that a contract with another prefix of the same
/// length finds.
pub proof fn lemma_contracts_are_kept_apart(
    config: HostConfig,
    other: HostConfig,
    state: HostState,
    key: Seq<u8>,
    value: Seq<u8>,
    other_key: Seq<u8>,
)
    requires
        config.store_prefix.len() == other.store_prefix.len(),
        config.store_prefix != other.store_prefix,
    ensures
        lookup(other, storage_write_spec(config, state, key, value).0, other_key) == lookup(
            other,
            state,
            other_key,
        ),
        lookup(other, storage_remove_spec(config, state, key).0, other_key) == lookup(
            other,
            state,
            other_key,
        ),
{
    crate::storage::lemma_prefixes_partition(
        config.store_prefix,
        other.store_prefix,
        key,
        other_key,
    );
}

/// Gas only goes down, and a call that ends with the gas trap leaves the
/// context exhausted.
pub proof fn lemma_gas_runs_down(state: HostState, price: u64)
    ensures
        pay(state, price).gas <= state.gas,
        !can_pay(state, price) ==> pay(state, price).gas == 0,
        pay(state, price).store == state.store,
        pay(state, price).memory == state.memory,
{
}

/// A write that was paid for stays: when a later call of the same context
/// runs out of gas, the value that was written is still what a read of the
/// store finds, and the call that ran out of gas has changed nothing in
/// the store.
pub proof fn lemma_committed_write_survives_exhaustion(
    config: HostConfig,
    state: HostState,
    key: Seq<u8>,
    value: Seq<u8>,
    later_key: Seq<u8>,
    later_value: Seq<u8>,
)
    requires
        storage_write_spec(config, state, key, value).1 is Ok,
        storage_write_spec(
            config,
            storage_write_spec(config, state, key, value).0,
            later_key,
            later_value,
        ).1 is Err,
    ensures
        storage_write_spec(
            config,
            storage_write_spec(config, state, key, value).0,
            later_key,
            later_value,
        ).1 == Err::<(), Trap>(Trap::GasExhausted),
        storage_write_spec(
            config,
            storage_write_spec(config, state, key, value).0,
            later_key,
            later_value,
        ).0.gas == 0,
        lookup(
            config,
            storage_write_spec(
                config,
                storage_write_spec(config, state, key, value).0,
                later_key,
                later_value,
            ).0,
            key,
        ) == Some(value),
{
}

/// A key that was never written is not found, and that is no error: the
/// read ends with the value 0 in place of a region.
pub proof fn lemma_absent_key_reads_as_none(config: HostConfig, state: HostState, key_ptr: i32)
    requires
        fetch_spec(state, key_ptr) is Ok,
        !state.store.contains_key(config.store_prefix + fetch_spec(state, key_ptr)->Ok_0),
        can_pay(
            state,
            config.costs.spec_price(HostCall::DbRead, fetch_spec(state, key_ptr)->Ok_0.len()),
        ),
    ensures
        db_read_spec(config, state, key_ptr).1 == Ok::<Option<RuntimeValue>, Trap>(
            Some(RuntimeValue::I32(0)),
        ),
        db_read_spec(config, state, key_ptr).0.store == state.store,
        db_read_spec(config, state, key_ptr).0.memory == state.memory,
{
}

/// Removing a key that is not there succeeds and leaves the store as it
/// was.
pub proof fn lemma_absent_key_removes_as_nothing(config: HostConfig, state: HostState, key_ptr: i32)
    requires
        fetch_spec(state, key_ptr) is Ok,
        !state.store.contains_key(config.store_prefix + fetch_spec(state, key_ptr)->Ok_0),
        can_pay(
            state,
            config.costs.spec_price(HostCall::DbRemove, fetch_spec(state, key_ptr)->Ok_0.len()),
        ),
    ensures
        db_remove_spec(config, state, key_ptr).1 == Ok::<Option<RuntimeValue>, Trap>(None),
        db_remove_spec(config, state, key_ptr).0.store == state.store,
{
    let key = fetch_spec(state, key_ptr)->Ok_0;
    assert(state.store.remove(config.store_prefix + key) =~= state.store);
}

/// What was written is what is read, until it is removed.
pub proof fn lemma_read_your_writes(
    config: HostConfig,
    state: HostState,
    key: Seq<u8>,
    value: Seq<u8>,
)
    requires
        storage_write_spec(config, state, key, value).1 is Ok,
    ensures
        lookup(config, storage_write_spec(config, state, key, value).0, key) == Some(value),
        lookup(
            config,
            storage_remove_spec(config, storage_write_spec(config, state, key, value).0, key).0,
            key,
        ) == (if storage_remove_spec(
            config,
            storage_write_spec(config, state, key, value).0,
            key,
        ).1 is Ok {
            None::<Seq<u8>>
        } else {
            Some(value)
        }),
{
}

/// A signature of the right shape gets a verdict, never an error, and an
/// error means that a length is wrong.
pub proof fn lemma_verdicts_are_not_errors(
    first: Seq<u8>,
    signature: Seq<u8>,
    public_key: Seq<u8>,
)
    ensures
        secp256k1_verify_spec(first, signature, public_key) is Err <==> (first.len() != 32
            || signature.len() != 64 || (public_key.len() != 33 && public_key.len() != 65)),
        ed25519_verify_spec(first, signature, public_key) is Err <==> (signature.len() != 64
            || public_key.len() != 32),
        secp256k1_verify_spec(first, signature, public_key) is Ok
            ==> secp256k1_verify_spec(first, signature, public_key)->Ok_0 == (
        crate::crypto::secp256k1_outcome(first, signature, public_key) == Some(true)),
        ed25519_verify_spec(first, signature, public_key) is Ok ==> ed25519_verify_spec(
            first,
            signature,
            public_key,
        )->Ok_0 == (crate::crypto::ed25519_outcome(first, signature, public_key) == Some(true)),
{
}

/// What a contract gets when it queries itself without end: the query of
/// a context is answered by the same query in a nested context one level
/// deeper, which runs on the gas that the outer context has left, and
/// whose outcome comes back as the reply.
pub open spec fn self_query_spec(
    config: HostConfig,
    state: HostState,
    to: Seq<char>,
    code_hash: Seq<char>,
) -> (HostState, Result<Result<Seq<u8>, StdErrorView>, Trap>)
    decreases QUERY_DEPTH_CEILING - config.depth,
{
    let request = smart_query(to, code_hash, loop_query(to, code_hash));
    match query_begin_spec(config, state, request_bytes(request)).1 {
        QueryStep::Dispatch { request: parsed, depth, gas_limit } => {
            let nested = self_query_spec(
                HostConfig { depth, ..config },
                HostState { gas: gas_limit, ..state },
                to,
                code_hash,
            );
            let gas_used = (gas_limit - nested.0.gas) as u64;
            (
                raw_query_spec(config, state, request, reply_for(nested.1), gas_used).0,
                loop_query_end(
                    raw_query_spec(config, state, request, reply_for(nested.1), gas_used).1,
                ),
            )
        },
        _ => (
            raw_query_spec(config, state, request, Err(Seq::empty()), 0).0,
            loop_query_end(raw_query_spec(config, state, request, Err(Seq::empty()), 0).1),
        ),
    }
}

/// The error with which a chain of queries ends that went one level too
/// deep.
pub open spec fn depth_error() -> StdErrorView {
    StdErrorView::GenericErr { msg: trap_text(Trap::QueryDepthExceeded) }
}

/// The error with which a chain of queries ends that ran out of gas on
/// its way down.
pub open spec fn gas_error() -> StdErrorView {
    StdErrorView::GenericErr { msg: trap_text(Trap::GasExhausted) }
}

/// A contract that queries itself without end gets no answer. The chain
/// of nested contexts ends: at the ceiling with the depth trap, which
/// every level above hands on as an error, or before it where the gas
/// runs out. No level uses more gas than it was given. The address and the
/// code hash are texts that fit in memory.
pub proof fn lemma_self_query_ends(
    config: HostConfig,
    state: HostState,
    to: Seq<char>,
    code_hash: Seq<char>,
)
    requires
        encode_utf8(to).len() <= u64::MAX,
        encode_utf8(code_hash).len() <= u64::MAX,
    ensures
        !may_forward(config.depth) ==> self_query_spec(config, state, to, code_hash) == (
            state,
            Err::<Result<Seq<u8>, StdErrorView>, Trap>(Trap::QueryDepthExceeded),
        ),
        may_forward(config.depth) ==> {
            ||| self_query_spec(config, state, to, code_hash).1 == Ok::<
                Result<Seq<u8>, StdErrorView>,
                Trap,
            >(Err(depth_error()))
            ||| self_query_spec(config, state, to, code_hash).1 == Ok::<
                Result<Seq<u8>, StdErrorView>,
                Trap,
            >(Err(gas_error()))
            ||| self_query_spec(config, state, to, code_hash).1 == Err::<
                Result<Seq<u8>, StdErrorView>,
                Trap,
            >(Trap::GasExhausted)
        },
        self_query_spec(config, state, to, code_hash).0.gas <= state.gas,
    decreases QUERY_DEPTH_CEILING - config.depth,
{
    broadcast use vstd::utf8::encode_utf8_valid_utf8, vstd::utf8::encode_utf8_decode_utf8;

    let request = smart_query(to, code_hash, loop_query(to, code_hash));
    let begun = query_begin_spec(config, state, request_bytes(request));
    crate::query::lemma_parse_request_bytes(request);
    match begun.1 {
        QueryStep::Dispatch { request: parsed, depth, gas_limit } => {
            let nested_config = HostConfig { depth, ..config };
            let nested_state = HostState { gas: gas_limit, ..state };
            lemma_self_query_ends(nested_config, nested_state, to, code_hash);
            let nested = self_query_spec(nested_config, nested_state, to, code_hash);
            let reply = reply_for(nested.1);
            assert(reply == Err::<Seq<u8>, Seq<u8>>(
                encode_utf8(trap_text(Trap::QueryDepthExceeded)),
            ) || reply == Err::<Seq<u8>, Seq<u8>>(encode_utf8(trap_text(Trap::GasExhausted))));
        },
        _ => {},
    }
}

} // verus!
