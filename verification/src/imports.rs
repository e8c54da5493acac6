//! The import surface: the host functions that guest bytecode may call.
//! All pointer arguments are addresses of region descriptors in guest
//! memory.
//!
//! Every import first refuses to run in a context whose gas is used up,
//! then resolves all of its pointers, and only then charges and acts. A
//! null pointer therefore never reaches a component.

use vstd::prelude::*;
use crate::bridge::{
    canonicalize_call_spec, debug_spec, humanize_call_spec, metered, pay, query_begin_spec,
    query_finish_spec, storage_read_spec, storage_remove_spec, storage_write_spec,
    validate_call_spec, Bridge, HostConfig, HostState, QueryStep,
};
use crate::crypto::{
    ed25519_batch_verify_spec, ed25519_verify_spec, secp256k1_recover_spec, secp256k1_verify_spec,
};
use crate::gas::HostCall;
use crate::memory::{
    address_of, carve_spec, lemma_list_fails_closed, pointer_of, read_region_list_spec,
    read_region_spec, region_at, to_address, to_pointer, views, write_region_spec,
};
use crate::query::{encode_outcome, outcome_bytes, outcome_of, Querier, QueryError, QueryOutcome};
use crate::trap::{
    encode_status, encode_verdict, status_code, verdict_code, AddressError, CryptoError,
    HostResult, RuntimeValue, Trap,
};

verus! {

/// The host functions that are imported into guest code.
///
/// Two rules hold of every import, whoever implements it: in a context
/// whose gas is used up it traps with `GasExhausted`, and otherwise a null
/// pointer in any pointer argument traps with `MemoryAccess`.
pub trait WasmiApi {
    /// The implementation's own invariant.
    spec fn sound(&self) -> bool;

    /// The gas of the execution context is used up.
    spec fn exhausted(&self) -> bool;

    /// Reads the value stored under a key. Returns the address of a region
    /// with the value, or 0 where the key is not found.
    fn db_read(&mut self, state_key_ptr: i32) -> (result: Result<Option<RuntimeValue>, Trap>)
        requires
            old(self).sound(),
        ensures
            final(self).sound(),
            old(self).exhausted() ==> result == Err::<Option<RuntimeValue>, Trap>(
                Trap::GasExhausted,
            ),
            !old(self).exhausted() && state_key_ptr == 0 ==> result == Err::<
                Option<RuntimeValue>,
                Trap,
            >(Trap::MemoryAccess),
    ;

    /// Removes a key. Removing a key that is not there is no error.
    fn db_remove(&mut self, state_key_ptr: i32) -> (result: Result<Option<RuntimeValue>, Trap>)
        requires
            old(self).sound(),
        ensures
            final(self).sound(),
            old(self).exhausted() ==> result == Err::<Option<RuntimeValue>, Trap>(
                Trap::GasExhausted,
            ),
            !old(self).exhausted() && state_key_ptr == 0 ==> result == Err::<
                Option<RuntimeValue>,
                Trap,
            >(Trap::MemoryAccess),
    ;

    /// Stores a value under a key.
    fn db_write(&mut self, state_key_ptr: i32, value_ptr: i32) -> (result: Result<
        Option<RuntimeValue>,
        Trap,
    >)
        requires
            old(self).sound(),
        ensures
            final(self).sound(),
            old(self).exhausted() ==> result == Err::<Option<RuntimeValue>, Trap>(
                Trap::GasExhausted,
            ),
            !old(self).exhausted() && (state_key_ptr == 0 || value_ptr == 0) ==> result == Err::<
                Option<RuntimeValue>,
                Trap,
            >(Trap::MemoryAccess),
    ;

    /// Converts the human address in the first region to canonical form
    /// and writes it into the second. Returns 0, or the code of the class
    /// of the address's fault.
    fn canonicalize_address(&mut self, human_ptr: i32, canonical_ptr: i32) -> (result: Result<
        Option<RuntimeValue>,
        Trap,
    >)
        requires
            old(self).sound(),
        ensures
            final(self).sound(),
            old(self).exhausted() ==> result == Err::<Option<RuntimeValue>, Trap>(
                Trap::GasExhausted,
            ),
            !old(self).exhausted() && (human_ptr == 0 || canonical_ptr == 0) ==> result == Err::<
                Option<RuntimeValue>,
                Trap,
            >(Trap::MemoryAccess),
    ;

    /// Converts the canonical address in the first region to human form
    /// and writes it into the second. Returns 0, or the code of the class
    /// of the address's fault.
    fn humanize_address(&mut self, canonical_ptr: i32, human_ptr: i32) -> (result: Result<
        Option<RuntimeValue>,
        Trap,
    >)
        requires
            old(self).sound(),
        ensures
            final(self).sound(),
            old(self).exhausted() ==> result == Err::<Option<RuntimeValue>, Trap>(
                Trap::GasExhausted,
            ),
            !old(self).exhausted() && (human_ptr == 0 || canonical_ptr == 0) ==> result == Err::<
                Option<RuntimeValue>,
                Trap,
            >(Trap::MemoryAccess),
    ;

    /// Forwards a query. Returns the address of a region with the outcome.
    fn query_chain(&mut self, query_ptr: i32) -> (result: Result<Option<RuntimeValue>, Trap>)
        requires
            old(self).sound(),
        ensures
            final(self).sound(),
            old(self).exhausted() ==> result == Err::<Option<RuntimeValue>, Trap>(
                Trap::GasExhausted,
            ),
            !old(self).exhausted() && query_ptr == 0 ==> result == Err::<
                Option<RuntimeValue>,
                Trap,
            >(Trap::MemoryAccess),
    ;

    /// The later name of `canonicalize_address`.
    fn addr_canonicalize(&mut self, human_ptr: i32, canonical_ptr: i32) -> (result: Result<
        Option<RuntimeValue>,
        Trap,
    >)
        requires
            old(self).sound(),
        ensures
            final(self).sound(),
            old(self).exhausted() ==> result == Err::<Option<RuntimeValue>, Trap>(
                Trap::GasExhausted,
            ),
            !old(self).exhausted() && (human_ptr == 0 || canonical_ptr == 0) ==> result == Err::<
                Option<RuntimeValue>,
                Trap,
            >(Trap::MemoryAccess),
    ;

    /// The later name of `humanize_address`.
    fn addr_humanize(&mut self, canonical_ptr: i32, human_ptr: i32) -> (result: Result<
        Option<RuntimeValue>,
        Trap,
    >)
        requires
            old(self).sound(),
        ensures
            final(self).sound(),
            old(self).exhausted() ==> result == Err::<Option<RuntimeValue>, Trap>(
                Trap::GasExhausted,
            ),
            !old(self).exhausted() && (human_ptr == 0 || canonical_ptr == 0) ==> result == Err::<
                Option<RuntimeValue>,
                Trap,
            >(Trap::MemoryAccess),
    ;

    /// Checks a human address. Returns 0, or the code of the class of the
    /// address's fault.
    fn addr_validate(&mut self, source_ptr: i32) -> (result: Result<Option<RuntimeValue>, Trap>)
        requires
            old(self).sound(),
        ensures
            final(self).sound(),
            old(self).exhausted() ==> result == Err::<Option<RuntimeValue>, Trap>(
                Trap::GasExhausted,
            ),
            !old(self).exhausted() && source_ptr == 0 ==> result == Err::<
                Option<RuntimeValue>,
                Trap,
            >(Trap::MemoryAccess),
    ;

    /// Verifies a secp256k1 signature. Returns 1 for a signature that
    /// verifies, 0 for one that does not, a negative code for material of
    /// the wrong shape.
    fn secp256k1_verify(
        &mut self,
        message_hash_ptr: i32,
        signature_ptr: i32,
        public_key_ptr: i32,
    ) -> (result: Result<Option<RuntimeValue>, Trap>)
        requires
            old(self).sound(),
        ensures
            final(self).sound(),
            old(self).exhausted() ==> result == Err::<Option<RuntimeValue>, Trap>(
                Trap::GasExhausted,
            ),
            !old(self).exhausted() && (message_hash_ptr == 0 || signature_ptr == 0
                || public_key_ptr == 0) ==> result == Err::<Option<RuntimeValue>, Trap>(
                Trap::MemoryAccess,
            ),
    ;

    /// Recovers the public key behind a secp256k1 signature. Returns the
    /// address of a region with the key, or a negative code.
    fn secp256k1_recover_pubkey(
        &mut self,
        message_hash_ptr: i32,
        signature_ptr: i32,
        recovery_param: i32,
    ) -> (result: Result<Option<RuntimeValue>, Trap>)
        requires
            old(self).sound(),
        ensures
            final(self).sound(),
            old(self).exhausted() ==> result == Err::<Option<RuntimeValue>, Trap>(
                Trap::GasExhausted,
            ),
            !old(self).exhausted() && (message_hash_ptr == 0 || signature_ptr == 0) ==> result
                == Err::<Option<RuntimeValue>, Trap>(Trap::MemoryAccess),
    ;

    /// Verifies an ed25519 signature. Returns 1, 0 or a negative code as
    /// `secp256k1_verify` does.
    fn ed25519_verify(
        &mut self,
        message_ptr: i32,
        signature_ptr: i32,
        public_key_ptr: i32,
    ) -> (result: Result<Option<RuntimeValue>, Trap>)
        requires
            old(self).sound(),
        ensures
            final(self).sound(),
            old(self).exhausted() ==> result == Err::<Option<RuntimeValue>, Trap>(
                Trap::GasExhausted,
            ),
            !old(self).exhausted() && (message_ptr == 0 || signature_ptr == 0 || public_key_ptr
                == 0) ==> result == Err::<Option<RuntimeValue>, Trap>(Trap::MemoryAccess),
    ;

    /// Verifies a batch of ed25519 signatures. Each region holds a list
    /// of addresses of regions.
    fn ed25519_batch_verify(
        &mut self,
        messages_ptr: i32,
        signatures_ptr: i32,
        public_keys_ptr: i32,
    ) -> (result: Result<Option<RuntimeValue>, Trap>)
        requires
            old(self).sound(),
        ensures
            final(self).sound(),
            old(self).exhausted() ==> result == Err::<Option<RuntimeValue>, Trap>(
                Trap::GasExhausted,
            ),
            !old(self).exhausted() && (messages_ptr == 0 || signatures_ptr == 0
                || public_keys_ptr == 0) ==> result == Err::<Option<RuntimeValue>, Trap>(
                Trap::MemoryAccess,
            ),
    ;

    /// Hands a debug message to the host.
    fn debug(&mut self, message_ptr: i32) -> (result: Result<Option<RuntimeValue>, Trap>)
        requires
            old(self).sound(),
        ensures
            final(self).sound(),
            old(self).exhausted() ==> result == Err::<Option<RuntimeValue>, Trap>(
                Trap::GasExhausted,
            ),
            !old(self).exhausted() && message_ptr == 0 ==> result == Err::<
                Option<RuntimeValue>,
                Trap,
            >(Trap::MemoryAccess),
    ;

    /// The checkpoint between batches of guest instructions: charges the
    /// gas that the batch costs.
    fn gas(&mut self, gas_amount: i32) -> (result: Result<Option<RuntimeValue>, Trap>)
        requires
            old(self).sound(),
        ensures
            final(self).sound(),
            old(self).exhausted() ==> result == Err::<Option<RuntimeValue>, Trap>(
                Trap::GasExhausted,
            ),
    ;
}

/// What resolving a pointer yields: nothing in a context whose gas is used
/// up, else the bytes of the region it names.
pub open spec fn fetch_spec(state: HostState, ptr: i32) -> Result<Seq<u8>, Trap> {
    if state.gas == 0 {
        Err(Trap::GasExhausted)
    } else {
        read_region_spec(state.memory, address_of(ptr))
    }
}

/// What resolving a pointer to a list of regions yields.
pub open spec fn fetch_list_spec(state: HostState, ptr: i32) -> Result<Seq<Seq<u8>>, Trap> {
    if state.gas == 0 {
        Err(Trap::GasExhausted)
    } else {
        read_region_list_spec(state.memory, address_of(ptr))
    }
}

/// The state and the value after `data` was handed back to the guest in a
/// fresh region: the region's address as a 32-bit value.
pub open spec fn hand_back_spec(state: HostState, data: Seq<u8>) -> (HostState, HostResult) {
    match carve_spec(state.memory, state.frontier, data) {
        Err(trap) => (state, Err(trap)),
        Ok((memory, frontier)) => (
            HostState { memory, frontier, ..state },
            Ok(Some(RuntimeValue::I32(pointer_of(state.frontier)))),
        ),
    }
}

/// The state and the value after `data` was written into the region that
/// the guest offered at `ptr`.
pub open spec fn write_back_spec(state: HostState, ptr: i32, data: Seq<u8>) -> (
    HostState,
    HostResult,
) {
    match write_region_spec(state.memory, address_of(ptr), data) {
        Err(trap) => (state, Err(trap)),
        Ok(memory) => (HostState { memory, ..state }, Ok(Some(RuntimeValue::I32(0)))),
    }
}

/// The import `db_read`: the key is read from guest memory and looked up;
/// a value that is found is handed back in a fresh region.
pub open spec fn db_read_spec(config: HostConfig, state: HostState, key_ptr: i32) -> (
    HostState,
    HostResult,
) {
    match fetch_spec(state, key_ptr) {
        Err(trap) => (state, Err(trap)),
        Ok(key) => match storage_read_spec(config, state, key).1 {
            Err(trap) => (storage_read_spec(config, state, key).0, Err(trap)),
            Ok(None) => (
                storage_read_spec(config, state, key).0,
                Ok(Some(RuntimeValue::I32(0))),
            ),
            Ok(Some(value)) => hand_back_spec(storage_read_spec(config, state, key).0, value),
        },
    }
}

/// A host call without a value: nothing is left on the guest's stack.
pub open spec fn void(done: Result<(), Trap>) -> HostResult {
    match done {
        Ok(_) => Ok(None),
        Err(trap) => Err(trap),
    }
}

/// The import `db_write`: key and value are read from guest memory, then
/// the write is charged and done.
pub open spec fn db_write_spec(
    config: HostConfig,
    state: HostState,
    key_ptr: i32,
    value_ptr: i32,
) -> (HostState, HostResult) {
    match fetch_spec(state, key_ptr) {
        Err(trap) => (state, Err(trap)),
        Ok(key) => match fetch_spec(state, value_ptr) {
            Err(trap) => (state, Err(trap)),
            Ok(value) => (
                storage_write_spec(config, state, key, value).0,
                void(storage_write_spec(config, state, key, value).1),
            ),
        },
    }
}

/// The import `db_remove`: the key is read from guest memory, then the
/// removal is charged and done.
pub open spec fn db_remove_spec(config: HostConfig, state: HostState, key_ptr: i32) -> (
    HostState,
    HostResult,
) {
    match fetch_spec(state, key_ptr) {
        Err(trap) => (state, Err(trap)),
        Ok(key) => (
            storage_remove_spec(config, state, key).0,
            void(storage_remove_spec(config, state, key).1),
        ),
    }
}

/// The end of an address conversion: the converted bytes are written into
/// the guest's region, a fault is handed back as its code.
pub open spec fn convert_end_spec(
    state: HostState,
    converted: Result<Result<Seq<u8>, AddressError>, Trap>,
    target_ptr: i32,
) -> (HostState, HostResult) {
    match converted {
        Err(trap) => (state, Err(trap)),
        Ok(Err(fault)) => (state, Ok(Some(RuntimeValue::I32(fault.spec_code())))),
        Ok(Ok(bytes)) => write_back_spec(state, target_ptr, bytes),
    }
}

/// The import `canonicalize_address`: the human address is read, the
/// region for the result is looked at, and only then is the conversion charged
/// and done.
pub open spec fn canonicalize_address_spec(
    config: HostConfig,
    state: HostState,
    human_ptr: i32,
    canonical_ptr: i32,
) -> (HostState, HostResult) {
    match fetch_spec(state, human_ptr) {
        Err(trap) => (state, Err(trap)),
        Ok(human) => if region_at(state.memory, address_of(canonical_ptr)) is None {
            (state, Err(Trap::MemoryAccess))
        } else {
            convert_end_spec(
                canonicalize_call_spec(config, state, human).0,
                canonicalize_call_spec(config, state, human).1,
                canonical_ptr,
            )
        },
    }
}

/// The import `humanize_address`: the canonical address is read, the
/// region for the result is looked at, and only then is the conversion charged
/// and done.
pub open spec fn humanize_address_spec(
    config: HostConfig,
    state: HostState,
    canonical_ptr: i32,
    human_ptr: i32,
) -> (HostState, HostResult) {
    match fetch_spec(state, canonical_ptr) {
        Err(trap) => (state, Err(trap)),
        Ok(canonical) => if region_at(state.memory, address_of(human_ptr)) is None {
            (state, Err(Trap::MemoryAccess))
        } else {
            convert_end_spec(
                humanize_call_spec(config, state, canonical).0,
                humanize_call_spec(config, state, canonical).1,
                human_ptr,
            )
        },
    }
}

/// The import `addr_validate`: the human address is read and checked.
pub open spec fn addr_validate_spec(config: HostConfig, state: HostState, source_ptr: i32) -> (
    HostState,
    HostResult,
) {
    match fetch_spec(state, source_ptr) {
        Err(trap) => (state, Err(trap)),
        Ok(human) => (
            validate_call_spec(config, state, human).0,
            match validate_call_spec(config, state, human).1 {
                Err(trap) => Err(trap),
                Ok(status) => Ok(Some(RuntimeValue::I32(status_code(status)))),
            },
        ),
    }
}

/// The value that stands for a verdict on the guest's stack.
pub open spec fn verdict_value(verdict: Result<Result<bool, CryptoError>, Trap>) -> HostResult {
    match verdict {
        Err(trap) => Err(trap),
        Ok(verdict) => Ok(Some(RuntimeValue::I32(verdict_code(verdict)))),
    }
}

/// The import `secp256k1_verify`: all three regions are read, then the
/// verification is charged and done.
pub open spec fn secp256k1_verify_import_spec(
    config: HostConfig,
    state: HostState,
    hash_ptr: i32,
    signature_ptr: i32,
    public_key_ptr: i32,
) -> (HostState, HostResult) {
    match fetch_spec(state, hash_ptr) {
        Err(trap) => (state, Err(trap)),
        Ok(hash) => match fetch_spec(state, signature_ptr) {
            Err(trap) => (state, Err(trap)),
            Ok(signature) => match fetch_spec(state, public_key_ptr) {
                Err(trap) => (state, Err(trap)),
                Ok(public_key) => (
                    pay(state, config.costs.spec_price(HostCall::Secp256k1Verify, 0)),
                    verdict_value(
                        metered(
                            state,
                            config.costs.spec_price(HostCall::Secp256k1Verify, 0),
                            secp256k1_verify_spec(hash, signature, public_key),
                        ).1,
                    ),
                ),
            },
        },
    }
}

/// The import `ed25519_verify`: all three regions are read, then the
/// verification is charged and done.
pub open spec fn ed25519_verify_import_spec(
    config: HostConfig,
    state: HostState,
    message_ptr: i32,
    signature_ptr: i32,
    public_key_ptr: i32,
) -> (HostState, HostResult) {
    match fetch_spec(state, message_ptr) {
        Err(trap) => (state, Err(trap)),
        Ok(message) => match fetch_spec(state, signature_ptr) {
            Err(trap) => (state, Err(trap)),
            Ok(signature) => match fetch_spec(state, public_key_ptr) {
                Err(trap) => (state, Err(trap)),
                Ok(public_key) => (
                    pay(state, config.costs.spec_price(HostCall::Ed25519Verify, 0)),
                    verdict_value(
                        metered(
                            state,
                            config.costs.spec_price(HostCall::Ed25519Verify, 0),
                            ed25519_verify_spec(message, signature, public_key),
                        ).1,
                    ),
                ),
            },
        },
    }
}

/// The import `ed25519_batch_verify`: all three lists of regions are read,
/// then the verification is charged and done.
pub open spec fn ed25519_batch_verify_import_spec(
    config: HostConfig,
    state: HostState,
    messages_ptr: i32,
    signatures_ptr: i32,
    public_keys_ptr: i32,
) -> (HostState, HostResult) {
    match fetch_list_spec(state, messages_ptr) {
        Err(trap) => (state, Err(trap)),
        Ok(messages) => match fetch_list_spec(state, signatures_ptr) {
            Err(trap) => (state, Err(trap)),
            Ok(signatures) => match fetch_list_spec(state, public_keys_ptr) {
                Err(trap) => (state, Err(trap)),
                Ok(public_keys) => (
                    pay(
                        state,
                        config.costs.spec_price(HostCall::Ed25519BatchVerify, signatures.len()),
                    ),
                    verdict_value(
                        metered(
                            state,
                            config.costs.spec_price(
                                HostCall::Ed25519BatchVerify,
                                signatures.len(),
                            ),
                            ed25519_batch_verify_spec(messages, signatures, public_keys),
                        ).1,
                    ),
                ),
            },
        },
    }
}

/// The recovered key is handed back in a fresh region, whose address is
/// the 64-bit value; a fault is handed back as its negative code.
pub open spec fn recover_end_spec(
    state: HostState,
    recovered: Result<Result<Seq<u8>, CryptoError>, Trap>,
) -> (HostState, HostResult) {
    match recovered {
        Err(trap) => (state, Err(trap)),
        Ok(Err(fault)) => (state, Ok(Some(RuntimeValue::I64(fault.spec_code() as i64)))),
        Ok(Ok(key)) => match carve_spec(state.memory, state.frontier, key) {
            Err(trap) => (state, Err(trap)),
            Ok((memory, frontier)) => (
                HostState { memory, frontier, ..state },
                Ok(Some(RuntimeValue::I64(state.frontier as i64))),
            ),
        },
    }
}

/// The import `secp256k1_recover_pubkey`: both regions are read, then the
/// recovery is charged and done.
pub open spec fn secp256k1_recover_import_spec(
    config: HostConfig,
    state: HostState,
    hash_ptr: i32,
    signature_ptr: i32,
    recovery_param: i32,
) -> (HostState, HostResult) {
    match fetch_spec(state, hash_ptr) {
        Err(trap) => (state, Err(trap)),
        Ok(hash) => match fetch_spec(state, signature_ptr) {
            Err(trap) => (state, Err(trap)),
            Ok(signature) => recover_end_spec(
                pay(state, config.costs.spec_price(HostCall::Secp256k1Recover, 0)),
                metered(
                    state,
                    config.costs.spec_price(HostCall::Secp256k1Recover, 0),
                    secp256k1_recover_spec(hash, signature, recovery_param),
                ).1,
            ),
        },
    }
}

/// The import `debug`: the message is read, charged and kept.
pub open spec fn debug_import_spec(config: HostConfig, state: HostState, message_ptr: i32) -> (
    HostState,
    HostResult,
) {
    match fetch_spec(state, message_ptr) {
        Err(trap) => (state, Err(trap)),
        Ok(message) => (
            debug_spec(config, state, message).0,
            void(debug_spec(config, state, message).1),
        ),
    }
}

/// The amount that a checkpoint charges: a negative amount is no amount
/// that guest code can honestly owe, and costs everything.
pub open spec fn checkpoint_amount(gas_amount: i32) -> u64 {
    if gas_amount < 0 {
        u64::MAX
    } else {
        gas_amount as u64
    }
}

/// The import `gas`: the checkpoint's amount is charged.
pub open spec fn gas_import_spec(state: HostState, gas_amount: i32) -> (HostState, HostResult) {
    (
        pay(state, checkpoint_amount(gas_amount)),
        void(metered(state, checkpoint_amount(gas_amount), ()).1),
    )
}

/// The end of a query: the outcome is written to the wire and handed back
/// in a fresh region.
pub open spec fn query_end_spec(state: HostState, answer: Result<QueryOutcome, Trap>) -> (
    HostState,
    HostResult,
) {
    match answer {
        Err(trap) => (state, Err(trap)),
        Ok(outcome) => hand_back_spec(state, outcome_bytes(outcome)),
    }
}

impl<Q: Querier> Bridge<Q> {
    /// Resolves a pointer of the guest.
    fn fetch(&self, ptr: i32) -> (bytes: Result<Vec<u8>, Trap>)
        requires
            self.wf(),
        ensures
            match fetch_spec(self.state(), ptr) {
                Ok(found) => bytes is Ok && bytes->Ok_0@ == found,
                Err(trap) => bytes == Err::<Vec<u8>, Trap>(trap),
            },
            self.gas.spec_remaining() != 0 && ptr == 0 ==> bytes == Err::<Vec<u8>, Trap>(
                Trap::MemoryAccess,
            ),
            bytes is Err && self.gas.spec_remaining() != 0 ==> bytes == Err::<Vec<u8>, Trap>(
                Trap::MemoryAccess,
            ),
    {
        if self.gas.is_exhausted() {
            return Err(Trap::GasExhausted);
        }
        self.memory.read_region(to_address(ptr))
    }

    /// Resolves a pointer of the guest to a list of regions.
    fn fetch_list(&self, ptr: i32) -> (items: Result<Vec<Vec<u8>>, Trap>)
        requires
            self.wf(),
        ensures
            match fetch_list_spec(self.state(), ptr) {
                Ok(found) => items is Ok && views(items->Ok_0@) == found,
                Err(trap) => items == Err::<Vec<Vec<u8>>, Trap>(trap),
            },
            self.gas.spec_remaining() != 0 && ptr == 0 ==> items == Err::<Vec<Vec<u8>>, Trap>(
                Trap::MemoryAccess,
            ),
            items is Err && self.gas.spec_remaining() != 0 ==> items == Err::<
                Vec<Vec<u8>>,
                Trap,
            >(Trap::MemoryAccess),
    {
        if self.gas.is_exhausted() {
            return Err(Trap::GasExhausted);
        }
        proof {
            match read_region_spec(self.memory.bytes@, address_of(ptr)) {
                Ok(list) => lemma_list_fails_closed(self.memory.bytes@, list),
                Err(_) => {},
            }
        }
        self.memory.read_region_list(to_address(ptr))
    }

    /// Checks that the guest offers a region at `ptr`.
    fn offered(&self, ptr: i32) -> (found: Result<(), Trap>)
        requires
            self.wf(),
        ensures
            found == (if region_at(self.memory.bytes@, address_of(ptr)) is None {
                Err::<(), Trap>(Trap::MemoryAccess)
            } else {
                Ok::<(), Trap>(())
            }),
            ptr == 0 ==> found is Err,
    {
        match self.memory.region(to_address(ptr)) {
            Ok(_) => Ok(()),
            Err(trap) => Err(trap),
        }
    }

    /// Hands `data` back to the guest in a fresh region.
    fn hand_back(&mut self, data: &[u8]) -> (result: Result<Option<RuntimeValue>, Trap>)
        requires
            old(self).wf(),
        ensures
            final(self).follows(old(self), hand_back_spec(old(self).state(), data@).0),
            result == hand_back_spec(old(self).state(), data@).1,
    {
        let address = self.memory.carve(data)?;
        Ok(Some(RuntimeValue::I32(to_pointer(address))))
    }

    /// Writes `data` into the region that the guest offered at `ptr`.
    fn write_back(&mut self, ptr: i32, data: &[u8]) -> (result: Result<Option<RuntimeValue>, Trap>)
        requires
            old(self).wf(),
        ensures
            final(self).follows(old(self), write_back_spec(old(self).state(), ptr, data@).0),
            result == write_back_spec(old(self).state(), ptr, data@).1,
    {
        self.memory.write_region(to_address(ptr), data)?;
        Ok(Some(RuntimeValue::I32(0)))
    }

    /// The end of an address conversion.
    fn convert_end(
        &mut self,
        converted: Result<Result<Vec<u8>, AddressError>, Trap>,
        target_ptr: i32,
    ) -> (result: Result<Option<RuntimeValue>, Trap>)
        requires
            old(self).wf(),
        ensures
            final(self).follows(
                old(self),
                convert_end_spec(old(self).state(), converted_view(converted), target_ptr).0,
            ),
            result == convert_end_spec(
                old(self).state(),
                converted_view(converted),
                target_ptr,
            ).1,
    {
        match converted {
            Err(trap) => Err(trap),
            Ok(Err(fault)) => Ok(Some(RuntimeValue::I32(fault.code()))),
            Ok(Ok(bytes)) => self.write_back(target_ptr, bytes.as_slice()),
        }
    }
}

/// What the import `query_chain` does, given what the query service
/// replies where it is asked.
pub open spec fn query_chain_spec(
    config: HostConfig,
    state: HostState,
    query_ptr: i32,
    reply: Result<Seq<u8>, Seq<u8>>,
    gas_used: u64,
) -> (HostState, HostResult) {
    match fetch_spec(state, query_ptr) {
        Err(trap) => (state, Err(trap)),
        Ok(request) => match query_begin_spec(config, state, request).1 {
            QueryStep::Trapped(trap) => (query_begin_spec(config, state, request).0, Err(trap)),
            QueryStep::Refused => hand_back_spec(
                query_begin_spec(config, state, request).0,
                outcome_bytes(QueryOutcome::Malformed),
            ),
            QueryStep::Dispatch { request: parsed, depth, gas_limit } => query_end_spec(
                query_finish_spec(query_begin_spec(config, state, request).0, reply, gas_used).0,
                query_finish_spec(query_begin_spec(config, state, request).0, reply, gas_used).1,
            ),
        },
    }
}

/// Whether the import `query_chain` asks the query service.
pub open spec fn query_chain_asks(config: HostConfig, state: HostState, query_ptr: i32) -> bool {
    match fetch_spec(state, query_ptr) {
        Err(trap) => false,
        Ok(request) => query_begin_spec(config, state, request).1 is Dispatch,
    }
}

/// A conversion's result as plain values.
pub open spec fn converted_view(converted: Result<Result<Vec<u8>, AddressError>, Trap>) -> Result<
    Result<Seq<u8>, AddressError>,
    Trap,
> {
    match converted {
        Err(trap) => Err(trap),
        Ok(Err(fault)) => Ok(Err(fault)),
        Ok(Ok(bytes)) => Ok(Ok(bytes@)),
    }
}

impl<Q: Querier> WasmiApi for Bridge<Q> {
    open spec fn sound(&self) -> bool {
        self.wf()
    }

    open spec fn exhausted(&self) -> bool {
        self.gas.spec_remaining() == 0
    }

    fn db_read(&mut self, state_key_ptr: i32) -> (result: Result<Option<RuntimeValue>, Trap>)
        ensures
            final(self).follows(
                old(self),
                db_read_spec(old(self).config(), old(self).state(), state_key_ptr).0,
            ),
            result == db_read_spec(old(self).config(), old(self).state(), state_key_ptr).1,
    {
        let key = self.fetch(state_key_ptr)?;
        match self.storage_read(key.as_slice())? {
            None => Ok(Some(RuntimeValue::I32(0))),
            Some(value) => self.hand_back(value.as_slice()),
        }
    }

    fn db_remove(&mut self, state_key_ptr: i32) -> (result: Result<Option<RuntimeValue>, Trap>)
        ensures
            final(self).follows(
                old(self),
                db_remove_spec(old(self).config(), old(self).state(), state_key_ptr).0,
            ),
            result == db_remove_spec(old(self).config(), old(self).state(), state_key_ptr).1,
    {
        let key = self.fetch(state_key_ptr)?;
        self.storage_remove(key.as_slice())?;
        Ok(None)
    }

    fn db_write(&mut self, state_key_ptr: i32, value_ptr: i32) -> (result: Result<
        Option<RuntimeValue>,
        Trap,
    >)
        ensures
            final(self).follows(
                old(self),
                db_write_spec(old(self).config(), old(self).state(), state_key_ptr, value_ptr).0,
            ),
            result == db_write_spec(
                old(self).config(),
                old(self).state(),
                state_key_ptr,
                value_ptr,
            ).1,
    {
        let key = self.fetch(state_key_ptr)?;
        let value = self.fetch(value_ptr)?;
        self.storage_write(key.as_slice(), value.as_slice())?;
        Ok(None)
    }

    fn canonicalize_address(&mut self, human_ptr: i32, canonical_ptr: i32) -> (result: Result<
        Option<RuntimeValue>,
        Trap,
    >)
        ensures
            final(self).follows(
                old(self),
                canonicalize_address_spec(
                    old(self).config(),
                    old(self).state(),
                    human_ptr,
                    canonical_ptr,
                ).0,
            ),
            result == canonicalize_address_spec(
                old(self).config(),
                old(self).state(),
                human_ptr,
                canonical_ptr,
            ).1,
    {
        let human = self.fetch(human_ptr)?;
        self.offered(canonical_ptr)?;
        let converted = self.address_canonicalize(human.as_slice());
        self.convert_end(converted, canonical_ptr)
    }

    fn humanize_address(&mut self, canonical_ptr: i32, human_ptr: i32) -> (result: Result<
        Option<RuntimeValue>,
        Trap,
    >)
        ensures
            final(self).follows(
                old(self),
                humanize_address_spec(
                    old(self).config(),
                    old(self).state(),
                    canonical_ptr,
                    human_ptr,
                ).0,
            ),
            result == humanize_address_spec(
                old(self).config(),
                old(self).state(),
                canonical_ptr,
                human_ptr,
            ).1,
    {
        let canonical = self.fetch(canonical_ptr)?;
        self.offered(human_ptr)?;
        let converted = self.address_humanize(canonical.as_slice());
        self.convert_end(converted, human_ptr)
    }

    fn query_chain(&mut self, query_ptr: i32) -> (result: Result<Option<RuntimeValue>, Trap>)
        ensures
            final(self).config() == old(self).config(),
            !query_chain_asks(old(self).config(), old(self).state(), query_ptr) ==> final(self).querier == old(self).querier,
            exists|reply: Result<Seq<u8>, Seq<u8>>, gas_used: u64|
                (final(self).state(), result) == #[trigger] query_chain_spec(
                    old(self).config(),
                    old(self).state(),
                    query_ptr,
                    reply,
                    gas_used,
                ),
    {
        let ghost config = self.config();
        let ghost state = self.state();
        let ghost nothing = Ok::<Seq<u8>, Seq<u8>>(Seq::<u8>::empty());
        let request = match self.fetch(query_ptr) {
            Ok(request) => request,
            Err(trap) => {
                proof {
                    assert((self.state(), Err::<Option<RuntimeValue>, Trap>(trap))
                        == query_chain_spec(config, state, query_ptr, nothing, 0));
                }
                return Err(trap);
            },
        };
        let ghost begun = query_begin_spec(config, state, request@);
        let answer = self.forward_query(request.as_slice());
        let ghost asked = self.state();
        proof {
            if begun.1 is Dispatch {
                let (reply, gas_used) = choose|reply: Result<Seq<u8>, Seq<u8>>, gas_used: u64|
                    {
                        &&& asked == (#[trigger] query_finish_spec(begun.0, reply, gas_used)).0
                        &&& match query_finish_spec(begun.0, reply, gas_used).1 {
                            Ok(outcome) => answer is Ok && outcome_of(answer->Ok_0) == outcome,
                            Err(trap) => answer == Err::<Result<Vec<u8>, QueryError>, Trap>(trap),
                        }
                    };
                assert(query_chain_spec(config, state, query_ptr, reply, gas_used)
                    == query_end_spec(
                    query_finish_spec(begun.0, reply, gas_used).0,
                    query_finish_spec(begun.0, reply, gas_used).1,
                ));
            } else {
                assert(asked == begun.0);
            }
        }
        match answer {
            Err(trap) => {
                proof {
                    if !(begun.1 is Dispatch) {
                        assert((self.state(), Err::<Option<RuntimeValue>, Trap>(trap))
                            == query_chain_spec(config, state, query_ptr, nothing, 0));
                    }
                }
                Err(trap)
            },
            Ok(outcome) => {
                let bytes = encode_outcome(&outcome);
                let result = self.hand_back(bytes.as_slice());
                proof {
                    if !(begun.1 is Dispatch) {
                        assert((self.state(), result) == query_chain_spec(
                            config,
                            state,
                            query_ptr,
                            nothing,
                            0,
                        ));
                    }
                }
                result
            },
        }
    }

    fn addr_canonicalize(&mut self, human_ptr: i32, canonical_ptr: i32) -> (result: Result<
        Option<RuntimeValue>,
        Trap,
    >)
        ensures
            final(self).follows(
                old(self),
                canonicalize_address_spec(
                    old(self).config(),
                    old(self).state(),
                    human_ptr,
                    canonical_ptr,
                ).0,
            ),
            result == canonicalize_address_spec(
                old(self).config(),
                old(self).state(),
                human_ptr,
                canonical_ptr,
            ).1,
    {
        self.canonicalize_address(human_ptr, canonical_ptr)
    }

    fn addr_humanize(&mut self, canonical_ptr: i32, human_ptr: i32) -> (result: Result<
        Option<RuntimeValue>,
        Trap,
    >)
        ensures
            final(self).follows(
                old(self),
                humanize_address_spec(
                    old(self).config(),
                    old(self).state(),
                    canonical_ptr,
                    human_ptr,
                ).0,
            ),
            result == humanize_address_spec(
                old(self).config(),
                old(self).state(),
                canonical_ptr,
                human_ptr,
            ).1,
    {
        self.humanize_address(canonical_ptr, human_ptr)
    }

    fn addr_validate(&mut self, source_ptr: i32) -> (result: Result<Option<RuntimeValue>, Trap>)
        ensures
            final(self).follows(
                old(self),
                addr_validate_spec(old(self).config(), old(self).state(), source_ptr).0,
            ),
            result == addr_validate_spec(old(self).config(), old(self).state(), source_ptr).1,
    {
        let human = self.fetch(source_ptr)?;
        let status = self.address_validate(human.as_slice())?;
        Ok(Some(encode_status(status)))
    }

    fn secp256k1_verify(
        &mut self,
        message_hash_ptr: i32,
        signature_ptr: i32,
        public_key_ptr: i32,
    ) -> (result: Result<Option<RuntimeValue>, Trap>)
        ensures
            final(self).follows(
                old(self),
                secp256k1_verify_import_spec(
                    old(self).config(),
                    old(self).state(),
                    message_hash_ptr,
                    signature_ptr,
                    public_key_ptr,
                ).0,
            ),
            result == secp256k1_verify_import_spec(
                old(self).config(),
                old(self).state(),
                message_hash_ptr,
                signature_ptr,
                public_key_ptr,
            ).1,
    {
        let hash = self.fetch(message_hash_ptr)?;
        let signature = self.fetch(signature_ptr)?;
        let public_key = self.fetch(public_key_ptr)?;
        let verdict = self.verify_secp256k1(
            hash.as_slice(),
            signature.as_slice(),
            public_key.as_slice(),
        )?;
        Ok(Some(encode_verdict(verdict)))
    }

    fn secp256k1_recover_pubkey(
        &mut self,
        message_hash_ptr: i32,
        signature_ptr: i32,
        recovery_param: i32,
    ) -> (result: Result<Option<RuntimeValue>, Trap>)
        ensures
            final(self).follows(
                old(self),
                secp256k1_recover_import_spec(
                    old(self).config(),
                    old(self).state(),
                    message_hash_ptr,
                    signature_ptr,
                    recovery_param,
                ).0,
            ),
            result == secp256k1_recover_import_spec(
                old(self).config(),
                old(self).state(),
                message_hash_ptr,
                signature_ptr,
                recovery_param,
            ).1,
    {
        let hash = self.fetch(message_hash_ptr)?;
        let signature = self.fetch(signature_ptr)?;
        match self.recover_secp256k1(hash.as_slice(), signature.as_slice(), recovery_param)? {
            Err(fault) => Ok(Some(RuntimeValue::I64(fault.code() as i64))),
            Ok(key) => {
                let address = self.memory.carve(key.as_slice())?;
                Ok(Some(RuntimeValue::I64(address as i64)))
            },
        }
    }

    fn ed25519_verify(
        &mut self,
        message_ptr: i32,
        signature_ptr: i32,
        public_key_ptr: i32,
    ) -> (result: Result<Option<RuntimeValue>, Trap>)
        ensures
            final(self).follows(
                old(self),
                ed25519_verify_import_spec(
                    old(self).config(),
                    old(self).state(),
                    message_ptr,
                    signature_ptr,
                    public_key_ptr,
                ).0,
            ),
            result == ed25519_verify_import_spec(
                old(self).config(),
                old(self).state(),
                message_ptr,
                signature_ptr,
                public_key_ptr,
            ).1,
    {
        let message = self.fetch(message_ptr)?;
        let signature = self.fetch(signature_ptr)?;
        let public_key = self.fetch(public_key_ptr)?;
        let verdict = self.verify_ed25519(
            message.as_slice(),
            signature.as_slice(),
            public_key.as_slice(),
        )?;
        Ok(Some(encode_verdict(verdict)))
    }

    fn ed25519_batch_verify(
        &mut self,
        messages_ptr: i32,
        signatures_ptr: i32,
        public_keys_ptr: i32,
    ) -> (result: Result<Option<RuntimeValue>, Trap>)
        ensures
            final(self).follows(
                old(self),
                ed25519_batch_verify_import_spec(
                    old(self).config(),
                    old(self).state(),
                    messages_ptr,
                    signatures_ptr,
                    public_keys_ptr,
                ).0,
            ),
            result == ed25519_batch_verify_import_spec(
                old(self).config(),
                old(self).state(),
                messages_ptr,
                signatures_ptr,
                public_keys_ptr,
            ).1,
    {
        let messages = self.fetch_list(messages_ptr)?;
        let signatures = self.fetch_list(signatures_ptr)?;
        let public_keys = self.fetch_list(public_keys_ptr)?;
        let verdict = self.batch_verify_ed25519(&messages, &signatures, &public_keys)?;
        Ok(Some(encode_verdict(verdict)))
    }

    fn debug(&mut self, message_ptr: i32) -> (result: Result<Option<RuntimeValue>, Trap>)
        ensures
            final(self).follows(
                old(self),
                debug_import_spec(old(self).config(), old(self).state(), message_ptr).0,
            ),
            result == debug_import_spec(old(self).config(), old(self).state(), message_ptr).1,
    {
        let message = self.fetch(message_ptr)?;
        self.emit_debug(message.as_slice())?;
        Ok(None)
    }

    fn gas(&mut self, gas_amount: i32) -> (result: Result<Option<RuntimeValue>, Trap>)
        ensures
            final(self).follows(old(self), gas_import_spec(old(self).state(), gas_amount).0),
            result == gas_import_spec(old(self).state(), gas_amount).1,
    {
        let amount: u64 = if gas_amount < 0 {
            u64::MAX
        } else {
            gas_amount as u64
        };
        self.charge_gas(amount)?;
        Ok(None)
    }
}

/// A call of an import with its arguments: the import surface as a closed
/// list.
#[derive(Clone, Copy, Debug, PartialEq, Eq, Structural)]
pub enum Import {
    DbRead { state_key_ptr: i32 },
    DbRemove { state_key_ptr: i32 },
    DbWrite { state_key_ptr: i32, value_ptr: i32 },
    CanonicalizeAddress { human_ptr: i32, canonical_ptr: i32 },
    HumanizeAddress { canonical_ptr: i32, human_ptr: i32 },
    QueryChain { query_ptr: i32 },
    AddrCanonicalize { human_ptr: i32, canonical_ptr: i32 },
    AddrHumanize { canonical_ptr: i32, human_ptr: i32 },
    AddrValidate { source_ptr: i32 },
    Secp256k1Verify { message_hash_ptr: i32, signature_ptr: i32, public_key_ptr: i32 },
    Secp256k1RecoverPubkey { message_hash_ptr: i32, signature_ptr: i32, recovery_param: i32 },
    Ed25519Verify { message_ptr: i32, signature_ptr: i32, public_key_ptr: i32 },
    Ed25519BatchVerify { messages_ptr: i32, signatures_ptr: i32, public_keys_ptr: i32 },
    Debug { message_ptr: i32 },
    Gas { gas_amount: i32 },
}

/// The 32-bit argument at place `i`, if there is one.
pub open spec fn arg_spec(args: Seq<RuntimeValue>, i: int) -> Option<i32> {
    if 0 <= i < args.len() {
        match args[i] {
            RuntimeValue::I32(value) => Some(value),
            RuntimeValue::I64(_) => None,
        }
    } else {
        None
    }
}

/// Whether a list of arguments is `count` 32-bit values.
pub open spec fn are_pointers(args: Seq<RuntimeValue>, count: int) -> bool {
    args.len() == count && forall|i: int| 0 <= i < count ==> (#[trigger] arg_spec(args, i)) is Some
}

/// Whether the arguments are `count` 32-bit values.
fn check_args(args: &[RuntimeValue], count: usize) -> (ok: bool)
    ensures
        ok == are_pointers(args@, count as int),
{
    if args.len() != count {
        return false;
    }
    let mut i: usize = 0;
    while i < count
        invariant
            i <= count,
            args@.len() == count,
            forall|j: int| 0 <= j < i ==> (#[trigger] arg_spec(args@, j)) is Some,
        decreases count - i,
    {
        match args[i] {
            RuntimeValue::I32(_) => {},
            RuntimeValue::I64(_) => {
                assert(arg_spec(args@, i as int) is None);
                return false;
            },
        }
        i = i + 1;
    }
    true
}

/// The 32-bit argument at place `i`.
fn arg(args: &[RuntimeValue], i: usize) -> (value: i32)
    requires
        arg_spec(args@, i as int) is Some,
    ensures
        Some(value) == arg_spec(args@, i as int),
{
    match args[i] {
        RuntimeValue::I32(value) => value,
        RuntimeValue::I64(_) => 0,
    }
}

impl Import {
    /// The number under which the interpreter knows the import.
    pub open spec fn spec_index(self) -> usize {
        match self {
            Import::DbRead { .. } => 0,
            Import::DbRemove { .. } => 1,
            Import::DbWrite { .. } => 2,
            Import::CanonicalizeAddress { .. } => 3,
            Import::HumanizeAddress { .. } => 4,
            Import::QueryChain { .. } => 5,
            Import::AddrCanonicalize { .. } => 6,
            Import::AddrHumanize { .. } => 7,
            Import::AddrValidate { .. } => 8,
            Import::Secp256k1Verify { .. } => 9,
            Import::Secp256k1RecoverPubkey { .. } => 10,
            Import::Ed25519Verify { .. } => 11,
            Import::Ed25519BatchVerify { .. } => 12,
            Import::Debug { .. } => 13,
            Import::Gas { .. } => 14,
        }
    }

    /// The number under which the interpreter knows the import.
    #[verifier::when_used_as_spec(spec_index)]
    pub fn index(self) -> (index: usize)
        ensures
            index == self.spec_index(),
    {
        match self {
            Import::DbRead { .. } => 0,
            Import::DbRemove { .. } => 1,
            Import::DbWrite { .. } => 2,
            Import::CanonicalizeAddress { .. } => 3,
            Import::HumanizeAddress { .. } => 4,
            Import::QueryChain { .. } => 5,
            Import::AddrCanonicalize { .. } => 6,
            Import::AddrHumanize { .. } => 7,
            Import::AddrValidate { .. } => 8,
            Import::Secp256k1Verify { .. } => 9,
            Import::Secp256k1RecoverPubkey { .. } => 10,
            Import::Ed25519Verify { .. } => 11,
            Import::Ed25519BatchVerify { .. } => 12,
            Import::Debug { .. } => 13,
            Import::Gas { .. } => 14,
        }
    }

    /// The number of arguments that the import with the given number
    /// takes, if there is such an import.
    pub open spec fn spec_arity(index: usize) -> Option<usize> {
        if index == 0 || index == 1 || index == 5 || index == 8 || index == 13 || index == 14 {
            Some(1usize)
        } else if index == 2 || index == 3 || index == 4 || index == 6 || index == 7 {
            Some(2usize)
        } else if 9 <= index <= 12 {
            Some(3usize)
        } else {
            None
        }
    }

    /// The call that an import's number and arguments stand for. There is
    /// none where the number is no import's or the arguments are not as
    /// many 32-bit values as the import takes.
    pub open spec fn resolve_spec(index: usize, args: Seq<RuntimeValue>) -> Option<Import> {
        match Import::spec_arity(index) {
            None => None,
            Some(count) => if !are_pointers(args, count as int) {
                None
            } else {
                let a = arg_spec(args, 0)->Some_0;
                let b = arg_spec(args, 1)->Some_0;
                let c = arg_spec(args, 2)->Some_0;
                Some(
                    if index == 0 {
                        Import::DbRead { state_key_ptr: a }
                    } else if index == 1 {
                        Import::DbRemove { state_key_ptr: a }
                    } else if index == 2 {
                        Import::DbWrite { state_key_ptr: a, value_ptr: b }
                    } else if index == 3 {
                        Import::CanonicalizeAddress { human_ptr: a, canonical_ptr: b }
                    } else if index == 4 {
                        Import::HumanizeAddress { canonical_ptr: a, human_ptr: b }
                    } else if index == 5 {
                        Import::QueryChain { query_ptr: a }
                    } else if index == 6 {
                        Import::AddrCanonicalize { human_ptr: a, canonical_ptr: b }
                    } else if index == 7 {
                        Import::AddrHumanize { canonical_ptr: a, human_ptr: b }
                    } else if index == 8 {
                        Import::AddrValidate { source_ptr: a }
                    } else if index == 9 {
                        Import::Secp256k1Verify {
                            message_hash_ptr: a,
                            signature_ptr: b,
                            public_key_ptr: c,
                        }
                    } else if index == 10 {
                        Import::Secp256k1RecoverPubkey {
                            message_hash_ptr: a,
                            signature_ptr: b,
                            recovery_param: c,
                        }
                    } else if index == 11 {
                        Import::Ed25519Verify {
                            message_ptr: a,
                            signature_ptr: b,
                            public_key_ptr: c,
                        }
                    } else if index == 12 {
                        Import::Ed25519BatchVerify {
                            messages_ptr: a,
                            signatures_ptr: b,
                            public_keys_ptr: c,
                        }
                    } else if index == 13 {
                        Import::Debug { message_ptr: a }
                    } else {
                        Import::Gas { gas_amount: a }
                    },
                )
            },
        }
    }

    /// Resolves the number and the arguments with which the interpreter
    /// calls the host.
    pub fn resolve(index: usize, args: &[RuntimeValue]) -> (import: Option<Import>)
        ensures
            import == Import::resolve_spec(index, args@),
            import is Some ==> import->Some_0.spec_index() == index,
    {
        if index == 0 || index == 1 || index == 5 || index == 8 || index == 13 || index == 14 {
            if !check_args(args, 1) {
                return None;
            }
            let a = arg(args, 0);
            Some(
                if index == 0 {
                    Import::DbRead { state_key_ptr: a }
                } else if index == 1 {
                    Import::DbRemove { state_key_ptr: a }
                } else if index == 5 {
                    Import::QueryChain { query_ptr: a }
                } else if index == 8 {
                    Import::AddrValidate { source_ptr: a }
                } else if index == 13 {
                    Import::Debug { message_ptr: a }
                } else {
                    Import::Gas { gas_amount: a }
                },
            )
        } else if index == 2 || index == 3 || index == 4 || index == 6 || index == 7 {
            if !check_args(args, 2) {
                return None;
            }
            let a = arg(args, 0);
            let b = arg(args, 1);
            Some(
                if index == 2 {
                    Import::DbWrite { state_key_ptr: a, value_ptr: b }
                } else if index == 3 {
                    Import::CanonicalizeAddress { human_ptr: a, canonical_ptr: b }
                } else if index == 4 {
                    Import::HumanizeAddress { canonical_ptr: a, human_ptr: b }
                } else if index == 6 {
                    Import::AddrCanonicalize { human_ptr: a, canonical_ptr: b }
                } else {
                    Import::AddrHumanize { canonical_ptr: a, human_ptr: b }
                },
            )
        } else if 9 <= index && index <= 12 {
            if !check_args(args, 3) {
                return None;
            }
            let a = arg(args, 0);
            let b = arg(args, 1);
            let c = arg(args, 2);
            Some(
                if index == 9 {
                    Import::Secp256k1Verify {
                        message_hash_ptr: a,
                        signature_ptr: b,
                        public_key_ptr: c,
                    }
                } else if index == 10 {
                    Import::Secp256k1RecoverPubkey {
                        message_hash_ptr: a,
                        signature_ptr: b,
                        recovery_param: c,
                    }
                } else if index == 11 {
                    Import::Ed25519Verify { message_ptr: a, signature_ptr: b, public_key_ptr: c }
                } else {
                    Import::Ed25519BatchVerify {
                        messages_ptr: a,
                        signatures_ptr: b,
                        public_keys_ptr: c,
                    }
                },
            )
        } else {
            None
        }
    }

    /// The number of the import that guest code knows by the given name.
    pub open spec fn index_of_spec(name: Seq<char>) -> Option<usize> {
        if name == "db_read"@ {
            Some(0usize)
        } else if name == "db_remove"@ {
            Some(1usize)
        } else if name == "db_write"@ {
            Some(2usize)
        } else if name == "canonicalize_address"@ {
            Some(3usize)
        } else if name == "humanize_address"@ {
            Some(4usize)
        } else if name == "query_chain"@ {
            Some(5usize)
        } else if name == "addr_canonicalize"@ {
            Some(6usize)
        } else if name == "addr_humanize"@ {
            Some(7usize)
        } else if name == "addr_validate"@ {
            Some(8usize)
        } else if name == "secp256k1_verify"@ {
            Some(9usize)
        } else if name == "secp256k1_recover_pubkey"@ {
            Some(10usize)
        } else if name == "ed25519_verify"@ {
            Some(11usize)
        } else if name == "ed25519_batch_verify"@ {
            Some(12usize)
        } else if name == "debug"@ {
            Some(13usize)
        } else if name == "gas"@ {
            Some(14usize)
        } else {
            None
        }
    }

    /// Looks up the number of an import by its name.
    pub fn index_of(name: &str) -> (index: Option<usize>)
        ensures
            index == Import::index_of_spec(name@),
    {
        let name = name.to_owned();
        if crate::text::equals(&name, "db_read") {
            Some(0)
        } else if crate::text::equals(&name, "db_remove") {
            Some(1)
        } else if crate::text::equals(&name, "db_write") {
            Some(2)
        } else if crate::text::equals(&name, "canonicalize_address") {
            Some(3)
        } else if crate::text::equals(&name, "humanize_address") {
            Some(4)
        } else if crate::text::equals(&name, "query_chain") {
            Some(5)
        } else if crate::text::equals(&name, "addr_canonicalize") {
            Some(6)
        } else if crate::text::equals(&name, "addr_humanize") {
            Some(7)
        } else if crate::text::equals(&name, "addr_validate") {
            Some(8)
        } else if crate::text::equals(&name, "secp256k1_verify") {
            Some(9)
        } else if crate::text::equals(&name, "secp256k1_recover_pubkey") {
            Some(10)
        } else if crate::text::equals(&name, "ed25519_verify") {
            Some(11)
        } else if crate::text::equals(&name, "ed25519_batch_verify") {
            Some(12)
        } else if crate::text::equals(&name, "debug") {
            Some(13)
        } else if crate::text::equals(&name, "gas") {
            Some(14)
        } else {
            None
        }
    }

    /// Whether one of the call's pointer arguments is the null pointer.
    pub open spec fn has_null_pointer(self) -> bool {
        match self {
            Import::DbRead { state_key_ptr } => state_key_ptr == 0,
            Import::DbRemove { state_key_ptr } => state_key_ptr == 0,
            Import::DbWrite { state_key_ptr, value_ptr } => state_key_ptr == 0 || value_ptr == 0,
            Import::CanonicalizeAddress { human_ptr, canonical_ptr } => human_ptr == 0
                || canonical_ptr == 0,
            Import::HumanizeAddress { canonical_ptr, human_ptr } => human_ptr == 0
                || canonical_ptr == 0,
            Import::QueryChain { query_ptr } => query_ptr == 0,
            Import::AddrCanonicalize { human_ptr, canonical_ptr } => human_ptr == 0
                || canonical_ptr == 0,
            Import::AddrHumanize { canonical_ptr, human_ptr } => human_ptr == 0 || canonical_ptr
                == 0,
            Import::AddrValidate { source_ptr } => source_ptr == 0,
            Import::Secp256k1Verify { message_hash_ptr, signature_ptr, public_key_ptr } => {
                message_hash_ptr == 0 || signature_ptr == 0 || public_key_ptr == 0
            },
            Import::Secp256k1RecoverPubkey { message_hash_ptr, signature_ptr, recovery_param } => {
                message_hash_ptr == 0 || signature_ptr == 0
            },
            Import::Ed25519Verify { message_ptr, signature_ptr, public_key_ptr } => message_ptr
                == 0 || signature_ptr == 0 || public_key_ptr == 0,
            Import::Ed25519BatchVerify { messages_ptr, signatures_ptr, public_keys_ptr } => {
                messages_ptr == 0 || signatures_ptr == 0 || public_keys_ptr == 0
            },
            Import::Debug { message_ptr } => message_ptr == 0,
            Import::Gas { gas_amount } => false,
        }
    }
}

/// What a call of an import does to the state of the bridge and hands to
/// the guest. The reply of the query service counts only where the call is
/// a query that is forwarded.
pub open spec fn import_spec(
    config: HostConfig,
    state: HostState,
    import: Import,
    reply: Result<Seq<u8>, Seq<u8>>,
    gas_used: u64,
) -> (HostState, HostResult) {
    match import {
        Import::DbRead { state_key_ptr } => db_read_spec(config, state, state_key_ptr),
        Import::DbRemove { state_key_ptr } => db_remove_spec(config, state, state_key_ptr),
        Import::DbWrite { state_key_ptr, value_ptr } => db_write_spec(
            config,
            state,
            state_key_ptr,
            value_ptr,
        ),
        Import::CanonicalizeAddress { human_ptr, canonical_ptr } => canonicalize_address_spec(
            config,
            state,
            human_ptr,
            canonical_ptr,
        ),
        Import::HumanizeAddress { canonical_ptr, human_ptr } => humanize_address_spec(
            config,
            state,
            canonical_ptr,
            human_ptr,
        ),
        Import::QueryChain { query_ptr } => query_chain_spec(
            config,
            state,
            query_ptr,
            reply,
            gas_used,
        ),
        Import::AddrCanonicalize { human_ptr, canonical_ptr } => canonicalize_address_spec(
            config,
            state,
            human_ptr,
            canonical_ptr,
        ),
        Import::AddrHumanize { canonical_ptr, human_ptr } => humanize_address_spec(
            config,
            state,
            canonical_ptr,
            human_ptr,
        ),
        Import::AddrValidate { source_ptr } => addr_validate_spec(config, state, source_ptr),
        Import::Secp256k1Verify { message_hash_ptr, signature_ptr, public_key_ptr } => {
            secp256k1_verify_import_spec(
                config,
                state,
                message_hash_ptr,
                signature_ptr,
                public_key_ptr,
            )
        },
        Import::Secp256k1RecoverPubkey { message_hash_ptr, signature_ptr, recovery_param } => {
            secp256k1_recover_import_spec(
                config,
                state,
                message_hash_ptr,
                signature_ptr,
                recovery_param,
            )
        },
        Import::Ed25519Verify { message_ptr, signature_ptr, public_key_ptr } => {
            ed25519_verify_import_spec(config, state, message_ptr, signature_ptr, public_key_ptr)
        },
        Import::Ed25519BatchVerify { messages_ptr, signatures_ptr, public_keys_ptr } => {
            ed25519_batch_verify_import_spec(
                config,
                state,
                messages_ptr,
                signatures_ptr,
                public_keys_ptr,
            )
        },
        Import::Debug { message_ptr } => debug_import_spec(config, state, message_ptr),
        Import::Gas { gas_amount } => gas_import_spec(state, gas_amount),
    }
}

impl<Q: Querier> Bridge<Q> {
    /// Performs a call of an import.
    pub fn invoke(&mut self, import: Import) -> (result: Result<Option<RuntimeValue>, Trap>)
        requires
            old(self).wf(),
        ensures
            final(self).wf(),
            final(self).config() == old(self).config(),
            !(import is QueryChain) ==> final(self).querier == old(self).querier,
            exists|reply: Result<Seq<u8>, Seq<u8>>, gas_used: u64|
                (final(self).state(), result) == #[trigger] import_spec(
                    old(self).config(),
                    old(self).state(),
                    import,
                    reply,
                    gas_used,
                ),
    {
        let ghost config = self.config();
        let ghost state = self.state();
        let ghost nothing = Ok::<Seq<u8>, Seq<u8>>(Seq::<u8>::empty());
        let result = match import {
            Import::DbRead { state_key_ptr } => self.db_read(state_key_ptr),
            Import::DbRemove { state_key_ptr } => self.db_remove(state_key_ptr),
            Import::DbWrite { state_key_ptr, value_ptr } => self.db_write(state_key_ptr, value_ptr),
            Import::CanonicalizeAddress { human_ptr, canonical_ptr } => self.canonicalize_address(
                human_ptr,
                canonical_ptr,
            ),
            Import::HumanizeAddress { canonical_ptr, human_ptr } => self.humanize_address(
                canonical_ptr,
                human_ptr,
            ),
            Import::QueryChain { query_ptr } => {
                let result = self.query_chain(query_ptr);
                proof {
                    let (reply, gas_used) = choose|reply: Result<Seq<u8>, Seq<u8>>, gas_used: u64|
                        (self.state(), result) == #[trigger] query_chain_spec(
                            config,
                            state,
                            query_ptr,
                            reply,
                            gas_used,
                        );
                    assert((self.state(), result) == import_spec(
                        config,
                        state,
                        import,
                        reply,
                        gas_used,
                    ));
                }
                return result;
            },
            Import::AddrCanonicalize { human_ptr, canonical_ptr } => self.addr_canonicalize(
                human_ptr,
                canonical_ptr,
            ),
            Import::AddrHumanize { canonical_ptr, human_ptr } => self.addr_humanize(
                canonical_ptr,
                human_ptr,
            ),
            Import::AddrValidate { source_ptr } => self.addr_validate(source_ptr),
            Import::Secp256k1Verify { message_hash_ptr, signature_ptr, public_key_ptr } => {
                self.secp256k1_verify(message_hash_ptr, signature_ptr, public_key_ptr)
            },
            Import::Secp256k1RecoverPubkey { message_hash_ptr, signature_ptr, recovery_param } => {
                self.secp256k1_recover_pubkey(message_hash_ptr, signature_ptr, recovery_param)
            },
            Import::Ed25519Verify { message_ptr, signature_ptr, public_key_ptr } => {
                self.ed25519_verify(message_ptr, signature_ptr, public_key_ptr)
            },
            Import::Ed25519BatchVerify { messages_ptr, signatures_ptr, public_keys_ptr } => {
                self.ed25519_batch_verify(messages_ptr, signatures_ptr, public_keys_ptr)
            },
            Import::Debug { message_ptr } => self.debug(message_ptr),
            Import::Gas { gas_amount } => self.gas(gas_amount),
        };
        proof {
            assert((self.state(), result) == import_spec(config, state, import, nothing, 0));
        }
        result
    }

    /// Performs the call that the interpreter asks for by number and
    /// arguments. A number or arguments that name no call of an import are
    /// refused before the bridge is touched.
    pub fn invoke_index(&mut self, index: usize, args: &[RuntimeValue]) -> (result: Option<
        Result<Option<RuntimeValue>, Trap>,
    >)
        requires
            old(self).wf(),
        ensures
            final(self).wf(),
            final(self).config() == old(self).config(),
            match Import::resolve_spec(index, args@) {
                None => result is None && *final(self) == *old(self),
                Some(import) => result is Some && exists|
                    reply: Result<Seq<u8>, Seq<u8>>,
                    gas_used: u64,
                |
                    (final(self).state(), result->Some_0) == #[trigger] import_spec(
                        old(self).config(),
                        old(self).state(),
                        import,
                        reply,
                        gas_used,
                    ),
            },
    {
        match Import::resolve(index, args) {
            None => None,
            Some(import) => Some(self.invoke(import)),
        }
    }
}

} // verus!
