//! The bridge of one execution context: guest memory, gas, storage, the
//! address codec and the query service, and the host operations on plain
//! bytes that the imports are built from.
//!
//! Every operation is charged before it acts. An operation that cannot be
//! paid for empties the meter, traps, and leaves everything else as it was.

use vstd::prelude::*;
use crate::address::{canonicalize_spec, humanize_spec, validate_spec, AddressCodec};
use crate::bytes::copy;
use crate::crypto::{
    ed25519_batch_verify, ed25519_batch_verify_spec, ed25519_verify, ed25519_verify_spec,
    secp256k1_recover_pubkey, secp256k1_recover_spec, secp256k1_verify, secp256k1_verify_spec,
};
use crate::gas::{GasCosts, GasMeter, HostCall};
use crate::memory::{views, GuestMemory};
use crate::query::{
    check_depth, decode_request, may_forward, outcome_of, parse_request, Querier, QueryError,
    QueryOutcome, QueryRequest, QueryRequestView, QueryResponse,
};
use crate::storage::ContractStorage;
use crate::trap::{AddressError, CryptoError, Trap};

verus! {

/// What an execution context holds and a host call may change.
pub struct HostState {
    pub memory: Seq<u8>,
    pub frontier: u32,
    pub gas: u64,
    pub store: Map<Seq<u8>, Seq<u8>>,
    pub debug: Seq<Seq<u8>>,
}

/// What an execution context is set up with and no host call changes.
pub struct HostConfig {
    pub costs: GasCosts,
    pub store_prefix: Seq<u8>,
    pub address_prefix: Seq<u8>,
    pub depth: u32,
}

/// Whether the gas of a state pays a price and leaves something over.
pub open spec fn can_pay(state: HostState, price: u64) -> bool {
    price < state.gas
}

/// The state after a price was charged: what is left of the gas, or none.
pub open spec fn pay(state: HostState, price: u64) -> HostState {
    HostState {
        gas: if price < state.gas {
            (state.gas - price) as u64
        } else {
            0
        },
        ..state
    }
}

/// What the contract finds in the store under its `key`.
pub open spec fn lookup(config: HostConfig, state: HostState, key: Seq<u8>) -> Option<Seq<u8>> {
    if state.store.contains_key(config.store_prefix + key) {
        Some(state.store[config.store_prefix + key])
    } else {
        None
    }
}

/// Reading the contract's `key`: the price of the read is charged, and
/// what the store holds under the key is the value.
pub open spec fn storage_read_spec(config: HostConfig, state: HostState, key: Seq<u8>) -> (
    HostState,
    Result<Option<Seq<u8>>, Trap>,
) {
    let price = config.costs.spec_price(HostCall::DbRead, key.len());
    if can_pay(state, price) {
        (pay(state, price), Ok(lookup(config, state, key)))
    } else {
        (pay(state, price), Err(Trap::GasExhausted))
    }
}

/// Writing `value` under the contract's `key`: the price is charged
/// first, and only a write that is paid for changes the store.
pub open spec fn storage_write_spec(
    config: HostConfig,
    state: HostState,
    key: Seq<u8>,
    value: Seq<u8>,
) -> (HostState, Result<(), Trap>) {
    let price = config.costs.spec_price(HostCall::DbWrite, key.len() + value.len());
    if can_pay(state, price) {
        (
            HostState {
                store: state.store.insert(config.store_prefix + key, value),
                ..pay(state, price)
            },
            Ok(()),
        )
    } else {
        (pay(state, price), Err(Trap::GasExhausted))
    }
}

/// Removing the contract's `key`: the price is charged first, and only
/// a removal that is paid for changes the store.
pub open spec fn storage_remove_spec(config: HostConfig, state: HostState, key: Seq<u8>) -> (
    HostState,
    Result<(), Trap>,
) {
    let price = config.costs.spec_price(HostCall::DbRemove, key.len());
    if can_pay(state, price) {
        (
            HostState { store: state.store.remove(config.store_prefix + key), ..pay(state, price) },
            Ok(()),
        )
    } else {
        (pay(state, price), Err(Trap::GasExhausted))
    }
}

/// A charged host call that changes nothing but the gas: it yields `value`
/// if it can be paid for.
pub open spec fn metered<T>(state: HostState, price: u64, value: T) -> (
    HostState,
    Result<T, Trap>,
) {
    if can_pay(state, price) {
        (pay(state, price), Ok(value))
    } else {
        (pay(state, price), Err(Trap::GasExhausted))
    }
}

/// The charged conversion of a human address to canonical form.
pub open spec fn canonicalize_call_spec(config: HostConfig, state: HostState, human: Seq<u8>) -> (
    HostState,
    Result<Result<Seq<u8>, AddressError>, Trap>,
) {
    metered(
        state,
        config.costs.spec_price(HostCall::Canonicalize, human.len()),
        canonicalize_spec(config.address_prefix, human),
    )
}

/// The charged conversion of a canonical address to human form.
pub open spec fn humanize_call_spec(config: HostConfig, state: HostState, canonical: Seq<u8>) -> (
    HostState,
    Result<Result<Seq<u8>, AddressError>, Trap>,
) {
    metered(
        state,
        config.costs.spec_price(HostCall::Humanize, canonical.len()),
        humanize_spec(config.address_prefix, canonical),
    )
}

/// The charged check of a human address.
pub open spec fn validate_call_spec(config: HostConfig, state: HostState, human: Seq<u8>) -> (
    HostState,
    Result<Result<(), AddressError>, Trap>,
) {
    metered(
        state,
        config.costs.spec_price(HostCall::Validate, human.len()),
        validate_spec(config.address_prefix, human),
    )
}

/// A debug message of the guest: once paid for, it is kept for the host.
pub open spec fn debug_spec(config: HostConfig, state: HostState, message: Seq<u8>) -> (
    HostState,
    Result<(), Trap>,
) {
    let price = config.costs.spec_price(HostCall::Debug, message.len());
    if can_pay(state, price) {
        (HostState { debug: state.debug.push(message), ..pay(state, price) }, Ok(()))
    } else {
        (pay(state, price), Err(Trap::GasExhausted))
    }
}

/// How the first half of a query ends: with a trap, with a refusal of the
/// guest's bytes, or with a request to hand to the query service.
pub enum QueryStep {
    Trapped(Trap),
    Refused,
    Dispatch { request: QueryRequestView, depth: u32, gas_limit: u64 },
}

/// The first half of a query. The depth ceiling is looked at before
/// anything is charged: no amount of gas buys a query beyond it.
pub open spec fn query_begin_spec(config: HostConfig, state: HostState, request: Seq<u8>) -> (
    HostState,
    QueryStep,
) {
    let price = config.costs.spec_price(HostCall::Query, request.len());
    if !may_forward(config.depth) {
        (state, QueryStep::Trapped(Trap::QueryDepthExceeded))
    } else if !can_pay(state, price) {
        (pay(state, price), QueryStep::Trapped(Trap::GasExhausted))
    } else {
        match parse_request(request) {
            None => (pay(state, price), QueryStep::Refused),
            Some(parsed) => (
                pay(state, price),
                QueryStep::Dispatch {
                    request: parsed,
                    depth: (config.depth + 1) as u32,
                    gas_limit: pay(state, price).gas,
                },
            ),
        }
    }
}

/// The second half of a query: the gas that the nested context used is
/// charged, and the reply is handed on as it came.
pub open spec fn query_finish_spec(
    state: HostState,
    reply: Result<Seq<u8>, Seq<u8>>,
    gas_used: u64,
) -> (HostState, Result<QueryOutcome, Trap>) {
    metered(
        state,
        gas_used,
        match reply {
            Ok(answer) => QueryOutcome::Answer(answer),
            Err(reason) => QueryOutcome::Failed(reason),
        },
    )
}

/// The reply of a query service as plain values.
pub open spec fn reply_view(reply: Result<Vec<u8>, Vec<u8>>) -> Result<Seq<u8>, Seq<u8>> {
    match reply {
        Ok(answer) => Ok(answer@),
        Err(reason) => Err(reason@),
    }
}

/// What is handed to the query service: the request, the nesting level
/// of the context that is to answer it, and the gas that it may use.
#[derive(Debug)]
pub struct QueryDispatch {
    pub request: QueryRequest,
    pub depth: u32,
    pub gas_limit: u64,
}

/// The bridge of one execution context.
pub struct Bridge<Q: Querier> {
    pub memory: GuestMemory,
    pub gas: GasMeter,
    pub costs: GasCosts,
    pub storage: ContractStorage,
    pub codec: AddressCodec,
    pub querier: Q,
    pub depth: u32,
    pub debug_log: Vec<Vec<u8>>,
}

impl<Q: Querier> Bridge<Q> {
    /// The parts of the bridge are sound each by itself.
    pub open spec fn wf(&self) -> bool {
        &&& self.memory.wf()
        &&& self.storage.wf()
        &&& self.codec.wf()
    }

    /// What the bridge holds and a host call may change.
    pub open spec fn state(&self) -> HostState {
        HostState {
            memory: self.memory.bytes@,
            frontier: self.memory.frontier,
            gas: self.gas.spec_remaining(),
            store: self.storage@,
            debug: views(self.debug_log@),
        }
    }

    /// What the bridge was set up with.
    pub open spec fn config(&self) -> HostConfig {
        HostConfig {
            costs: self.costs,
            store_prefix: self.storage.prefix(),
            address_prefix: self.codec.prefix(),
            depth: self.depth,
        }
    }

    /// This bridge is `before` with its state moved on to `state`: it is
    /// still sound, and its set-up and its query service are the same.
    pub open spec fn follows(&self, before: &Self, state: HostState) -> bool {
        &&& self.wf()
        &&& self.config() == before.config()
        &&& self.querier == before.querier
        &&& self.state() == state
    }

    /// A bridge for a fresh execution context at nesting level `depth`.
    pub fn new(
        memory: GuestMemory,
        budget: u64,
        costs: GasCosts,
        storage: ContractStorage,
        codec: AddressCodec,
        querier: Q,
        depth: u32,
    ) -> (bridge: Bridge<Q>)
        requires
            memory.wf(),
            storage.wf(),
            codec.wf(),
        ensures
            bridge.wf(),
            bridge.memory == memory,
            bridge.gas.spec_remaining() == budget,
            bridge.costs == costs,
            bridge.storage == storage,
            bridge.codec == codec,
            bridge.querier == querier,
            bridge.depth == depth,
            bridge.debug_log@.len() == 0,
    {
        Bridge {
            memory,
            gas: GasMeter::new(budget),
            costs,
            storage,
            codec,
            querier,
            depth,
            debug_log: Vec::new(),
        }
    }

    /// Charges the price of a call that carries `bytes` bytes.
    fn charge(&mut self, call: HostCall, bytes: u128) -> (paid: Result<(), Trap>)
        requires
            old(self).wf(),
        ensures
            final(self).follows(
                old(self),
                pay(old(self).state(), old(self).costs.spec_price(call, bytes as nat)),
            ),
            paid == (if can_pay(old(self).state(), old(self).costs.spec_price(call, bytes as nat)) {
                Ok::<(), Trap>(())
            } else {
                Err::<(), Trap>(Trap::GasExhausted)
            }),
    {
        let price = self.costs.price(call, bytes);
        self.gas.charge(price)
    }

    /// Reads the contract's `key` from storage.
    pub fn storage_read(&mut self, key: &[u8]) -> (value: Result<Option<Vec<u8>>, Trap>)
        requires
            old(self).wf(),
        ensures
            final(self).follows(
                old(self),
                storage_read_spec(old(self).config(), old(self).state(), key@).0,
            ),
            match storage_read_spec(old(self).config(), old(self).state(), key@).1 {
                Ok(Some(bytes)) => value is Ok && value->Ok_0 is Some && value->Ok_0->Some_0@
                    == bytes,
                Ok(None) => value == Ok::<Option<Vec<u8>>, Trap>(None),
                Err(trap) => value == Err::<Option<Vec<u8>>, Trap>(trap),
            },
    {
        self.charge(HostCall::DbRead, key.len() as u128)?;
        Ok(self.storage.get(key))
    }

    /// Writes `value` under the contract's `key`. The price is charged
    /// first: a write that cannot be paid for does not happen.
    pub fn storage_write(&mut self, key: &[u8], value: &[u8]) -> (written: Result<(), Trap>)
        requires
            old(self).wf(),
        ensures
            final(self).follows(
                old(self),
                storage_write_spec(old(self).config(), old(self).state(), key@, value@).0,
            ),
            written == storage_write_spec(old(self).config(), old(self).state(), key@, value@).1,
    {
        self.charge(HostCall::DbWrite, key.len() as u128 + value.len() as u128)?;
        self.storage.set(key, value);
        Ok(())
    }

    /// Removes the contract's `key` from storage.
    pub fn storage_remove(&mut self, key: &[u8]) -> (removed: Result<(), Trap>)
        requires
            old(self).wf(),
        ensures
            final(self).follows(
                old(self),
                storage_remove_spec(old(self).config(), old(self).state(), key@).0,
            ),
            removed == storage_remove_spec(old(self).config(), old(self).state(), key@).1,
    {
        self.charge(HostCall::DbRemove, key.len() as u128)?;
        self.storage.remove(key);
        Ok(())
    }

    /// Converts a human address to its canonical form.
    pub fn address_canonicalize(&mut self, human: &[u8]) -> (canonical: Result<
        Result<Vec<u8>, AddressError>,
        Trap,
    >)
        requires
            old(self).wf(),
        ensures
            final(self).follows(
                old(self),
                canonicalize_call_spec(old(self).config(), old(self).state(), human@).0,
            ),
            match canonicalize_call_spec(old(self).config(), old(self).state(), human@).1 {
                Ok(Ok(bytes)) => canonical is Ok && canonical->Ok_0 is Ok
                    && canonical->Ok_0->Ok_0@ == bytes,
                Ok(Err(fault)) => canonical == Ok::<Result<Vec<u8>, AddressError>, Trap>(
                    Err(fault),
                ),
                Err(trap) => canonical == Err::<Result<Vec<u8>, AddressError>, Trap>(trap),
            },
    {
        self.charge(HostCall::Canonicalize, human.len() as u128)?;
        Ok(self.codec.canonicalize(human))
    }

    /// Converts a canonical address to its human form.
    pub fn address_humanize(&mut self, canonical: &[u8]) -> (human: Result<
        Result<Vec<u8>, AddressError>,
        Trap,
    >)
        requires
            old(self).wf(),
        ensures
            final(self).follows(
                old(self),
                humanize_call_spec(old(self).config(), old(self).state(), canonical@).0,
            ),
            match humanize_call_spec(old(self).config(), old(self).state(), canonical@).1 {
                Ok(Ok(text)) => human is Ok && human->Ok_0 is Ok && human->Ok_0->Ok_0@ == text,
                Ok(Err(fault)) => human == Ok::<Result<Vec<u8>, AddressError>, Trap>(Err(fault)),
                Err(trap) => human == Err::<Result<Vec<u8>, AddressError>, Trap>(trap),
            },
    {
        self.charge(HostCall::Humanize, canonical.len() as u128)?;
        Ok(self.codec.humanize(canonical))
    }

    /// Checks that a human address is sound and in its normal form.
    pub fn address_validate(&mut self, human: &[u8]) -> (status: Result<
        Result<(), AddressError>,
        Trap,
    >)
        requires
            old(self).wf(),
        ensures
            final(self).follows(
                old(self),
                validate_call_spec(old(self).config(), old(self).state(), human@).0,
            ),
            status == validate_call_spec(old(self).config(), old(self).state(), human@).1,
    {
        self.charge(HostCall::Validate, human.len() as u128)?;
        Ok(self.codec.validate(human))
    }

    /// Verifies a secp256k1 signature.
    pub fn verify_secp256k1(
        &mut self,
        hash: &[u8],
        signature: &[u8],
        public_key: &[u8],
    ) -> (verdict: Result<Result<bool, CryptoError>, Trap>)
        requires
            old(self).wf(),
        ensures
            final(self).follows(
                old(self),
                pay(old(self).state(), old(self).costs.spec_price(HostCall::Secp256k1Verify, 0)),
            ),
            verdict == metered(
                old(self).state(),
                old(self).costs.spec_price(HostCall::Secp256k1Verify, 0),
                secp256k1_verify_spec(hash@, signature@, public_key@),
            ).1,
    {
        self.charge(HostCall::Secp256k1Verify, 0)?;
        Ok(secp256k1_verify(hash, signature, public_key))
    }

    /// Recovers the public key behind a secp256k1 signature.
    pub fn recover_secp256k1(
        &mut self,
        hash: &[u8],
        signature: &[u8],
        recovery_param: i32,
    ) -> (key: Result<Result<Vec<u8>, CryptoError>, Trap>)
        requires
            old(self).wf(),
        ensures
            final(self).follows(
                old(self),
                pay(old(self).state(), old(self).costs.spec_price(HostCall::Secp256k1Recover, 0)),
            ),
            match metered(
                old(self).state(),
                old(self).costs.spec_price(HostCall::Secp256k1Recover, 0),
                secp256k1_recover_spec(hash@, signature@, recovery_param),
            ).1 {
                Ok(Ok(bytes)) => key is Ok && key->Ok_0 is Ok && key->Ok_0->Ok_0@ == bytes,
                Ok(Err(fault)) => key == Ok::<Result<Vec<u8>, CryptoError>, Trap>(Err(fault)),
                Err(trap) => key == Err::<Result<Vec<u8>, CryptoError>, Trap>(trap),
            },
    {
        self.charge(HostCall::Secp256k1Recover, 0)?;
        Ok(secp256k1_recover_pubkey(hash, signature, recovery_param))
    }

    /// Verifies an ed25519 signature.
    pub fn verify_ed25519(
        &mut self,
        message: &[u8],
        signature: &[u8],
        public_key: &[u8],
    ) -> (verdict: Result<Result<bool, CryptoError>, Trap>)
        requires
            old(self).wf(),
        ensures
            final(self).follows(
                old(self),
                pay(old(self).state(), old(self).costs.spec_price(HostCall::Ed25519Verify, 0)),
            ),
            verdict == metered(
                old(self).state(),
                old(self).costs.spec_price(HostCall::Ed25519Verify, 0),
                ed25519_verify_spec(message@, signature@, public_key@),
            ).1,
    {
        self.charge(HostCall::Ed25519Verify, 0)?;
        Ok(ed25519_verify(message, signature, public_key))
    }

    /// Verifies a batch of ed25519 signatures. The price grows with the
    /// number of signatures.
    pub fn batch_verify_ed25519(
        &mut self,
        messages: &Vec<Vec<u8>>,
        signatures: &Vec<Vec<u8>>,
        public_keys: &Vec<Vec<u8>>,
    ) -> (verdict: Result<Result<bool, CryptoError>, Trap>)
        requires
            old(self).wf(),
        ensures
            final(self).follows(
                old(self),
                pay(
                    old(self).state(),
                    old(self).costs.spec_price(
                        HostCall::Ed25519BatchVerify,
                        signatures@.len(),
                    ),
                ),
            ),
            verdict == metered(
                old(self).state(),
                old(self).costs.spec_price(HostCall::Ed25519BatchVerify, signatures@.len()),
                ed25519_batch_verify_spec(
                    views(messages@),
                    views(signatures@),
                    views(public_keys@),
                ),
            ).1,
    {
        self.charge(HostCall::Ed25519BatchVerify, signatures.len() as u128)?;
        Ok(ed25519_batch_verify(messages, signatures, public_keys))
    }

    /// Records a debug message of the guest for the host to print.
    pub fn emit_debug(&mut self, message: &[u8]) -> (emitted: Result<(), Trap>)
        requires
            old(self).wf(),
        ensures
            final(self).follows(
                old(self),
                debug_spec(old(self).config(), old(self).state(), message@).0,
            ),
            emitted == debug_spec(old(self).config(), old(self).state(), message@).1,
    {
        self.charge(HostCall::Debug, message.len() as u128)?;
        let ghost before = views(self.debug_log@);
        self.debug_log.push(copy(message));
        proof {
            assert(views(self.debug_log@) =~= before.push(message@));
        }
        Ok(())
    }

    /// Charges for the guest instructions run since the last checkpoint.
    pub fn charge_gas(&mut self, amount: u64) -> (paid: Result<(), Trap>)
        requires
            old(self).wf(),
        ensures
            final(self).follows(old(self), pay(old(self).state(), amount)),
            paid == metered(old(self).state(), amount, ()).1,
    {
        self.gas.charge(amount)
    }

    /// The first half of a query: looks at the depth ceiling, charges the
    /// call and reads the guest's bytes as a request. What comes back is
    /// what the query service is to be asked.
    pub fn query_begin(&mut self, request: &[u8]) -> (step: Result<
        Result<QueryDispatch, QueryError>,
        Trap,
    >)
        requires
            old(self).wf(),
        ensures
            final(self).follows(
                old(self),
                query_begin_spec(old(self).config(), old(self).state(), request@).0,
            ),
            match query_begin_spec(old(self).config(), old(self).state(), request@).1 {
                QueryStep::Trapped(trap) => step == Err::<Result<QueryDispatch, QueryError>, Trap>(
                    trap,
                ),
                QueryStep::Refused => step is Ok && step->Ok_0 is Err && step->Ok_0->Err_0
                    is Malformed,
                QueryStep::Dispatch { request: parsed, depth, gas_limit } => {
                    &&& step is Ok
                    &&& step->Ok_0 is Ok
                    &&& step->Ok_0->Ok_0.request@ == parsed
                    &&& step->Ok_0->Ok_0.depth == depth
                    &&& step->Ok_0->Ok_0.gas_limit == gas_limit
                },
            },
    {
        let depth = check_depth(self.depth)?;
        self.charge(HostCall::Query, request.len() as u128)?;
        match decode_request(request) {
            Some(parsed) => Ok(
                Ok(QueryDispatch { request: parsed, depth, gas_limit: self.gas.remaining() }),
            ),
            None => Ok(Err(QueryError::Malformed)),
        }
    }

    /// The second half of a query: charges the gas that the nested
    /// context used and hands the reply on.
    pub fn query_finish(&mut self, response: QueryResponse) -> (answer: Result<
        Result<Vec<u8>, QueryError>,
        Trap,
    >)
        requires
            old(self).wf(),
        ensures
            final(self).follows(
                old(self),
                query_finish_spec(
                    old(self).state(),
                    reply_view(response.reply),
                    response.gas_used,
                ).0,
            ),
            match query_finish_spec(
                old(self).state(),
                reply_view(response.reply),
                response.gas_used,
            ).1 {
                Ok(outcome) => answer is Ok && outcome_of(answer->Ok_0) == outcome,
                Err(trap) => answer == Err::<Result<Vec<u8>, QueryError>, Trap>(trap),
            },
    {
        self.gas.charge(response.gas_used)?;
        match response.reply {
            Ok(bytes) => Ok(Ok(bytes)),
            Err(reason) => Ok(Err(QueryError::Failed(reason))),
        }
    }

    /// Forwards a query of the guest to the query service and hands back
    /// what the service replies: the first half of the query, the service
    /// asked for exactly what the first half brought, and the second half.
    /// Where the first half ends the query, the service is not asked.
    pub fn forward_query(&mut self, request: &[u8]) -> (answer: Result<
        Result<Vec<u8>, QueryError>,
        Trap,
    >)
        requires
            old(self).wf(),
        ensures
            final(self).wf(),
            final(self).config() == old(self).config(),
            match query_begin_spec(old(self).config(), old(self).state(), request@).1 {
                QueryStep::Trapped(trap) => {
                    &&& answer == Err::<Result<Vec<u8>, QueryError>, Trap>(trap)
                    &&& final(self).follows(
                        old(self),
                        query_begin_spec(old(self).config(), old(self).state(), request@).0,
                    )
                },
                QueryStep::Refused => {
                    &&& answer is Ok
                    &&& outcome_of(answer->Ok_0) == QueryOutcome::Malformed
                    &&& final(self).follows(
                        old(self),
                        query_begin_spec(old(self).config(), old(self).state(), request@).0,
                    )
                },
                QueryStep::Dispatch { request: parsed, depth, gas_limit } => exists|
                    reply: Result<Seq<u8>, Seq<u8>>,
                    gas_used: u64,
                |
                    {
                        &&& final(self).state() == (#[trigger] query_finish_spec(
                            query_begin_spec(old(self).config(), old(self).state(), request@).0,
                            reply,
                            gas_used,
                        )).0
                        &&& match query_finish_spec(
                            query_begin_spec(old(self).config(), old(self).state(), request@).0,
                            reply,
                            gas_used,
                        ).1 {
                            Ok(outcome) => answer is Ok && outcome_of(answer->Ok_0) == outcome,
                            Err(trap) => answer == Err::<Result<Vec<u8>, QueryError>, Trap>(trap),
                        }
                    },
            },
    {
        match self.query_begin(request)? {
            Err(refusal) => Ok(Err(refusal)),
            Ok(dispatch) => {
                let response = self.querier.raw_query(
                    &dispatch.request,
                    dispatch.depth,
                    dispatch.gas_limit,
                );
                let ghost reply = reply_view(response.reply);
                let ghost gas_used = response.gas_used;
                let ghost begun = self.state();
                let answer = self.query_finish(response);
                proof {
                    assert(self.state() == query_finish_spec(begun, reply, gas_used).0);
                }
                answer
            },
        }
    }
}

} // verus!
