//! Query forwarding: the wire form of a guest's query, the service that
//! answers it, and the ceiling on how deep queries may nest.

use vstd::prelude::*;
use vstd::bytes::{
    lemma_auto_spec_u64_to_from_le_bytes, spec_u64_from_le_bytes, spec_u64_to_le_bytes,
    u64_from_le_bytes, u64_to_le_bytes,
};
use vstd::slice::slice_subrange;
use crate::bytes::{append, copy};
use crate::trap::Trap;

verus! {

/// The deepest level at which a query may still be forwarded. The top
/// level of a transaction has depth 0.
pub const QUERY_DEPTH_CEILING: u32 = 10;

/// A query as the guest states it.
#[derive(Debug)]
pub enum QueryRequest {
    /// A query for the chain itself.
    Chain { payload: Vec<u8> },
    /// A query for another contract, named by its address and code hash.
    Contract { contract_addr: Vec<u8>, code_hash: Vec<u8>, msg: Vec<u8> },
}

/// A query as plain values.
pub enum QueryRequestView {
    Chain { payload: Seq<u8> },
    Contract { contract_addr: Seq<u8>, code_hash: Seq<u8>, msg: Seq<u8> },
}

impl View for QueryRequest {
    type V = QueryRequestView;

    open spec fn view(&self) -> QueryRequestView {
        match self {
            QueryRequest::Chain { payload } => QueryRequestView::Chain { payload: payload@ },
            QueryRequest::Contract { contract_addr, code_hash, msg } => QueryRequestView::Contract {
                contract_addr: contract_addr@,
                code_hash: code_hash@,
                msg: msg@,
            },
        }
    }
}

/// Why a query brought no answer.
#[derive(Debug)]
pub enum QueryError {
    /// The guest's bytes are no query.
    Malformed,
    /// The target of the query failed; the bytes say how.
    Failed(Vec<u8>),
}

/// What a query brought, as plain values.
pub enum QueryOutcome {
    Answer(Seq<u8>),
    Malformed,
    Failed(Seq<u8>),
}

/// The outcome that a result of the forwarder stands for.
pub open spec fn outcome_of(result: Result<Vec<u8>, QueryError>) -> QueryOutcome {
    match result {
        Ok(answer) => QueryOutcome::Answer(answer@),
        Err(QueryError::Malformed) => QueryOutcome::Malformed,
        Err(QueryError::Failed(reason)) => QueryOutcome::Failed(reason@),
    }
}

/// What the query service hands back: the answer or the reason of the
/// target's failure, and the gas that the nested context used.
#[derive(Debug)]
pub struct QueryResponse {
    pub reply: Result<Vec<u8>, Vec<u8>>,
    pub gas_used: u64,
}

/// The service that runs a query in a nested execution context. The
/// bridge promises nothing about its answers: whatever comes back is
/// handed on to the guest.
pub trait Querier {
    /// Runs `request` at nesting level `depth` with no more than
    /// `gas_limit` gas.
    fn raw_query(&mut self, request: &QueryRequest, depth: u32, gas_limit: u64) -> QueryResponse;
}

/// The wire form of a query: a tag byte; for a contract query the address
/// and the code hash, each behind its length as eight little-endian bytes;
/// then the message.
pub open spec fn request_bytes(request: QueryRequestView) -> Seq<u8> {
    match request {
        QueryRequestView::Chain { payload } => seq![0u8] + payload,
        QueryRequestView::Contract { contract_addr, code_hash, msg } => seq![1u8]
            + spec_u64_to_le_bytes(contract_addr.len() as u64) + contract_addr
            + spec_u64_to_le_bytes(code_hash.len() as u64) + code_hash + msg,
    }
}

/// The query that bytes on the wire stand for, if they stand for one.
pub open spec fn parse_request(bytes: Seq<u8>) -> Option<QueryRequestView> {
    if bytes.len() == 0 {
        None
    } else if bytes[0] == 0 {
        Some(QueryRequestView::Chain { payload: bytes.skip(1) })
    } else if bytes[0] == 1 && bytes.len() >= 9 {
        let n = spec_u64_from_le_bytes(bytes.subrange(1, 9)) as int;
        if bytes.len() - 9 < n + 8 {
            None
        } else {
            let m = spec_u64_from_le_bytes(bytes.subrange(9 + n, 17 + n)) as int;
            if bytes.len() - 17 - n < m {
                None
            } else {
                Some(
                    QueryRequestView::Contract {
                        contract_addr: bytes.subrange(9, 9 + n),
                        code_hash: bytes.subrange(17 + n, 17 + n + m),
                        msg: bytes.skip(17 + n + m),
                    },
                )
            }
        }
    } else {
        None
    }
}

/// The wire form of a query's outcome: a tag byte, then the answer or the
/// reason.
pub open spec fn outcome_bytes(outcome: QueryOutcome) -> Seq<u8> {
    match outcome {
        QueryOutcome::Answer(answer) => seq![0u8] + answer,
        QueryOutcome::Malformed => seq![1u8],
        QueryOutcome::Failed(reason) => seq![2u8] + reason,
    }
}

/// A query written to the wire and read back is the same query.
pub proof fn lemma_parse_request_bytes(request: QueryRequestView)
    requires
        match request {
            QueryRequestView::Chain { payload } => true,
            QueryRequestView::Contract { contract_addr, code_hash, msg } => contract_addr.len()
                <= u64::MAX && code_hash.len() <= u64::MAX,
        },
    ensures
        parse_request(request_bytes(request)) == Some(request),
{
    lemma_auto_spec_u64_to_from_le_bytes();
    let bytes = request_bytes(request);
    match request {
        QueryRequestView::Chain { payload } => {
            assert(bytes.skip(1) =~= payload);
        },
        QueryRequestView::Contract { contract_addr, code_hash, msg } => {
            let n = contract_addr.len() as int;
            let m = code_hash.len() as int;
            assert(spec_u64_to_le_bytes(n as u64).len() == 8);
            assert(spec_u64_to_le_bytes(m as u64).len() == 8);
            assert(bytes.subrange(1, 9) =~= spec_u64_to_le_bytes(n as u64));
            assert(bytes.subrange(9 + n, 17 + n) =~= spec_u64_to_le_bytes(m as u64));
            assert(bytes.subrange(9, 9 + n) =~= contract_addr);
            assert(bytes.subrange(17 + n, 17 + n + m) =~= code_hash);
            assert(bytes.skip(17 + n + m) =~= msg);
        },
    }
}

/// Writes a query to the wire.
pub fn encode_request(request: &QueryRequest) -> (bytes: Vec<u8>)
    ensures
        bytes@ == request_bytes(request@),
        parse_request(bytes@) == Some(request@),
{
    let mut bytes: Vec<u8> = Vec::new();
    match request {
        QueryRequest::Chain { payload } => {
            bytes.push(0u8);
            append(&mut bytes, payload.as_slice());
        },
        QueryRequest::Contract { contract_addr, code_hash, msg } => {
            bytes.push(1u8);
            let n = u64_to_le_bytes(contract_addr.len() as u64);
            append(&mut bytes, n.as_slice());
            append(&mut bytes, contract_addr.as_slice());
            let m = u64_to_le_bytes(code_hash.len() as u64);
            append(&mut bytes, m.as_slice());
            append(&mut bytes, code_hash.as_slice());
            append(&mut bytes, msg.as_slice());
        },
    }
    proof {
        assert(bytes@ =~= request_bytes(request@));
        lemma_parse_request_bytes(request@);
    }
    bytes
}

/// Reads a query from the wire.
pub fn decode_request(bytes: &[u8]) -> (request: Option<QueryRequest>)
    ensures
        match parse_request(bytes@) {
            Some(parsed) => request is Some && request->Some_0@ == parsed,
            None => request is None,
        },
{
    let size = bytes.len();
    if size == 0 {
        return None;
    }
    if bytes[0] == 0 {
        let payload = copy(slice_subrange(bytes, 1, size));
        proof {
            assert(bytes@.subrange(1, size as int) =~= bytes@.skip(1));
        }
        return Some(QueryRequest::Chain { payload });
    }
    if bytes[0] != 1 || size < 9 {
        return None;
    }
    let n = u64_from_le_bytes(slice_subrange(bytes, 1, 9));
    if size - 9 < 8 || n > (size - 9 - 8) as u64 {
        return None;
    }
    let addr_end: usize = 9 + n as usize;
    let m = u64_from_le_bytes(slice_subrange(bytes, addr_end, addr_end + 8));
    if m > (size - addr_end - 8) as u64 {
        return None;
    }
    let hash_end: usize = addr_end + 8 + m as usize;
    let contract_addr = copy(slice_subrange(bytes, 9, addr_end));
    let code_hash = copy(slice_subrange(bytes, addr_end + 8, hash_end));
    let msg = copy(slice_subrange(bytes, hash_end, size));
    proof {
        assert(bytes@.subrange(hash_end as int, size as int) =~= bytes@.skip(hash_end as int));
    }
    Some(QueryRequest::Contract { contract_addr, code_hash, msg })
}

/// Writes the outcome of a query to the wire.
pub fn encode_outcome(result: &Result<Vec<u8>, QueryError>) -> (bytes: Vec<u8>)
    ensures
        bytes@ == outcome_bytes(outcome_of(*result)),
{
    let mut bytes: Vec<u8> = Vec::new();
    match result {
        Ok(answer) => {
            bytes.push(0u8);
            append(&mut bytes, answer.as_slice());
        },
        Err(QueryError::Malformed) => {
            bytes.push(1u8);
        },
        Err(QueryError::Failed(reason)) => {
            bytes.push(2u8);
            append(&mut bytes, reason.as_slice());
        },
    }
    proof {
        assert(bytes@ =~= outcome_bytes(outcome_of(*result)));
    }
    bytes
}

/// Whether a context at `depth` may still forward a query.
pub open spec fn may_forward(depth: u32) -> bool {
    depth < QUERY_DEPTH_CEILING
}

/// The trap that stops a context from forwarding, if there is one.
pub fn check_depth(depth: u32) -> (allowed: Result<u32, Trap>)
    ensures
        allowed == (if may_forward(depth) {
            Ok::<u32, Trap>((depth + 1) as u32)
        } else {
            Err::<u32, Trap>(Trap::QueryDepthExceeded)
        }),
{
    if depth < QUERY_DEPTH_CEILING {
        Ok(depth + 1)
    } else {
        Err(Trap::QueryDepthExceeded)
    }
}

/// The number of contexts that open when a contract at `depth` queries
/// itself without end: each nested context stands one level deeper, and
/// the one at the ceiling is refused.
pub open spec fn self_query_levels(depth: u32) -> nat
    decreases QUERY_DEPTH_CEILING - depth,
{
    if may_forward(depth) {
        1 + self_query_levels((depth + 1) as u32)
    } else {
        0
    }
}

/// A contract that queries itself without end opens no more nested
/// contexts than the ceiling allows, and the deepest of them is stopped by
/// the depth trap.
pub proof fn lemma_self_query_is_bounded(depth: u32)
    ensures
        self_query_levels(depth) <= QUERY_DEPTH_CEILING,
        depth <= QUERY_DEPTH_CEILING ==> self_query_levels(depth) == QUERY_DEPTH_CEILING - depth,
        !may_forward((depth + self_query_levels(depth)) as u32),
    decreases QUERY_DEPTH_CEILING - depth,
{
    if may_forward(depth) {
        lemma_self_query_is_bounded((depth + 1) as u32);
    }
}

} // verus!
