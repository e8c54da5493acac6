use host_bridge::query::{
    check_depth, decode_request, encode_outcome, encode_request, QueryError, QueryRequest,
    QUERY_DEPTH_CEILING,
};
use host_bridge::trap::Trap;

fn same_request(left: &QueryRequest, right: &QueryRequest) -> bool {
    match (left, right) {
        (QueryRequest::Chain { payload: a }, QueryRequest::Chain { payload: b }) => a == b,
        (
            QueryRequest::Contract { contract_addr: a1, code_hash: a2, msg: a3 },
            QueryRequest::Contract { contract_addr: b1, code_hash: b2, msg: b3 },
        ) => a1 == b1 && a2 == b2 && a3 == b3,
        _ => false,
    }
}

#[test]
fn chain_query_on_the_wire() {
    let request = QueryRequest::Chain { payload: b"bank".to_vec() };
    assert_eq!(encode_request(&request), b"\x00bank".to_vec());
    assert!(same_request(&decode_request(b"\x00bank").unwrap(), &request));
    assert!(same_request(
        &decode_request(b"\x00").unwrap(),
        &QueryRequest::Chain { payload: Vec::new() }
    ));
}

#[test]
fn contract_query_on_the_wire() {
    let request = QueryRequest::Contract {
        contract_addr: b"addr".to_vec(),
        code_hash: b"ab".to_vec(),
        msg: b"{}".to_vec(),
    };
    let mut expected = vec![1u8];
    expected.extend_from_slice(&4u64.to_le_bytes());
    expected.extend_from_slice(b"addr");
    expected.extend_from_slice(&2u64.to_le_bytes());
    expected.extend_from_slice(b"ab");
    expected.extend_from_slice(b"{}");
    assert_eq!(encode_request(&request), expected);
    assert!(same_request(&decode_request(&expected).unwrap(), &request));
}

#[test]
fn empty_contract_query_on_the_wire() {
    let request = QueryRequest::Contract {
        contract_addr: Vec::new(),
        code_hash: Vec::new(),
        msg: Vec::new(),
    };
    let bytes = encode_request(&request);
    assert_eq!(bytes.len(), 17);
    assert!(same_request(&decode_request(&bytes).unwrap(), &request));
}

#[test]
fn bytes_that_are_no_query() {
    assert!(decode_request(b"").is_none());
    assert!(decode_request(b"\x02abc").is_none());
    assert!(decode_request(b"\x01").is_none());
    assert!(decode_request(b"\x01\x00\x00\x00\x00\x00\x00\x00\x00").is_none());
    let mut long = vec![1u8];
    long.extend_from_slice(&5u64.to_le_bytes());
    long.extend_from_slice(b"addr");
    long.extend_from_slice(&0u64.to_le_bytes());
    assert!(decode_request(&long).is_none());
    let mut huge = vec![1u8];
    huge.extend_from_slice(&u64::MAX.to_le_bytes());
    huge.extend_from_slice(&[0u8; 16]);
    assert!(decode_request(&huge).is_none());
    let mut hash_long = vec![1u8];
    hash_long.extend_from_slice(&1u64.to_le_bytes());
    hash_long.extend_from_slice(b"a");
    hash_long.extend_from_slice(&3u64.to_le_bytes());
    hash_long.extend_from_slice(b"ab");
    assert!(decode_request(&hash_long).is_none());
    let mut huge_hash = vec![1u8];
    huge_hash.extend_from_slice(&0u64.to_le_bytes());
    huge_hash.extend_from_slice(&u64::MAX.to_le_bytes());
    assert!(decode_request(&huge_hash).is_none());
}

#[test]
fn outcomes_on_the_wire() {
    assert_eq!(encode_outcome(&Ok(b"yes".to_vec())), b"\x00yes".to_vec());
    assert_eq!(encode_outcome(&Ok(Vec::new())), b"\x00".to_vec());
    assert_eq!(encode_outcome(&Err(QueryError::Malformed)), b"\x01".to_vec());
    assert_eq!(encode_outcome(&Err(QueryError::Failed(b"no".to_vec()))), b"\x02no".to_vec());
}

#[test]
fn depth_has_a_ceiling() {
    assert_eq!(QUERY_DEPTH_CEILING, 10);
    assert_eq!(check_depth(0), Ok(1));
    assert_eq!(check_depth(9), Ok(10));
    assert_eq!(check_depth(10), Err(Trap::QueryDepthExceeded));
    assert_eq!(check_depth(11), Err(Trap::QueryDepthExceeded));
    assert_eq!(check_depth(u32::MAX), Err(Trap::QueryDepthExceeded));
}
