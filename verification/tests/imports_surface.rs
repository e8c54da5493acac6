use host_bridge::address::AddressCodec;
use host_bridge::bridge::Bridge;
use host_bridge::gas::GasCosts;
use host_bridge::imports::{Import, WasmiApi};
use host_bridge::memory::GuestMemory;
use host_bridge::query::{Querier, QueryError, QueryRequest, QueryResponse};
use host_bridge::storage::ContractStorage;
use host_bridge::trap::{RuntimeValue, Trap};

struct Scripted {
    reply: Result<Vec<u8>, Vec<u8>>,
    gas_used: u64,
    asked: Vec<(Vec<u8>, u32, u64)>,
}

impl Querier for Scripted {
    fn raw_query(&mut self, request: &QueryRequest, depth: u32, gas_limit: u64) -> QueryResponse {
        let target = match request {
            QueryRequest::Chain { payload } => payload.clone(),
            QueryRequest::Contract { contract_addr, .. } => contract_addr.clone(),
        };
        self.asked.push((target, depth, gas_limit));
        QueryResponse { reply: self.reply.clone(), gas_used: self.gas_used }
    }
}

fn costs() -> GasCosts {
    GasCosts {
        db_read: 10,
        db_write: 20,
        db_remove: 30,
        canonicalize: 40,
        humanize: 50,
        validate: 60,
        query: 70,
        secp256k1_verify: 80,
        secp256k1_recover: 90,
        ed25519_verify: 100,
        ed25519_batch_verify: 110,
        debug: 120,
        per_byte: 1,
    }
}

fn bridge_at(gas: u64, depth: u32) -> Bridge<Scripted> {
    Bridge::new(
        GuestMemory::new(4096),
        gas,
        costs(),
        ContractStorage::new(b"contract-1/".to_vec()),
        AddressCodec::new(b"secret".to_vec()).unwrap(),
        Scripted { reply: Ok(b"answer".to_vec()), gas_used: 5, asked: Vec::new() },
        depth,
    )
}

fn bridge(gas: u64) -> Bridge<Scripted> {
    bridge_at(gas, 0)
}

fn put(bridge: &mut Bridge<Scripted>, data: &[u8]) -> i32 {
    bridge.memory.carve(data).unwrap() as i32
}

fn room(bridge: &mut Bridge<Scripted>, size: usize) -> i32 {
    put(bridge, &vec![0u8; size])
}

fn take(bridge: &Bridge<Scripted>, ptr: i32) -> Vec<u8> {
    bridge.memory.read_region(ptr as u32).unwrap()
}

fn hex(text: &str) -> Vec<u8> {
    (0..text.len() / 2).map(|i| u8::from_str_radix(&text[2 * i..2 * i + 2], 16).unwrap()).collect()
}

const GAS: u64 = 1_000_000;

#[test]
fn db_read_of_unwritten_key_is_the_none_marker() {
    let mut b = bridge(GAS);
    let key = put(&mut b, b"never");
    let before = b.memory.bytes.clone();
    assert_eq!(b.db_read(key), Ok(Some(RuntimeValue::I32(0))));
    assert_eq!(b.memory.bytes, before);
    assert_eq!(b.gas.remaining(), GAS - 10 - 5);
}

#[test]
fn db_write_then_read_through_pointers() {
    let mut b = bridge(GAS);
    let key = put(&mut b, b"key");
    let value = put(&mut b, b"value");
    assert_eq!(b.db_write(key, value), Ok(None));
    assert_eq!(b.gas.remaining(), GAS - 20 - 8);
    let frontier = b.memory.frontier;
    let found = b.db_read(key).unwrap().unwrap();
    assert_eq!(found, RuntimeValue::I32(frontier as i32));
    assert_eq!(take(&b, frontier as i32), b"value".to_vec());
    assert_eq!(b.storage.get(b"key"), Some(b"value".to_vec()));
    assert_eq!(b.gas.remaining(), GAS - 28 - 13);
}

#[test]
fn db_remove_of_missing_key_is_no_error() {
    let mut b = bridge(GAS);
    let key = put(&mut b, b"key");
    let value = put(&mut b, b"value");
    let missing = put(&mut b, b"missing");
    b.db_write(key, value).unwrap();
    assert_eq!(b.db_remove(missing), Ok(None));
    assert_eq!(b.storage.get(b"key"), Some(b"value".to_vec()));
    assert_eq!(b.db_remove(key), Ok(None));
    assert_eq!(b.storage.get(b"key"), None);
    assert_eq!(b.db_read(key), Ok(Some(RuntimeValue::I32(0))));
}

#[test]
fn null_pointer_is_refused_by_every_import() {
    let mut b = bridge(GAS);
    let good = put(&mut b, b"something");
    let out = room(&mut b, 100);
    let list = put(&mut b, &[]);
    let memory = b.memory.bytes.clone();
    let refused = Err(Trap::MemoryAccess);
    assert_eq!(b.db_read(0), refused);
    assert_eq!(b.db_remove(0), refused);
    assert_eq!(b.db_write(0, good), refused);
    assert_eq!(b.db_write(good, 0), refused);
    assert_eq!(b.canonicalize_address(0, out), refused);
    assert_eq!(b.canonicalize_address(good, 0), refused);
    assert_eq!(b.humanize_address(0, out), refused);
    assert_eq!(b.humanize_address(good, 0), refused);
    assert_eq!(b.addr_canonicalize(0, out), refused);
    assert_eq!(b.addr_canonicalize(good, 0), refused);
    assert_eq!(b.addr_humanize(0, out), refused);
    assert_eq!(b.addr_humanize(good, 0), refused);
    assert_eq!(b.addr_validate(0), refused);
    assert_eq!(b.query_chain(0), refused);
    assert_eq!(b.secp256k1_verify(0, good, good), refused);
    assert_eq!(b.secp256k1_verify(good, 0, good), refused);
    assert_eq!(b.secp256k1_verify(good, good, 0), refused);
    assert_eq!(b.secp256k1_recover_pubkey(0, good, 0), refused);
    assert_eq!(b.secp256k1_recover_pubkey(good, 0, 0), refused);
    assert_eq!(b.ed25519_verify(0, good, good), refused);
    assert_eq!(b.ed25519_verify(good, 0, good), refused);
    assert_eq!(b.ed25519_verify(good, good, 0), refused);
    assert_eq!(b.ed25519_batch_verify(0, list, list), refused);
    assert_eq!(b.ed25519_batch_verify(list, 0, list), refused);
    assert_eq!(b.ed25519_batch_verify(list, list, 0), refused);
    assert_eq!(b.debug(0), refused);
    assert_eq!(b.memory.bytes, memory);
    assert_eq!(b.gas.remaining(), GAS);
    assert!(b.querier.asked.is_empty());
    assert!(b.debug_log.is_empty());
    assert_eq!(b.storage.get(b"something"), None);
}

#[test]
fn wild_pointers_are_refused() {
    let mut b = bridge(GAS);
    for ptr in [-1, i32::MIN, i32::MAX, 4090, 4096, 1_000_000] {
        assert_eq!(b.db_read(ptr), Err(Trap::MemoryAccess));
        assert_eq!(b.debug(ptr), Err(Trap::MemoryAccess));
    }
    assert_eq!(b.gas.remaining(), GAS);
}

#[test]
fn exhausted_context_refuses_every_import() {
    let mut b = bridge(100);
    let good = put(&mut b, b"something");
    let out = room(&mut b, 100);
    assert_eq!(b.gas(100), Err(Trap::GasExhausted));
    assert_eq!(b.gas.remaining(), 0);
    let memory = b.memory.bytes.clone();
    let refused = Err(Trap::GasExhausted);
    assert_eq!(b.db_read(good), refused);
    assert_eq!(b.db_read(0), refused);
    assert_eq!(b.db_remove(good), refused);
    assert_eq!(b.db_write(good, good), refused);
    assert_eq!(b.canonicalize_address(good, out), refused);
    assert_eq!(b.humanize_address(good, out), refused);
    assert_eq!(b.addr_canonicalize(good, out), refused);
    assert_eq!(b.addr_humanize(good, out), refused);
    assert_eq!(b.addr_validate(good), refused);
    assert_eq!(b.query_chain(good), refused);
    assert_eq!(b.secp256k1_verify(good, good, good), refused);
    assert_eq!(b.secp256k1_recover_pubkey(good, good, 0), refused);
    assert_eq!(b.ed25519_verify(good, good, good), refused);
    assert_eq!(b.ed25519_batch_verify(good, good, good), refused);
    assert_eq!(b.debug(good), refused);
    assert_eq!(b.gas(0), refused);
    assert_eq!(b.gas(1), refused);
    assert_eq!(b.memory.bytes, memory);
    assert_eq!(b.storage.get(b"something"), None);
    assert!(b.querier.asked.is_empty());
}

#[test]
fn committed_write_survives_exhaustion() {
    let mut b = bridge(20 + 8 + 1 + 20 + 8);
    let key = put(&mut b, b"key");
    let value = put(&mut b, b"value");
    let other = put(&mut b, b"kez");
    assert_eq!(b.db_write(key, value), Ok(None));
    assert_eq!(b.gas.remaining(), 29);
    assert_eq!(b.db_write(other, value), Ok(None));
    assert_eq!(b.gas.remaining(), 1);
    assert_eq!(b.db_write(key, other), Err(Trap::GasExhausted));
    assert_eq!(b.gas.remaining(), 0);
    assert_eq!(b.storage.get(b"key"), Some(b"value".to_vec()));
    assert_eq!(b.storage.get(b"kez"), Some(b"value".to_vec()));
    assert_eq!(b.db_read(key), Err(Trap::GasExhausted));
}

#[test]
fn write_that_reaches_zero_does_not_happen() {
    let mut b = bridge(28);
    let key = put(&mut b, b"key");
    let value = put(&mut b, b"value");
    assert_eq!(b.db_write(key, value), Err(Trap::GasExhausted));
    assert_eq!(b.storage.get(b"key"), None);
    assert_eq!(b.gas.remaining(), 0);
}

#[test]
fn gas_checkpoint_charges() {
    let mut b = bridge(1000);
    assert_eq!(b.gas(1), Ok(None));
    assert_eq!(b.gas(0), Ok(None));
    assert_eq!(b.gas(98), Ok(None));
    assert_eq!(b.gas.remaining(), 901);
    assert_eq!(b.gas(-1), Err(Trap::GasExhausted));
    assert_eq!(b.gas.remaining(), 0);
    let mut b = bridge(u64::MAX);
    assert_eq!(b.gas(i32::MAX), Ok(None));
    assert_eq!(b.gas.remaining(), u64::MAX - i32::MAX as u64);
    assert_eq!(b.gas(i32::MIN), Err(Trap::GasExhausted));
}

#[test]
fn canonicalize_writes_into_the_offered_region() {
    let mut b = bridge(GAS);
    let canonical: Vec<u8> = (1u8..=20).collect();
    let human_text = b.codec.humanize(&canonical).unwrap();
    let human = put(&mut b, &human_text);
    let out = room(&mut b, 32);
    assert_eq!(b.canonicalize_address(human, out), Ok(Some(RuntimeValue::I32(0))));
    assert_eq!(take(&b, out), canonical);
    assert_eq!(b.gas.remaining(), GAS - 40 - human_text.len() as u64);
    let back = room(&mut b, 90);
    assert_eq!(b.addr_humanize(out, back), Ok(Some(RuntimeValue::I32(0))));
    assert_eq!(take(&b, back), human_text);
    assert_eq!(b.addr_validate(human), Ok(Some(RuntimeValue::I32(0))));
}

#[test]
fn address_faults_come_back_as_codes() {
    let mut b = bridge(GAS);
    let out = room(&mut b, 32);
    let cases: [(&[u8], i32); 4] = [
        (b"", -2),
        (b"   ", -2),
        (b"cosmos1h99hrcc54ms9lxxxx", -3),
        (b"cosmos1h99hrcc54ms9luwpex9kw0rwdt7etvfdyxh6gu", -4),
    ];
    for (human, code) in cases {
        let ptr = put(&mut b, human);
        assert_eq!(b.canonicalize_address(ptr, out), Ok(Some(RuntimeValue::I32(code))));
        assert_eq!(b.addr_canonicalize(ptr, out), Ok(Some(RuntimeValue::I32(code))));
        assert_eq!(b.addr_validate(ptr), Ok(Some(RuntimeValue::I32(code))));
        assert_eq!(take(&b, out), vec![0u8; 32]);
    }
    let short = put(&mut b, &[1u8; 19]);
    assert_eq!(b.humanize_address(short, out), Ok(Some(RuntimeValue::I32(-5))));
}

#[test]
fn small_output_region_is_a_trap() {
    let mut b = bridge(GAS);
    let canonical: Vec<u8> = (1u8..=20).collect();
    let human_text = b.codec.humanize(&canonical).unwrap();
    let human = put(&mut b, &human_text);
    let small = room(&mut b, 19);
    assert_eq!(b.canonicalize_address(human, small), Err(Trap::RegionTooSmall));
    assert_eq!(take(&b, small), vec![0u8; 19]);
    let source = put(&mut b, &canonical);
    assert_eq!(b.humanize_address(source, small), Err(Trap::RegionTooSmall));
}

#[test]
fn query_is_forwarded_and_answered() {
    let mut b = bridge(GAS);
    let request = put(&mut b, b"\x00balance");
    let frontier = b.memory.frontier;
    assert_eq!(b.query_chain(request), Ok(Some(RuntimeValue::I32(frontier as i32))));
    assert_eq!(take(&b, frontier as i32), b"\x00answer".to_vec());
    assert_eq!(b.querier.asked, vec![(b"balance".to_vec(), 1, GAS - 70 - 8)]);
    assert_eq!(b.gas.remaining(), GAS - 70 - 8 - 5);
}

#[test]
fn failure_of_the_target_is_handed_to_the_guest() {
    let mut b = bridge(GAS);
    b.querier.reply = Err(b"target panicked".to_vec());
    let request = put(&mut b, b"\x00balance");
    let result = b.query_chain(request).unwrap().unwrap();
    let RuntimeValue::I32(ptr) = result else { panic!("no pointer") };
    assert_eq!(take(&b, ptr), b"\x02target panicked".to_vec());
}

#[test]
fn malformed_query_is_refused_without_asking() {
    let mut b = bridge(GAS);
    let request = put(&mut b, b"\x07nonsense");
    let result = b.query_chain(request).unwrap().unwrap();
    let RuntimeValue::I32(ptr) = result else { panic!("no pointer") };
    assert_eq!(take(&b, ptr), b"\x01".to_vec());
    assert!(b.querier.asked.is_empty());
    assert_eq!(b.gas.remaining(), GAS - 70 - 9);
}

#[test]
fn query_at_the_ceiling_is_a_trap() {
    let mut b = bridge_at(GAS, 10);
    let request = put(&mut b, b"\x00balance");
    assert_eq!(b.query_chain(request), Err(Trap::QueryDepthExceeded));
    assert!(b.querier.asked.is_empty());
    assert_eq!(b.gas.remaining(), GAS);
    let mut b = bridge_at(GAS, 9);
    let request = put(&mut b, b"\x00balance");
    assert!(b.query_chain(request).is_ok());
    assert_eq!(b.querier.asked[0].1, 10);
}

#[test]
fn gas_of_the_nested_context_is_charged() {
    let mut b = bridge(100);
    b.querier.gas_used = 22;
    let request = put(&mut b, b"\x00balance");
    let memory = b.memory.bytes.clone();
    assert_eq!(b.query_chain(request), Err(Trap::GasExhausted));
    assert_eq!(b.gas.remaining(), 0);
    assert_eq!(b.memory.bytes, memory);
    assert_eq!(b.querier.asked, vec![(b"balance".to_vec(), 1, 22)]);
    let mut b = bridge(100);
    b.querier.gas_used = 22;
    let request = put(&mut b, b"\x00balanc");
    assert!(b.query_chain(request).is_ok());
    assert_eq!(b.gas.remaining(), 1);
}

#[test]
fn secp256k1_verify_through_pointers() {
    let mut b = bridge(GAS);
    let hash = put(&mut b, &hex("5d5967f13a4ff2045594ece00ad7bef5c61b149a559b15fd948af00fb93b31d3"));
    let signature = put(&mut b, &hex("c9dd20e07464d3a688ff4b710b1fbc027e495e797cfa0b4804da2ed117959227772de059808f765aa29b8f92edf30f4c2c5a438e30d3fe6897daa7141e3ce6f9"));
    let key = put(&mut b, &hex("034f04181eeba35391b858633a765c4a0c189697b40d216354d50890d350c70290"));
    assert_eq!(b.secp256k1_verify(hash, signature, key), Ok(Some(RuntimeValue::I32(1))));
    assert_eq!(b.gas.remaining(), GAS - 80);
    assert_eq!(b.secp256k1_verify(hash, signature, hash), Ok(Some(RuntimeValue::I32(-5))));
    assert_eq!(b.secp256k1_verify(key, signature, key), Ok(Some(RuntimeValue::I32(-3))));
    assert_eq!(b.secp256k1_verify(hash, hash, key), Ok(Some(RuntimeValue::I32(-4))));
    let other = put(&mut b, &[7u8; 32]);
    assert_eq!(b.secp256k1_verify(other, signature, key), Ok(Some(RuntimeValue::I32(0))));
}

#[test]
fn secp256k1_recover_through_pointers() {
    let mut b = bridge(GAS);
    let hash = put(&mut b, &hex("5ae8317d34d1e595e3fa7247db80c0af4320cce1116de187f8f7e2e099c0d8d0"));
    let signature = put(&mut b, &hex("207082eb2c3dfa0b454e0906051270ba4074ac93760ba9e7110cd9471475111151eb0dbbc9920e72146fb564f99d039802bf6ef2561446eb126ef364d21ee9c4"));
    let expected = hex("04051c1ee2190ecfb174bfe4f90763f2b4ff7517b70a2aec1876ebcfd644c4633fb03f3cfbd94b1f376e34592d9d41ccaf640bb751b00a1fadeb0c01157769eb73");
    let mut found = Vec::new();
    for param in [0, 1] {
        let frontier = b.memory.frontier;
        assert_eq!(
            b.secp256k1_recover_pubkey(hash, signature, param),
            Ok(Some(RuntimeValue::I64(frontier as i64)))
        );
        found.push(take(&b, frontier as i32));
    }
    assert!(found.contains(&expected));
    assert_eq!(b.secp256k1_recover_pubkey(hash, signature, 2), Ok(Some(RuntimeValue::I64(-6))));
    assert_eq!(b.secp256k1_recover_pubkey(hash, hash, 0), Ok(Some(RuntimeValue::I64(-4))));
    assert_eq!(b.secp256k1_recover_pubkey(signature, signature, 0), Ok(Some(RuntimeValue::I64(-3))));
    let zeros = put(&mut b, &[0u8; 64]);
    assert_eq!(b.secp256k1_recover_pubkey(hash, zeros, 0), Ok(Some(RuntimeValue::I64(-10))));
    assert_eq!(b.gas.remaining(), GAS - 6 * 90);
}

#[test]
fn ed25519_through_pointers() {
    let mut b = bridge(GAS);
    let message = put(&mut b, b"");
    let signature = put(&mut b, &hex("e5564300c360ac729086e2cc806e828a84877f1eb8e5d974d873e065224901555fb8821590a33bacc61e39701cf9b46bd25bf5f0595bbe24655141438e7a100b"));
    let key = put(&mut b, &hex("d75a980182b10ab7d54bfed3c964073a0ee172f3daa62325af021a68f707511a"));
    assert_eq!(b.ed25519_verify(message, signature, key), Ok(Some(RuntimeValue::I32(1))));
    assert_eq!(b.ed25519_verify(key, signature, key), Ok(Some(RuntimeValue::I32(0))));
    assert_eq!(b.ed25519_verify(message, key, key), Ok(Some(RuntimeValue::I32(-4))));
    assert_eq!(b.ed25519_verify(message, signature, signature), Ok(Some(RuntimeValue::I32(-5))));
    assert_eq!(b.gas.remaining(), GAS - 400);

    let list = |b: &mut Bridge<Scripted>, ptrs: &[i32]| {
        let mut bytes = Vec::new();
        for ptr in ptrs {
            bytes.extend_from_slice(&(*ptr as u32).to_le_bytes());
        }
        put(b, &bytes)
    };
    let messages = list(&mut b, &[message]);
    let signatures = list(&mut b, &[signature, signature]);
    let keys = list(&mut b, &[key, key]);
    let one_key = list(&mut b, &[key]);
    let none = list(&mut b, &[]);
    let before = b.gas.remaining();
    assert_eq!(b.ed25519_batch_verify(messages, signatures, keys), Ok(Some(RuntimeValue::I32(1))));
    assert_eq!(b.gas.remaining(), before - 110 - 2);
    assert_eq!(b.ed25519_batch_verify(messages, signatures, one_key), Ok(Some(RuntimeValue::I32(-7))));
    assert_eq!(b.ed25519_batch_verify(none, none, none), Ok(Some(RuntimeValue::I32(1))));
    let wrong = list(&mut b, &[key, message]);
    assert_eq!(b.ed25519_batch_verify(messages, signatures, wrong), Ok(Some(RuntimeValue::I32(-5))));
    let with_null = list(&mut b, &[key, 0]);
    assert_eq!(b.ed25519_batch_verify(messages, signatures, with_null), Err(Trap::MemoryAccess));
}

#[test]
fn debug_messages_are_kept_for_the_host() {
    let mut b = bridge(GAS);
    let first = put(&mut b, b"hello");
    let second = put(&mut b, b"");
    assert_eq!(b.debug(first), Ok(None));
    assert_eq!(b.debug(second), Ok(None));
    assert_eq!(b.debug_log, vec![b"hello".to_vec(), Vec::new()]);
    assert_eq!(b.gas.remaining(), GAS - 125 - 120);
}

#[test]
fn value_without_room_in_memory_is_a_trap() {
    let mut b = bridge(GAS);
    b.storage.set(b"big", &vec![9u8; 5000]);
    let key = put(&mut b, b"big");
    let before = b.memory.bytes.clone();
    assert_eq!(b.db_read(key), Err(Trap::MemoryAccess));
    assert_eq!(b.memory.bytes, before);
    assert_eq!(b.gas.remaining(), GAS - 13);
}

#[test]
fn imports_are_known_by_name_and_number() {
    let names = [
        "db_read",
        "db_remove",
        "db_write",
        "canonicalize_address",
        "humanize_address",
        "query_chain",
        "addr_canonicalize",
        "addr_humanize",
        "addr_validate",
        "secp256k1_verify",
        "secp256k1_recover_pubkey",
        "ed25519_verify",
        "ed25519_batch_verify",
        "debug",
        "gas",
    ];
    for (index, name) in names.iter().enumerate() {
        assert_eq!(Import::index_of(name), Some(index));
    }
    assert_eq!(Import::index_of(""), None);
    assert_eq!(Import::index_of("db_scan"), None);
    assert_eq!(Import::index_of("DB_READ"), None);
}

#[test]
fn calls_are_resolved_from_number_and_arguments() {
    let i = RuntimeValue::I32;
    assert_eq!(Import::resolve(0, &[i(5)]), Some(Import::DbRead { state_key_ptr: 5 }));
    assert_eq!(Import::resolve(1, &[i(-5)]), Some(Import::DbRemove { state_key_ptr: -5 }));
    assert_eq!(
        Import::resolve(2, &[i(1), i(2)]),
        Some(Import::DbWrite { state_key_ptr: 1, value_ptr: 2 })
    );
    assert_eq!(
        Import::resolve(3, &[i(1), i(2)]),
        Some(Import::CanonicalizeAddress { human_ptr: 1, canonical_ptr: 2 })
    );
    assert_eq!(
        Import::resolve(4, &[i(1), i(2)]),
        Some(Import::HumanizeAddress { canonical_ptr: 1, human_ptr: 2 })
    );
    assert_eq!(Import::resolve(5, &[i(1)]), Some(Import::QueryChain { query_ptr: 1 }));
    assert_eq!(
        Import::resolve(6, &[i(1), i(2)]),
        Some(Import::AddrCanonicalize { human_ptr: 1, canonical_ptr: 2 })
    );
    assert_eq!(
        Import::resolve(7, &[i(1), i(2)]),
        Some(Import::AddrHumanize { canonical_ptr: 1, human_ptr: 2 })
    );
    assert_eq!(Import::resolve(8, &[i(1)]), Some(Import::AddrValidate { source_ptr: 1 }));
    assert_eq!(
        Import::resolve(9, &[i(1), i(2), i(3)]),
        Some(Import::Secp256k1Verify { message_hash_ptr: 1, signature_ptr: 2, public_key_ptr: 3 })
    );
    assert_eq!(
        Import::resolve(10, &[i(1), i(2), i(3)]),
        Some(Import::Secp256k1RecoverPubkey {
            message_hash_ptr: 1,
            signature_ptr: 2,
            recovery_param: 3
        })
    );
    assert_eq!(
        Import::resolve(11, &[i(1), i(2), i(3)]),
        Some(Import::Ed25519Verify { message_ptr: 1, signature_ptr: 2, public_key_ptr: 3 })
    );
    assert_eq!(
        Import::resolve(12, &[i(1), i(2), i(3)]),
        Some(Import::Ed25519BatchVerify { messages_ptr: 1, signatures_ptr: 2, public_keys_ptr: 3 })
    );
    assert_eq!(Import::resolve(13, &[i(1)]), Some(Import::Debug { message_ptr: 1 }));
    assert_eq!(Import::resolve(14, &[i(1)]), Some(Import::Gas { gas_amount: 1 }));
    for index in 0..15 {
        let arity = if [0, 1, 5, 8, 13, 14].contains(&index) {
            1
        } else if index < 9 {
            2
        } else {
            3
        };
        let args = vec![i(7); arity];
        let import = Import::resolve(index, &args).unwrap();
        assert_eq!(import.index(), index);
        assert_eq!(Import::resolve(index, &args[1..]), None);
        let mut more = args.clone();
        more.push(i(7));
        assert_eq!(Import::resolve(index, &more), None);
        let mut wide = args.clone();
        wide[arity - 1] = RuntimeValue::I64(7);
        assert_eq!(Import::resolve(index, &wide), None);
    }
    assert_eq!(Import::resolve(15, &[i(1)]), None);
    assert_eq!(Import::resolve(usize::MAX, &[]), None);
}

#[test]
fn calls_by_number_reach_the_imports() {
    let mut b = bridge(GAS);
    let key = put(&mut b, b"key");
    let value = put(&mut b, b"value");
    let i = RuntimeValue::I32;
    assert_eq!(b.invoke_index(2, &[i(key), i(value)]), Some(Ok(None)));
    assert_eq!(b.storage.get(b"key"), Some(b"value".to_vec()));
    let frontier = b.memory.frontier;
    assert_eq!(b.invoke_index(0, &[i(key)]), Some(Ok(Some(i(frontier as i32)))));
    assert_eq!(b.invoke_index(1, &[i(key)]), Some(Ok(None)));
    assert_eq!(b.invoke_index(0, &[i(key)]), Some(Ok(Some(i(0)))));
    assert_eq!(b.invoke_index(0, &[i(0)]), Some(Err(Trap::MemoryAccess)));
    assert_eq!(b.invoke_index(13, &[i(key)]), Some(Ok(None)));
    assert_eq!(b.debug_log, vec![b"key".to_vec()]);
    let gas = b.gas.remaining();
    assert_eq!(b.invoke_index(14, &[i(7)]), Some(Ok(None)));
    assert_eq!(b.gas.remaining(), gas - 7);
    assert_eq!(b.invoke_index(0, &[]), None);
    assert_eq!(b.invoke_index(99, &[i(key)]), None);
    assert_eq!(b.invoke_index(0, &[RuntimeValue::I64(key as i64)]), None);
    assert_eq!(b.gas.remaining(), gas - 7);
    let request = put(&mut b, b"\x00balance");
    assert!(matches!(b.invoke(Import::QueryChain { query_ptr: request }), Ok(Some(_))));
    assert_eq!(b.querier.asked.len(), 1);
    assert_eq!(b.invoke(Import::Gas { gas_amount: -1 }), Err(Trap::GasExhausted));
    assert_eq!(b.invoke_index(0, &[i(key)]), Some(Err(Trap::GasExhausted)));
}

#[test]
fn query_in_two_halves() {
    let mut b = bridge_at(1000, 3);
    let dispatch = b.query_begin(b"\x00balance").unwrap().unwrap();
    assert!(matches!(&dispatch.request, QueryRequest::Chain { payload } if payload == b"balance"));
    assert_eq!(dispatch.depth, 4);
    assert_eq!(dispatch.gas_limit, 1000 - 70 - 8);
    assert_eq!(b.gas.remaining(), 922);
    assert!(b.querier.asked.is_empty());
    let answer = b.query_finish(QueryResponse { reply: Ok(b"yes".to_vec()), gas_used: 900 });
    assert!(matches!(answer, Ok(Ok(bytes)) if bytes == b"yes"));
    assert_eq!(b.gas.remaining(), 22);
    let failed = b.query_finish(QueryResponse { reply: Err(b"no".to_vec()), gas_used: 0 });
    assert!(matches!(failed, Ok(Err(QueryError::Failed(reason))) if reason == b"no"));
    let too_much = b.query_finish(QueryResponse { reply: Ok(b"yes".to_vec()), gas_used: 22 });
    assert!(matches!(too_much, Err(Trap::GasExhausted)));
    assert_eq!(b.gas.remaining(), 0);
}

#[test]
fn first_half_of_a_query_can_end_it() {
    let mut b = bridge_at(1000, 10);
    assert!(matches!(b.query_begin(b"\x00balance"), Err(Trap::QueryDepthExceeded)));
    assert_eq!(b.gas.remaining(), 1000);
    let mut b = bridge_at(78, 0);
    assert!(matches!(b.query_begin(b"\x00balance"), Err(Trap::GasExhausted)));
    assert_eq!(b.gas.remaining(), 0);
    let mut b = bridge_at(1000, 0);
    assert!(matches!(b.query_begin(b"nonsense"), Ok(Err(QueryError::Malformed))));
    assert_eq!(b.gas.remaining(), 1000 - 78);
    assert!(matches!(b.forward_query(b"\x00x"), Ok(Ok(bytes)) if bytes == b"answer"));
    assert_eq!(b.querier.asked, vec![(b"x".to_vec(), 1, 1000 - 78 - 72)]);
}

#[test]
fn host_operations_on_plain_bytes() {
    let mut b = bridge(GAS);
    assert_eq!(b.storage_read(b"k"), Ok(None));
    assert_eq!(b.storage_write(b"k", b"v"), Ok(()));
    assert_eq!(b.storage_read(b"k"), Ok(Some(b"v".to_vec())));
    assert_eq!(b.storage_remove(b"k"), Ok(()));
    assert_eq!(b.storage_read(b"k"), Ok(None));
    assert_eq!(b.gas.remaining(), GAS - 11 - 22 - 11 - 31 - 11);
    let human = b.codec.humanize(&[9u8; 20]).unwrap();
    assert_eq!(b.address_humanize(&[9u8; 20]), Ok(Ok(human.clone())));
    assert_eq!(b.address_canonicalize(&human), Ok(Ok(vec![9u8; 20])));
    assert_eq!(b.address_validate(&human), Ok(Ok(())));
    assert_eq!(b.address_canonicalize(b""), Ok(Err(host_bridge::AddressError::Empty)));
    assert_eq!(b.emit_debug(b"note"), Ok(()));
    assert_eq!(b.debug_log, vec![b"note".to_vec()]);
    assert_eq!(b.charge_gas(5), Ok(()));
    assert_eq!(
        b.verify_secp256k1(&[0u8; 31], &[0u8; 64], &[0u8; 33]),
        Ok(Err(host_bridge::CryptoError::InvalidHashFormat))
    );
    assert_eq!(b.verify_ed25519(b"", &[0xffu8; 64], &[0xffu8; 32]), Ok(Ok(false)));
    assert_eq!(
        b.recover_secp256k1(&[0u8; 32], &[0u8; 64], 7),
        Ok(Err(host_bridge::CryptoError::InvalidRecoveryParam))
    );
    assert_eq!(b.batch_verify_ed25519(&vec![], &vec![], &vec![]), Ok(Ok(true)));
    let mut poor = bridge(1);
    assert_eq!(poor.storage_read(b"k"), Err(Trap::GasExhausted));
    assert_eq!(poor.address_canonicalize(b""), Err(Trap::GasExhausted));
    assert_eq!(poor.verify_ed25519(b"", &[], &[]), Err(Trap::GasExhausted));
    assert_eq!(poor.emit_debug(b""), Err(Trap::GasExhausted));
    assert_eq!(poor.charge_gas(0), Err(Trap::GasExhausted));
}
