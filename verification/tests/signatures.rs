use host_bridge::crypto::{
    ed25519_batch_verify, ed25519_verify, secp256k1_recover_pubkey, secp256k1_verify, settle,
    settle_recovery,
};
use host_bridge::trap::{encode_status, encode_verdict, AddressError, CryptoError, RuntimeValue};

fn hex(text: &str) -> Vec<u8> {
    (0..text.len() / 2).map(|i| u8::from_str_radix(&text[2 * i..2 * i + 2], 16).unwrap()).collect()
}

fn secp_hash() -> Vec<u8> {
    hex("5d5967f13a4ff2045594ece00ad7bef5c61b149a559b15fd948af00fb93b31d3")
}

fn secp_signature() -> Vec<u8> {
    hex("c9dd20e07464d3a688ff4b710b1fbc027e495e797cfa0b4804da2ed117959227772de059808f765aa29b8f92edf30f4c2c5a438e30d3fe6897daa7141e3ce6f9")
}

fn secp_pubkey() -> Vec<u8> {
    hex("034f04181eeba35391b858633a765c4a0c189697b40d216354d50890d350c70290")
}

fn other_hash() -> Vec<u8> {
    hex("5ae8317d34d1e595e3fa7247db80c0af4320cce1116de187f8f7e2e099c0d8d0")
}

fn other_signature() -> Vec<u8> {
    hex("207082eb2c3dfa0b454e0906051270ba4074ac93760ba9e7110cd9471475111151eb0dbbc9920e72146fb564f99d039802bf6ef2561446eb126ef364d21ee9c4")
}

fn other_pubkey() -> Vec<u8> {
    hex("04051c1ee2190ecfb174bfe4f90763f2b4ff7517b70a2aec1876ebcfd644c4633fb03f3cfbd94b1f376e34592d9d41ccaf640bb751b00a1fadeb0c01157769eb73")
}

fn ed_pubkeys() -> Vec<Vec<u8>> {
    vec![
        hex("d75a980182b10ab7d54bfed3c964073a0ee172f3daa62325af021a68f707511a"),
        hex("3d4017c3e843895a92b70aa74d1b7ebc9c982ccf2ec4968cc0cd55f12af4660c"),
        hex("fc51cd8e6218a1a38da47ed00230f0580816ed13ba3303ac5deb911548908025"),
    ]
}

fn ed_messages() -> Vec<Vec<u8>> {
    vec![hex(""), hex("72"), hex("af82")]
}

fn ed_signatures() -> Vec<Vec<u8>> {
    vec![
        hex("e5564300c360ac729086e2cc806e828a84877f1eb8e5d974d873e065224901555fb8821590a33bacc61e39701cf9b46bd25bf5f0595bbe24655141438e7a100b"),
        hex("92a009a9f0d4cab8720e820b5f642540a2b27b5416503f8fb3762223ebdb69da085ac1e43e15996e458f3613d0f11d8c387b2eaeb4302aeeb00d291612bb0c00"),
        hex("6291d657deec24024827e69c3abe01a30ce548a284743a445e3680d7db5ac3ac18ff9b538d16f290ae67f760984dc6594a7c15e9716ed28dc027beceea1ec40a"),
    ]
}

#[test]
fn secp256k1_accepts_a_true_signature() {
    assert_eq!(secp256k1_verify(&secp_hash(), &secp_signature(), &secp_pubkey()), Ok(true));
    assert_eq!(secp256k1_verify(&other_hash(), &other_signature(), &other_pubkey()), Ok(true));
}

#[test]
fn secp256k1_false_signature_is_false_not_an_error() {
    let mut hash = secp_hash();
    hash[0] ^= 1;
    assert_eq!(secp256k1_verify(&hash, &secp_signature(), &secp_pubkey()), Ok(false));
    let mut signature = secp_signature();
    signature[10] ^= 0x40;
    assert_eq!(secp256k1_verify(&secp_hash(), &signature, &secp_pubkey()), Ok(false));
    assert_eq!(secp256k1_verify(&secp_hash(), &secp_signature(), &other_pubkey()), Ok(false));
}

#[test]
fn secp256k1_material_of_right_length_never_errs() {
    assert_eq!(secp256k1_verify(&[0u8; 32], &[0u8; 64], &[0u8; 33]), Ok(false));
    assert_eq!(secp256k1_verify(&[0u8; 32], &[0u8; 64], &[0u8; 65]), Ok(false));
    assert_eq!(secp256k1_verify(&[0xffu8; 32], &[0xffu8; 64], &[5u8; 33]), Ok(false));
    let mut off_curve = secp_pubkey();
    off_curve[5] ^= 0xff;
    off_curve[6] ^= 0x13;
    assert!(matches!(
        secp256k1_verify(&secp_hash(), &secp_signature(), &off_curve),
        Ok(false)
    ));
}

#[test]
fn secp256k1_wrong_lengths_are_errors() {
    assert_eq!(
        secp256k1_verify(&secp_hash()[..31], &secp_signature(), &secp_pubkey()),
        Err(CryptoError::InvalidHashFormat)
    );
    assert_eq!(
        secp256k1_verify(&[0u8; 33], &secp_signature(), &secp_pubkey()),
        Err(CryptoError::InvalidHashFormat)
    );
    assert_eq!(
        secp256k1_verify(&secp_hash(), &secp_signature()[..63], &secp_pubkey()),
        Err(CryptoError::InvalidSignatureFormat)
    );
    assert_eq!(
        secp256k1_verify(&secp_hash(), &secp_signature(), &secp_pubkey()[..32]),
        Err(CryptoError::InvalidPubkeyFormat)
    );
    assert_eq!(
        secp256k1_verify(&secp_hash(), &secp_signature(), &[4u8; 64]),
        Err(CryptoError::InvalidPubkeyFormat)
    );
    assert_eq!(secp256k1_verify(&[], &[], &[]), Err(CryptoError::InvalidHashFormat));
}

#[test]
fn secp256k1_recovers_the_signer() {
    let first = secp256k1_recover_pubkey(&other_hash(), &other_signature(), 0).unwrap();
    let second = secp256k1_recover_pubkey(&other_hash(), &other_signature(), 1).unwrap();
    assert_eq!(first.len(), 65);
    assert_eq!(second.len(), 65);
    assert_ne!(first, second);
    assert!(first == other_pubkey() || second == other_pubkey());
    assert_eq!(secp256k1_verify(&other_hash(), &other_signature(), &first), Ok(true));
}

#[test]
fn secp256k1_recovery_errors() {
    assert_eq!(
        secp256k1_recover_pubkey(&other_hash()[..5], &other_signature(), 0),
        Err(CryptoError::InvalidHashFormat)
    );
    assert_eq!(
        secp256k1_recover_pubkey(&other_hash(), &other_signature()[..5], 0),
        Err(CryptoError::InvalidSignatureFormat)
    );
    for param in [2, 3, 4, -1, 255, 256, i32::MAX, i32::MIN] {
        assert_eq!(
            secp256k1_recover_pubkey(&other_hash(), &other_signature(), param),
            Err(CryptoError::InvalidRecoveryParam)
        );
    }
    assert_eq!(
        secp256k1_recover_pubkey(&other_hash(), &[0u8; 64], 0),
        Err(CryptoError::RecoveryFailed)
    );
}

#[test]
fn ed25519_accepts_true_signatures() {
    for i in 0..3 {
        assert_eq!(ed25519_verify(&ed_messages()[i], &ed_signatures()[i], &ed_pubkeys()[i]), Ok(true));
    }
}

#[test]
fn ed25519_false_signature_is_false_not_an_error() {
    assert_eq!(ed25519_verify(b"x", &ed_signatures()[0], &ed_pubkeys()[0]), Ok(false));
    assert_eq!(ed25519_verify(b"", &ed_signatures()[1], &ed_pubkeys()[0]), Ok(false));
    assert_eq!(ed25519_verify(b"", &ed_signatures()[0], &ed_pubkeys()[1]), Ok(false));
    assert_eq!(ed25519_verify(b"", &[0xffu8; 64], &[0xffu8; 32]), Ok(false));
}

#[test]
fn ed25519_wrong_lengths_are_errors() {
    assert_eq!(
        ed25519_verify(b"", &ed_signatures()[0][..63], &ed_pubkeys()[0]),
        Err(CryptoError::InvalidSignatureFormat)
    );
    assert_eq!(
        ed25519_verify(b"", &ed_signatures()[0], &ed_pubkeys()[0][..31]),
        Err(CryptoError::InvalidPubkeyFormat)
    );
    assert_eq!(ed25519_verify(b"", &[], &[]), Err(CryptoError::InvalidSignatureFormat));
    assert_eq!(ed25519_verify(b"", &[0u8; 64], &[0u8; 33]), Err(CryptoError::InvalidPubkeyFormat));
}

#[test]
fn batch_of_true_signatures_verifies() {
    assert_eq!(ed25519_batch_verify(&ed_messages(), &ed_signatures(), &ed_pubkeys()), Ok(true));
}

#[test]
fn empty_batch_verifies() {
    assert_eq!(ed25519_batch_verify(&vec![], &vec![], &vec![]), Ok(true));
    assert_eq!(ed25519_batch_verify(&vec![b"m".to_vec()], &vec![], &vec![]), Ok(true));
    assert_eq!(ed25519_batch_verify(&vec![], &vec![], &vec![ed_pubkeys()[0].clone()]), Ok(true));
}

#[test]
fn batch_with_one_false_signature_fails() {
    let mut messages = ed_messages();
    messages[1] = b"other".to_vec();
    assert_eq!(ed25519_batch_verify(&messages, &ed_signatures(), &ed_pubkeys()), Ok(false));
    let mut signatures = ed_signatures();
    signatures.swap(0, 2);
    assert_eq!(ed25519_batch_verify(&ed_messages(), &signatures, &ed_pubkeys()), Ok(false));
}

#[test]
fn one_key_is_repeated_for_the_batch() {
    let key = vec![ed_pubkeys()[0].clone()];
    let messages = vec![ed_messages()[0].clone(), ed_messages()[0].clone()];
    let signatures = vec![ed_signatures()[0].clone(), ed_signatures()[0].clone()];
    assert_eq!(ed25519_batch_verify(&messages, &signatures, &key), Ok(true));
    let mixed = vec![ed_messages()[0].clone(), ed_messages()[1].clone()];
    let mixed_signatures = vec![ed_signatures()[0].clone(), ed_signatures()[1].clone()];
    assert_eq!(ed25519_batch_verify(&mixed, &mixed_signatures, &key), Ok(false));
}

#[test]
fn one_message_is_repeated_for_the_batch() {
    let message = vec![ed_messages()[1].clone()];
    let signatures = vec![ed_signatures()[1].clone(), ed_signatures()[1].clone()];
    let keys = vec![ed_pubkeys()[1].clone(), ed_pubkeys()[1].clone()];
    assert_eq!(ed25519_batch_verify(&message, &signatures, &keys), Ok(true));
    let other_keys = vec![ed_pubkeys()[1].clone(), ed_pubkeys()[2].clone()];
    assert_eq!(ed25519_batch_verify(&message, &signatures, &other_keys), Ok(false));
}

#[test]
fn lists_that_do_not_fit_are_an_error() {
    let two = |items: Vec<Vec<u8>>| items[..2].to_vec();
    assert_eq!(
        ed25519_batch_verify(&two(ed_messages()), &ed_signatures(), &ed_pubkeys()),
        Err(CryptoError::BatchMismatch)
    );
    assert_eq!(
        ed25519_batch_verify(&ed_messages(), &two(ed_signatures()), &ed_pubkeys()),
        Err(CryptoError::BatchMismatch)
    );
    assert_eq!(
        ed25519_batch_verify(&ed_messages(), &ed_signatures(), &two(ed_pubkeys())),
        Err(CryptoError::BatchMismatch)
    );
    assert_eq!(
        ed25519_batch_verify(&vec![b"m".to_vec()], &ed_signatures(), &vec![ed_pubkeys()[0].clone()]),
        Err(CryptoError::BatchMismatch)
    );
    assert_eq!(
        ed25519_batch_verify(&vec![], &ed_signatures(), &ed_pubkeys()),
        Err(CryptoError::BatchMismatch)
    );
}

#[test]
fn batch_with_misshapen_material_is_an_error() {
    let mut signatures = ed_signatures();
    signatures[2].pop();
    assert_eq!(
        ed25519_batch_verify(&ed_messages(), &signatures, &ed_pubkeys()),
        Err(CryptoError::InvalidSignatureFormat)
    );
    let mut keys = ed_pubkeys();
    keys[1].push(0);
    let mut messages = ed_messages();
    messages[0] = b"wrong".to_vec();
    assert_eq!(
        ed25519_batch_verify(&messages, &ed_signatures(), &keys),
        Err(CryptoError::InvalidPubkeyFormat)
    );
}

#[test]
fn outcomes_settle() {
    assert!(settle(Some(true)));
    assert!(!settle(Some(false)));
    assert!(!settle(None));
    assert_eq!(settle_recovery(Some(vec![1, 2])), Ok(vec![1, 2]));
    assert_eq!(settle_recovery(None), Err(CryptoError::RecoveryFailed));
}

#[test]
fn verdicts_and_statuses_on_the_wire() {
    assert_eq!(encode_verdict(Ok(true)), RuntimeValue::I32(1));
    assert_eq!(encode_verdict(Ok(false)), RuntimeValue::I32(0));
    assert_eq!(encode_verdict(Err(CryptoError::InvalidHashFormat)), RuntimeValue::I32(-3));
    assert_eq!(encode_verdict(Err(CryptoError::InvalidSignatureFormat)), RuntimeValue::I32(-4));
    assert_eq!(encode_verdict(Err(CryptoError::InvalidPubkeyFormat)), RuntimeValue::I32(-5));
    assert_eq!(encode_verdict(Err(CryptoError::InvalidRecoveryParam)), RuntimeValue::I32(-6));
    assert_eq!(encode_verdict(Err(CryptoError::BatchMismatch)), RuntimeValue::I32(-7));
    assert_eq!(encode_verdict(Err(CryptoError::RecoveryFailed)), RuntimeValue::I32(-10));
    assert_eq!(encode_status(Ok(())), RuntimeValue::I32(0));
    assert_eq!(encode_status(Err(AddressError::Empty)), RuntimeValue::I32(-2));
    assert_eq!(encode_status(Err(AddressError::InvalidCanonical)), RuntimeValue::I32(-5));
    assert_eq!(encode_status(Err(AddressError::NotNormalized)), RuntimeValue::I32(-6));
}
