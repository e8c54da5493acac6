//! Signature verification. The host checks the shape of what the guest
//! hands over; the curve arithmetic itself is done by `cosmwasm_crypto`.
//!
//! A signature that has the right shape and does not verify is an answer,
//! not an error: the verdict is `false`.

use vstd::prelude::*;
use crate::trap::CryptoError;

verus! {

/// The length of a message hash.
pub const HASH_LENGTH: usize = 32;

/// The length of a signature, for either curve.
pub const SIGNATURE_LENGTH: usize = 64;

/// The length of a compressed secp256k1 public key.
pub const SECP256K1_COMPRESSED_LENGTH: usize = 33;

/// The length of an uncompressed secp256k1 public key.
pub const SECP256K1_UNCOMPRESSED_LENGTH: usize = 65;

/// The length of an ed25519 public key.
pub const ED25519_PUBKEY_LENGTH: usize = 32;

/// What `cosmwasm_crypto::secp256k1_verify` returns for a message hash, a
/// signature and a public key: its verdict, or nothing where it returns an
/// error.
pub uninterp spec fn secp256k1_outcome(hash: Seq<u8>, signature: Seq<u8>, public_key: Seq<u8>) -> Option<bool>;

/// What `cosmwasm_crypto::secp256k1_recover_pubkey` returns for a message
/// hash, a signature and a recovery parameter: the key, or nothing where
/// it returns an error.
pub uninterp spec fn secp256k1_recovered(hash: Seq<u8>, signature: Seq<u8>, recovery_param: u8) -> Option<Seq<u8>>;

/// What `cosmwasm_crypto::ed25519_verify` returns for a message, a
/// signature and a public key: its verdict, or nothing where it returns an
/// error.
pub uninterp spec fn ed25519_outcome(message: Seq<u8>, signature: Seq<u8>, public_key: Seq<u8>) -> Option<bool>;

/// Calls `cosmwasm_crypto::secp256k1_verify`. Trusted: the call is a
/// function of its three arguments, and its result is given the name
/// `secp256k1_outcome`.
#[verifier::external_body]
fn secp256k1_check(hash: &[u8], signature: &[u8], public_key: &[u8]) -> (outcome: Option<bool>)
    ensures
        outcome == secp256k1_outcome(hash@, signature@, public_key@),
{
    cosmwasm_crypto::secp256k1_verify(hash, signature, public_key).ok()
}

/// Calls `cosmwasm_crypto::secp256k1_recover_pubkey`. Trusted: the call is
/// a function of its three arguments, and its result is given the name
/// `secp256k1_recovered`.
#[verifier::external_body]
fn secp256k1_recover(hash: &[u8], signature: &[u8], recovery_param: u8) -> (outcome: Option<
    Vec<u8>,
>)
    ensures
        outcome is Some <==> secp256k1_recovered(hash@, signature@, recovery_param) is Some,
        outcome is Some ==> outcome->Some_0@ == secp256k1_recovered(
            hash@,
            signature@,
            recovery_param,
        )->Some_0,
{
    cosmwasm_crypto::secp256k1_recover_pubkey(hash, signature, recovery_param).ok()
}

/// Calls `cosmwasm_crypto::ed25519_verify`. Trusted: the call is a
/// function of its three arguments, and its result is given the name
/// `ed25519_outcome`.
#[verifier::external_body]
fn ed25519_check(message: &[u8], signature: &[u8], public_key: &[u8]) -> (outcome: Option<bool>)
    ensures
        outcome == ed25519_outcome(message@, signature@, public_key@),
{
    cosmwasm_crypto::ed25519_verify(message, signature, public_key).ok()
}

/// The fault in the shape of secp256k1 material, if it has one.
pub open spec fn secp256k1_shape_fault(
    hash: Seq<u8>,
    signature: Seq<u8>,
    public_key: Seq<u8>,
) -> Option<CryptoError> {
    if hash.len() != 32 {
        Some(CryptoError::InvalidHashFormat)
    } else if signature.len() != 64 {
        Some(CryptoError::InvalidSignatureFormat)
    } else if public_key.len() != 33 && public_key.len() != 65 {
        Some(CryptoError::InvalidPubkeyFormat)
    } else {
        None
    }
}

/// The fault in the shape of ed25519 material, if it has one.
pub open spec fn ed25519_shape_fault(signature: Seq<u8>, public_key: Seq<u8>) -> Option<
    CryptoError,
> {
    if signature.len() != 64 {
        Some(CryptoError::InvalidSignatureFormat)
    } else if public_key.len() != 32 {
        Some(CryptoError::InvalidPubkeyFormat)
    } else {
        None
    }
}

/// The verdict that an outcome of the verifier amounts to: only a plain
/// yes is a yes.
pub open spec fn verdict_of(outcome: Option<bool>) -> bool {
    outcome == Some(true)
}

/// Turns the verifier's outcome into a verdict.
pub fn settle(outcome: Option<bool>) -> (verdict: bool)
    ensures
        verdict == verdict_of(outcome),
{
    match outcome {
        Some(valid) => valid,
        None => false,
    }
}

/// The result of a key recovery: the key, or the failure to find one.
pub fn settle_recovery(outcome: Option<Vec<u8>>) -> (key: Result<Vec<u8>, CryptoError>)
    ensures
        match outcome {
            Some(found) => key == Ok::<Vec<u8>, CryptoError>(found),
            None => key == Err::<Vec<u8>, CryptoError>(CryptoError::RecoveryFailed),
        },
{
    match outcome {
        Some(found) => Ok(found),
        None => Err(CryptoError::RecoveryFailed),
    }
}

/// The verdict on a secp256k1 signature: an error for material of the
/// wrong length, else whether the verifier says yes.
pub open spec fn secp256k1_verify_spec(
    hash: Seq<u8>,
    signature: Seq<u8>,
    public_key: Seq<u8>,
) -> Result<bool, CryptoError> {
    match secp256k1_shape_fault(hash, signature, public_key) {
        Some(fault) => Err(fault),
        None => Ok(verdict_of(secp256k1_outcome(hash, signature, public_key))),
    }
}

/// The verdict on an ed25519 signature: an error for material of the
/// wrong length, else whether the verifier says yes.
pub open spec fn ed25519_verify_spec(
    message: Seq<u8>,
    signature: Seq<u8>,
    public_key: Seq<u8>,
) -> Result<bool, CryptoError> {
    match ed25519_shape_fault(signature, public_key) {
        Some(fault) => Err(fault),
        None => Ok(verdict_of(ed25519_outcome(message, signature, public_key))),
    }
}

/// The key behind a secp256k1 signature: an error for material of the
/// wrong shape and where no key is found.
pub open spec fn secp256k1_recover_spec(
    hash: Seq<u8>,
    signature: Seq<u8>,
    recovery_param: i32,
) -> Result<Seq<u8>, CryptoError> {
    if hash.len() != 32 {
        Err(CryptoError::InvalidHashFormat)
    } else if signature.len() != 64 {
        Err(CryptoError::InvalidSignatureFormat)
    } else if recovery_param != 0 && recovery_param != 1 {
        Err(CryptoError::InvalidRecoveryParam)
    } else {
        match secp256k1_recovered(hash, signature, recovery_param as u8) {
            Some(key) => Ok(key),
            None => Err(CryptoError::RecoveryFailed),
        }
    }
}

/// Verifies a secp256k1 signature over a message hash. Material of the
/// wrong length is an error; everything else gets a verdict.
pub fn secp256k1_verify(hash: &[u8], signature: &[u8], public_key: &[u8]) -> (verdict: Result<
    bool,
    CryptoError,
>)
    ensures
        verdict == secp256k1_verify_spec(hash@, signature@, public_key@),
{
    if hash.len() != HASH_LENGTH {
        Err(CryptoError::InvalidHashFormat)
    } else if signature.len() != SIGNATURE_LENGTH {
        Err(CryptoError::InvalidSignatureFormat)
    } else if public_key.len() != SECP256K1_COMPRESSED_LENGTH && public_key.len()
        != SECP256K1_UNCOMPRESSED_LENGTH {
        Err(CryptoError::InvalidPubkeyFormat)
    } else {
        Ok(settle(secp256k1_check(hash, signature, public_key)))
    }
}

/// Recovers the public key that made a secp256k1 signature over a message
/// hash. Fails where the material has the wrong shape and where no such
/// key exists.
pub fn secp256k1_recover_pubkey(hash: &[u8], signature: &[u8], recovery_param: i32) -> (key:
    Result<Vec<u8>, CryptoError>)
    ensures
        match secp256k1_recover_spec(hash@, signature@, recovery_param) {
            Ok(bytes) => key is Ok && key->Ok_0@ == bytes,
            Err(fault) => key == Err::<Vec<u8>, CryptoError>(fault),
        },
{
    if hash.len() != HASH_LENGTH {
        Err(CryptoError::InvalidHashFormat)
    } else if signature.len() != SIGNATURE_LENGTH {
        Err(CryptoError::InvalidSignatureFormat)
    } else if recovery_param != 0 && recovery_param != 1 {
        Err(CryptoError::InvalidRecoveryParam)
    } else {
        settle_recovery(secp256k1_recover(hash, signature, recovery_param as u8))
    }
}

/// Verifies an ed25519 signature over a message. Material of the wrong
/// length is an error; everything else gets a verdict.
pub fn ed25519_verify(message: &[u8], signature: &[u8], public_key: &[u8]) -> (verdict: Result<
    bool,
    CryptoError,
>)
    ensures
        verdict == ed25519_verify_spec(message@, signature@, public_key@),
{
    if signature.len() != SIGNATURE_LENGTH {
        Err(CryptoError::InvalidSignatureFormat)
    } else if public_key.len() != ED25519_PUBKEY_LENGTH {
        Err(CryptoError::InvalidPubkeyFormat)
    } else {
        Ok(settle(ed25519_check(message, signature, public_key)))
    }
}

/// The three lists of a batch fit together: they have one length, or a
/// single message stands for all signatures, or a single key does.
pub open spec fn batch_fits(messages: nat, signatures: nat, public_keys: nat) -> bool {
    ||| messages == signatures && signatures == public_keys
    ||| messages == 1 && signatures == public_keys
    ||| public_keys == 1 && messages == signatures
}

/// The message that belongs to signature `i`: a single message is
/// repeated for every signature.
pub open spec fn batch_message(messages: Seq<Seq<u8>>, signatures: nat, i: int) -> Seq<u8> {
    if messages.len() == signatures {
        messages[i]
    } else {
        messages[0]
    }
}

/// The key that belongs to signature `i`: a single key is repeated for
/// every signature.
pub open spec fn batch_key(public_keys: Seq<Seq<u8>>, signatures: nat, i: int) -> Seq<u8> {
    if public_keys.len() == signatures {
        public_keys[i]
    } else {
        public_keys[0]
    }
}

/// The verdict on the first `count` signatures of a batch: the first fault
/// of shape among them, or whether all of them verify.
pub open spec fn batch_upto(
    messages: Seq<Seq<u8>>,
    signatures: Seq<Seq<u8>>,
    public_keys: Seq<Seq<u8>>,
    count: nat,
) -> Result<bool, CryptoError>
    decreases count,
{
    if count == 0 {
        Ok(true)
    } else {
        match batch_upto(messages, signatures, public_keys, (count - 1) as nat) {
            Err(fault) => Err(fault),
            Ok(so_far) => match ed25519_verify_spec(
                batch_message(messages, signatures.len(), count - 1),
                signatures[count - 1],
                batch_key(public_keys, signatures.len(), count - 1),
            ) {
                Err(fault) => Err(fault),
                Ok(valid) => Ok(so_far && valid),
            },
        }
    }
}

/// The verdict on a batch: an error where the lists do not fit together
/// or a piece of material has the wrong length, else whether every signature
/// verifies.
pub open spec fn ed25519_batch_verify_spec(
    messages: Seq<Seq<u8>>,
    signatures: Seq<Seq<u8>>,
    public_keys: Seq<Seq<u8>>,
) -> Result<bool, CryptoError> {
    if !batch_fits(messages.len(), signatures.len(), public_keys.len()) {
        Err(CryptoError::BatchMismatch)
    } else {
        batch_upto(messages, signatures, public_keys, signatures.len())
    }
}

/// A batch verifies only if each of its signatures verifies.
pub proof fn lemma_batch_means_each(
    messages: Seq<Seq<u8>>,
    signatures: Seq<Seq<u8>>,
    public_keys: Seq<Seq<u8>>,
    count: nat,
    i: int,
)
    requires
        0 <= i < count,
        batch_upto(messages, signatures, public_keys, count) == Ok::<bool, CryptoError>(true),
    ensures
        ed25519_verify_spec(
            batch_message(messages, signatures.len(), i),
            signatures[i],
            batch_key(public_keys, signatures.len(), i),
        ) == Ok::<bool, CryptoError>(true),
    decreases count,
{
    if i < count - 1 {
        lemma_batch_means_each(messages, signatures, public_keys, (count - 1) as nat, i);
    }
}

/// Verifies a batch of ed25519 signatures. The batch verifies when every
/// signature in it does; an empty batch verifies.
pub fn ed25519_batch_verify(
    messages: &Vec<Vec<u8>>,
    signatures: &Vec<Vec<u8>>,
    public_keys: &Vec<Vec<u8>>,
) -> (verdict: Result<bool, CryptoError>)
    ensures
        verdict == ed25519_batch_verify_spec(
            crate::memory::views(messages@),
            crate::memory::views(signatures@),
            crate::memory::views(public_keys@),
        ),
{
    let count = signatures.len();
    let same_messages = messages.len() == count;
    let same_keys = public_keys.len() == count;
    if !((same_messages && same_keys) || (messages.len() == 1 && same_keys) || (public_keys.len()
        == 1 && same_messages)) {
        return Err(CryptoError::BatchMismatch);
    }
    let ghost ms = crate::memory::views(messages@);
    let ghost ss = crate::memory::views(signatures@);
    let ghost ks = crate::memory::views(public_keys@);
    let mut all: bool = true;
    let mut i: usize = 0;
    while i < count
        invariant
            i <= count,
            count == signatures@.len(),
            same_messages == (messages@.len() == count),
            same_keys == (public_keys@.len() == count),
            batch_fits(messages@.len(), signatures@.len(), public_keys@.len()),
            ms == crate::memory::views(messages@),
            ss == crate::memory::views(signatures@),
            ks == crate::memory::views(public_keys@),
            batch_upto(ms, ss, ks, i as nat) == Ok::<bool, CryptoError>(all),
        decreases count - i,
    {
        let message = if same_messages { &messages[i] } else { &messages[0] };
        let key = if same_keys { &public_keys[i] } else { &public_keys[0] };
        let signature = &signatures[i];
        proof {
            assert(message@ == batch_message(ms, ss.len(), i as int));
            assert(key@ == batch_key(ks, ss.len(), i as int));
            assert(signature@ == ss[i as int]);
        }
        if signature.len() != SIGNATURE_LENGTH {
            proof {
                lemma_batch_fault_stays(ms, ss, ks, (i + 1) as nat, count as nat);
            }
            return Err(CryptoError::InvalidSignatureFormat);
        }
        if key.len() != ED25519_PUBKEY_LENGTH {
            proof {
                lemma_batch_fault_stays(ms, ss, ks, (i + 1) as nat, count as nat);
            }
            return Err(CryptoError::InvalidPubkeyFormat);
        }
        if all {
            all = settle(ed25519_check(message.as_slice(), signature.as_slice(), key.as_slice()));
        }
        i = i + 1;
    }
    Ok(all)
}

/// A fault of shape among the first signatures is the verdict on the whole
/// batch.
proof fn lemma_batch_fault_stays(
    messages: Seq<Seq<u8>>,
    signatures: Seq<Seq<u8>>,
    public_keys: Seq<Seq<u8>>,
    upto: nat,
    count: nat,
)
    requires
        upto <= count,
        batch_upto(messages, signatures, public_keys, upto) is Err,
    ensures
        batch_upto(messages, signatures, public_keys, count) == batch_upto(
            messages,
            signatures,
            public_keys,
            upto,
        ),
    decreases count - upto,
{
    if upto < count {
        lemma_batch_fault_stays(messages, signatures, public_keys, upto, (count - 1) as nat);
    }
}

} // verus!
