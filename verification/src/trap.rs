//! The three outcomes of a host call: a value, a recoverable error that the
//! guest can branch on, or a trap that ends guest execution.

use vstd::prelude::*;

verus! {

/// A value that a host function leaves on the guest's stack.
#[derive(Clone, Copy, Debug, PartialEq, Eq, Structural)]
pub enum RuntimeValue {
    I32(i32),
    I64(i64),
}

/// An unrecoverable failure. A trap unwinds the whole execution context,
/// not only the host call that raised it.
#[derive(Clone, Copy, Debug, PartialEq, Eq, Structural)]
pub enum Trap {
    /// The gas budget of the execution context is used up.
    GasExhausted,
    /// A null pointer, or a region that does not lie inside guest memory.
    MemoryAccess,
    /// The region that the guest offered cannot hold the data.
    RegionTooSmall,
    /// A nested query would pass the call-depth ceiling.
    QueryDepthExceeded,
    /// The guest itself gave up.
    GuestPanic,
}

/// What a trap is called where it has to be put in words.
pub open spec fn trap_text(trap: Trap) -> Seq<char> {
    match trap {
        Trap::GasExhausted => "out of gas"@,
        Trap::MemoryAccess => "memory access out of bounds"@,
        Trap::RegionTooSmall => "region too small"@,
        Trap::QueryDepthExceeded => "query depth exceeded"@,
        Trap::GuestPanic => "contract panicked"@,
    }
}

impl Trap {
    /// What the trap is called.
    pub fn text(self) -> (text: String)
        ensures
            text@ == trap_text(self),
    {
        match self {
            Trap::GasExhausted => "out of gas".to_owned(),
            Trap::MemoryAccess => "memory access out of bounds".to_owned(),
            Trap::RegionTooSmall => "region too small".to_owned(),
            Trap::QueryDepthExceeded => "query depth exceeded".to_owned(),
            Trap::GuestPanic => "contract panicked".to_owned(),
        }
    }
}

/// What a host function returns to the interpreter.
pub type HostResult = Result<Option<RuntimeValue>, Trap>;

/// Why an address was refused. The classes are closed and stable: each has
/// its own wire code.
#[derive(Clone, Copy, Debug, PartialEq, Eq, Structural)]
pub enum AddressError {
    /// Nothing but white space.
    Empty,
    /// Not an encoding at all: bad character, bad checksum, bad payload size.
    Malformed,
    /// A sound encoding that belongs to another network.
    WrongPrefix,
    /// Canonical bytes of the wrong length.
    InvalidCanonical,
    /// A sound address that is not written in its normal form.
    NotNormalized,
}

impl AddressError {
    /// The wire code of the error class.
    pub open spec fn spec_code(self) -> i32 {
        match self {
            AddressError::Empty => -2i32,
            AddressError::Malformed => -3i32,
            AddressError::WrongPrefix => -4i32,
            AddressError::InvalidCanonical => -5i32,
            AddressError::NotNormalized => -6i32,
        }
    }

    /// The wire code of the error class.
    #[verifier::when_used_as_spec(spec_code)]
    pub fn code(self) -> (c: i32)
        ensures
            c == self.spec_code(),
            c < 0,
    {
        match self {
            AddressError::Empty => -2i32,
            AddressError::Malformed => -3i32,
            AddressError::WrongPrefix => -4i32,
            AddressError::InvalidCanonical => -5i32,
            AddressError::NotNormalized => -6i32,
        }
    }
}

/// Why signature material was refused before any cryptography ran.
#[derive(Clone, Copy, Debug, PartialEq, Eq, Structural)]
pub enum CryptoError {
    /// The message hash is not 32 bytes long.
    InvalidHashFormat,
    /// The signature is not 64 bytes long.
    InvalidSignatureFormat,
    /// The public key has a length that no encoding of a key has.
    InvalidPubkeyFormat,
    /// The recovery parameter is neither 0 nor 1.
    InvalidRecoveryParam,
    /// The three lists of a batch do not fit together.
    BatchMismatch,
    /// No public key exists for the hash and signature.
    RecoveryFailed,
}

impl CryptoError {
    /// The wire code of the error class.
    pub open spec fn spec_code(self) -> i32 {
        match self {
            CryptoError::InvalidHashFormat => -3i32,
            CryptoError::InvalidSignatureFormat => -4i32,
            CryptoError::InvalidPubkeyFormat => -5i32,
            CryptoError::InvalidRecoveryParam => -6i32,
            CryptoError::BatchMismatch => -7i32,
            CryptoError::RecoveryFailed => -10i32,
        }
    }

    /// The wire code of the error class.
    #[verifier::when_used_as_spec(spec_code)]
    pub fn code(self) -> (c: i32)
        ensures
            c == self.spec_code(),
            c < 0,
    {
        match self {
            CryptoError::InvalidHashFormat => -3i32,
            CryptoError::InvalidSignatureFormat => -4i32,
            CryptoError::InvalidPubkeyFormat => -5i32,
            CryptoError::InvalidRecoveryParam => -6i32,
            CryptoError::BatchMismatch => -7i32,
            CryptoError::RecoveryFailed => -10i32,
        }
    }
}

/// The wire form of a yes/no answer: 1 for yes, 0 for no, the error's
/// negative code otherwise.
pub open spec fn verdict_code(verdict: Result<bool, CryptoError>) -> i32 {
    match verdict {
        Ok(true) => 1i32,
        Ok(false) => 0i32,
        Err(e) => e.spec_code(),
    }
}

/// The integer that the guest sees for a verification verdict.
pub fn encode_verdict(verdict: Result<bool, CryptoError>) -> (v: RuntimeValue)
    ensures
        v == RuntimeValue::I32(verdict_code(verdict)),
{
    match verdict {
        Ok(true) => RuntimeValue::I32(1i32),
        Ok(false) => RuntimeValue::I32(0i32),
        Err(e) => RuntimeValue::I32(e.code()),
    }
}

/// The wire form of an address operation: 0 for success, the error's
/// negative code otherwise.
pub open spec fn status_code(status: Result<(), AddressError>) -> i32 {
    match status {
        Ok(_) => 0i32,
        Err(e) => e.spec_code(),
    }
}

/// The integer that the guest sees for the status of an address operation.
pub fn encode_status(status: Result<(), AddressError>) -> (v: RuntimeValue)
    ensures
        v == RuntimeValue::I32(status_code(status)),
{
    match status {
        Ok(_) => RuntimeValue::I32(0i32),
        Err(e) => RuntimeValue::I32(e.code()),
    }
}

} // verus!
