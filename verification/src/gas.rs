//! Gas metering: one budget per execution context, charged per host call
//! and per checkpoint of guest instructions.

use vstd::prelude::*;
use crate::trap::Trap;

verus! {

/// The host calls that have a price.
#[derive(Clone, Copy, Debug, PartialEq, Eq, Structural)]
pub enum HostCall {
    DbRead,
    DbWrite,
    DbRemove,
    Canonicalize,
    Humanize,
    Validate,
    Query,
    Secp256k1Verify,
    Secp256k1Recover,
    Ed25519Verify,
    Ed25519BatchVerify,
    Debug,
}

/// The tuning parameters of the meter: a base price for each host call and
/// one price per byte carried across the boundary.
#[derive(Clone, Copy, Debug)]
pub struct GasCosts {
    pub db_read: u64,
    pub db_write: u64,
    pub db_remove: u64,
    pub canonicalize: u64,
    pub humanize: u64,
    pub validate: u64,
    pub query: u64,
    pub secp256k1_verify: u64,
    pub secp256k1_recover: u64,
    pub ed25519_verify: u64,
    pub ed25519_batch_verify: u64,
    pub debug: u64,
    pub per_byte: u64,
}

impl GasCosts {
    /// The base price of a call.
    pub open spec fn spec_base(&self, call: HostCall) -> u64 {
        match call {
            HostCall::DbRead => self.db_read,
            HostCall::DbWrite => self.db_write,
            HostCall::DbRemove => self.db_remove,
            HostCall::Canonicalize => self.canonicalize,
            HostCall::Humanize => self.humanize,
            HostCall::Validate => self.validate,
            HostCall::Query => self.query,
            HostCall::Secp256k1Verify => self.secp256k1_verify,
            HostCall::Secp256k1Recover => self.secp256k1_recover,
            HostCall::Ed25519Verify => self.ed25519_verify,
            HostCall::Ed25519BatchVerify => self.ed25519_batch_verify,
            HostCall::Debug => self.debug,
        }
    }

    /// The base price of a call.
    #[verifier::when_used_as_spec(spec_base)]
    pub fn base(&self, call: HostCall) -> (price: u64)
        ensures
            price == self.spec_base(call),
    {
        match call {
            HostCall::DbRead => self.db_read,
            HostCall::DbWrite => self.db_write,
            HostCall::DbRemove => self.db_remove,
            HostCall::Canonicalize => self.canonicalize,
            HostCall::Humanize => self.humanize,
            HostCall::Validate => self.validate,
            HostCall::Query => self.query,
            HostCall::Secp256k1Verify => self.secp256k1_verify,
            HostCall::Secp256k1Recover => self.secp256k1_recover,
            HostCall::Ed25519Verify => self.ed25519_verify,
            HostCall::Ed25519BatchVerify => self.ed25519_batch_verify,
            HostCall::Debug => self.debug,
        }
    }

    /// The price of a call that carries `bytes` bytes: the base price plus
    /// the byte price for each byte, capped at the largest amount.
    pub open spec fn spec_price(&self, call: HostCall, bytes: nat) -> u64 {
        let exact = self.spec_base(call) + self.per_byte * bytes;
        if exact > u64::MAX {
            u64::MAX
        } else {
            exact as u64
        }
    }

    /// The price of a call that carries `bytes` bytes.
    pub fn price(&self, call: HostCall, bytes: u128) -> (price: u64)
        ensures
            price == self.spec_price(call, bytes as nat),
    {
        let base = self.base(call);
        if self.per_byte == 0 {
            assert(self.per_byte * bytes == 0) by (nonlinear_arith)
                requires
                    self.per_byte == 0,
            ;
            return base;
        }
        let room: u64 = u64::MAX - base;
        let most: u64 = room / self.per_byte;
        if bytes > most as u128 {
            assert(self.per_byte * bytes > room) by (nonlinear_arith)
                requires
                    bytes >= most + 1,
                    most == room / self.per_byte,
                    self.per_byte > 0,
            ;
            u64::MAX
        } else {
            let size: u64 = bytes as u64;
            assert(self.per_byte * size <= room) by (nonlinear_arith)
                requires
                    size <= most,
                    most == room / self.per_byte,
                    self.per_byte > 0,
            ;
            base + self.per_byte * size
        }
    }
}

/// The gas that is left to one execution context. It only ever goes down,
/// and once it is zero it stays zero.
#[derive(Clone, Copy, Debug)]
pub struct GasMeter {
    remaining: u64,
}

impl GasMeter {
    /// The gas that is left.
    pub closed spec fn spec_remaining(&self) -> u64 {
        self.remaining
    }

    /// No gas is left: every further charge fails.
    pub open spec fn spec_is_exhausted(&self) -> bool {
        self.spec_remaining() == 0
    }

    /// A fresh budget for a new execution context.
    pub fn new(budget: u64) -> (meter: GasMeter)
        ensures
            meter.spec_remaining() == budget,
    {
        GasMeter { remaining: budget }
    }

    /// The gas that is left.
    #[verifier::when_used_as_spec(spec_remaining)]
    pub fn remaining(&self) -> (left: u64)
        ensures
            left == self.spec_remaining(),
    {
        self.remaining
    }

    /// Whether no gas is left.
    #[verifier::when_used_as_spec(spec_is_exhausted)]
    pub fn is_exhausted(&self) -> (gone: bool)
        ensures
            gone == self.spec_is_exhausted(),
    {
        self.remaining == 0
    }

    /// The meter after a charge of `amount`.
    pub open spec fn after_charge(&self, amount: u64) -> u64 {
        if amount < self.spec_remaining() {
            (self.spec_remaining() - amount) as u64
        } else {
            0
        }
    }

    /// Deducts `amount`. The charge succeeds only when gas is left over
    /// afterwards; a charge that reaches zero empties the meter and traps.
    pub fn charge(&mut self, amount: u64) -> (paid: Result<(), Trap>)
        ensures
            final(self).spec_remaining() == old(self).after_charge(amount),
            paid == (if amount < old(self).spec_remaining() {
                Ok::<(), Trap>(())
            } else {
                Err::<(), Trap>(Trap::GasExhausted)
            }),
    {
        if amount < self.remaining {
            self.remaining = self.remaining - amount;
            Ok(())
        } else {
            self.remaining = 0;
            Err(Trap::GasExhausted)
        }
    }
}

} // verus!
