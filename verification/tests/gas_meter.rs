use host_bridge::gas::{GasCosts, GasMeter, HostCall};
use host_bridge::trap::Trap;

fn costs() -> GasCosts {
    GasCosts {
        db_read: 10,
        db_write: 20,
        db_remove: 30,
        canonicalize: 40,
        humanize: 50,
        validate: 60,
        query: 70,
        secp256k1_verify: 80,
        secp256k1_recover: 90,
        ed25519_verify: 100,
        ed25519_batch_verify: 110,
        debug: 120,
        per_byte: 3,
    }
}

#[test]
fn price_is_base_plus_bytes() {
    assert_eq!(costs().price(HostCall::DbRead, 0), 10);
    assert_eq!(costs().price(HostCall::DbRead, 7), 31);
    assert_eq!(costs().price(HostCall::DbWrite, 100), 320);
    assert_eq!(costs().price(HostCall::Debug, 1), 123);
}

#[test]
fn every_call_has_its_base_price() {
    let calls = [
        (HostCall::DbRead, 10),
        (HostCall::DbWrite, 20),
        (HostCall::DbRemove, 30),
        (HostCall::Canonicalize, 40),
        (HostCall::Humanize, 50),
        (HostCall::Validate, 60),
        (HostCall::Query, 70),
        (HostCall::Secp256k1Verify, 80),
        (HostCall::Secp256k1Recover, 90),
        (HostCall::Ed25519Verify, 100),
        (HostCall::Ed25519BatchVerify, 110),
        (HostCall::Debug, 120),
    ];
    for (call, price) in calls {
        assert_eq!(costs().base(call), price);
    }
}

#[test]
fn price_is_capped() {
    assert_eq!(costs().price(HostCall::DbRead, u128::MAX), u64::MAX);
    assert_eq!(costs().price(HostCall::DbRead, (u64::MAX / 3) as u128), u64::MAX);
    assert_eq!(costs().price(HostCall::DbRead, ((u64::MAX - 10) / 3 + 1) as u128), u64::MAX);
    assert_eq!(costs().price(HostCall::DbRead, ((u64::MAX - 10) / 3) as u128), u64::MAX - 2);
    assert_eq!(costs().price(HostCall::DbRead, ((u64::MAX - 10) / 3 - 1) as u128), u64::MAX - 5);
    let mut free = costs();
    free.per_byte = 0;
    assert_eq!(free.price(HostCall::DbRead, u128::MAX), 10);
}

#[test]
fn charge_goes_down() {
    let mut meter = GasMeter::new(100);
    assert_eq!(meter.remaining(), 100);
    assert_eq!(meter.charge(30), Ok(()));
    assert_eq!(meter.remaining(), 70);
    assert_eq!(meter.charge(0), Ok(()));
    assert_eq!(meter.remaining(), 70);
    assert!(!meter.is_exhausted());
}

#[test]
fn reaching_zero_exhausts() {
    let mut meter = GasMeter::new(100);
    assert_eq!(meter.charge(100), Err(Trap::GasExhausted));
    assert_eq!(meter.remaining(), 0);
    assert!(meter.is_exhausted());
}

#[test]
fn exhaustion_is_final() {
    let mut meter = GasMeter::new(5);
    assert_eq!(meter.charge(6), Err(Trap::GasExhausted));
    assert_eq!(meter.charge(0), Err(Trap::GasExhausted));
    assert_eq!(meter.charge(1), Err(Trap::GasExhausted));
    assert_eq!(meter.remaining(), 0);
}

#[test]
fn empty_budget_is_exhausted_from_the_start() {
    let mut meter = GasMeter::new(0);
    assert!(meter.is_exhausted());
    assert_eq!(meter.charge(0), Err(Trap::GasExhausted));
}
