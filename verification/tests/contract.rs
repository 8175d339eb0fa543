use garage_beam::ble::{CHARACTERISTIC_UUID, FACT_BROKEN, FACT_INTACT, SERVICE_UUID};
use garage_beam::interval::{SLAVE_LATENCY, SUPERVISION_TIMEOUT, TARGET_INTERVAL};
use garage_beam::KEEPALIVE;

/// What the lamp's firmware holds this service to.
#[test]
fn contract_matches_code_constants() {
    assert_eq!("6a4c0001-b5a3-4f1e-9c2d-7e8f9a0b1c2d", SERVICE_UUID);
    assert_eq!("6a4c0002-b5a3-4f1e-9c2d-7e8f9a0b1c2d", CHARACTERISTIC_UUID);
    assert_eq!(0, FACT_INTACT as u64);
    assert_eq!(1, FACT_BROKEN as u64);
    assert_eq!(7500, TARGET_INTERVAL as u64 * 1250);
    assert_eq!(0, SLAVE_LATENCY as u64);
    assert_eq!(1000, SUPERVISION_TIMEOUT as u64 * 10);
    assert_eq!(10000, KEEPALIVE / 1_000_000);
}
