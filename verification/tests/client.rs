use garage_beam::ble::characteristic_uuid;
use garage_beam::client::{
    connect_step, find_characteristic, first_byte, position_of, Arming, ClientError, ConnectStep,
    LinkStatus, StateWrite, SupervisorSlot, WritePhase,
};
use garage_beam::supervisor::Publication;

#[test]
fn publications_become_statuses() {
    assert!(matches!(
        LinkStatus::of(Publication::Waiting, "x"),
        LinkStatus::Waiting
    ));
    assert!(matches!(
        LinkStatus::of(Publication::Connected, "x"),
        LinkStatus::Connected
    ));
    match LinkStatus::of(Publication::SetupFailed, "No Bluetooth adapter found") {
        LinkStatus::Fatal(message) => assert_eq!(message, "No Bluetooth adapter found"),
        other => panic!("unexpected {other:?}"),
    }
    match LinkStatus::of(Publication::StreamEnded, "x") {
        LinkStatus::Fatal(message) => assert_eq!(message, "adapter event stream ended"),
        other => panic!("unexpected {other:?}"),
    }
}

#[test]
fn connecting_follows_the_status() {
    assert!(matches!(
        connect_step(&LinkStatus::Connected),
        ConnectStep::Established
    ));
    assert!(matches!(
        connect_step(&LinkStatus::Waiting),
        ConnectStep::AwaitChange
    ));
    match connect_step(&LinkStatus::Fatal("broken".to_string())) {
        ConnectStep::Fail(error) => assert_eq!(error.message(), "broken"),
        other => panic!("unexpected {other:?}"),
    }
}

#[test]
fn client_errors_have_their_messages() {
    assert_eq!(ClientError::NotConnected.message(), "not connected");
    assert_eq!(
        ClientError::NoCharacteristic.message(),
        "Characteristic 6a4c0002-b5a3-4f1e-9c2d-7e8f9a0b1c2d not found"
    );
    assert_eq!(
        ClientError::NoBytes.message(),
        "state characteristic returned no bytes"
    );
    assert_eq!(ClientError::Fatal("why".to_string()).message(), "why");
}

#[test]
fn client_can_be_brought_up_again() {
    let mut slot = SupervisorSlot::new();
    assert_eq!(slot.arm(), Arming::Start);
    assert_eq!(slot.arm(), Arming::Running);
    assert!(slot.disarm());
    assert!(!slot.disarm());
    assert_eq!(slot.arm(), Arming::Rearm);
    assert_eq!(slot.arm(), Arming::Running);
    assert!(slot.disarm());
    assert_eq!(slot.arm(), Arming::Rearm);
}

#[test]
fn successful_write_writes_the_fact_byte() {
    for (fact, byte) in [(false, 0x00), (true, 0x01)] {
        let mut write = StateWrite::new(fact);
        assert_eq!(write.phase, WritePhase::LookingUp);
        write.step(true);
        assert_eq!(write.phase, WritePhase::Writing { byte });
        write.step(true);
        assert_eq!(write.phase, WritePhase::Written);
        write.step(false);
        assert_eq!(write.phase, WritePhase::Written);
    }
}

#[test]
fn write_without_a_link_fails() {
    let mut write = StateWrite::new(true);
    write.step(false);
    assert_eq!(write.phase, WritePhase::NotConnected);
    write.step(true);
    assert_eq!(write.phase, WritePhase::NotConnected);
}

#[test]
fn failed_write_gives_the_link_up_in_order() {
    for succeeded in [true, false] {
        let mut write = StateWrite::new(true);
        write.step(true);
        write.step(false);
        for phase in [
            WritePhase::Disconnecting,
            WritePhase::Clearing,
            WritePhase::Requesting,
        ] {
            assert_eq!(write.phase, phase);
            write.step(succeeded);
        }
        assert_eq!(write.phase, WritePhase::Failed);
    }
}

#[test]
fn fact_is_the_first_byte_read() {
    assert!(matches!(first_byte(&[0x01, 0x00]), Ok(0x01)));
    assert!(matches!(first_byte(&[0x00]), Ok(0x00)));
    assert!(matches!(first_byte(&[]), Err(ClientError::NoBytes)));
}

#[test]
fn characteristic_is_the_first_with_its_number() {
    let ours = characteristic_uuid();
    assert!(matches!(find_characteristic(&[1, ours, 2, ours]), Ok(1)));
    assert!(matches!(
        find_characteristic(&[1, 2]),
        Err(ClientError::NoCharacteristic)
    ));
    assert!(matches!(
        find_characteristic(&[]),
        Err(ClientError::NoCharacteristic)
    ));
    assert_eq!(position_of(&[5, 6, 6], 6), Some(1));
    assert_eq!(position_of(&[5, 6, 6], 7), None);
}
