use garage_beam::hci::{
    check_polled, check_written, command_frame, connection_list, connection_list_request,
    event_read, find_connection_handle, update_command, HciConnInfo, HciError, HCI_EVENT_PKT,
    HCI_FILTER_EVENTS, HCI_FILTER_OPCODE, HCI_FILTER_TYPES,
};

#[test]
fn filter_lets_all_events_through() {
    assert_eq!(HCI_FILTER_TYPES, 1 << HCI_EVENT_PKT);
    assert_eq!(HCI_FILTER_EVENTS, u32::MAX);
    assert_eq!(HCI_FILTER_OPCODE, 0);
}

#[test]
fn command_frame_has_type_opcode_length_and_parameters() {
    assert_eq!(
        command_frame(0x2013, &[0xaa, 0xbb]),
        vec![0x01, 0x13, 0x20, 0x02, 0xaa, 0xbb]
    );
    assert_eq!(command_frame(0x0c03, &[]), vec![0x01, 0x03, 0x0c, 0x00]);
    let long = vec![0u8; 258];
    let frame = command_frame(0x2013, &long);
    assert_eq!(frame.len(), 262);
    assert_eq!(frame[3], 2);
}

#[test]
fn update_command_is_the_whole_packet() {
    assert_eq!(
        update_command(0x0040),
        vec![
            0x01, 0x13, 0x20, 0x0e, 0x40, 0x00, 0x06, 0x00, 0x06, 0x00, 0x00, 0x00, 0x64, 0x00,
            0x01, 0x00, 0x01, 0x00,
        ]
    );
}

#[test]
fn writes_must_be_whole() {
    assert_eq!(check_written(0x2013, 18, 18), Ok(()));
    assert_eq!(
        check_written(0x2013, -1, 18),
        Err(HciError::Write { opcode: 0x2013 })
    );
    assert_eq!(
        check_written(0x2013, 7, 18),
        Err(HciError::ShortWrite {
            opcode: 0x2013,
            written: 7,
            length: 18
        })
    );
}

#[test]
fn polling_tells_whether_there_is_an_event() {
    assert_eq!(check_polled(1), Ok(()));
    assert_eq!(check_polled(0), Err(HciError::TimedOut));
    assert_eq!(check_polled(-1), Err(HciError::Poll));
}

#[test]
fn event_is_the_packet_without_its_type() {
    let buf = [0x04, 0x0f, 0x04, 0x00, 0xff, 0xff];
    assert_eq!(event_read(4, &buf), Ok(vec![0x0f, 0x04, 0x00]));
    assert_eq!(event_read(2, &buf), Ok(vec![0x0f]));
    assert_eq!(event_read(0, &buf), Err(HciError::Read));
    assert_eq!(event_read(-1, &buf), Err(HciError::Read));
    assert_eq!(
        event_read(1, &buf),
        Err(HciError::UnexpectedFrame { kind: 0x04 })
    );
    assert_eq!(
        event_read(3, &[0x02, 0x00, 0x00]),
        Err(HciError::UnexpectedFrame { kind: 0x02 })
    );
}

#[test]
fn connection_list_request_has_room_for_sixteen() {
    let request = connection_list_request();
    assert_eq!(request.len(), 260);
    assert_eq!(request[..4], [0x00, 0x00, 0x10, 0x00]);
    assert!(request[4..].iter().all(|byte| *byte == 0));
}

#[test]
fn connection_list_holds_the_stated_entries() {
    let mut buf = connection_list_request();
    buf[2] = 2;
    buf[4..12].copy_from_slice(&[0x40, 0x00, 0xff, 0xee, 0xdd, 0xcc, 0xbb, 0xaa]);
    buf[20..28].copy_from_slice(&[0x41, 0x01, 0x66, 0x55, 0x44, 0x33, 0x22, 0x11]);
    buf[36..44].copy_from_slice(&[0x42, 0x00, 1, 2, 3, 4, 5, 6]);
    assert_eq!(
        connection_list(&buf),
        vec![
            HciConnInfo {
                handle: 0x0040,
                bdaddr: [0xff, 0xee, 0xdd, 0xcc, 0xbb, 0xaa],
            },
            HciConnInfo {
                handle: 0x0141,
                bdaddr: [0x66, 0x55, 0x44, 0x33, 0x22, 0x11],
            },
        ]
    );
    assert_eq!(
        find_connection_handle(&connection_list(&buf), "11:22:33:44:55:66"),
        Ok(0x0141)
    );
    // No more than there are.
    buf[2] = 200;
    assert_eq!(connection_list(&buf).len(), 16);
    assert_eq!(connection_list(&buf[..35]).len(), 1);
    assert_eq!(connection_list(&buf[..3]).len(), 0);
    buf[2] = 0;
    assert_eq!(connection_list(&buf).len(), 0);
}

#[test]
fn connection_is_found_by_address() {
    let other = HciConnInfo {
        handle: 0x0041,
        bdaddr: [0x66, 0x55, 0x44, 0x33, 0x22, 0x11],
    };
    let ours = HciConnInfo {
        handle: 0x0040,
        bdaddr: [0xff, 0xee, 0xdd, 0xcc, 0xbb, 0x0a],
    };
    let conns = [other, ours];
    assert_eq!(find_connection_handle(&conns, "0A:BB:CC:DD:EE:FF"), Ok(0x0040));
    assert_eq!(find_connection_handle(&conns, "0a:bb:cc:dd:ee:ff"), Ok(0x0040));
    assert_eq!(find_connection_handle(&conns, "0abbccddeeff"), Ok(0x0040));
    assert_eq!(find_connection_handle(&conns, "11:22:33:44:55:66"), Ok(0x0041));
    assert_eq!(
        find_connection_handle(&conns, "FF:EE:DD:CC:BB:0A"),
        Err(HciError::DeviceNotFound)
    );
    assert_eq!(
        find_connection_handle(&conns, "A:BB:CC:DD:EE:FF"),
        Err(HciError::DeviceNotFound)
    );
    assert_eq!(
        find_connection_handle(&[], "0A:BB:CC:DD:EE:FF"),
        Err(HciError::DeviceNotFound)
    );
}

#[test]
fn first_of_two_connections_is_found() {
    let bdaddr = [1, 2, 3, 4, 5, 6];
    let conns = [
        HciConnInfo { handle: 7, bdaddr },
        HciConnInfo { handle: 8, bdaddr },
    ];
    assert_eq!(find_connection_handle(&conns, "06:05:04:03:02:01"), Ok(7));
}

#[test]
fn hci_errors_have_their_messages() {
    let cases = [
        (HciError::OpenRaw, "open HCI raw socket: EPERM"),
        (HciError::OpenMonitor, "open HCI monitor socket: EPERM"),
        (
            HciError::Bind {
                dev: 65535,
                channel: 2,
            },
            "bind HCI socket (dev=65535, channel=2): EPERM",
        ),
        (HciError::Filter, "set HCI event filter: EPERM"),
        (
            HciError::Write { opcode: 0x2013 },
            "write HCI command 0x2013: EPERM",
        ),
        (
            HciError::ShortWrite {
                opcode: 0x0c03,
                written: 0,
                length: 18,
            },
            "short write HCI command 0x0c03: 0/18 bytes",
        ),
        (HciError::Poll, "poll HCI socket: EPERM"),
        (HciError::TimedOut, "timed out waiting for HCI event"),
        (HciError::Read, "read HCI event: EPERM"),
        (
            HciError::UnexpectedFrame { kind: 0x0a },
            "unexpected HCI frame type: 0x0a",
        ),
        (HciError::ConnectionList, "HCIGETCONNLIST ioctl: EPERM"),
        (
            HciError::DeviceNotFound,
            "device EPERM not found in HCI connection list",
        ),
        (
            HciError::CommandStatus { status: 0x0c },
            "LE Connection Update command status 0x0c",
        ),
        (
            HciError::CommandComplete { status: 0x12 },
            "LE Connection Update command complete status 0x12",
        ),
        (
            HciError::Rejected { status: 0x3a },
            "LE Connection Update rejected, status 0x3a",
        ),
        (
            HciError::NoUpdateComplete,
            "timed out waiting for LE Connection Update Complete",
        ),
        (
            HciError::NoCommandStatus,
            "timed out waiting for LE Connection Update status",
        ),
        (HciError::GuardPoisoned, "interval guard mutex poisoned"),
    ];
    for (error, message) in cases {
        assert_eq!(error.message("EPERM"), message);
    }
}
