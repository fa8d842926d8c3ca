use kindlebridge::service::{
    check_parent_watchdog, device_source, parse_usb_id, Accept, DeviceSource, LocalService,
    ServiceStep,
};

#[test]
fn the_devices_of_a_server_are_in_one_place() {
    assert_eq!(
        device_source(false, 0, true, true).unwrap(),
        DeviceSource::Usb
    );
    assert_eq!(
        device_source(false, 2, false, false).unwrap(),
        DeviceSource::Tcp
    );
    assert_eq!(
        device_source(true, 0, false, false).unwrap(),
        DeviceSource::Inventory
    );
    assert_eq!(
        device_source(true, 1, false, false).unwrap_err(),
        "--devices-file, --tcp-device and --usb cannot be combined"
    );
    assert_eq!(
        device_source(false, 1, true, false).unwrap_err(),
        "--devices-file, --tcp-device and --usb cannot be combined"
    );
    assert_eq!(
        device_source(false, 0, false, true).unwrap_err(),
        "--usb-serial requires --usb"
    );
    check_parent_watchdog(true).unwrap();
    assert_eq!(
        check_parent_watchdog(false).unwrap_err(),
        "--parent-watchdog must use a loopback address"
    );
}

#[test]
fn product_numbers_are_decimal_or_hexadecimal() {
    assert_eq!(parse_usb_id("39297"), Ok(0x9981));
    assert_eq!(parse_usb_id(" 0x9981\n"), Ok(0x9981));
    assert_eq!(parse_usb_id("0XfF"), Ok(0xff));
    assert_eq!(parse_usb_id("+7"), Ok(7));
    for refused in ["65536", "", "ff", "-1", "1_0", "+"] {
        let reason = refused.parse::<u16>().unwrap_err().to_string();
        assert_eq!(parse_usb_id(refused), Err(reason));
    }
    let reason = u16::from_str_radix("", 16).unwrap_err().to_string();
    assert_eq!(parse_usb_id("0x"), Err(reason));
}

#[test]
fn a_server_ends_when_it_has_been_idle_for_long_enough() {
    let mut service = LocalService::new(100, 0);
    assert!(matches!(
        service.accepted(Accept::Client, 0, 10),
        ServiceStep::Serve
    ));
    assert!(matches!(
        service.accepted(Accept::WouldBlock, 1, 150),
        ServiceStep::Sleep(25)
    ));
    assert!(matches!(
        service.accepted(Accept::WouldBlock, 0, 249),
        ServiceStep::Sleep(25)
    ));
    assert!(matches!(
        service.accepted(Accept::WouldBlock, 0, 250),
        ServiceStep::Exit
    ));
    match service.accepted(Accept::Failed("denied".to_owned()), 0, 250) {
        ServiceStep::Fail(message) => assert_eq!(message, "local server accept failed: denied"),
        other => panic!("unexpected {other:?}"),
    }
}
