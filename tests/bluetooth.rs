use govee_ble::bluetooth::{
    fmt_addr, AddressKind, DeviceAddress, HomeDeviceFilter, INDOOR_SENSOR, OUTDOOR_SENSOR,
};

#[test]
fn bluetooth_test_fmt_addr() {
    let addr = [0x24, 0xBE, 0x59, 0x38, 0xC1, 0xA4];
    let mut buf = [0; 12 + 5];
    let addr_str = fmt_addr(&addr, &mut buf);
    assert_eq!(addr_str, "A4:C1:38:59:BE:24");
}

#[test]
fn scanner_test_fmt_addr() {
    let addr = [0x24, 0xBE, 0x59, 0x38, 0xC1, 0xA4];
    let mut buf = [0; 12 + 5];
    let addr_str = fmt_addr(&addr, &mut buf);
    assert_eq!(addr_str, "A4:C1:38:59:BE:24");
}

#[test]
fn fmt_addr_fills_buffer() {
    let addr = [0x4E, 0xEC, 0x50, 0x3C, 0x37, 0xE3];
    let mut buf = [0; 17];
    let addr_str = fmt_addr(&addr, &mut buf);
    assert_eq!(addr_str, "E3:37:3C:50:EC:4E");
    assert_eq!(&buf, b"E3:37:3C:50:EC:4E");
}

#[test]
fn fmt_addr_overwrites_previous_content() {
    let addr = [0x00, 0x01, 0x0A, 0x10, 0xA0, 0xFF];
    let mut buf = [b'x'; 17];
    let addr_str = fmt_addr(&addr, &mut buf);
    assert_eq!(addr_str, "FF:A0:10:0A:01:00");
}

#[test]
fn home_filter_accepts_the_two_sensors() {
    let filter = HomeDeviceFilter;
    for bytes in [INDOOR_SENSOR, OUTDOOR_SENSOR] {
        let address = DeviceAddress {
            bytes,
            kind: AddressKind::Public,
        };
        assert!(filter.matches(&address));
    }
}

#[test]
fn home_filter_rejects_other_devices() {
    let filter = HomeDeviceFilter;
    let random = DeviceAddress {
        bytes: INDOOR_SENSOR,
        kind: AddressKind::Random,
    };
    assert!(!filter.matches(&random));
    let other = DeviceAddress {
        bytes: [0x24, 0xBE, 0x59, 0x38, 0xC1, 0xA5],
        kind: AddressKind::Public,
    };
    assert!(!filter.matches(&other));
    let reversed = DeviceAddress {
        bytes: [0xA4, 0xC1, 0x38, 0x59, 0xBE, 0x24],
        kind: AddressKind::Public,
    };
    assert!(!filter.matches(&reversed));
}
