use bt_magic::{BtAddress, DeviceData, DeviceInfo};

fn device(name: &str, address: [u8; 6]) -> DeviceInfo {
    DeviceInfo { name: name.to_string(), address, connected: false }
}

#[test]
fn address_text_most_significant_byte_first() {
    let s = BtAddress::bt_addr_to_string(&[0x5E, 0x4D, 0x3C, 0x2B, 0x1A, 0x00]);
    assert_eq!(s, "00:1A:2B:3C:4D:5E");
}

#[test]
fn address_text_of_reversed_bytes_is_forward_text() {
    let s = BtAddress::bt_addr_to_string(&[0x00, 0x1A, 0x2B, 0x3C, 0x4D, 0x5E]);
    assert_eq!(s, "5E:4D:3C:2B:1A:00");
}

#[test]
fn address_text_shape() {
    for raw in [[0u8; 6], [0xFF; 6], [0x01, 0x23, 0x45, 0x67, 0x89, 0xAB], [0xA0, 0x0B, 0xC1, 0xD2, 0xE3, 0xF4]] {
        let s = BtAddress::bt_addr_to_string(&raw);
        assert_eq!(s.len(), 17);
        for (i, c) in s.chars().enumerate() {
            if i % 3 == 2 {
                assert_eq!(c, ':');
            } else {
                assert!(c.is_ascii_digit() || ('A'..='F').contains(&c));
            }
        }
    }
    assert_eq!(BtAddress::bt_addr_to_string(&[0xFF; 6]), "FF:FF:FF:FF:FF:FF");
    assert_eq!(BtAddress::bt_addr_to_string(&[0u8; 6]), "00:00:00:00:00:00");
    assert_eq!(
        BtAddress::bt_addr_to_string(&[0xA0, 0x0B, 0xC1, 0xD2, 0xE3, 0xF4]),
        "F4:E3:D2:C1:0B:A0"
    );
}

#[test]
fn address_new_keeps_raw_and_text() {
    let d = device("headset", [0x5E, 0x4D, 0x3C, 0x2B, 0x1A, 0x00]);
    let a = BtAddress::new(&d);
    assert_eq!(a.raw, [0x5E, 0x4D, 0x3C, 0x2B, 0x1A, 0x00]);
    assert_eq!(a.str, "00:1A:2B:3C:4D:5E");
}

#[test]
fn address_value_is_little_endian() {
    let d = device("headset", [0x5E, 0x4D, 0x3C, 0x2B, 0x1A, 0x00]);
    assert_eq!(BtAddress::new(&d).value(), 0x0000_001A_2B3C_4D5E);
    let d = device("max", [0xFF; 6]);
    assert_eq!(BtAddress::new(&d).value(), 0x0000_FFFF_FFFF_FFFF);
}

#[test]
fn device_data_from_device() {
    let d = device("keyboard", [1, 2, 3, 4, 5, 6]);
    let data = DeviceData::from_device(&d);
    assert_eq!(data.name, "keyboard");
    assert_eq!(data.address.raw, [1, 2, 3, 4, 5, 6]);
    assert_eq!(data.address.str, "06:05:04:03:02:01");
}
