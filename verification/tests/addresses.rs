use ble_sniffer::mac::{get_mac_bytes_str, mac_is_recorded, same_mac};

#[test]
fn address_text_is_upper_case_hex_with_colons() {
    assert_eq!(
        get_mac_bytes_str([0x66, 0x55, 0x44, 0x33, 0x22, 0x11]),
        "66:55:44:33:22:11"
    );
    assert_eq!(
        get_mac_bytes_str([0x00, 0x0A, 0xB0, 0xFF, 0x9C, 0xDE]),
        "00:0A:B0:FF:9C:DE"
    );
}

#[test]
fn address_text_of_zero_address() {
    assert_eq!(get_mac_bytes_str([0; 6]), "00:00:00:00:00:00");
}

#[test]
fn recorded_address_is_found() {
    let recorded: Vec<[u8; 6]> = vec![[1, 2, 3, 4, 5, 6], [6, 5, 4, 3, 2, 1]];
    assert!(mac_is_recorded(&recorded, &[6, 5, 4, 3, 2, 1]));
    assert!(mac_is_recorded(&recorded, &[1, 2, 3, 4, 5, 6]));
}

#[test]
fn address_that_differs_in_one_byte_is_not_found() {
    let recorded: Vec<[u8; 6]> = vec![[1, 2, 3, 4, 5, 6], [6, 5, 4, 3, 2, 1]];
    assert!(!mac_is_recorded(&recorded, &[1, 2, 3, 4, 5, 7]));
    assert!(!mac_is_recorded(&recorded, &[0, 2, 3, 4, 5, 6]));
    assert!(!mac_is_recorded(&Vec::new(), &[1, 2, 3, 4, 5, 6]));
}

#[test]
fn same_mac_compares_all_six_bytes() {
    assert!(same_mac(&[9, 8, 7, 6, 5, 4], &[9, 8, 7, 6, 5, 4]));
    assert!(!same_mac(&[9, 8, 7, 6, 5, 4], &[9, 8, 7, 6, 5, 5]));
}
