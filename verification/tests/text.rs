use gatekeeper_nfc::text::{connection_string, take_owned};
use gatekeeper_nfc::{OpenError, Release, GATEKEEPER_ADDRESS, NULL};

#[test]
fn gatekeeper_address_names_the_uart_reader() {
    assert_eq!(GATEKEEPER_ADDRESS, "pn532_uart:/dev/ttyUSB0");
}

#[test]
fn gatekeeper_address_becomes_a_c_string() {
    assert_eq!(
        connection_string(GATEKEEPER_ADDRESS).unwrap(),
        b"pn532_uart:/dev/ttyUSB0\0".to_vec()
    );
}

#[test]
fn connection_string_ends_with_one_zero() {
    let bytes = connection_string("pn532_i2c:/dev/i2c-1").unwrap();
    assert_eq!(bytes.len(), 21);
    assert_eq!(bytes.last(), Some(&0));
    assert_eq!(bytes.iter().filter(|b| **b == 0).count(), 1);
    assert_eq!(&bytes[..20], b"pn532_i2c:/dev/i2c-1");
}

#[test]
fn connection_string_of_the_empty_address_is_the_empty_c_string() {
    assert_eq!(connection_string("").unwrap(), vec![0]);
}

#[test]
fn connection_string_keeps_an_address_of_any_shape() {
    assert_eq!(connection_string("no colon here").unwrap(), b"no colon here\0".to_vec());
    assert_eq!(connection_string(":").unwrap(), b":\0".to_vec());
    assert_eq!(connection_string("ü:/dev/tty€").unwrap(), "ü:/dev/tty€\0".as_bytes().to_vec());
}

#[test]
fn address_with_a_zero_byte_is_an_open_error() {
    assert_eq!(connection_string("pn532_uart:\0/dev/ttyUSB0").unwrap_err(), OpenError);
    assert_eq!(connection_string("\0").unwrap_err(), OpenError);
    assert_eq!(connection_string("pn532_uart:/dev/ttyUSB0\0").unwrap_err(), OpenError);
}

#[test]
fn owned_text_comes_with_the_release_of_its_allocation() {
    assert_eq!(
        take_owned(0x5000, String::from("04a1b2c3")),
        (Some(String::from("04a1b2c3")), Some(Release::FreeText { text: 0x5000 }))
    );
}

#[test]
fn owned_text_that_is_empty_is_released_too() {
    assert_eq!(
        take_owned(0x5000, String::new()),
        (Some(String::new()), Some(Release::FreeText { text: 0x5000 }))
    );
}

#[test]
fn no_text_and_no_release_where_the_driver_returned_null() {
    assert_eq!(take_owned(NULL, String::from("ignored")), (None, None));
}
