use ibc_handshake::digest::{derive_channel_identifier, derive_name};
use ibc_handshake::validation::ValidationError;

#[test]
fn derive_yields_32_bytes() {
    let d = ibc_handshake::digest::derive(b"appia-connection");
    assert_eq!(d.as_bytes().len(), 32);
}

#[test]
fn derive_is_deterministic() {
    let first = ibc_handshake::digest::derive(b"appia-channel");
    let second = ibc_handshake::digest::derive(b"appia-channel");
    assert_eq!(first.as_bytes(), second.as_bytes());
}

#[test]
fn derive_distinguishes_known_names() {
    let appia = ibc_handshake::digest::derive(b"appia-channel");
    let flaminia = ibc_handshake::digest::derive(b"flaminia-channel");
    assert_ne!(appia.as_bytes(), flaminia.as_bytes());
}

#[test]
fn derive_name_matches_derive_on_bytes() {
    assert_eq!(
        derive_name("appia-connection").as_bytes(),
        ibc_handshake::digest::derive(b"appia-connection").as_bytes()
    );
}

#[test]
fn derive_matches_known_test_vector() {
    // Blake2b with a 32-byte output over "abc".
    let expected = hex::decode("bddd813c634239723171ef3fee98579b94964e3bb1cb3e427262c8c068d52319")
        .unwrap();
    assert_eq!(ibc_handshake::digest::derive(b"abc").as_bytes(), &expected);
}

#[test]
fn derive_empty_input_known_test_vector() {
    // Blake2b with a 32-byte output over the empty input.
    let expected = hex::decode("0e5751c026e543b2e8ab2eb06099daa1d1e5df47778f7787faab45cdf12fe3a8")
        .unwrap();
    assert_eq!(ibc_handshake::digest::derive(b"").as_bytes(), &expected);
}

#[test]
fn derive_channel_identifier_validates_first() {
    let ok = derive_channel_identifier("appia-channel").unwrap();
    assert_eq!(ok.as_bytes(), ibc_handshake::digest::derive(b"appia-channel").as_bytes());
    assert_eq!(
        derive_channel_identifier("short"),
        Err(ValidationError::InvalidLength {
            length: 5,
            min: 10,
            max: 64
        })
    );
    assert_eq!(
        derive_channel_identifier("no/slashes-allowed"),
        Err(ValidationError::ContainsSeparator)
    );
}
