use token_manager::keys::{parse_master_key, MasterKeyError};

fn digits(count: usize) -> String {
    "0123456789abcdefABCDEF".chars().cycle().take(count).collect()
}

fn error_of(text: &str) -> Option<MasterKeyError> {
    parse_master_key(text).err()
}

#[test]
fn key_file_is_split() {
    let bytes: Vec<u8> = (0..96).collect();
    let keys = match parse_master_key(&hex::encode(&bytes)) {
        Ok(keys) => keys,
        Err(error) => panic!("{}", error.message()),
    };
    assert_eq!(&keys.file_key[..], &bytes[..32]);
    assert_eq!(&keys.cookie_key[..], &bytes[32..]);
}

#[test]
fn digits_of_both_cases_are_read() {
    let text = format!("aFAf09{}", "0".repeat(186));
    let keys = match parse_master_key(&text) {
        Ok(keys) => keys,
        Err(error) => panic!("{}", error.message()),
    };
    assert_eq!(keys.file_key[0], 0xaf);
    assert_eq!(keys.file_key[1], 0xaf);
    assert_eq!(keys.file_key[2], 0x09);
}

#[test]
fn white_space_around_the_digits_is_ignored() {
    let text = format!(" \t\u{a0}{}\r\n\u{2003}", "11".repeat(96));
    let keys = match parse_master_key(&text) {
        Ok(keys) => keys,
        Err(error) => panic!("{}", error.message()),
    };
    assert_eq!(keys.file_key, [0x11; 32]);
    assert_eq!(keys.cookie_key, [0x11; 64]);
}

#[test]
fn other_characters_are_refused() {
    assert_eq!(error_of(&"gg".repeat(96)), Some(MasterKeyError::NotHex));
    assert_eq!(error_of(&format!("{} {}", digits(96), digits(96))), Some(MasterKeyError::NotHex));
    assert_eq!(error_of(&"\u{e9}".repeat(96)), Some(MasterKeyError::NotHex));
}

#[test]
fn odd_number_of_digits_is_refused() {
    assert_eq!(error_of(&digits(191)), Some(MasterKeyError::NotHex));
    assert_eq!(error_of(&digits(193)), Some(MasterKeyError::NotHex));
}

#[test]
fn other_lengths_are_refused() {
    assert_eq!(error_of(""), Some(MasterKeyError::WrongLength));
    assert_eq!(error_of("  "), Some(MasterKeyError::WrongLength));
    assert_eq!(error_of(&digits(190)), Some(MasterKeyError::WrongLength));
    assert_eq!(error_of(&digits(194)), Some(MasterKeyError::WrongLength));
}

#[test]
fn key_errors_have_messages() {
    assert_eq!(MasterKeyError::NotHex.message(), "encryption.key should be hex digits");
    assert_eq!(
        MasterKeyError::WrongLength.message(),
        "encryption.key should be exactly 96 bytes (192 hex chars)"
    );
}
