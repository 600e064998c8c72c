use cli_wallet::error::{Error, HexError};
use cli_wallet::types::{NftId, TokenId};

#[test]
fn token_id_from_valid_hex() {
    let s = "0x08e3a2f76cc934bc0cc21575b4610c1d7d4eb589ae0100000000000000000000000000000000";
    let t = TokenId::parse(s).unwrap();
    assert_eq!(t.bytes.len(), 38);
    assert_eq!(t.bytes[0], 0x08);
    assert_eq!(t.bytes[1], 0xe3);
    assert_eq!(t.bytes[37], 0x00);
}

#[test]
fn token_id_wrong_length() {
    let s = "0x08e3a2f76cc934bc0cc21575b4610c1d7d4eb589ae01000000000000000000000000000000";
    assert_eq!(
        TokenId::parse(s),
        Err(Error::InvalidIdLength { expected: 38, actual: 37 })
    );
}

#[test]
fn token_id_missing_prefix() {
    let s = "08e3a2f76cc934bc0cc21575b4610c1d7d4eb589ae0100000000000000000000000000000000";
    assert_eq!(
        TokenId::parse(s),
        Err(Error::Hex(HexError::InvalidPrefix { c0: '0', c1: '8' }))
    );
}

#[test]
fn token_id_bad_digit() {
    let s = "0xzze3a2f76cc934bc0cc21575b4610c1d7d4eb589ae0100000000000000000000000000000000";
    assert_eq!(
        TokenId::parse(s),
        Err(Error::Hex(HexError::InvalidHexCharacter { c: 'z', index: 0 }))
    );
}

#[test]
fn token_id_bad_digit_after_good_ones() {
    let s = "0xabzz";
    assert_eq!(
        TokenId::parse(s),
        Err(Error::Hex(HexError::InvalidHexCharacter { c: 'z', index: 2 }))
    );
}

#[test]
fn token_id_odd_digit_count() {
    assert_eq!(TokenId::parse("0x123"), Err(Error::Hex(HexError::OddLength)));
}

#[test]
fn token_id_too_short_for_prefix() {
    assert_eq!(TokenId::parse("0"), Err(Error::Hex(HexError::InvalidStringLength)));
}

#[test]
fn single_multi_byte_character_is_rejected_without_panic() {
    let s = char::from_u32(0x00A2).unwrap().to_string();
    assert_eq!(s.len(), 2);
    assert_eq!(
        TokenId::parse(&s),
        Err(Error::Hex(HexError::InvalidStringLength))
    );
}

#[test]
fn token_id_upper_case_digits() {
    let s = "0x08E3A2F76CC934BC0CC21575B4610C1D7D4EB589AE0100000000000000000000000000000000";
    let t = TokenId::parse(s).unwrap();
    assert_eq!(t.bytes[1], 0xe3);
}

#[test]
fn nft_id_from_valid_hex() {
    let s = "0x0102030405060708090a0b0c0d0e0f101112131415161718191a1b1c1d1e1f20";
    let n = NftId::parse(s).unwrap();
    assert_eq!(n.bytes.len(), 32);
    assert_eq!(n.bytes[0], 0x01);
    assert_eq!(n.bytes[31], 0x20);
}

#[test]
fn nft_id_wrong_length() {
    let s = "0x0102030405060708090a0b0c0d0e0f101112131415161718191a1b1c1d1e1f";
    assert_eq!(
        NftId::parse(s),
        Err(Error::InvalidIdLength { expected: 32, actual: 31 })
    );
}

#[test]
fn nft_id_empty_string() {
    assert_eq!(NftId::parse(""), Err(Error::Hex(HexError::InvalidStringLength)));
}
