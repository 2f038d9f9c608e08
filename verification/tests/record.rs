//! Pool state record: packed layout, round trip, and rejection of buffers
//! of the wrong size.

use simple_token_pool::addr::Address;
use simple_token_pool::error::PoolError;
use simple_token_pool::state::{decode_record, encode_record, PoolData, RECORD_LEN};

fn addr(n: u8) -> Address {
    Address::new([n; 32])
}

fn sample_record() -> PoolData {
    PoolData {
        version: PoolData::CURRENT_VERSION,
        authority: addr(10),
        bump_seed: 254,
        bank_mint: addr(11),
        pool_mint: addr(12),
        bank: addr(13),
    }
}

#[test]
fn record_packs_to_fixed_length() {
    let bytes = encode_record(&sample_record());
    assert_eq!(bytes.len(), RECORD_LEN);
    assert_eq!(bytes[0], PoolData::CURRENT_VERSION);
    assert_eq!(bytes[1..33], [10u8; 32]);
    assert_eq!(bytes[33], 254);
    assert_eq!(bytes[34..66], [11u8; 32]);
    assert_eq!(bytes[66..98], [12u8; 32]);
    assert_eq!(bytes[98..130], [13u8; 32]);
}

#[test]
fn record_round_trip() {
    let record = sample_record();
    let bytes = encode_record(&record);
    assert_eq!(decode_record(&bytes), Ok(record));
}

#[test]
fn record_rejects_wrong_length() {
    assert_eq!(decode_record(&vec![]), Err(PoolError::InvalidAccountData));
    assert_eq!(decode_record(&vec![0u8; RECORD_LEN - 1]), Err(PoolError::InvalidAccountData));
    assert_eq!(decode_record(&vec![0u8; RECORD_LEN + 1]), Err(PoolError::InvalidAccountData));
}

#[test]
fn address_from_bytes_checks_length() {
    assert_eq!(Address::from_bytes(&vec![10u8; 32]), Some(addr(10)));
    assert_eq!(Address::from_bytes(&vec![10u8; 31]), None);
    assert_eq!(Address::from_bytes(&vec![10u8; 33]), None);
}

#[test]
fn zeroed_record_is_uninitialized() {
    let record = decode_record(&vec![0u8; RECORD_LEN]).unwrap();
    assert_eq!(record.version, 0);
    assert!(!record.is_initialized());
    assert!(sample_record().is_initialized());
}
