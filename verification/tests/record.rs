use token_escrow::address::Address;
use token_escrow::record::{
    EscrowRecord, DISCRIMINATOR_SIZE, ESCROW_STATE_SIZE, MINT_SIZE, PRICE_SIZE, SELLER_SIZE,
};

#[test]
fn record_takes_eighty_bytes() {
    assert_eq!(DISCRIMINATOR_SIZE, 8);
    assert_eq!(SELLER_SIZE, 32);
    assert_eq!(MINT_SIZE, 32);
    assert_eq!(PRICE_SIZE, 8);
    assert_eq!(ESCROW_STATE_SIZE, 80);
}

#[test]
fn record_is_laid_out_field_by_field() {
    let record = EscrowRecord {
        tag: [1, 2, 3, 4, 5, 6, 7, 8],
        seller: Address::new([0x11; 32]),
        asset_id: Address::new([0x22; 32]),
        price: 500,
    };
    let data = record.to_bytes();
    assert_eq!(data.len(), 80);
    assert_eq!(&data[..8], &[1, 2, 3, 4, 5, 6, 7, 8]);
    assert_eq!(&data[8..40], &[0x11; 32]);
    assert_eq!(&data[40..72], &[0x22; 32]);
    assert_eq!(&data[72..], &[0xF4, 1, 0, 0, 0, 0, 0, 0]);
    assert_eq!(EscrowRecord::from_bytes(&data), Some(record));
}

#[test]
fn zeroed_account_data_reads_as_the_zero_record() {
    let record = EscrowRecord::from_bytes(&[0u8; 80]).unwrap();
    assert_eq!(
        record,
        EscrowRecord {
            tag: [0; 8],
            seller: Address::new([0; 32]),
            asset_id: Address::new([0; 32]),
            price: 0,
        }
    );
}

#[test]
fn data_of_another_length_is_no_record() {
    assert_eq!(EscrowRecord::from_bytes(&[]), None);
    assert_eq!(EscrowRecord::from_bytes(&[0u8; 79]), None);
    assert_eq!(EscrowRecord::from_bytes(&[0u8; 81]), None);
}

#[test]
fn record_round_trips_from_bytes() {
    let data: Vec<u8> = (0..80u32).map(|i| (i * 3 + 1) as u8).collect();
    let record = EscrowRecord::from_bytes(&data).unwrap();
    assert_eq!(record.to_bytes(), data);
    assert_eq!(record.price, u64::from_le_bytes(data[72..80].try_into().unwrap()));
}
