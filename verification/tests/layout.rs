use hello_sonic_world::account::{GreetingAccount, ACCOUNT_LEN, PREFIX_LEN};
use hello_sonic_world::error::GreetingError;
use hello_sonic_world::pubkey::Pubkey;

fn sample() -> GreetingAccount {
    let mut bytes = [0u8; 32];
    for (i, byte) in bytes.iter_mut().enumerate() {
        *byte = 100 + i as u8;
    }
    GreetingAccount { counter: 0x0403_0201, user: Pubkey::new_from_array(bytes), bump: 254 }
}

#[test]
fn record_is_stored_as_prefix_counter_user_bump() {
    let data = sample().serialize(&[9, 8, 7, 6]);
    assert_eq!(data.len(), ACCOUNT_LEN);
    assert_eq!(ACCOUNT_LEN, PREFIX_LEN + 4 + 32 + 1);
    assert_eq!(&data[..4], &[9, 8, 7, 6]);
    assert_eq!(&data[4..8], &[1, 2, 3, 4]);
    assert_eq!(&data[4..8], &0x0403_0201u32.to_le_bytes());
    for i in 0..32 {
        assert_eq!(data[8 + i], 100 + i as u8);
    }
    assert_eq!(data[40], 254);
}

#[test]
fn stored_record_is_read_back() {
    for counter in [0u32, 1, 255, 256, 65_535, 65_536, 16_777_216, u32::MAX] {
        let record = GreetingAccount { counter, ..sample() };
        let data = record.serialize(&[1, 2, 3, 4]);
        assert_eq!(GreetingAccount::deserialize(&data, &[1, 2, 3, 4]), Ok(record));
    }
}

#[test]
fn bytes_after_the_record_are_ignored() {
    let mut data = sample().serialize(&[1, 2, 3, 4]);
    data.extend_from_slice(&[0xAA; 7]);
    assert_eq!(GreetingAccount::deserialize(&data, &[1, 2, 3, 4]), Ok(sample()));
}

#[test]
fn bytes_shorter_than_the_prefix_are_refused() {
    for len in 0..4 {
        let data = vec![1u8; len];
        assert_eq!(
            GreetingAccount::deserialize(&data, &[1, 1, 1, 1]),
            Err(GreetingError::AccountDiscriminatorNotFound)
        );
    }
}

#[test]
fn another_prefix_is_refused() {
    let data = sample().serialize(&[1, 2, 3, 4]);
    assert_eq!(
        GreetingAccount::deserialize(&data, &[1, 2, 3, 5]),
        Err(GreetingError::AccountDiscriminatorMismatch)
    );
    assert_eq!(
        GreetingAccount::deserialize(&[1, 2, 3, 4], &[0, 2, 3, 4]),
        Err(GreetingError::AccountDiscriminatorMismatch)
    );
}

#[test]
fn a_cut_record_is_refused() {
    let data = sample().serialize(&[1, 2, 3, 4]);
    for len in 4..41 {
        assert_eq!(
            GreetingAccount::deserialize(&data[..len], &[1, 2, 3, 4]),
            Err(GreetingError::AccountDidNotDeserialize)
        );
    }
}

#[test]
fn fresh_storage_reads_as_the_default_record() {
    let record = GreetingAccount::default();
    assert_eq!(record, GreetingAccount { counter: 0, user: Pubkey::new_from_array([0; 32]), bump: 0 });
    assert_eq!(record.serialize(&[0; 4]), vec![0u8; 41]);
    assert_eq!(GreetingAccount::deserialize(&[0u8; 41], &[0; 4]), Ok(record));
}

#[test]
fn keys_are_equal_when_their_bytes_are() {
    let mut bytes = [3u8; 32];
    assert_eq!(Pubkey::new_from_array(bytes), Pubkey::new_from_array([3u8; 32]));
    assert_eq!(Pubkey::new_from_array(bytes).to_bytes(), bytes);
    bytes[31] = 4;
    assert_ne!(Pubkey::new_from_array(bytes), Pubkey::new_from_array([3u8; 32]));
    bytes[31] = 3;
    bytes[0] = 4;
    assert_ne!(Pubkey::new_from_array(bytes), Pubkey::new_from_array([3u8; 32]));
    assert_eq!(Pubkey::default(), Pubkey::new_from_array([0u8; 32]));
}

#[test]
fn records_differ_when_a_field_does() {
    let record = sample();
    assert_ne!(record, GreetingAccount { counter: 5, ..record });
    assert_ne!(record, GreetingAccount { bump: 5, ..record });
    assert_ne!(record, GreetingAccount { user: Pubkey::default(), ..record });
}
