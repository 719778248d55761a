use solana_program::pubkey::Pubkey;
use venture_launch_dao::address::{
    derive_multisig_address, derive_program_config_address, derive_proposal_address,
    derive_transaction_address, derive_vault_address, Address,
};

fn key(byte: u8) -> Address {
    Address::from_bytes([byte; 32])
}

fn pubkey(a: &Address) -> Pubkey {
    Pubkey::new_from_array(a.bytes)
}

#[test]
fn derivation_is_repeatable() {
    let create_key = key(7);
    let first = derive_multisig_address(&create_key).unwrap();
    let second = derive_multisig_address(&create_key).unwrap();
    assert_eq!(first, second);
    assert_eq!(derive_vault_address(&first, 0).unwrap(), derive_vault_address(&second, 0).unwrap());
    assert_eq!(derive_program_config_address().unwrap(), derive_program_config_address().unwrap());
    assert_eq!(derive_proposal_address(&first, 3).unwrap(), derive_proposal_address(&second, 3).unwrap());
    assert_eq!(derive_transaction_address(&first, 3).unwrap(), derive_transaction_address(&second, 3).unwrap());
    assert_ne!(derive_multisig_address(&key(8)).unwrap(), first);
    assert_ne!(derive_proposal_address(&first, 3).unwrap(), derive_proposal_address(&first, 4).unwrap());
    assert_ne!(derive_proposal_address(&first, 3).unwrap(), derive_transaction_address(&first, 3).unwrap());
}

#[test]
fn derivation_follows_the_program_seeds() {
    let program = squads_multisig_program::ID;
    let create_key = key(9);
    let multisig = derive_multisig_address(&create_key).unwrap();
    let (expected, _) = Pubkey::find_program_address(&[b"multisig", b"multisig", &create_key.bytes], &program);
    assert_eq!(pubkey(&multisig), expected);

    let (expected, _) = Pubkey::find_program_address(&[b"multisig", &multisig.bytes, b"vault", &[0u8]], &program);
    assert_eq!(pubkey(&derive_vault_address(&multisig, 0).unwrap()), expected);

    let (expected, _) = Pubkey::find_program_address(&[b"multisig", b"program_config"], &program);
    assert_eq!(pubkey(&derive_program_config_address().unwrap()), expected);

    let index: u64 = 0x0102_0304_0506_0708;
    let (expected, _) = Pubkey::find_program_address(
        &[b"multisig", &multisig.bytes, b"transaction", &index.to_le_bytes()],
        &program,
    );
    assert_eq!(pubkey(&derive_transaction_address(&multisig, index).unwrap()), expected);

    let (expected, _) = Pubkey::find_program_address(
        &[b"multisig", &multisig.bytes, b"transaction", &index.to_le_bytes(), b"proposal"],
        &program,
    );
    assert_eq!(pubkey(&derive_proposal_address(&multisig, index).unwrap()), expected);
}

#[test]
fn addresses_compare_by_bytes() {
    assert!(key(1).same(&key(1)));
    assert!(!key(1).same(&key(2)));
    let mut bytes = [5u8; 32];
    bytes[31] = 6;
    assert!(!key(5).same(&Address::from_bytes(bytes)));
}
