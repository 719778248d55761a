use solana_program::pubkey::Pubkey;
use squads_multisig_program::anchor_lang::{AccountSerialize, AnchorDeserialize};
use venture_launch_dao::address::{derive_transaction_address, Address};
use venture_launch_dao::business_analyst::{BusinessAnalystMultisig, BusinessAnalystMultisigCreateArgs};
use venture_launch_dao::state::{Member, Permission, Permissions};
use venture_launch_dao::vault_message::compile_transfer_message;

fn key(byte: u8) -> Address {
    Address::from_bytes([byte; 32])
}

fn pubkey(a: &Address) -> Pubkey {
    Pubkey::new_from_array(a.bytes)
}

fn admin(creator: &Address) -> BusinessAnalystMultisig {
    let config = squads_multisig_program::state::ProgramConfig {
        authority: pubkey(&key(40)),
        multisig_creation_fee: 0,
        treasury: pubkey(&key(50)),
        _reserved: [0u8; 64],
    };
    let mut data = Vec::new();
    config.try_serialize(&mut data).unwrap();
    let args = BusinessAnalystMultisigCreateArgs { multisig_create_key: key(1), creator: *creator };
    BusinessAnalystMultisig::new(args, &Some(data)).unwrap()
}

fn multisig_account(transaction_index: u64) -> Option<Vec<u8>> {
    let multisig = squads_multisig_program::Multisig {
        create_key: pubkey(&key(1)),
        config_authority: Pubkey::default(),
        threshold: 1,
        time_lock: 0,
        transaction_index,
        stale_transaction_index: 0,
        rent_collector: None,
        bump: 255,
        members: vec![squads_multisig_program::Member {
            key: pubkey(&key(2)),
            permissions: squads_multisig_program::Permissions { mask: 7 },
        }],
    };
    let mut data = Vec::new();
    multisig.try_serialize(&mut data).unwrap();
    Some(data)
}

fn create_args(ix: &venture_launch_dao::instruction::Instruction) -> squads_multisig_program::MultisigCreateArgsV2 {
    squads_multisig_program::MultisigCreateArgsV2::try_from_slice(&ix.data[8..]).unwrap()
}

#[test]
fn create_multisig_with_no_members_has_the_creator() {
    let multisig = admin(&key(2));
    let ix = multisig.instruction_create_multisig(&[], 1, 0);
    let args = create_args(&ix);
    assert_eq!(args.members.len(), 1);
    assert_eq!(args.members[0].key, pubkey(&key(2)));
    assert_eq!(args.members[0].permissions.mask, 7);
    assert_eq!(args.threshold, 1);
    assert_eq!(args.memo.as_deref(), Some("Deploy my own Squad"));
    assert!(args.config_authority.is_none());
    assert_eq!(ix.program_id.bytes, squads_multisig_program::ID.to_bytes());
    assert_eq!(pubkey(&ix.program_id).to_string(), "SQDS4ep65T869zMMBKyuUq6aD6EgTu8psMjkvj52pCf");
    assert!(ix.accounts.iter().any(|m| m.pubkey == multisig.accounts.treasury));
}

#[test]
fn create_multisig_does_not_repeat_the_creator() {
    let multisig = admin(&key(2));
    let voter = Member { key: key(3), permissions: Permissions::from_vec(&[Permission::Vote]) };
    let creator_as_voter = Member { key: key(2), permissions: Permissions::from_vec(&[Permission::Vote]) };
    let ix = multisig.instruction_create_multisig(&[voter, creator_as_voter], 1, 0);
    let args = create_args(&ix);
    assert_eq!(args.members.len(), 2);
    assert_eq!(args.members[1].permissions.mask, 2);

    let ix = multisig.instruction_create_multisig(&[voter], 1, 60);
    let args = create_args(&ix);
    assert_eq!(args.members.len(), 2);
    assert_eq!(args.members[1].key, pubkey(&key(2)));
    assert_eq!(args.time_lock, 60);
}

#[test]
fn permissions_masks() {
    assert_eq!(Permissions::from_vec(&[]).mask, 0);
    assert_eq!(Permissions::from_vec(&[Permission::Initiate, Permission::Vote, Permission::Execute]).mask, 7);
    assert_eq!(Permissions::from_vec(&[Permission::Vote, Permission::Vote]).mask, 2);
    let p = Permissions::from_vec(&[Permission::Execute]);
    assert!(p.has(Permission::Execute));
    assert!(!p.has(Permission::Vote));
    assert_eq!(Permissions::full().mask, 7);
}

#[test]
fn config_actions_and_memos() {
    let multisig = admin(&key(2));
    let pda = pubkey(&multisig.accounts.multisig_pda);
    let account = multisig_account(0);

    let ix = multisig.instruction_change_threshold(key(2), 2, &account).unwrap();
    let args = squads_multisig_program::ConfigTransactionCreateArgs::try_from_slice(&ix.data[8..]).unwrap();
    assert!(args.actions == vec![squads_multisig_program::ConfigAction::ChangeThreshold { new_threshold: 2 }]);
    assert_eq!(args.memo, Some(format!("Changing threshold to 2 on multisig {}", pda)));

    let ix = multisig.instruction_change_threshold(key(2), 65535, &account).unwrap();
    let args = squads_multisig_program::ConfigTransactionCreateArgs::try_from_slice(&ix.data[8..]).unwrap();
    assert_eq!(args.memo, Some(format!("Changing threshold to 65535 on multisig {}", pda)));

    let new_member = Member { key: key(3), permissions: Permissions::from_vec(&[Permission::Vote]) };
    let ix = multisig.instructions_add_member(key(2), new_member, &account).unwrap();
    let args = squads_multisig_program::ConfigTransactionCreateArgs::try_from_slice(&ix.data[8..]).unwrap();
    assert!(
        args.actions
            == vec![squads_multisig_program::ConfigAction::AddMember {
            new_member: squads_multisig_program::Member {
                key: pubkey(&key(3)),
                permissions: squads_multisig_program::Permissions { mask: 2 },
            },
        }]
    );
    assert_eq!(args.memo, Some(format!("Add {} as member to multisig {}", pubkey(&key(3)), pda)));

    let ix = multisig.instructions_remove_member(key(2), key(3), &account).unwrap();
    let args = squads_multisig_program::ConfigTransactionCreateArgs::try_from_slice(&ix.data[8..]).unwrap();
    assert!(args.actions == vec![squads_multisig_program::ConfigAction::RemoveMember { old_member: pubkey(&key(3)) }]);
    assert_eq!(args.memo, Some(format!("Remove {} member from multisig {}", pubkey(&key(3)), pda)));
    let signer = ix.accounts.iter().find(|m| m.pubkey == key(2)).unwrap();
    assert!(signer.is_signer);
}

#[test]
fn transfer_message_layout() {
    let vault = key(10);
    let receiver = key(11);
    let message = compile_transfer_message(&vault, &receiver, 2_000_000_000);
    assert_eq!(message.account_keys, vec![vault, receiver, Address::from_bytes([0u8; 32])]);
    assert_eq!((message.num_signers, message.num_writable_signers, message.num_writable_non_signers), (1, 1, 1));
    assert_eq!(message.instructions.len(), 1);
    assert_eq!(message.instructions[0].program_id_index, 2);
    assert_eq!(message.instructions[0].account_indexes, vec![0, 1]);
    let mut data = vec![2u8, 0, 0, 0];
    data.extend_from_slice(&2_000_000_000u64.to_le_bytes());
    assert_eq!(message.instructions[0].data, data);

    let to_self = compile_transfer_message(&vault, &vault, 5);
    assert_eq!(to_self.account_keys.len(), 2);
    assert_eq!(to_self.instructions[0].account_indexes, vec![0, 0]);
    assert_eq!(to_self.num_writable_non_signers, 0);
}

#[test]
fn vault_transfer_create_and_execute_share_the_message() {
    let multisig = admin(&key(2));
    let vault = multisig.accounts.vault_pda;
    let receiver = key(12);
    let lamports: u64 = 1_000_000_000;

    let ix = multisig.instruction_transfer_from_vault(key(2), receiver, lamports, &multisig_account(0)).unwrap();
    let args = squads_multisig_program::VaultTransactionCreateArgs::try_from_slice(&ix.data[8..]).unwrap();
    assert_eq!(args.vault_index, 0);
    assert_eq!(args.ephemeral_signers, 0);
    assert_eq!(args.memo, Some(format!("Sending {} lamports from {} to {}", lamports, pubkey(&vault), pubkey(&receiver))));
    let stored = squads_multisig_program::TransactionMessage::deserialize(&mut &args.transaction_message[..]).unwrap();
    assert_eq!(stored.num_signers, 1);
    let keys: Vec<Pubkey> = stored.account_keys.into();
    assert_eq!(keys, vec![pubkey(&vault), pubkey(&receiver), solana_program::system_program::ID]);
    let transaction_1 = derive_transaction_address(&multisig.accounts.multisig_pda, 1).unwrap();
    assert!(ix.accounts.iter().any(|m| m.pubkey == transaction_1));

    let exec = multisig.instruction_vault_transaction_execute(key(2), receiver, lamports, &multisig_account(1)).unwrap();
    assert_eq!(exec.data, vec![194u8, 8, 161, 87, 153, 164, 25, 171]);
    let tail: Vec<_> = exec.accounts[exec.accounts.len() - 3..].to_vec();
    assert_eq!(tail[0].pubkey, vault);
    assert!(tail[0].is_writable && !tail[0].is_signer);
    assert_eq!(tail[1].pubkey, receiver);
    assert!(tail[1].is_writable);
    assert_eq!(tail[2].pubkey, Address::from_bytes([0u8; 32]));
    assert!(!tail[2].is_writable);
    assert!(exec.accounts.iter().any(|m| m.pubkey == transaction_1));
}

#[test]
fn config_execute_data_is_its_discriminator() {
    let multisig = admin(&key(2));
    let ix = multisig.instruction_config_transaction_execute(key(2), &multisig_account(1)).unwrap();
    assert_eq!(ix.data, vec![114u8, 146, 244, 189, 252, 140, 36, 40]);
    assert!(ix.accounts.iter().any(|m| m.pubkey == key(2) && m.is_signer));
}

fn metas(ix: &venture_launch_dao::instruction::Instruction) -> Vec<(Address, bool, bool)> {
    ix.accounts.iter().map(|m| (m.pubkey, m.is_signer, m.is_writable)).collect()
}

#[test]
fn account_lists_follow_the_program() {
    let multisig = admin(&key(2));
    let a = multisig.accounts;
    let system = Address::from_bytes([0u8; 32]);
    let member = key(2);

    let ix = multisig.instruction_create_multisig(&[], 1, 0);
    assert_eq!(
        metas(&ix),
        vec![
            (a.program_config_pda, false, false),
            (a.treasury, false, true),
            (a.multisig_pda, false, true),
            (a.create_key, true, false),
            (a.creator, true, true),
            (system, false, false),
        ]
    );

    let fresh = multisig_account(0);
    let transaction_1 = derive_transaction_address(&a.multisig_pda, 1).unwrap();
    let ix = multisig.instruction_change_threshold(member, 1, &fresh).unwrap();
    assert_eq!(
        metas(&ix),
        vec![
            (a.multisig_pda, false, true),
            (transaction_1, false, true),
            (member, true, false),
            (member, true, true),
            (system, false, false),
        ]
    );
    let ix = multisig.instruction_transfer_from_vault(member, key(12), 5, &fresh).unwrap();
    assert_eq!(
        metas(&ix),
        vec![
            (a.multisig_pda, false, true),
            (transaction_1, false, true),
            (member, true, false),
            (member, true, true),
            (system, false, false),
        ]
    );

    let created = multisig_account(1);
    let proposal_1 = venture_launch_dao::address::derive_proposal_address(&a.multisig_pda, 1).unwrap();
    let ix = multisig.instruction_proposal_create(member, &created).unwrap();
    assert_eq!(
        metas(&ix),
        vec![
            (a.multisig_pda, false, false),
            (proposal_1, false, true),
            (member, true, false),
            (member, true, true),
            (system, false, false),
        ]
    );
    let ix = multisig.instruction_proposal_approve(member, &created).unwrap();
    assert_eq!(metas(&ix), vec![(a.multisig_pda, false, false), (member, true, true), (proposal_1, false, true)]);

    let ix = multisig.instruction_config_transaction_execute(member, &created).unwrap();
    assert_eq!(
        metas(&ix),
        vec![
            (a.multisig_pda, false, true),
            (member, true, false),
            (proposal_1, false, true),
            (transaction_1, false, false),
            (member, true, true),
            (system, false, false),
        ]
    );

    let ix = multisig.instruction_vault_transaction_execute(member, key(12), 5, &created).unwrap();
    assert_eq!(
        metas(&ix)[..4].to_vec(),
        vec![
            (a.multisig_pda, false, false),
            (proposal_1, false, true),
            (transaction_1, false, false),
            (member, true, false),
        ]
    );
    assert_eq!(ix.accounts.len(), 7);
}

fn base58_by_hand(bytes: &[u8]) -> String {
    let alphabet = b"123456789ABCDEFGHJKLMNPQRSTUVWXYZabcdefghijkmnopqrstuvwxyz";
    let zeros = bytes.iter().take_while(|b| **b == 0).count();
    let mut number: Vec<u8> = bytes.to_vec();
    let mut digits: Vec<u8> = Vec::new();
    while number.iter().any(|b| *b != 0) {
        let mut remainder: u32 = 0;
        for b in number.iter_mut() {
            let value = remainder * 256 + *b as u32;
            *b = (value / 58) as u8;
            remainder = value % 58;
        }
        digits.push(alphabet[remainder as usize]);
    }
    let mut text = "1".repeat(zeros);
    text.extend(digits.iter().rev().map(|d| *d as char));
    text
}

#[test]
fn memos_write_addresses_in_base58() {
    let multisig = admin(&key(2));
    let mut bytes = [0u8; 32];
    bytes[2] = 1;
    bytes[31] = 200;
    let leading = Address::from_bytes(bytes);
    let ix = multisig.instructions_remove_member(key(2), leading, &multisig_account(0)).unwrap();
    let args = squads_multisig_program::ConfigTransactionCreateArgs::try_from_slice(&ix.data[8..]).unwrap();
    let expected = format!(
        "Remove {} member from multisig {}",
        base58_by_hand(&bytes),
        base58_by_hand(&multisig.accounts.multisig_pda.bytes)
    );
    assert_eq!(args.memo, Some(expected));
    assert!(base58_by_hand(&bytes).starts_with("11"));
    let ix = multisig.instructions_remove_member(key(2), Address::from_bytes([0u8; 32]), &multisig_account(0)).unwrap();
    let args = squads_multisig_program::ConfigTransactionCreateArgs::try_from_slice(&ix.data[8..]).unwrap();
    assert!(args.memo.unwrap().starts_with("Remove 11111111111111111111111111111111 member"));
}

#[test]
fn proposal_create_data_is_exact() {
    let multisig = admin(&key(2));
    let ix = multisig.instruction_proposal_create(key(2), &multisig_account(0x0102)).unwrap();
    assert_eq!(ix.data, vec![220u8, 60, 73, 224, 30, 108, 79, 159, 2, 1, 0, 0, 0, 0, 0, 0, 0]);
}

#[test]
fn transaction_message_bytes_are_exact() {
    let multisig = admin(&key(2));
    let vault = multisig.accounts.vault_pda;
    let receiver = key(12);
    let ix = multisig.instruction_transfer_from_vault(key(2), receiver, 0x0304, &multisig_account(0)).unwrap();
    let args = squads_multisig_program::VaultTransactionCreateArgs::try_from_slice(&ix.data[8..]).unwrap();
    let mut expected = vec![1u8, 1, 1, 3];
    expected.extend_from_slice(&vault.bytes);
    expected.extend_from_slice(&receiver.bytes);
    expected.extend_from_slice(&[0u8; 32]);
    expected.extend_from_slice(&[1, 2, 2, 0, 1, 12, 0]);
    expected.extend_from_slice(&[2, 0, 0, 0, 4, 3, 0, 0, 0, 0, 0, 0]);
    expected.push(0);
    assert_eq!(args.transaction_message, expected);
}
