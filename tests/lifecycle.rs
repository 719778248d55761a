use solana_program::pubkey::Pubkey;
use squads_multisig_program::anchor_lang::{AccountSerialize, AnchorDeserialize};
use venture_launch_dao::address::{derive_proposal_address, derive_transaction_address, Address};
use venture_launch_dao::business_analyst::{BusinessAnalystMultisig, BusinessAnalystMultisigCreateArgs};
use venture_launch_dao::error::{BusinessAnalystMultisigError, InvestorMultisigError};
use venture_launch_dao::investor::InvestorsMultisig;
use venture_launch_dao::state::{Member, Permission, Permissions, ProposalStatus};

fn key(byte: u8) -> Address {
    Address::from_bytes([byte; 32])
}

fn pubkey(a: &Address) -> Pubkey {
    Pubkey::new_from_array(a.bytes)
}

fn program_config_bytes(treasury: &Address) -> Vec<u8> {
    let config = squads_multisig_program::state::ProgramConfig {
        authority: pubkey(&key(40)),
        multisig_creation_fee: 0,
        treasury: pubkey(treasury),
        _reserved: [0u8; 64],
    };
    let mut data = Vec::new();
    config.try_serialize(&mut data).unwrap();
    data
}

fn multisig_bytes(create_key: &Address, transaction_index: u64, members: &[(Address, u8)], threshold: u16) -> Vec<u8> {
    let multisig = squads_multisig_program::Multisig {
        create_key: pubkey(create_key),
        config_authority: Pubkey::default(),
        threshold,
        time_lock: 0,
        transaction_index,
        stale_transaction_index: 0,
        rent_collector: None,
        bump: 255,
        members: members
            .iter()
            .map(|(k, mask)| squads_multisig_program::Member {
                key: pubkey(k),
                permissions: squads_multisig_program::Permissions { mask: *mask },
            })
            .collect(),
    };
    let mut data = Vec::new();
    multisig.try_serialize(&mut data).unwrap();
    data
}

fn proposal_bytes(multisig: &Address, transaction_index: u64, status: squads_multisig_program::ProposalStatus) -> Vec<u8> {
    let proposal = squads_multisig_program::Proposal {
        multisig: pubkey(multisig),
        transaction_index,
        status,
        bump: 255,
        approved: vec![],
        rejected: vec![],
        cancelled: vec![],
    };
    let mut data = Vec::new();
    proposal.try_serialize(&mut data).unwrap();
    data
}

fn admin(creator: &Address) -> BusinessAnalystMultisig {
    let args = BusinessAnalystMultisigCreateArgs { multisig_create_key: key(1), creator: *creator };
    BusinessAnalystMultisig::new(args, &Some(program_config_bytes(&key(50)))).unwrap()
}

#[test]
fn new_reads_treasury_and_derives_addresses() {
    let multisig = admin(&key(2));
    assert_eq!(multisig.accounts.treasury, key(50));
    assert_eq!(multisig.accounts.creator, key(2));
    assert_eq!(
        Some(multisig.accounts.multisig_pda),
        venture_launch_dao::address::derive_multisig_address(&key(1))
    );
    assert_eq!(
        Some(multisig.accounts.vault_pda),
        venture_launch_dao::address::derive_vault_address(&multisig.accounts.multisig_pda, 0)
    );
    let args = multisig.get_multisig_create_args();
    assert_eq!(args.multisig_create_key, key(1));
    assert_eq!(args.creator, key(2));
}

#[test]
fn new_distinguishes_fetch_and_decode_failures() {
    let args = BusinessAnalystMultisigCreateArgs { multisig_create_key: key(1), creator: key(2) };
    assert_eq!(
        BusinessAnalystMultisig::new(args, &None).unwrap_err(),
        BusinessAnalystMultisigError::FailedToFetchProgramConfigAccount
    );
    assert_eq!(
        BusinessAnalystMultisig::new(args, &Some(vec![1, 2, 3])).unwrap_err(),
        BusinessAnalystMultisigError::FailedToDeserializeProgramConfigData
    );
    let investor_args = venture_launch_dao::investor::InvestorMultisigCreateArgs { multisig_create_key: key(1), creator: key(2) };
    assert_eq!(
        InvestorsMultisig::new(investor_args, &None).unwrap_err(),
        InvestorMultisigError::FailedToFetchProgramConfigAccount
    );
}

#[test]
fn multisig_fetch_and_decode_failures_differ() {
    let multisig = admin(&key(2));
    assert_eq!(multisig.get_multisig(&None).unwrap_err(), BusinessAnalystMultisigError::FailedToFetchMultisigConfigAccount);
    let wrong_kind = Some(program_config_bytes(&key(50)));
    assert_eq!(
        multisig.get_multisig(&wrong_kind).unwrap_err(),
        BusinessAnalystMultisigError::FailedToDeserializeMultisigConfigData
    );
    assert_eq!(
        multisig.instructions_add_member(key(2), Member { key: key(3), permissions: Permissions::full() }, &wrong_kind).unwrap_err(),
        BusinessAnalystMultisigError::FailedToDeserializeMultisigConfigData
    );
    assert_ne!(
        BusinessAnalystMultisigError::FailedToFetchMultisigConfigAccount.to_external_code(),
        BusinessAnalystMultisigError::FailedToDeserializeMultisigConfigData.to_external_code()
    );
}

#[test]
fn queries_read_the_fetched_multisig() {
    let multisig = admin(&key(2));
    let account = Some(multisig_bytes(&key(1), 4, &[(key(2), 7), (key(3), 2)], 2));
    assert_eq!(multisig.get_multisig_transaction_index(&account).unwrap(), 4);
    assert_eq!(multisig.get_threshold(&account).unwrap(), 2);
    let members = multisig.get_multisig_members(&account).unwrap();
    assert_eq!(members.len(), 2);
    assert_eq!(members[1].key, key(3));
    assert_eq!(members[1].permissions.mask, 2);
    assert!(multisig.is_member(key(3), &account).unwrap());
    assert!(!multisig.is_member(key(4), &account).unwrap());
    let state = multisig.get_multisig(&account).unwrap();
    assert_eq!(state.create_key, key(1));
}

#[test]
fn transaction_index_sequencing() {
    let multisig = admin(&key(2));
    let pda = multisig.accounts.multisig_pda;
    let new_member = Member { key: key(3), permissions: Permissions::from_vec(&[Permission::Vote]) };

    // A fresh multisig: index 0, so the config transaction goes to index 1.
    let fresh = Some(multisig_bytes(&key(1), 0, &[(key(2), 7)], 1));
    let ix = multisig.instructions_add_member(key(2), new_member, &fresh).unwrap();
    let transaction_1 = derive_transaction_address(&pda, 1).unwrap();
    assert!(ix.accounts.iter().any(|m| m.pubkey == transaction_1));

    // Once it is created the account reads 1, and the proposal targets 1.
    let created = Some(multisig_bytes(&key(1), 1, &[(key(2), 7)], 1));
    let ix = multisig.instruction_proposal_create(key(2), &created).unwrap();
    let proposal_1 = derive_proposal_address(&pda, 1).unwrap();
    assert!(ix.accounts.iter().any(|m| m.pubkey == proposal_1));
    let args = squads_multisig_program::ProposalCreateArgs::try_from_slice(&ix.data[8..]).unwrap();
    assert_eq!(args.transaction_index, 1);
    assert!(!args.draft);

    let ix = multisig.instruction_proposal_approve(key(2), &created).unwrap();
    assert!(ix.accounts.iter().any(|m| m.pubkey == proposal_1));
    let ix = multisig.instruction_config_transaction_execute(key(2), &created).unwrap();
    assert!(ix.accounts.iter().any(|m| m.pubkey == proposal_1));
    assert!(ix.accounts.iter().any(|m| m.pubkey == transaction_1));

    // After execution the next new transaction takes index 2.
    let ix = multisig.instruction_change_threshold(key(2), 1, &created).unwrap();
    let transaction_2 = derive_transaction_address(&pda, 2).unwrap();
    assert!(ix.accounts.iter().any(|m| m.pubkey == transaction_2));
    assert!(!ix.accounts.iter().any(|m| m.pubkey == transaction_1));
}

#[test]
fn index_overflow_is_refused() {
    let multisig = admin(&key(2));
    let full = Some(multisig_bytes(&key(1), u64::MAX, &[(key(2), 7)], 1));
    assert_eq!(
        multisig.instructions_remove_member(key(2), key(3), &full).unwrap_err(),
        BusinessAnalystMultisigError::TransactionIndexOverflow
    );
    assert!(multisig.instruction_proposal_create(key(2), &full).is_ok());
}

#[test]
fn cancel_needs_an_approved_proposal() {
    let multisig = admin(&key(2));
    let investor = InvestorsMultisig { accounts: multisig.accounts };
    let pda = multisig.accounts.multisig_pda;
    let account = Some(multisig_bytes(&key(1), 1, &[(key(2), 7), (key(3), 2)], 1));
    let proposal = multisig.current_proposal_address(&account).unwrap();
    assert_eq!(proposal, derive_proposal_address(&pda, 1).unwrap());

    let active = Some(proposal_bytes(&pda, 1, squads_multisig_program::ProposalStatus::Active { timestamp: 5 }));
    assert_eq!(
        investor.instruction_proposal_cancel(key(3), &account, &active).unwrap_err(),
        InvestorMultisigError::ProposalStatusIsNotApproved
    );
    assert_eq!(
        multisig.instruction_proposal_cancel(key(3), &account, &active).unwrap_err(),
        BusinessAnalystMultisigError::ProposalStatusIsNotApproved
    );
    assert_eq!(
        investor.get_current_proposal_status(&account, &active).unwrap(),
        ProposalStatus::Active { timestamp: 5 }
    );

    let approved = Some(proposal_bytes(&pda, 1, squads_multisig_program::ProposalStatus::Approved { timestamp: 6 }));
    let ix = investor.instruction_proposal_cancel(key(3), &account, &approved).unwrap();
    assert!(ix.accounts.iter().any(|m| m.pubkey == proposal));
    assert_eq!(ix.program_id.bytes, squads_multisig_program::ID.to_bytes());

    assert_eq!(
        investor.instruction_proposal_cancel(key(3), &account, &None).unwrap_err(),
        InvestorMultisigError::FailedToFetchProposalConfigAccount
    );
    assert_eq!(
        investor.instruction_proposal_cancel(key(3), &account, &Some(vec![0u8; 4])).unwrap_err(),
        InvestorMultisigError::FailedToDeserializeProposalConfigData
    );
}

#[test]
fn approve_and_cancel_carry_distinct_data() {
    let multisig = admin(&key(2));
    let investor = InvestorsMultisig { accounts: multisig.accounts };
    let pda = multisig.accounts.multisig_pda;
    let account = Some(multisig_bytes(&key(1), 1, &[(key(2), 7)], 1));
    let approved = Some(proposal_bytes(&pda, 1, squads_multisig_program::ProposalStatus::Approved { timestamp: 6 }));
    let approve = investor.instruction_proposal_approve(key(2), &account).unwrap();
    let cancel = investor.instruction_proposal_cancel(key(2), &account, &approved).unwrap();
    assert_ne!(approve.data[..8], cancel.data[..8]);
    assert_eq!(approve.accounts.len(), cancel.accounts.len());
}

#[test]
fn transactions_need_a_blockhash() {
    let multisig = admin(&key(2));
    let account = Some(multisig_bytes(&key(1), 1, &[(key(2), 7)], 1));
    assert_eq!(
        multisig.transaction_proposal_approve(key(2), &account, None).unwrap_err(),
        BusinessAnalystMultisigError::ErrorOnGettingLatestBlockHash
    );
    let tx = multisig.transaction_proposal_approve(key(2), &account, Some([9u8; 32])).unwrap();
    assert_eq!(tx.fee_payer, key(2));
    assert_eq!(tx.recent_blockhash, [9u8; 32]);
    assert_eq!(tx.instructions.len(), 1);
    let solana_tx = tx.to_transaction().unwrap();
    assert_eq!(solana_tx.message.recent_blockhash.to_bytes(), [9u8; 32]);
    assert_eq!(solana_tx.message.account_keys[0], pubkey(&key(2)));
    assert_eq!(solana_tx.signatures.len(), 1);
}

#[test]
fn oversized_transactions_are_refused() {
    let accounts: Vec<venture_launch_dao::instruction::AccountMeta> = (0..253u32)
        .map(|i| {
            let mut bytes = [0u8; 32];
            bytes[..4].copy_from_slice(&i.to_le_bytes());
            bytes[31] = 1;
            venture_launch_dao::instruction::AccountMeta { pubkey: Address::from_bytes(bytes), is_signer: false, is_writable: false }
        })
        .collect();
    let ix = venture_launch_dao::instruction::Instruction { program_id: key(60), accounts, data: vec![] };
    let fits = venture_launch_dao::transaction::UnsignedTransaction {
        fee_payer: key(2),
        instructions: vec![ix.clone()],
        recent_blockhash: [1u8; 32],
    };
    assert!(fits.to_transaction().is_some());
    let mut more = ix.clone();
    more.accounts.push(venture_launch_dao::instruction::AccountMeta { pubkey: key(61), is_signer: false, is_writable: false });
    let too_many = venture_launch_dao::transaction::UnsignedTransaction {
        fee_payer: key(2),
        instructions: vec![more],
        recent_blockhash: [1u8; 32],
    };
    assert!(too_many.to_transaction().is_none());
}
