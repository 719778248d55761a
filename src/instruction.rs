//! Instructions of the multisig program, as plain data, and their encoding.
use crate::address::Address;
use crate::state::{Member, members_view};
use solana_program::pubkey::Pubkey;
use squads_multisig_program::anchor_lang::{InstructionData, ToAccountMetas};
use squads_multisig_program::{accounts as sq_accounts, instruction as sq_ix};
use squads_multisig_program::ConfigAction as A;
use vstd::prelude::*;

verus! {

/// One account that an instruction reads or writes.
#[derive(Clone, Copy, Debug)]
pub struct AccountMeta {
    pub pubkey: Address,
    pub is_signer: bool,
    pub is_writable: bool,
}

impl AccountMeta {
    pub open spec fn view(&self) -> (Seq<u8>, bool, bool) {
        (self.pubkey@, self.is_signer, self.is_writable)
    }
}

pub open spec fn metas_view(ms: Seq<AccountMeta>) -> Seq<(Seq<u8>, bool, bool)> {
    ms.map_values(|m: AccountMeta| m@)
}

pub struct InstructionView {
    pub program_id: Seq<u8>,
    pub accounts: Seq<(Seq<u8>, bool, bool)>,
    pub data: Seq<u8>,
}

/// An instruction: the program it calls, its accounts and its data.
#[derive(Clone, Debug)]
pub struct Instruction {
    pub program_id: Address,
    pub accounts: Vec<AccountMeta>,
    pub data: Vec<u8>,
}

impl Instruction {
    pub open spec fn view(&self) -> InstructionView {
        InstructionView {
            program_id: self.program_id@,
            accounts: metas_view(self.accounts@),
            data: self.data@,
        }
    }
}

/// One change of a multisig's configuration.
#[derive(Clone, Copy, Debug)]
pub enum ConfigAction {
    AddMember { new_member: Member },
    RemoveMember { old_member: Address },
    ChangeThreshold { new_threshold: u16 },
}

pub enum ConfigActionView {
    AddMember { key: Seq<u8>, mask: u8 },
    RemoveMember { key: Seq<u8> },
    ChangeThreshold { threshold: u16 },
}

impl ConfigAction {
    pub open spec fn view(&self) -> ConfigActionView {
        match *self {
            ConfigAction::AddMember { new_member } => ConfigActionView::AddMember {
                key: new_member.key@,
                mask: new_member.permissions.mask,
            },
            ConfigAction::RemoveMember { old_member } => ConfigActionView::RemoveMember {
                key: old_member@,
            },
            ConfigAction::ChangeThreshold { new_threshold } => ConfigActionView::ChangeThreshold {
                threshold: new_threshold,
            },
        }
    }
}

pub open spec fn memo_view(m: Option<String>) -> Option<Seq<char>> {
    match m {
        Some(s) => Some(s@),
        None => None,
    }
}

pub open spec fn key_view(k: Option<Address>) -> Option<Seq<u8>> {
    match k {
        Some(a) => Some(a@),
        None => None,
    }
}

/// Account list of `MultisigCreateV2`, field by field as the program's
/// accounts type declares it: the create key and the creator sign; the
/// treasury, the multisig (created here) and the creator are writable.
pub open spec fn multisig_create_v2_metas(
    keys: (Seq<u8>, Seq<u8>, Seq<u8>, Seq<u8>, Seq<u8>, Seq<u8>),
) -> Seq<(Seq<u8>, bool, bool)> {
    seq![
        (keys.0, false, false),
        (keys.1, false, true),
        (keys.2, false, true),
        (keys.3, true, false),
        (keys.4, true, true),
        (keys.5, false, false),
    ]
}

/// Relies on `ToAccountMetas::to_account_metas` of the program's
/// `accounts::MultisigCreateV2`, which anchor derives from the accounts type:
/// one meta per field, in order, signer for a `Signer`, writable for `mut` or
/// `init`.
#[verifier::external_body]
pub(crate) fn multisig_create_v2_accounts(
    program_config: &Address,
    treasury: &Address,
    multisig: &Address,
    create_key: &Address,
    creator: &Address,
    system_program: &Address,
) -> (r: Vec<AccountMeta>)
    ensures
        metas_view(r@) == multisig_create_v2_metas(
            (program_config@, treasury@, multisig@, create_key@, creator@, system_program@),
        ),
{
    sq_accounts::MultisigCreateV2 {
        program_config: Pubkey::new_from_array(program_config.bytes),
        treasury: Pubkey::new_from_array(treasury.bytes),
        multisig: Pubkey::new_from_array(multisig.bytes),
        create_key: Pubkey::new_from_array(create_key.bytes),
        creator: Pubkey::new_from_array(creator.bytes),
        system_program: Pubkey::new_from_array(system_program.bytes),
    }.to_account_metas(None).into_iter().map(|m| AccountMeta {
        pubkey: Address { bytes: m.pubkey.to_bytes() },
        is_signer: m.is_signer,
        is_writable: m.is_writable,
    }).collect()
}

/// Account list of `ConfigTransactionCreate`, field by field as the program's
/// accounts type declares it: the creator and the rent payer sign; the
/// multisig, the transaction (created here) and the rent payer are writable.
pub open spec fn config_transaction_create_metas(
    keys: (Seq<u8>, Seq<u8>, Seq<u8>, Seq<u8>, Seq<u8>),
) -> Seq<(Seq<u8>, bool, bool)> {
    seq![
        (keys.0, false, true),
        (keys.1, false, true),
        (keys.2, true, false),
        (keys.3, true, true),
        (keys.4, false, false),
    ]
}

/// Relies on `ToAccountMetas::to_account_metas` of the program's
/// `accounts::ConfigTransactionCreate`, which anchor derives from the accounts type:
/// one meta per field, in order, signer for a `Signer`, writable for `mut` or
/// `init`.
#[verifier::external_body]
pub(crate) fn config_transaction_create_accounts(
    multisig: &Address,
    transaction: &Address,
    creator: &Address,
    rent_payer: &Address,
    system_program: &Address,
) -> (r: Vec<AccountMeta>)
    ensures
        metas_view(r@) == config_transaction_create_metas(
            (multisig@, transaction@, creator@, rent_payer@, system_program@),
        ),
{
    sq_accounts::ConfigTransactionCreate {
        multisig: Pubkey::new_from_array(multisig.bytes),
        transaction: Pubkey::new_from_array(transaction.bytes),
        creator: Pubkey::new_from_array(creator.bytes),
        rent_payer: Pubkey::new_from_array(rent_payer.bytes),
        system_program: Pubkey::new_from_array(system_program.bytes),
    }.to_account_metas(None).into_iter().map(|m| AccountMeta {
        pubkey: Address { bytes: m.pubkey.to_bytes() },
        is_signer: m.is_signer,
        is_writable: m.is_writable,
    }).collect()
}

/// Account list of `VaultTransactionCreate`, field by field as the program's
/// accounts type declares it: the same shape as a config transaction's.
pub open spec fn vault_transaction_create_metas(
    keys: (Seq<u8>, Seq<u8>, Seq<u8>, Seq<u8>, Seq<u8>),
) -> Seq<(Seq<u8>, bool, bool)> {
    seq![
        (keys.0, false, true),
        (keys.1, false, true),
        (keys.2, true, false),
        (keys.3, true, true),
        (keys.4, false, false),
    ]
}

/// Relies on `ToAccountMetas::to_account_metas` of the program's
/// `accounts::VaultTransactionCreate`, which anchor derives from the accounts type:
/// one meta per field, in order, signer for a `Signer`, writable for `mut` or
/// `init`.
#[verifier::external_body]
pub(crate) fn vault_transaction_create_accounts(
    multisig: &Address,
    transaction: &Address,
    creator: &Address,
    rent_payer: &Address,
    system_program: &Address,
) -> (r: Vec<AccountMeta>)
    ensures
        metas_view(r@) == vault_transaction_create_metas(
            (multisig@, transaction@, creator@, rent_payer@, system_program@),
        ),
{
    sq_accounts::VaultTransactionCreate {
        multisig: Pubkey::new_from_array(multisig.bytes),
        transaction: Pubkey::new_from_array(transaction.bytes),
        creator: Pubkey::new_from_array(creator.bytes),
        rent_payer: Pubkey::new_from_array(rent_payer.bytes),
        system_program: Pubkey::new_from_array(system_program.bytes),
    }.to_account_metas(None).into_iter().map(|m| AccountMeta {
        pubkey: Address { bytes: m.pubkey.to_bytes() },
        is_signer: m.is_signer,
        is_writable: m.is_writable,
    }).collect()
}

/// Account list of `ProposalCreate`, field by field as the program's accounts
/// type declares it: the creator and the rent payer sign; the proposal
/// (created here) and the rent payer are writable.
pub open spec fn proposal_create_metas(
    keys: (Seq<u8>, Seq<u8>, Seq<u8>, Seq<u8>, Seq<u8>),
) -> Seq<(Seq<u8>, bool, bool)> {
    seq![
        (keys.0, false, false),
        (keys.1, false, true),
        (keys.2, true, false),
        (keys.3, true, true),
        (keys.4, false, false),
    ]
}

/// Relies on `ToAccountMetas::to_account_metas` of the program's
/// `accounts::ProposalCreate`, which anchor derives from the accounts type:
/// one meta per field, in order, signer for a `Signer`, writable for `mut` or
/// `init`.
#[verifier::external_body]
pub(crate) fn proposal_create_accounts(
    multisig: &Address,
    proposal: &Address,
    creator: &Address,
    rent_payer: &Address,
    system_program: &Address,
) -> (r: Vec<AccountMeta>)
    ensures
        metas_view(r@) == proposal_create_metas(
            (multisig@, proposal@, creator@, rent_payer@, system_program@),
        ),
{
    sq_accounts::ProposalCreate {
        multisig: Pubkey::new_from_array(multisig.bytes),
        proposal: Pubkey::new_from_array(proposal.bytes),
        creator: Pubkey::new_from_array(creator.bytes),
        rent_payer: Pubkey::new_from_array(rent_payer.bytes),
        system_program: Pubkey::new_from_array(system_program.bytes),
    }.to_account_metas(None).into_iter().map(|m| AccountMeta {
        pubkey: Address { bytes: m.pubkey.to_bytes() },
        is_signer: m.is_signer,
        is_writable: m.is_writable,
    }).collect()
}

/// Account list of `ProposalVote`, shared by approve, reject and cancel, field
/// by field as the program's accounts type declares it: the member signs; the
/// member and the proposal are writable.
pub open spec fn proposal_vote_metas(keys: (Seq<u8>, Seq<u8>, Seq<u8>)) -> Seq<(Seq<u8>, bool, bool)> {
    seq![(keys.0, false, false), (keys.1, true, true), (keys.2, false, true)]
}

/// Relies on `ToAccountMetas::to_account_metas` of the program's
/// `accounts::ProposalVote`, which anchor derives from the accounts type:
/// one meta per field, in order, signer for a `Signer`, writable for `mut` or
/// `init`.
#[verifier::external_body]
pub(crate) fn proposal_vote_accounts(multisig: &Address, member: &Address, proposal: &Address) -> (r: Vec<AccountMeta>)
    ensures
        metas_view(r@) == proposal_vote_metas((multisig@, member@, proposal@)),
{
    sq_accounts::ProposalVote {
        multisig: Pubkey::new_from_array(multisig.bytes),
        member: Pubkey::new_from_array(member.bytes),
        proposal: Pubkey::new_from_array(proposal.bytes),
    }.to_account_metas(None).into_iter().map(|m| AccountMeta {
        pubkey: Address { bytes: m.pubkey.to_bytes() },
        is_signer: m.is_signer,
        is_writable: m.is_writable,
    }).collect()
}

/// An optional account of an accounts type: the given one, or the program's
/// own id, read-only, where it is left out.
pub open spec fn optional_meta(key: Option<Seq<u8>>, is_signer: bool, is_writable: bool) -> (Seq<u8>, bool, bool) {
    match key {
        Some(k) => (k, is_signer, is_writable),
        None => (crate::address::squads_program(), false, false),
    }
}

/// Account list of `ConfigTransactionExecute`, field by field as the program's
/// accounts type declares it: the member and the optional rent payer sign;
/// the multisig, the proposal and the rent payer are writable.
pub open spec fn config_transaction_execute_metas(
    keys: (Seq<u8>, Seq<u8>, Seq<u8>, Seq<u8>, Option<Seq<u8>>, Option<Seq<u8>>),
) -> Seq<(Seq<u8>, bool, bool)> {
    seq![
        (keys.0, false, true),
        (keys.1, true, false),
        (keys.2, false, true),
        (keys.3, false, false),
        optional_meta(keys.4, true, true),
        optional_meta(keys.5, false, false),
    ]
}

/// Relies on `ToAccountMetas::to_account_metas` of the program's
/// `accounts::ConfigTransactionExecute`, which anchor derives from the
/// accounts type: one meta per field, in order, signer for a `Signer`,
/// writable for `mut`; an optional account left out stands as the program's
/// id, read-only.
#[verifier::external_body]
pub(crate) fn config_transaction_execute_accounts(
    multisig: &Address,
    member: &Address,
    proposal: &Address,
    transaction: &Address,
    rent_payer: Option<Address>,
    system_program: Option<Address>,
) -> (r: Vec<AccountMeta>)
    ensures
        metas_view(r@) == config_transaction_execute_metas(
            (multisig@, member@, proposal@, transaction@, key_view(rent_payer), key_view(system_program)),
        ),
{
    sq_accounts::ConfigTransactionExecute {
        multisig: Pubkey::new_from_array(multisig.bytes),
        member: Pubkey::new_from_array(member.bytes),
        proposal: Pubkey::new_from_array(proposal.bytes),
        transaction: Pubkey::new_from_array(transaction.bytes),
        rent_payer: rent_payer.map(|k| Pubkey::new_from_array(k.bytes)),
        system_program: system_program.map(|k| Pubkey::new_from_array(k.bytes)),
    }.to_account_metas(None).into_iter().map(|m| AccountMeta {
        pubkey: Address { bytes: m.pubkey.to_bytes() },
        is_signer: m.is_signer,
        is_writable: m.is_writable,
    }).collect()
}

/// Account list of `VaultTransactionExecute`, field by field as the program's
/// accounts type declares it, before the accounts that the vault transaction
/// itself uses: the member signs; the proposal is writable.
pub open spec fn vault_transaction_execute_metas(
    keys: (Seq<u8>, Seq<u8>, Seq<u8>, Seq<u8>),
) -> Seq<(Seq<u8>, bool, bool)> {
    seq![
        (keys.0, false, false),
        (keys.1, false, true),
        (keys.2, false, false),
        (keys.3, true, false),
    ]
}

/// Relies on `ToAccountMetas::to_account_metas` of the program's
/// `accounts::VaultTransactionExecute`, which anchor derives from the accounts type:
/// one meta per field, in order, signer for a `Signer`, writable for `mut` or
/// `init`.
#[verifier::external_body]
pub(crate) fn vault_transaction_execute_accounts(
    multisig: &Address,
    proposal: &Address,
    transaction: &Address,
    member: &Address,
) -> (r: Vec<AccountMeta>)
    ensures
        metas_view(r@) == vault_transaction_execute_metas((multisig@, proposal@, transaction@, member@)),
{
    sq_accounts::VaultTransactionExecute {
        multisig: Pubkey::new_from_array(multisig.bytes),
        proposal: Pubkey::new_from_array(proposal.bytes),
        transaction: Pubkey::new_from_array(transaction.bytes),
        member: Pubkey::new_from_array(member.bytes),
    }.to_account_metas(None).into_iter().map(|m| AccountMeta {
        pubkey: Address { bytes: m.pubkey.to_bytes() },
        is_signer: m.is_signer,
        is_writable: m.is_writable,
    }).collect()
}


pub open spec fn actions_view(actions: Seq<ConfigAction>) -> Seq<ConfigActionView> {
    actions.map_values(|a: ConfigAction| a@)
}

/// Data of `MultisigCreateV2` for its arguments: config authority, threshold,
/// members, time lock, rent collector and memo.
pub uninterp spec fn multisig_create_v2_bytes(
    args: (Option<Seq<u8>>, u16, Seq<(Seq<u8>, u8)>, u32, Option<Seq<u8>>, Option<Seq<char>>),
) -> Seq<u8>;

/// Relies on `InstructionData::data` of the program's
/// `instruction::MultisigCreateV2`: the data depends on the arguments alone.
#[verifier::external_body]
pub(crate) fn multisig_create_v2_data(
    config_authority: Option<Address>,
    threshold: u16,
    members: &Vec<Member>,
    time_lock: u32,
    rent_collector: Option<Address>,
    memo: Option<String>,
) -> (r: Vec<u8>)
    ensures
        r@ == multisig_create_v2_bytes(
            (key_view(config_authority), threshold, members_view(members@), time_lock,
             key_view(rent_collector), memo_view(memo)),
        ),
{
    sq_ix::MultisigCreateV2 { args: squads_multisig_program::MultisigCreateArgsV2 {
        config_authority: config_authority.map(|k| Pubkey::new_from_array(k.bytes)),
        threshold,
        members: members.iter().map(|m| squads_multisig_program::Member {
            key: Pubkey::new_from_array(m.key.bytes),
            permissions: squads_multisig_program::Permissions { mask: m.permissions.mask },
        }).collect(),
        time_lock,
        rent_collector: rent_collector.map(|k| Pubkey::new_from_array(k.bytes)),
        memo,
    } }.data()
}

/// Data of `ConfigTransactionCreate` for its actions and memo.
pub uninterp spec fn config_transaction_create_bytes(args: (Seq<ConfigActionView>, Option<Seq<char>>)) -> Seq<u8>;

/// Relies on `InstructionData::data` of the program's
/// `instruction::ConfigTransactionCreate`: the data depends on the arguments
/// alone.
#[verifier::external_body]
pub(crate) fn config_transaction_create_data(actions: &Vec<ConfigAction>, memo: Option<String>) -> (r: Vec<u8>)
    ensures
        r@ == config_transaction_create_bytes((actions_view(actions@), memo_view(memo))),
{
    let actions = actions.iter().map(|a| match *a {
        ConfigAction::AddMember { new_member: m } => A::AddMember { new_member: squads_multisig_program::Member {
            key: Pubkey::new_from_array(m.key.bytes),
            permissions: squads_multisig_program::Permissions { mask: m.permissions.mask },
        } },
        ConfigAction::RemoveMember { old_member } => A::RemoveMember { old_member: Pubkey::new_from_array(old_member.bytes) },
        ConfigAction::ChangeThreshold { new_threshold } => A::ChangeThreshold { new_threshold },
    }).collect();
    sq_ix::ConfigTransactionCreate { args: squads_multisig_program::ConfigTransactionCreateArgs { actions, memo } }.data()
}

/// Data of `VaultTransactionCreate` for its vault index, number of ephemeral
/// signers, serialized transaction message and memo.
pub uninterp spec fn vault_transaction_create_bytes(args: (u8, u8, Seq<u8>, Option<Seq<char>>)) -> Seq<u8>;

/// Relies on `InstructionData::data` of the program's
/// `instruction::VaultTransactionCreate`: the data depends on the arguments
/// alone.
#[verifier::external_body]
pub(crate) fn vault_transaction_create_data(
    vault_index: u8,
    ephemeral_signers: u8,
    transaction_message: &Vec<u8>,
    memo: Option<String>,
) -> (r: Vec<u8>)
    ensures
        r@ == vault_transaction_create_bytes((vault_index, ephemeral_signers, transaction_message@, memo_view(memo))),
{
    sq_ix::VaultTransactionCreate { args: squads_multisig_program::VaultTransactionCreateArgs {
        vault_index,
        ephemeral_signers,
        transaction_message: transaction_message.clone(),
        memo,
    } }.data()
}

/// Data of `ProposalCreate`: its discriminator (the first eight bytes of the
/// SHA-256 digest of `global:proposal_create`), then the Borsh form of its
/// arguments, the transaction index as eight little-endian bytes and the
/// draft flag as one byte.
pub open spec fn proposal_create_bytes(args: (u64, bool)) -> Seq<u8> {
    seq![220u8, 60, 73, 224, 30, 108, 79, 159] + crate::address::le_bytes(args.0)
        + seq![if args.1 { 1u8 } else { 0u8 }]
}

/// Relies on `InstructionData::data` of the program's
/// `instruction::ProposalCreate`: the discriminator, then the Borsh form of
/// `ProposalCreateArgs`.
#[verifier::external_body]
pub(crate) fn proposal_create_data(transaction_index: u64, draft: bool) -> (r: Vec<u8>)
    ensures
        r@ == proposal_create_bytes((transaction_index, draft)),
{
    sq_ix::ProposalCreate { args: squads_multisig_program::ProposalCreateArgs { transaction_index, draft } }.data()
}

/// Data of `ProposalApprove` for its memo.
pub uninterp spec fn proposal_approve_bytes(memo: Option<Seq<char>>) -> Seq<u8>;

/// Relies on `InstructionData::data` of the program's
/// `instruction::ProposalApprove`: the data depends on the memo alone.
#[verifier::external_body]
pub(crate) fn proposal_approve_data(memo: Option<String>) -> (r: Vec<u8>)
    ensures
        r@ == proposal_approve_bytes(memo_view(memo)),
{
    sq_ix::ProposalApprove { args: squads_multisig_program::ProposalVoteArgs { memo } }.data()
}

/// Data of `ProposalCancel` for its memo.
pub uninterp spec fn proposal_cancel_bytes(memo: Option<Seq<char>>) -> Seq<u8>;

/// Relies on `InstructionData::data` of the program's
/// `instruction::ProposalCancel`: the data depends on the memo alone.
#[verifier::external_body]
pub(crate) fn proposal_cancel_data(memo: Option<String>) -> (r: Vec<u8>)
    ensures
        r@ == proposal_cancel_bytes(memo_view(memo)),
{
    sq_ix::ProposalCancel { args: squads_multisig_program::ProposalVoteArgs { memo } }.data()
}

/// Discriminator of `config_transaction_execute`: the first eight bytes of
/// the SHA-256 digest of `global:config_transaction_execute`.
pub open spec fn config_transaction_execute_discriminator() -> Seq<u8> {
    seq![114u8, 146, 244, 189, 252, 140, 36, 40]
}

/// Discriminator of `vault_transaction_execute`: the first eight bytes of the
/// SHA-256 digest of `global:vault_transaction_execute`.
pub open spec fn vault_transaction_execute_discriminator() -> Seq<u8> {
    seq![194u8, 8, 161, 87, 153, 164, 25, 171]
}

/// Relies on `InstructionData::data` of the program's
/// `instruction::ConfigTransactionExecute`, which takes no arguments: its
/// data is the instruction's discriminator alone.
#[verifier::external_body]
pub(crate) fn config_transaction_execute_data() -> (r: Vec<u8>)
    ensures
        r@ == config_transaction_execute_discriminator(),
{
    sq_ix::ConfigTransactionExecute {}.data()
}

/// Relies on `InstructionData::data` of the program's
/// `instruction::VaultTransactionExecute`, which takes no arguments: its data
/// is the instruction's discriminator alone.
#[verifier::external_body]
pub(crate) fn vault_transaction_execute_data() -> (r: Vec<u8>)
    ensures
        r@ == vault_transaction_execute_discriminator(),
{
    sq_ix::VaultTransactionExecute {}.data()
}

/// Data of the system program's transfer: the variant index 2 as four
/// little-endian bytes, then the amount as eight.
pub open spec fn transfer_bytes(lamports: u64) -> Seq<u8> {
    seq![2u8, 0, 0, 0] + crate::address::le_bytes(lamports)
}

/// Relies on `system_instruction::transfer` of solana-program: it moves
/// `lamports` from `from` (a writable signer) to `to` (writable), and its
/// data is the bincode form of `SystemInstruction::Transfer`.
#[verifier::external_body]
pub(crate) fn system_transfer(from: &Address, to: &Address, lamports: u64) -> (r: Instruction)
    ensures
        r.program_id@ == crate::address::system_program(),
        metas_view(r.accounts@) == seq![(from@, true, true), (to@, false, true)],
        r.data@ == transfer_bytes(lamports),
{
    let ix = solana_program::system_instruction::transfer(
        &Pubkey::new_from_array(from.bytes),
        &Pubkey::new_from_array(to.bytes),
        lamports,
    );
    Instruction {
        program_id: Address { bytes: ix.program_id.to_bytes() },
        accounts: ix.accounts.into_iter().map(|m| AccountMeta {
            pubkey: Address { bytes: m.pubkey.to_bytes() },
            is_signer: m.is_signer,
            is_writable: m.is_writable,
        }).collect(),
        data: ix.data,
    }
}

} // verus!
