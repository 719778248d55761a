//! The administrative view of a multisig: creation, membership and threshold
//! changes, vault transfers, proposals and their execution.
use crate::address::Address;
use crate::error::BusinessAnalystMultisigError;
use crate::instruction::{Instruction, InstructionView};
use crate::multisig::{
    current_index, has_member, ix_result, multisig_of, AccountKind, Failure, MultisigAccounts,
};
use crate::state::{fetched_view, members_view, Member, MultisigState, ProposalStatus};
use crate::transaction::{assemble, instructions_view, single_tx, tx_result, UnsignedTransaction, UnsignedTransactionView};
use vstd::prelude::*;

verus! {

/// What a caller supplies to build the view: the public key of the keypair
/// that seeds the multisig, and the creator.
#[derive(Clone, Copy, Debug)]
pub struct BusinessAnalystMultisigCreateArgs {
    pub multisig_create_key: Address,
    pub creator: Address,
}

/// The error that a failure surfaces as.
pub open spec fn error_of(f: Failure) -> BusinessAnalystMultisigError {
    match f {
        Failure::AccountFetch(AccountKind::ProgramConfig) => BusinessAnalystMultisigError::FailedToFetchProgramConfigAccount,
        Failure::AccountFetch(AccountKind::Multisig) => BusinessAnalystMultisigError::FailedToFetchMultisigConfigAccount,
        Failure::AccountFetch(AccountKind::Proposal) => BusinessAnalystMultisigError::FailedToFetchProposalConfigAccount,
        Failure::AccountDecode(AccountKind::Multisig) => BusinessAnalystMultisigError::FailedToDeserializeMultisigConfigData,
        Failure::AccountDecode(AccountKind::ProgramConfig) => BusinessAnalystMultisigError::FailedToDeserializeProgramConfigData,
        Failure::AccountDecode(AccountKind::Proposal) => BusinessAnalystMultisigError::FailedToDeserializeProposalConfigData,
        Failure::LatestBlockhash => BusinessAnalystMultisigError::ErrorOnGettingLatestBlockHash,
        Failure::StatusNotApproved => BusinessAnalystMultisigError::ProposalStatusIsNotApproved,
        Failure::AddressDerivation => BusinessAnalystMultisigError::FailedToDeriveAddress,
        Failure::IndexOverflow => BusinessAnalystMultisigError::TransactionIndexOverflow,
    }
}

fn to_error(f: Failure) -> (e: BusinessAnalystMultisigError)
    ensures
        e == error_of(f),
{
    match f {
        Failure::AccountFetch(AccountKind::ProgramConfig) => BusinessAnalystMultisigError::FailedToFetchProgramConfigAccount,
        Failure::AccountFetch(AccountKind::Multisig) => BusinessAnalystMultisigError::FailedToFetchMultisigConfigAccount,
        Failure::AccountFetch(AccountKind::Proposal) => BusinessAnalystMultisigError::FailedToFetchProposalConfigAccount,
        Failure::AccountDecode(AccountKind::Multisig) => BusinessAnalystMultisigError::FailedToDeserializeMultisigConfigData,
        Failure::AccountDecode(AccountKind::ProgramConfig) => BusinessAnalystMultisigError::FailedToDeserializeProgramConfigData,
        Failure::AccountDecode(AccountKind::Proposal) => BusinessAnalystMultisigError::FailedToDeserializeProposalConfigData,
        Failure::LatestBlockhash => BusinessAnalystMultisigError::ErrorOnGettingLatestBlockHash,
        Failure::StatusNotApproved => BusinessAnalystMultisigError::ProposalStatusIsNotApproved,
        Failure::AddressDerivation => BusinessAnalystMultisigError::FailedToDeriveAddress,
        Failure::IndexOverflow => BusinessAnalystMultisigError::TransactionIndexOverflow,
    }
}

pub open spec fn view_result(r: Result<InstructionView, Failure>) -> Result<InstructionView, BusinessAnalystMultisigError> {
    match r {
        Ok(v) => Ok(v),
        Err(f) => Err(error_of(f)),
    }
}

pub open spec fn ix_view(r: Result<Instruction, BusinessAnalystMultisigError>) -> Result<InstructionView, BusinessAnalystMultisigError> {
    match r {
        Ok(ix) => Ok(ix@),
        Err(e) => Err(e),
    }
}

fn surface(
    r: Result<Instruction,
    Failure>,
) -> (o: Result<Instruction, BusinessAnalystMultisigError>)
    ensures
        ix_view(o) == view_result(ix_result(r)),
{
    match r {
        Ok(ix) => Ok(ix),
        Err(f) => Err(to_error(f)),
    }
}

fn into_transaction(
    ix: Result<Instruction, BusinessAnalystMultisigError>,
    payer: &Address,
    latest_blockhash: Option<[u8; 32]>,
) -> (r: Result<UnsignedTransaction, BusinessAnalystMultisigError>)
    ensures
        tx_result(r) == single_tx(
            ix_view(ix),
            payer@,
            latest_blockhash,
            BusinessAnalystMultisigError::ErrorOnGettingLatestBlockHash,
        ),
{
    let ix = match ix {
        Ok(ix) => ix,
        Err(e) => return Err(e),
    };
    let ghost v = ix@;
    let ixs = vec![ix];
    assert(instructions_view(ixs@) =~= seq![v]);
    match assemble(payer, ixs, latest_blockhash) {
        Some(t) => Ok(t),
        None => Err(BusinessAnalystMultisigError::ErrorOnGettingLatestBlockHash),
    }
}

/// The administrative view of one multisig.
#[derive(Clone, Copy, Debug)]
pub struct BusinessAnalystMultisig {
    pub accounts: MultisigAccounts,
}

impl BusinessAnalystMultisig {

    pub open spec fn wf(&self) -> bool {
        self.accounts.wf()
    }

    /// Derives the multisig's addresses from the create key and reads the
    /// treasury from the program configuration account, fetched at
    /// `derive_program_config_address()` (`None` where the fetch failed).
    pub fn new(
        args: BusinessAnalystMultisigCreateArgs,
        program_config_account: &Option<Vec<u8>>,
    ) -> (r: Result<Self, BusinessAnalystMultisigError>)
        ensures
            match r {
                Ok(m) => m.wf() && MultisigAccounts::build(
                    args.multisig_create_key@,
                    args.creator@,
                    fetched_view(*program_config_account),
                )
                    == Ok::<_, Failure>(m.accounts.fields()),
                Err(e) => exists|f: Failure| MultisigAccounts::build(
                    args.multisig_create_key@,
                    args.creator@,
                    fetched_view(*program_config_account),
                )
                    == Err::<(Seq<u8>, Seq<u8>, Seq<u8>, Seq<u8>, Seq<u8>, Seq<u8>), Failure>(f) && error_of(f) == e,
            },
    {
        match MultisigAccounts::new(
            args.multisig_create_key,
            args.creator,
            program_config_account,
        ) {
            Ok(accounts) => Ok(BusinessAnalystMultisig { accounts }),
            Err(f) => Err(to_error(f)),
        }
    }

    /// Builds the view of an existing multisig from its fetched account
    /// (`None` where the fetch failed) and the fetched program configuration.
    pub fn from_multisig(
        creator: Address,
        multisig_account: &Option<Vec<u8>>,
        program_config_account: &Option<Vec<u8>>,
    ) -> (r: Result<Self, BusinessAnalystMultisigError>)
        ensures
            match multisig_of(fetched_view(*multisig_account)) {
                Err(f) => r == Err::<Self, BusinessAnalystMultisigError>(error_of(f)),
                Ok(m) => match r {
                    Ok(v) => v.wf() && MultisigAccounts::build(
                        m.create_key,
                        creator@,
                        fetched_view(*program_config_account),
                    )
                        == Ok::<_, Failure>(v.accounts.fields()),
                    Err(e) => exists|f: Failure| MultisigAccounts::build(
                        m.create_key,
                        creator@,
                        fetched_view(*program_config_account),
                    )
                        == Err::<(Seq<u8>, Seq<u8>, Seq<u8>, Seq<u8>, Seq<u8>, Seq<u8>), Failure>(f) && error_of(f) == e,
                },
            },
    {
        match MultisigAccounts::from_multisig(creator, multisig_account, program_config_account) {
            Ok(accounts) => Ok(BusinessAnalystMultisig { accounts }),
            Err(f) => Err(to_error(f)),
        }
    }

    /// The arguments that build this view again.
    pub fn get_multisig_create_args(&self) -> (r: BusinessAnalystMultisigCreateArgs)
        ensures
            r.multisig_create_key == self.accounts.create_key,
            r.creator == self.accounts.creator,
    {
        BusinessAnalystMultisigCreateArgs { multisig_create_key: self.accounts.create_key, creator: self.accounts.creator }
    }

    /// Reads the multisig from its fetched account (`None` where the fetch
    /// failed).
    pub fn get_multisig(
        &self,
        multisig_account: &Option<Vec<u8>>,
    ) -> (r: Result<MultisigState, BusinessAnalystMultisigError>)
        ensures
            match multisig_of(fetched_view(*multisig_account)) {
                Ok(v) => r is Ok && r->Ok_0@ == v,
                Err(f) => r == Err::<MultisigState, BusinessAnalystMultisigError>(error_of(f)),
            },
    {
        match self.accounts.get_multisig(multisig_account) {
            Ok(m) => Ok(m),
            Err(f) => Err(to_error(f)),
        }
    }

    pub fn get_multisig_members(
        &self,
        multisig_account: &Option<Vec<u8>>,
    ) -> (r: Result<Vec<Member>, BusinessAnalystMultisigError>)
        ensures
            match multisig_of(fetched_view(*multisig_account)) {
                Ok(v) => r is Ok && members_view(r->Ok_0@) == v.members,
                Err(f) => r == Err::<Vec<Member>, BusinessAnalystMultisigError>(error_of(f)),
            },
    {
        match self.accounts.get_multisig_members(multisig_account) {
            Ok(m) => Ok(m),
            Err(f) => Err(to_error(f)),
        }
    }

    pub fn get_multisig_transaction_index(
        &self,
        multisig_account: &Option<Vec<u8>>,
    ) -> (r: Result<u64, BusinessAnalystMultisigError>)
        ensures
            match current_index(fetched_view(*multisig_account)) {
                Ok(i) => r == Ok::<u64, BusinessAnalystMultisigError>(i),
                Err(f) => r == Err::<u64, BusinessAnalystMultisigError>(error_of(f)),
            },
    {
        match self.accounts.get_multisig_transaction_index(multisig_account) {
            Ok(i) => Ok(i),
            Err(f) => Err(to_error(f)),
        }
    }

    pub fn get_threshold(
        &self,
        multisig_account: &Option<Vec<u8>>,
    ) -> (r: Result<u16, BusinessAnalystMultisigError>)
        ensures
            match multisig_of(fetched_view(*multisig_account)) {
                Ok(v) => r == Ok::<u16, BusinessAnalystMultisigError>(v.threshold),
                Err(f) => r == Err::<u16, BusinessAnalystMultisigError>(error_of(f)),
            },
    {
        match self.accounts.get_threshold(multisig_account) {
            Ok(t) => Ok(t),
            Err(f) => Err(to_error(f)),
        }
    }

    pub fn is_member(
        &self,
        member_pubkey: Address,
        multisig_account: &Option<Vec<u8>>,
    ) -> (r: Result<bool, BusinessAnalystMultisigError>)
        ensures
            match multisig_of(fetched_view(*multisig_account)) {
                Ok(v) => r == Ok::<bool, BusinessAnalystMultisigError>(has_member(v.members, member_pubkey@)),
                Err(f) => r == Err::<bool, BusinessAnalystMultisigError>(error_of(f)),
            },
    {
        match self.accounts.is_member(member_pubkey, multisig_account) {
            Ok(b) => Ok(b),
            Err(f) => Err(to_error(f)),
        }
    }

    /// Address of the current transaction's proposal, whose account
    /// `get_current_proposal_status` and `instruction_proposal_cancel` take.
    pub fn current_proposal_address(
        &self,
        multisig_account: &Option<Vec<u8>>,
    ) -> (r: Result<Address, BusinessAnalystMultisigError>)
        ensures
            match current_index(fetched_view(*multisig_account)) {
                Err(f) => r == Err::<Address, BusinessAnalystMultisigError>(error_of(f)),
                Ok(i) => match crate::address::proposal_address(self.accounts.multisig_pda@, i) {
                    None => r == Err::<Address, BusinessAnalystMultisigError>(
                        BusinessAnalystMultisigError::FailedToDeriveAddress,
                    ),
                    Some(p) => r is Ok && r->Ok_0@ == p,
                },
            },
    {
        match self.accounts.current_proposal_address(multisig_account) {
            Ok(p) => Ok(p),
            Err(f) => Err(to_error(f)),
        }
    }

    /// The status of the current transaction's proposal.
    pub fn get_current_proposal_status(
        &self,
        multisig_account: &Option<Vec<u8>>,
        proposal_account: &Option<Vec<u8>>,
    ) -> (r: Result<ProposalStatus, BusinessAnalystMultisigError>)
        ensures
            match self.accounts.status_of(
                fetched_view(*multisig_account),
                fetched_view(*proposal_account),
            ) {
                Ok(s) => r == Ok::<ProposalStatus, BusinessAnalystMultisigError>(s),
                Err(f) => r == Err::<ProposalStatus, BusinessAnalystMultisigError>(error_of(f)),
            },
    {
        match self.accounts.get_current_proposal_status(multisig_account, proposal_account) {
            Ok(s) => Ok(s),
            Err(f) => Err(to_error(f)),
        }
    }

    /// Binds instructions to `sender`, who pays the fee, and to the blockhash
    /// fetched for this transaction (`None` where the fetch failed).
    pub fn get_transaction_from_instructions(
        &self,
        sender: Address,
        instructions: Vec<Instruction>,
        latest_blockhash: Option<[u8; 32]>,
    ) -> (r: Result<UnsignedTransaction, BusinessAnalystMultisigError>)
        ensures
            match latest_blockhash {
                None => r == Err::<UnsignedTransaction, BusinessAnalystMultisigError>(
                    BusinessAnalystMultisigError::ErrorOnGettingLatestBlockHash,
                ),
                Some(h) => r is Ok && r->Ok_0@ == (UnsignedTransactionView {
                    fee_payer: sender@,
                    instructions: instructions_view(instructions@),
                    recent_blockhash: h@,
                }),
            },
    {
        match assemble(&sender, instructions, latest_blockhash) {
            Some(t) => Ok(t),
            None => Err(BusinessAnalystMultisigError::ErrorOnGettingLatestBlockHash),
        }
    }

    /// The instruction that creates the multisig; the creator is added as a
    /// member with every permission unless a member has its key.
    pub fn instruction_create_multisig(
        &self,
        members: &[Member],
        threshold: u16,
        time_lock: u32,
    ) -> (r: Instruction)
        ensures
            r@ == self.accounts.create_multisig_ix(members_view(members@), threshold, time_lock),
    {
        self.accounts.instruction_create_multisig(members, threshold, time_lock)
    }

    /// The transaction, paid by the creator, that creates the multisig.
    pub fn transaction_create_multisig(
        &self,
        members: &[Member],
        threshold: u16,
        time_lock: u32,
        latest_blockhash: Option<[u8; 32]>,
    ) -> (r: Result<UnsignedTransaction, BusinessAnalystMultisigError>)
        ensures
            tx_result(r) == single_tx(
                Ok::<InstructionView, BusinessAnalystMultisigError>(
                    self.accounts.create_multisig_ix(members_view(members@), threshold, time_lock),
                ),
                self.accounts.creator@,
                latest_blockhash,
                BusinessAnalystMultisigError::ErrorOnGettingLatestBlockHash,
            ),
    {
        let ix = self.instruction_create_multisig(members, threshold, time_lock);
        into_transaction(Ok(ix), &self.accounts.creator, latest_blockhash)
    }

    /// A config transaction, created by `adder`, that adds `new_member`.
    pub fn instructions_add_member(
        &self,
        adder: Address,
        new_member: Member,
        multisig_account: &Option<Vec<u8>>,
    ) -> (r: Result<Instruction, BusinessAnalystMultisigError>)
        ensures
            ix_view(r) == view_result(
                self.accounts.config_transaction_ix(
                    adder@,
                    crate::instruction::ConfigActionView::AddMember { key: new_member.key@, mask: new_member.permissions.mask },
                    crate::memo::add_member_memo(new_member.key@, self.accounts.multisig_pda@),
                    fetched_view(*multisig_account),
                ),
            ),
    {
        surface(self.accounts.instructions_add_member(adder, new_member, multisig_account))
    }

    /// The transaction, paid by `adder`, that holds `instructions_add_member`'s instruction.
    pub fn transaction_add_member(
        &self,
        adder: Address,
        new_member: Member,
        multisig_account: &Option<Vec<u8>>,
        latest_blockhash: Option<[u8; 32]>,
    ) -> (r: Result<UnsignedTransaction, BusinessAnalystMultisigError>)
        ensures
            tx_result(r) == single_tx(
                view_result(
                    self.accounts.config_transaction_ix(
                        adder@,
                        crate::instruction::ConfigActionView::AddMember { key: new_member.key@, mask: new_member.permissions.mask },
                        crate::memo::add_member_memo(new_member.key@, self.accounts.multisig_pda@),
                        fetched_view(*multisig_account),
                    ),
                ),
                adder@,
                latest_blockhash,
                BusinessAnalystMultisigError::ErrorOnGettingLatestBlockHash,
            ),
    {
        let ix = self.instructions_add_member(adder, new_member, multisig_account);
        into_transaction(ix, &adder, latest_blockhash)
    }

    /// A config transaction, created by `remover`, that removes `old_member`.
    pub fn instructions_remove_member(
        &self,
        remover: Address,
        old_member: Address,
        multisig_account: &Option<Vec<u8>>,
    ) -> (r: Result<Instruction, BusinessAnalystMultisigError>)
        ensures
            ix_view(r) == view_result(
                self.accounts.config_transaction_ix(
                    remover@,
                    crate::instruction::ConfigActionView::RemoveMember { key: old_member@ },
                    crate::memo::remove_member_memo(old_member@, self.accounts.multisig_pda@),
                    fetched_view(*multisig_account),
                ),
            ),
    {
        surface(self.accounts.instructions_remove_member(remover, old_member, multisig_account))
    }

    /// The transaction, paid by `remover`, that holds `instructions_remove_member`'s instruction.
    pub fn transaction_remove_member(
        &self,
        remover: Address,
        old_member: Address,
        multisig_account: &Option<Vec<u8>>,
        latest_blockhash: Option<[u8; 32]>,
    ) -> (r: Result<UnsignedTransaction, BusinessAnalystMultisigError>)
        ensures
            tx_result(r) == single_tx(
                view_result(
                    self.accounts.config_transaction_ix(
                        remover@,
                        crate::instruction::ConfigActionView::RemoveMember { key: old_member@ },
                        crate::memo::remove_member_memo(old_member@, self.accounts.multisig_pda@),
                        fetched_view(*multisig_account),
                    ),
                ),
                remover@,
                latest_blockhash,
                BusinessAnalystMultisigError::ErrorOnGettingLatestBlockHash,
            ),
    {
        let ix = self.instructions_remove_member(remover, old_member, multisig_account);
        into_transaction(ix, &remover, latest_blockhash)
    }

    /// A config transaction, created by `changer`, that sets the threshold.
    pub fn instruction_change_threshold(
        &self,
        changer: Address,
        new_threshold: u16,
        multisig_account: &Option<Vec<u8>>,
    ) -> (r: Result<Instruction, BusinessAnalystMultisigError>)
        ensures
            ix_view(r) == view_result(
                self.accounts.config_transaction_ix(
                    changer@,
                    crate::instruction::ConfigActionView::ChangeThreshold { threshold: new_threshold },
                    crate::memo::change_threshold_memo(new_threshold, self.accounts.multisig_pda@),
                    fetched_view(*multisig_account),
                ),
            ),
    {
        surface(
            self.accounts.instruction_change_threshold(changer, new_threshold, multisig_account),
        )
    }

    /// The transaction, paid by `changer`, that holds `instruction_change_threshold`'s instruction.
    pub fn transaction_change_threshold(
        &self,
        changer: Address,
        new_threshold: u16,
        multisig_account: &Option<Vec<u8>>,
        latest_blockhash: Option<[u8; 32]>,
    ) -> (r: Result<UnsignedTransaction, BusinessAnalystMultisigError>)
        ensures
            tx_result(r) == single_tx(
                view_result(
                    self.accounts.config_transaction_ix(
                        changer@,
                        crate::instruction::ConfigActionView::ChangeThreshold { threshold: new_threshold },
                        crate::memo::change_threshold_memo(
                            new_threshold,
                            self.accounts.multisig_pda@,
                        ),
                        fetched_view(*multisig_account),
                    ),
                ),
                changer@,
                latest_blockhash,
                BusinessAnalystMultisigError::ErrorOnGettingLatestBlockHash,
            ),
    {
        let ix = self.instruction_change_threshold(changer, new_threshold, multisig_account);
        into_transaction(ix, &changer, latest_blockhash)
    }

    /// A vault transaction, created by `sender`, that moves `lamports` from
    /// vault 0 to `receiver`.
    pub fn instruction_transfer_from_vault(
        &self,
        sender: Address,
        receiver: Address,
        lamports: u64,
        multisig_account: &Option<Vec<u8>>,
    ) -> (r: Result<Instruction, BusinessAnalystMultisigError>)
        ensures
            ix_view(r) == view_result(
                self.accounts.transfer_from_vault_ix(
                    sender@,
                    receiver@,
                    lamports,
                    fetched_view(*multisig_account),
                ),
            ),
    {
        surface(
            self.accounts.instruction_transfer_from_vault(
                sender,
                receiver,
                lamports,
                multisig_account,
            ),
        )
    }

    /// The transaction, paid by `sender`, that holds `instruction_transfer_from_vault`'s instruction.
    pub fn transaction_transfer_from_vault(
        &self,
        sender: Address,
        receiver: Address,
        lamports: u64,
        multisig_account: &Option<Vec<u8>>,
        latest_blockhash: Option<[u8; 32]>,
    ) -> (r: Result<UnsignedTransaction, BusinessAnalystMultisigError>)
        ensures
            tx_result(r) == single_tx(
                view_result(
                    self.accounts.transfer_from_vault_ix(
                        sender@,
                        receiver@,
                        lamports,
                        fetched_view(*multisig_account),
                    ),
                ),
                sender@,
                latest_blockhash,
                BusinessAnalystMultisigError::ErrorOnGettingLatestBlockHash,
            ),
    {
        let ix = self.instruction_transfer_from_vault(sender, receiver, lamports, multisig_account);
        into_transaction(ix, &sender, latest_blockhash)
    }

    /// The proposal, created by `creator`, of the current transaction.
    pub fn instruction_proposal_create(
        &self,
        creator: Address,
        multisig_account: &Option<Vec<u8>>,
    ) -> (r: Result<Instruction, BusinessAnalystMultisigError>)
        ensures
            ix_view(r) == view_result(self.accounts.proposal_create_ix(creator@, fetched_view(*multisig_account))),
    {
        surface(self.accounts.instruction_proposal_create(creator, multisig_account))
    }

    /// The transaction, paid by `creator`, that holds `instruction_proposal_create`'s instruction.
    pub fn transaction_proposal_create(
        &self,
        creator: Address,
        multisig_account: &Option<Vec<u8>>,
        latest_blockhash: Option<[u8; 32]>,
    ) -> (r: Result<UnsignedTransaction, BusinessAnalystMultisigError>)
        ensures
            tx_result(r) == single_tx(
                view_result(
                    self.accounts.proposal_create_ix(creator@, fetched_view(*multisig_account)),
                ),
                creator@,
                latest_blockhash,
                BusinessAnalystMultisigError::ErrorOnGettingLatestBlockHash,
            ),
    {
        let ix = self.instruction_proposal_create(creator, multisig_account);
        into_transaction(ix, &creator, latest_blockhash)
    }

    /// The execution, by `executer`, of the current config transaction.
    pub fn instruction_config_transaction_execute(
        &self,
        executer: Address,
        multisig_account: &Option<Vec<u8>>,
    ) -> (r: Result<Instruction, BusinessAnalystMultisigError>)
        ensures
            ix_view(r) == view_result(
                self.accounts.config_transaction_execute_ix(
                    executer@,
                    fetched_view(*multisig_account),
                ),
            ),
    {
        surface(self.accounts.instruction_config_transaction_execute(executer, multisig_account))
    }

    /// The transaction, paid by `executer`, that holds `instruction_config_transaction_execute`'s instruction.
    pub fn transaction_config_transaction_execute(
        &self,
        executer: Address,
        multisig_account: &Option<Vec<u8>>,
        latest_blockhash: Option<[u8; 32]>,
    ) -> (r: Result<UnsignedTransaction, BusinessAnalystMultisigError>)
        ensures
            tx_result(r) == single_tx(
                view_result(
                    self.accounts.config_transaction_execute_ix(
                        executer@,
                        fetched_view(*multisig_account),
                    ),
                ),
                executer@,
                latest_blockhash,
                BusinessAnalystMultisigError::ErrorOnGettingLatestBlockHash,
            ),
    {
        let ix = self.instruction_config_transaction_execute(executer, multisig_account);
        into_transaction(ix, &executer, latest_blockhash)
    }

    /// The execution, by `sender`, of the current vault transaction, which
    /// moves `lamports` from vault 0 to `receiver`.
    pub fn instruction_vault_transaction_execute(
        &self,
        sender: Address,
        receiver: Address,
        lamports: u64,
        multisig_account: &Option<Vec<u8>>,
    ) -> (r: Result<Instruction, BusinessAnalystMultisigError>)
        ensures
            ix_view(r) == view_result(
                self.accounts.vault_transaction_execute_ix(
                    sender@,
                    receiver@,
                    lamports,
                    fetched_view(*multisig_account),
                ),
            ),
    {
        surface(
            self.accounts.instruction_vault_transaction_execute(
                sender,
                receiver,
                lamports,
                multisig_account,
            ),
        )
    }

    /// The transaction, paid by `sender`, that holds `instruction_vault_transaction_execute`'s instruction.
    pub fn transaction_vault_transaction_execute(
        &self,
        sender: Address,
        receiver: Address,
        lamports: u64,
        multisig_account: &Option<Vec<u8>>,
        latest_blockhash: Option<[u8; 32]>,
    ) -> (r: Result<UnsignedTransaction, BusinessAnalystMultisigError>)
        ensures
            tx_result(r) == single_tx(
                view_result(
                    self.accounts.vault_transaction_execute_ix(
                        sender@,
                        receiver@,
                        lamports,
                        fetched_view(*multisig_account),
                    ),
                ),
                sender@,
                latest_blockhash,
                BusinessAnalystMultisigError::ErrorOnGettingLatestBlockHash,
            ),
    {
        let ix = self.instruction_vault_transaction_execute(
            sender,
            receiver,
            lamports,
            multisig_account,
        );
        into_transaction(ix, &sender, latest_blockhash)
    }

    /// The vote of `approver` that approves the current transaction's proposal.
    pub fn instruction_proposal_approve(
        &self,
        approver: Address,
        multisig_account: &Option<Vec<u8>>,
    ) -> (r: Result<Instruction, BusinessAnalystMultisigError>)
        ensures
            ix_view(r) == view_result(
                self.accounts.proposal_approve_ix(approver@, fetched_view(*multisig_account)),
            ),
    {
        surface(self.accounts.instruction_proposal_approve(approver, multisig_account))
    }

    /// The transaction, paid by `approver`, that holds `instruction_proposal_approve`'s instruction.
    pub fn transaction_proposal_approve(
        &self,
        approver: Address,
        multisig_account: &Option<Vec<u8>>,
        latest_blockhash: Option<[u8; 32]>,
    ) -> (r: Result<UnsignedTransaction, BusinessAnalystMultisigError>)
        ensures
            tx_result(r) == single_tx(
                view_result(
                    self.accounts.proposal_approve_ix(approver@, fetched_view(*multisig_account)),
                ),
                approver@,
                latest_blockhash,
                BusinessAnalystMultisigError::ErrorOnGettingLatestBlockHash,
            ),
    {
        let ix = self.instruction_proposal_approve(approver, multisig_account);
        into_transaction(ix, &approver, latest_blockhash)
    }

    /// The vote of `canceler` that cancels the current transaction's proposal;
    /// refused unless the proposal, fetched at `current_proposal_address`, is
    /// approved.
    pub fn instruction_proposal_cancel(
        &self,
        canceler: Address,
        multisig_account: &Option<Vec<u8>>,
        proposal_account: &Option<Vec<u8>>,
    ) -> (r: Result<Instruction, BusinessAnalystMultisigError>)
        ensures
            ix_view(r) == view_result(
                self.accounts.proposal_cancel_ix(
                    canceler@,
                    fetched_view(*multisig_account),
                    fetched_view(*proposal_account),
                ),
            ),
    {
        surface(
            self.accounts.instruction_proposal_cancel(canceler, multisig_account, proposal_account),
        )
    }

    /// The transaction, paid by `canceler`, that holds `instruction_proposal_cancel`'s instruction.
    pub fn transaction_proposal_cancel(
        &self,
        canceler: Address,
        multisig_account: &Option<Vec<u8>>,
        proposal_account: &Option<Vec<u8>>,
        latest_blockhash: Option<[u8; 32]>,
    ) -> (r: Result<UnsignedTransaction, BusinessAnalystMultisigError>)
        ensures
            tx_result(r) == single_tx(
                view_result(
                    self.accounts.proposal_cancel_ix(
                        canceler@,
                        fetched_view(*multisig_account),
                        fetched_view(*proposal_account),
                    ),
                ),
                canceler@,
                latest_blockhash,
                BusinessAnalystMultisigError::ErrorOnGettingLatestBlockHash,
            ),
    {
        let ix = self.instruction_proposal_cancel(canceler, multisig_account, proposal_account);
        into_transaction(ix, &canceler, latest_blockhash)
    }

    /// The three instructions that carry a freshly created config transaction
    /// through: its proposal, the member's approval, and its execution, all
    /// built from one read of the multisig and so at one index.
    pub open spec fn settle_ixs(&self, member: Seq<u8>, fetched: Option<Seq<u8>>) -> Result<Seq<InstructionView>, BusinessAnalystMultisigError> {
        match (
            view_result(self.accounts.proposal_create_ix(member, fetched)),
            view_result(self.accounts.proposal_approve_ix(member, fetched)),
            view_result(self.accounts.config_transaction_execute_ix(member, fetched)),
        ) {
            (Err(e), _, _) => Err(e),
            (Ok(_), Err(e), _) => Err(e),
            (Ok(_), Ok(_), Err(e)) => Err(e),
            (Ok(p), Ok(a), Ok(x)) => Ok(seq![p, a, x]),
        }
    }

    /// One transaction, paid by `member`, that proposes, approves and executes
    /// the current config transaction.
    pub fn transaction_settle_config_transaction(
        &self,
        member: Address,
        multisig_account: &Option<Vec<u8>>,
        latest_blockhash: Option<[u8; 32]>,
    ) -> (r: Result<UnsignedTransaction, BusinessAnalystMultisigError>)
        ensures
            match self.settle_ixs(member@, fetched_view(*multisig_account)) {
                Err(e) => r == Err::<UnsignedTransaction, BusinessAnalystMultisigError>(e),
                Ok(ixs) => match latest_blockhash {
                    None => r == Err::<UnsignedTransaction, BusinessAnalystMultisigError>(
                        BusinessAnalystMultisigError::ErrorOnGettingLatestBlockHash),
                    Some(h) => r is Ok && r->Ok_0@ == (UnsignedTransactionView {
                        fee_payer: member@,
                        instructions: ixs,
                        recent_blockhash: h@,
                    }),
                },
            },
    {
        let propose = self.instruction_proposal_create(member, multisig_account)?;
        let approve = self.instruction_proposal_approve(member, multisig_account)?;
        let execute = self.instruction_config_transaction_execute(member, multisig_account)?;
        let ghost ixs = seq![propose@, approve@, execute@];
        let instructions = vec![propose, approve, execute];
        assert(instructions_view(instructions@) =~= ixs);
        self.get_transaction_from_instructions(member, instructions, latest_blockhash)
    }
}

} // verus!
