//! The voting-member view of a multisig: approving and cancelling proposals,
//! and reading the multisig's state.
use crate::address::Address;
use crate::error::InvestorMultisigError;
use crate::instruction::{Instruction, InstructionView};
use crate::multisig::{
    current_index, has_member, ix_result, multisig_of, AccountKind, Failure, MultisigAccounts,
};
use crate::state::{fetched_view, members_view, Member, MultisigState, ProposalStatus};
use crate::transaction::{assemble, instructions_view, single_tx, tx_result, UnsignedTransaction, UnsignedTransactionView};
use vstd::prelude::*;

verus! {

/// What a caller supplies to build the view: the public key of the keypair
/// that seeds the multisig, and the creator.
#[derive(Clone, Copy, Debug)]
pub struct InvestorMultisigCreateArgs {
    pub multisig_create_key: Address,
    pub creator: Address,
}

/// The error that a failure surfaces as.
pub open spec fn error_of(f: Failure) -> InvestorMultisigError {
    match f {
        Failure::AccountFetch(AccountKind::ProgramConfig) => InvestorMultisigError::FailedToFetchProgramConfigAccount,
        Failure::AccountFetch(AccountKind::Multisig) => InvestorMultisigError::FailedToFetchMultisigConfigAccount,
        Failure::AccountFetch(AccountKind::Proposal) => InvestorMultisigError::FailedToFetchProposalConfigAccount,
        Failure::AccountDecode(AccountKind::Multisig) => InvestorMultisigError::FailedToDeserializeMultisigConfigData,
        Failure::AccountDecode(AccountKind::ProgramConfig) => InvestorMultisigError::FailedToDeserializeProgramConfigData,
        Failure::AccountDecode(AccountKind::Proposal) => InvestorMultisigError::FailedToDeserializeProposalConfigData,
        Failure::LatestBlockhash => InvestorMultisigError::ErrorOnGettingLatestBlockHash,
        Failure::StatusNotApproved => InvestorMultisigError::ProposalStatusIsNotApproved,
        Failure::AddressDerivation => InvestorMultisigError::FailedToDeriveAddress,
        Failure::IndexOverflow => InvestorMultisigError::TransactionIndexOverflow,
    }
}

fn to_error(f: Failure) -> (e: InvestorMultisigError)
    ensures
        e == error_of(f),
{
    match f {
        Failure::AccountFetch(AccountKind::ProgramConfig) => InvestorMultisigError::FailedToFetchProgramConfigAccount,
        Failure::AccountFetch(AccountKind::Multisig) => InvestorMultisigError::FailedToFetchMultisigConfigAccount,
        Failure::AccountFetch(AccountKind::Proposal) => InvestorMultisigError::FailedToFetchProposalConfigAccount,
        Failure::AccountDecode(AccountKind::Multisig) => InvestorMultisigError::FailedToDeserializeMultisigConfigData,
        Failure::AccountDecode(AccountKind::ProgramConfig) => InvestorMultisigError::FailedToDeserializeProgramConfigData,
        Failure::AccountDecode(AccountKind::Proposal) => InvestorMultisigError::FailedToDeserializeProposalConfigData,
        Failure::LatestBlockhash => InvestorMultisigError::ErrorOnGettingLatestBlockHash,
        Failure::StatusNotApproved => InvestorMultisigError::ProposalStatusIsNotApproved,
        Failure::AddressDerivation => InvestorMultisigError::FailedToDeriveAddress,
        Failure::IndexOverflow => InvestorMultisigError::TransactionIndexOverflow,
    }
}

pub open spec fn view_result(r: Result<InstructionView, Failure>) -> Result<InstructionView, InvestorMultisigError> {
    match r {
        Ok(v) => Ok(v),
        Err(f) => Err(error_of(f)),
    }
}

pub open spec fn ix_view(r: Result<Instruction, InvestorMultisigError>) -> Result<InstructionView, InvestorMultisigError> {
    match r {
        Ok(ix) => Ok(ix@),
        Err(e) => Err(e),
    }
}

fn surface(r: Result<Instruction, Failure>) -> (o: Result<Instruction, InvestorMultisigError>)
    ensures
        ix_view(o) == view_result(ix_result(r)),
{
    match r {
        Ok(ix) => Ok(ix),
        Err(f) => Err(to_error(f)),
    }
}

fn into_transaction(
    ix: Result<Instruction, InvestorMultisigError>,
    payer: &Address,
    latest_blockhash: Option<[u8; 32]>,
) -> (r: Result<UnsignedTransaction, InvestorMultisigError>)
    ensures
        tx_result(r) == single_tx(
            ix_view(ix),
            payer@,
            latest_blockhash,
            InvestorMultisigError::ErrorOnGettingLatestBlockHash,
        ),
{
    let ix = match ix {
        Ok(ix) => ix,
        Err(e) => return Err(e),
    };
    let ghost v = ix@;
    let ixs = vec![ix];
    assert(instructions_view(ixs@) =~= seq![v]);
    match assemble(payer, ixs, latest_blockhash) {
        Some(t) => Ok(t),
        None => Err(InvestorMultisigError::ErrorOnGettingLatestBlockHash),
    }
}

/// The voting-member view of one multisig.
#[derive(Clone, Copy, Debug)]
pub struct InvestorsMultisig {
    pub accounts: MultisigAccounts,
}

impl InvestorsMultisig {

    pub open spec fn wf(&self) -> bool {
        self.accounts.wf()
    }

    /// Derives the multisig's addresses from the create key and reads the
    /// treasury from the program configuration account, fetched at
    /// `derive_program_config_address()` (`None` where the fetch failed).
    pub fn new(
        args: InvestorMultisigCreateArgs,
        program_config_account: &Option<Vec<u8>>,
    ) -> (r: Result<Self, InvestorMultisigError>)
        ensures
            match r {
                Ok(m) => m.wf() && MultisigAccounts::build(
                    args.multisig_create_key@,
                    args.creator@,
                    fetched_view(*program_config_account),
                )
                    == Ok::<_, Failure>(m.accounts.fields()),
                Err(e) => exists|f: Failure| MultisigAccounts::build(
                    args.multisig_create_key@,
                    args.creator@,
                    fetched_view(*program_config_account),
                )
                    == Err::<(Seq<u8>, Seq<u8>, Seq<u8>, Seq<u8>, Seq<u8>, Seq<u8>), Failure>(f) && error_of(f) == e,
            },
    {
        match MultisigAccounts::new(
            args.multisig_create_key,
            args.creator,
            program_config_account,
        ) {
            Ok(accounts) => Ok(InvestorsMultisig { accounts }),
            Err(f) => Err(to_error(f)),
        }
    }

    /// Builds the view of an existing multisig from its fetched account
    /// (`None` where the fetch failed) and the fetched program configuration.
    pub fn from_multisig(
        creator: Address,
        multisig_account: &Option<Vec<u8>>,
        program_config_account: &Option<Vec<u8>>,
    ) -> (r: Result<Self, InvestorMultisigError>)
        ensures
            match multisig_of(fetched_view(*multisig_account)) {
                Err(f) => r == Err::<Self, InvestorMultisigError>(error_of(f)),
                Ok(m) => match r {
                    Ok(v) => v.wf() && MultisigAccounts::build(
                        m.create_key,
                        creator@,
                        fetched_view(*program_config_account),
                    )
                        == Ok::<_, Failure>(v.accounts.fields()),
                    Err(e) => exists|f: Failure| MultisigAccounts::build(
                        m.create_key,
                        creator@,
                        fetched_view(*program_config_account),
                    )
                        == Err::<(Seq<u8>, Seq<u8>, Seq<u8>, Seq<u8>, Seq<u8>, Seq<u8>), Failure>(f) && error_of(f) == e,
                },
            },
    {
        match MultisigAccounts::from_multisig(creator, multisig_account, program_config_account) {
            Ok(accounts) => Ok(InvestorsMultisig { accounts }),
            Err(f) => Err(to_error(f)),
        }
    }

    /// The arguments that build this view again.
    pub fn get_multisig_create_args(&self) -> (r: InvestorMultisigCreateArgs)
        ensures
            r.multisig_create_key == self.accounts.create_key,
            r.creator == self.accounts.creator,
    {
        InvestorMultisigCreateArgs { multisig_create_key: self.accounts.create_key, creator: self.accounts.creator }
    }

    /// Reads the multisig from its fetched account (`None` where the fetch
    /// failed).
    pub fn get_multisig(
        &self,
        multisig_account: &Option<Vec<u8>>,
    ) -> (r: Result<MultisigState, InvestorMultisigError>)
        ensures
            match multisig_of(fetched_view(*multisig_account)) {
                Ok(v) => r is Ok && r->Ok_0@ == v,
                Err(f) => r == Err::<MultisigState, InvestorMultisigError>(error_of(f)),
            },
    {
        match self.accounts.get_multisig(multisig_account) {
            Ok(m) => Ok(m),
            Err(f) => Err(to_error(f)),
        }
    }

    pub fn get_multisig_members(
        &self,
        multisig_account: &Option<Vec<u8>>,
    ) -> (r: Result<Vec<Member>, InvestorMultisigError>)
        ensures
            match multisig_of(fetched_view(*multisig_account)) {
                Ok(v) => r is Ok && members_view(r->Ok_0@) == v.members,
                Err(f) => r == Err::<Vec<Member>, InvestorMultisigError>(error_of(f)),
            },
    {
        match self.accounts.get_multisig_members(multisig_account) {
            Ok(m) => Ok(m),
            Err(f) => Err(to_error(f)),
        }
    }

    pub fn get_multisig_transaction_index(
        &self,
        multisig_account: &Option<Vec<u8>>,
    ) -> (r: Result<u64, InvestorMultisigError>)
        ensures
            match current_index(fetched_view(*multisig_account)) {
                Ok(i) => r == Ok::<u64, InvestorMultisigError>(i),
                Err(f) => r == Err::<u64, InvestorMultisigError>(error_of(f)),
            },
    {
        match self.accounts.get_multisig_transaction_index(multisig_account) {
            Ok(i) => Ok(i),
            Err(f) => Err(to_error(f)),
        }
    }

    pub fn get_threshold(
        &self,
        multisig_account: &Option<Vec<u8>>,
    ) -> (r: Result<u16, InvestorMultisigError>)
        ensures
            match multisig_of(fetched_view(*multisig_account)) {
                Ok(v) => r == Ok::<u16, InvestorMultisigError>(v.threshold),
                Err(f) => r == Err::<u16, InvestorMultisigError>(error_of(f)),
            },
    {
        match self.accounts.get_threshold(multisig_account) {
            Ok(t) => Ok(t),
            Err(f) => Err(to_error(f)),
        }
    }

    pub fn is_member(
        &self,
        member_pubkey: Address,
        multisig_account: &Option<Vec<u8>>,
    ) -> (r: Result<bool, InvestorMultisigError>)
        ensures
            match multisig_of(fetched_view(*multisig_account)) {
                Ok(v) => r == Ok::<bool, InvestorMultisigError>(has_member(v.members, member_pubkey@)),
                Err(f) => r == Err::<bool, InvestorMultisigError>(error_of(f)),
            },
    {
        match self.accounts.is_member(member_pubkey, multisig_account) {
            Ok(b) => Ok(b),
            Err(f) => Err(to_error(f)),
        }
    }

    /// Address of the current transaction's proposal, whose account
    /// `get_current_proposal_status` and `instruction_proposal_cancel` take.
    pub fn current_proposal_address(
        &self,
        multisig_account: &Option<Vec<u8>>,
    ) -> (r: Result<Address, InvestorMultisigError>)
        ensures
            match current_index(fetched_view(*multisig_account)) {
                Err(f) => r == Err::<Address, InvestorMultisigError>(error_of(f)),
                Ok(i) => match crate::address::proposal_address(self.accounts.multisig_pda@, i) {
                    None => r == Err::<Address, InvestorMultisigError>(
                        InvestorMultisigError::FailedToDeriveAddress,
                    ),
                    Some(p) => r is Ok && r->Ok_0@ == p,
                },
            },
    {
        match self.accounts.current_proposal_address(multisig_account) {
            Ok(p) => Ok(p),
            Err(f) => Err(to_error(f)),
        }
    }

    /// The status of the current transaction's proposal.
    pub fn get_current_proposal_status(
        &self,
        multisig_account: &Option<Vec<u8>>,
        proposal_account: &Option<Vec<u8>>,
    ) -> (r: Result<ProposalStatus, InvestorMultisigError>)
        ensures
            match self.accounts.status_of(
                fetched_view(*multisig_account),
                fetched_view(*proposal_account),
            ) {
                Ok(s) => r == Ok::<ProposalStatus, InvestorMultisigError>(s),
                Err(f) => r == Err::<ProposalStatus, InvestorMultisigError>(error_of(f)),
            },
    {
        match self.accounts.get_current_proposal_status(multisig_account, proposal_account) {
            Ok(s) => Ok(s),
            Err(f) => Err(to_error(f)),
        }
    }

    /// Binds instructions to `sender`, who pays the fee, and to the blockhash
    /// fetched for this transaction (`None` where the fetch failed).
    pub fn get_transaction_from_instructions(
        &self,
        sender: Address,
        instructions: Vec<Instruction>,
        latest_blockhash: Option<[u8; 32]>,
    ) -> (r: Result<UnsignedTransaction, InvestorMultisigError>)
        ensures
            match latest_blockhash {
                None => r == Err::<UnsignedTransaction, InvestorMultisigError>(
                    InvestorMultisigError::ErrorOnGettingLatestBlockHash,
                ),
                Some(h) => r is Ok && r->Ok_0@ == (UnsignedTransactionView {
                    fee_payer: sender@,
                    instructions: instructions_view(instructions@),
                    recent_blockhash: h@,
                }),
            },
    {
        match assemble(&sender, instructions, latest_blockhash) {
            Some(t) => Ok(t),
            None => Err(InvestorMultisigError::ErrorOnGettingLatestBlockHash),
        }
    }

    /// The vote of `approver` that approves the current transaction's proposal.
    pub fn instruction_proposal_approve(
        &self,
        approver: Address,
        multisig_account: &Option<Vec<u8>>,
    ) -> (r: Result<Instruction, InvestorMultisigError>)
        ensures
            ix_view(r) == view_result(
                self.accounts.proposal_approve_ix(approver@, fetched_view(*multisig_account)),
            ),
    {
        surface(self.accounts.instruction_proposal_approve(approver, multisig_account))
    }

    /// The transaction, paid by `approver`, that holds `instruction_proposal_approve`'s instruction.
    pub fn transaction_proposal_approve(
        &self,
        approver: Address,
        multisig_account: &Option<Vec<u8>>,
        latest_blockhash: Option<[u8; 32]>,
    ) -> (r: Result<UnsignedTransaction, InvestorMultisigError>)
        ensures
            tx_result(r) == single_tx(
                view_result(
                    self.accounts.proposal_approve_ix(approver@, fetched_view(*multisig_account)),
                ),
                approver@,
                latest_blockhash,
                InvestorMultisigError::ErrorOnGettingLatestBlockHash,
            ),
    {
        let ix = self.instruction_proposal_approve(approver, multisig_account);
        into_transaction(ix, &approver, latest_blockhash)
    }

    /// The vote of `canceler` that cancels the current transaction's proposal;
    /// refused unless the proposal, fetched at `current_proposal_address`, is
    /// approved.
    pub fn instruction_proposal_cancel(
        &self,
        canceler: Address,
        multisig_account: &Option<Vec<u8>>,
        proposal_account: &Option<Vec<u8>>,
    ) -> (r: Result<Instruction, InvestorMultisigError>)
        ensures
            ix_view(r) == view_result(
                self.accounts.proposal_cancel_ix(
                    canceler@,
                    fetched_view(*multisig_account),
                    fetched_view(*proposal_account),
                ),
            ),
    {
        surface(
            self.accounts.instruction_proposal_cancel(canceler, multisig_account, proposal_account),
        )
    }

    /// The transaction, paid by `canceler`, that holds `instruction_proposal_cancel`'s instruction.
    pub fn transaction_proposal_cancel(
        &self,
        canceler: Address,
        multisig_account: &Option<Vec<u8>>,
        proposal_account: &Option<Vec<u8>>,
        latest_blockhash: Option<[u8; 32]>,
    ) -> (r: Result<UnsignedTransaction, InvestorMultisigError>)
        ensures
            tx_result(r) == single_tx(
                view_result(
                    self.accounts.proposal_cancel_ix(
                        canceler@,
                        fetched_view(*multisig_account),
                        fetched_view(*proposal_account),
                    ),
                ),
                canceler@,
                latest_blockhash,
                InvestorMultisigError::ErrorOnGettingLatestBlockHash,
            ),
    {
        let ix = self.instruction_proposal_cancel(canceler, multisig_account, proposal_account);
        into_transaction(ix, &canceler, latest_blockhash)
    }
}

} // verus!
