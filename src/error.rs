//! Errors of the two multisig views, and their stable numeric codes.
use solana_program::program_error::ProgramError;
use vstd::prelude::*;

verus! {

#[verifier::external_type_specification]
pub struct ExProgramError(ProgramError);

/// Errors of the voting-member view.
#[derive(Clone, Copy, Debug, PartialEq, Eq, Structural)]
pub enum InvestorMultisigError {
    FailedToFetchProgramConfigAccount,
    FailedToFetchMultisigConfigAccount,
    FailedToFetchProposalConfigAccount,
    FailedToDeserializeMultisigConfigData,
    FailedToDeserializeProgramConfigData,
    FailedToDeserializeProposalConfigData,
    ErrorOnGettingLatestBlockHash,
    ProposalStatusIsNotApproved,
    FailedToDeriveAddress,
    TransactionIndexOverflow,
}

impl InvestorMultisigError {
    /// The stable code of each error: its position in the declaration.
    pub open spec fn code_of(self) -> u32 {
        match self {
            InvestorMultisigError::FailedToFetchProgramConfigAccount => 0,
            InvestorMultisigError::FailedToFetchMultisigConfigAccount => 1,
            InvestorMultisigError::FailedToFetchProposalConfigAccount => 2,
            InvestorMultisigError::FailedToDeserializeMultisigConfigData => 3,
            InvestorMultisigError::FailedToDeserializeProgramConfigData => 4,
            InvestorMultisigError::FailedToDeserializeProposalConfigData => 5,
            InvestorMultisigError::ErrorOnGettingLatestBlockHash => 6,
            InvestorMultisigError::ProposalStatusIsNotApproved => 7,
            InvestorMultisigError::FailedToDeriveAddress => 8,
            InvestorMultisigError::TransactionIndexOverflow => 9,
        }
    }

    /// The stable code of the error, as handed to callers outside.
    pub fn to_external_code(&self) -> (r: u32)
        ensures
            r == self.code_of(),
    {
        match self {
            InvestorMultisigError::FailedToFetchProgramConfigAccount => 0,
            InvestorMultisigError::FailedToFetchMultisigConfigAccount => 1,
            InvestorMultisigError::FailedToFetchProposalConfigAccount => 2,
            InvestorMultisigError::FailedToDeserializeMultisigConfigData => 3,
            InvestorMultisigError::FailedToDeserializeProgramConfigData => 4,
            InvestorMultisigError::FailedToDeserializeProposalConfigData => 5,
            InvestorMultisigError::ErrorOnGettingLatestBlockHash => 6,
            InvestorMultisigError::ProposalStatusIsNotApproved => 7,
            InvestorMultisigError::FailedToDeriveAddress => 8,
            InvestorMultisigError::TransactionIndexOverflow => 9,
        }
    }
}

impl From<InvestorMultisigError> for ProgramError {
    fn from(e: InvestorMultisigError) -> (r: ProgramError) {
        ProgramError::Custom(e.to_external_code())
    }
}

impl vstd::std_specs::convert::FromSpecImpl<InvestorMultisigError> for ProgramError {
    open spec fn obeys_from_spec() -> bool {
        true
    }

    open spec fn from_spec(e: InvestorMultisigError) -> ProgramError {
        ProgramError::Custom(e.code_of())
    }
}


/// Errors of the administrative view.
#[derive(Clone, Copy, Debug, PartialEq, Eq, Structural)]
pub enum BusinessAnalystMultisigError {
    FailedToFetchProgramConfigAccount,
    FailedToFetchMultisigConfigAccount,
    FailedToFetchProposalConfigAccount,
    FailedToDeserializeMultisigConfigData,
    FailedToDeserializeProgramConfigData,
    FailedToDeserializeProposalConfigData,
    FailedToBuildVaultTransactionExecuteInstruction,
    ErrorOnGettingLatestBlockHash,
    ProposalStatusIsNotApproved,
    FailedToDeriveAddress,
    TransactionIndexOverflow,
}

impl BusinessAnalystMultisigError {
    /// The stable code of each error: its position in the declaration.
    pub open spec fn code_of(self) -> u32 {
        match self {
            BusinessAnalystMultisigError::FailedToFetchProgramConfigAccount => 0,
            BusinessAnalystMultisigError::FailedToFetchMultisigConfigAccount => 1,
            BusinessAnalystMultisigError::FailedToFetchProposalConfigAccount => 2,
            BusinessAnalystMultisigError::FailedToDeserializeMultisigConfigData => 3,
            BusinessAnalystMultisigError::FailedToDeserializeProgramConfigData => 4,
            BusinessAnalystMultisigError::FailedToDeserializeProposalConfigData => 5,
            BusinessAnalystMultisigError::FailedToBuildVaultTransactionExecuteInstruction => 6,
            BusinessAnalystMultisigError::ErrorOnGettingLatestBlockHash => 7,
            BusinessAnalystMultisigError::ProposalStatusIsNotApproved => 8,
            BusinessAnalystMultisigError::FailedToDeriveAddress => 9,
            BusinessAnalystMultisigError::TransactionIndexOverflow => 10,
        }
    }

    /// The stable code of the error, as handed to callers outside.
    pub fn to_external_code(&self) -> (r: u32)
        ensures
            r == self.code_of(),
    {
        match self {
            BusinessAnalystMultisigError::FailedToFetchProgramConfigAccount => 0,
            BusinessAnalystMultisigError::FailedToFetchMultisigConfigAccount => 1,
            BusinessAnalystMultisigError::FailedToFetchProposalConfigAccount => 2,
            BusinessAnalystMultisigError::FailedToDeserializeMultisigConfigData => 3,
            BusinessAnalystMultisigError::FailedToDeserializeProgramConfigData => 4,
            BusinessAnalystMultisigError::FailedToDeserializeProposalConfigData => 5,
            BusinessAnalystMultisigError::FailedToBuildVaultTransactionExecuteInstruction => 6,
            BusinessAnalystMultisigError::ErrorOnGettingLatestBlockHash => 7,
            BusinessAnalystMultisigError::ProposalStatusIsNotApproved => 8,
            BusinessAnalystMultisigError::FailedToDeriveAddress => 9,
            BusinessAnalystMultisigError::TransactionIndexOverflow => 10,
        }
    }
}

impl From<BusinessAnalystMultisigError> for ProgramError {
    fn from(e: BusinessAnalystMultisigError) -> (r: ProgramError) {
        ProgramError::Custom(e.to_external_code())
    }
}

impl vstd::std_specs::convert::FromSpecImpl<BusinessAnalystMultisigError> for ProgramError {
    open spec fn obeys_from_spec() -> bool {
        true
    }

    open spec fn from_spec(e: BusinessAnalystMultisigError) -> ProgramError {
        ProgramError::Custom(e.code_of())
    }
}

} // verus!
