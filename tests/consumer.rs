use solana_program::program_error::ProgramError;
use venture_launch_dao::consumer::{parse_vote, Consumer, RabbitMQConsumer, VoteAction};
use venture_launch_dao::error::{BusinessAnalystMultisigError, InvestorMultisigError};

#[test]
fn consumer_keeps_its_settings() {
    let consumer = Consumer::create("amqp://localhost", Some(3), "requests");
    assert_eq!(consumer.get_url(), "amqp://localhost");
    assert_eq!(consumer.get_channel_id(), Some(3));
    assert_eq!(consumer.get_queue_name(), "requests");
    let _ = RabbitMQConsumer::new();
}

#[test]
fn votes_are_parsed() {
    assert_eq!(parse_vote(&"Approve".to_string()), Ok(VoteAction::Approve));
    assert_eq!(parse_vote(&"Cancel".to_string()), Ok(VoteAction::Cancel));
    assert_eq!(parse_vote(&"Reject".to_string()), Err("Reject is not an \"Approve\" or \"Cancel\"".to_string()));
    assert!(parse_vote(&"approve".to_string()).is_err());
}

#[test]
fn error_codes_are_stable() {
    assert_eq!(BusinessAnalystMultisigError::FailedToFetchProgramConfigAccount.to_external_code(), 0);
    assert_eq!(BusinessAnalystMultisigError::FailedToBuildVaultTransactionExecuteInstruction.to_external_code(), 6);
    assert_eq!(BusinessAnalystMultisigError::ProposalStatusIsNotApproved.to_external_code(), 8);
    assert_eq!(InvestorMultisigError::ErrorOnGettingLatestBlockHash.to_external_code(), 6);
    assert_eq!(InvestorMultisigError::ProposalStatusIsNotApproved.to_external_code(), 7);
    assert_eq!(ProgramError::from(BusinessAnalystMultisigError::ErrorOnGettingLatestBlockHash), ProgramError::Custom(7));
    assert_eq!(ProgramError::from(InvestorMultisigError::FailedToFetchMultisigConfigAccount), ProgramError::Custom(1));
}
