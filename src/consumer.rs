//! The queue side: where commands come from, the payload of each command,
//! and the parts of a command that are decided before any network work.
use vstd::prelude::*;
use vstd::string::StringExecFns;

verus! {

/// Where a queue consumer connects and which queue it reads.
#[derive(Clone, Copy, Debug)]
pub struct Consumer<'a> {
    url: &'a str,
    channel_id: Option<u16>,
    queue_name: &'a str,
}

impl<'a> Consumer<'a> {
    pub fn create(url: &'a str, channel_id: Option<u16>, queue_name: &'a str) -> (r: Consumer<'a>)
        ensures
            r.url() == url,
            r.channel_id() == channel_id,
            r.queue_name() == queue_name,
    {
        Consumer { url, channel_id, queue_name }
    }

    pub closed spec fn url(&self) -> &'a str {
        self.url
    }

    pub closed spec fn channel_id(&self) -> Option<u16> {
        self.channel_id
    }

    pub closed spec fn queue_name(&self) -> &'a str {
        self.queue_name
    }

    pub fn get_url(&self) -> (r: &'a str)
        ensures
            r == self.url(),
    {
        self.url
    }

    pub fn get_channel_id(&self) -> (r: Option<u16>)
        ensures
            r == self.channel_id(),
    {
        self.channel_id
    }

    pub fn get_queue_name(&self) -> (r: &'a str)
        ensures
            r == self.queue_name(),
    {
        self.queue_name
    }
}

/// The consumer of command messages.
#[derive(Clone, Copy, Debug)]
pub struct RabbitMQConsumer {}

impl RabbitMQConsumer {
    pub fn new() -> (r: RabbitMQConsumer)
        ensures
            r == (RabbitMQConsumer {}),
    {
        RabbitMQConsumer {}
    }
}

/// Payload of `create_user`.
#[derive(Clone, Debug)]
pub struct CreateUserSchema {
    pub email: String,
    pub password: String,
    pub employee_id: i32,
}

/// Payload of `delete_user`.
#[derive(Clone, Copy, Debug)]
pub struct DeleteUserSchema {
    pub employee_id: i32,
}

/// Payload of `add_member`.
#[derive(Clone, Debug)]
pub struct AddMemberDaoSchema {
    pub project_id: String,
    pub pubkey: String,
    pub permissions: Vec<String>,
}

/// Payload of `remove_member`.
#[derive(Clone, Debug)]
pub struct RemoveMemberDaoSchema {
    pub project_id: String,
    pub pubkey: String,
}

/// Payload of `change_threshold`.
#[derive(Clone, Debug)]
pub struct ChangeThresholdDaoSchema {
    pub project_id: String,
    pub new_threshold: u16,
}

/// Payload of `execute_proposal`.
#[derive(Clone, Debug)]
pub struct ProposalExecuteDaoSchema {
    pub project_id: String,
}

/// Payload of `vote`.
#[derive(Clone, Debug)]
pub struct VoteDaoSchema {
    pub project_id: String,
    pub voter: String,
    pub vote: String,
}

/// Payload of `withdraw`.
#[derive(Clone, Debug)]
pub struct WithdrawDaoSchema {
    pub project_id: String,
    pub is_execute: bool,
    pub receiver: String,
    pub amount: u64,
}

/// What a vote asks for.
#[derive(Clone, Copy, Debug, PartialEq, Eq, Structural)]
pub enum VoteAction {
    Approve,
    Cancel,
}

/// The vote action that a vote's text names, if any.
pub open spec fn vote_action_of(vote: Seq<char>) -> Option<VoteAction> {
    if vote == "Cancel"@ {
        Some(VoteAction::Cancel)
    } else if vote == "Approve"@ {
        Some(VoteAction::Approve)
    } else {
        None
    }
}

/// Reads a vote's text: `Cancel` or `Approve`, else the message that the
/// vote is neither.
pub fn parse_vote(vote: &String) -> (r: Result<VoteAction, String>)
    ensures
        match vote_action_of(vote@) {
            Some(a) => r == Ok::<VoteAction, String>(a),
            None => r is Err && r->Err_0@ == vote@ + " is not an \"Approve\" or \"Cancel\""@,
        },
{
    if *vote == String::from_str("Cancel") {
        Ok(VoteAction::Cancel)
    } else if *vote == String::from_str("Approve") {
        Ok(VoteAction::Approve)
    } else {
        let mut message = vote.clone();
        message.append(" is not an \"Approve\" or \"Cancel\"");
        Err(message)
    }
}

} // verus!
