//! Typed views of the multisig program's accounts, and the reader that turns
//! fetched account bytes into them.
use crate::address::Address;
use squads_multisig_program::anchor_lang::AccountDeserialize;
use squads_multisig_program::ProposalStatus as S;
use vstd::prelude::*;

verus! {

/// One permission a member may hold.
#[derive(Clone, Copy, Debug, PartialEq, Eq, Structural)]
pub enum Permission {
    Initiate,
    Vote,
    Execute,
}

/// The bit that stands for a permission in a permission mask.
pub open spec fn permission_bit(p: Permission) -> u8 {
    match p {
        Permission::Initiate => 1u8,
        Permission::Vote => 2u8,
        Permission::Execute => 4u8,
    }
}

/// The mask that grants exactly the permissions in `ps`.
pub open spec fn mask_of(ps: Seq<Permission>) -> u8
    decreases ps.len(),
{
    if ps.len() == 0 {
        0u8
    } else {
        mask_of(ps.drop_last()) | permission_bit(ps.last())
    }
}

/// Initiate, Vote and Execute together.
pub open spec fn full_mask() -> u8 {
    7u8
}

/// A bit mask of permissions.
#[derive(Clone, Copy, Debug, PartialEq, Eq, Structural)]
pub struct Permissions {
    pub mask: u8,
}

impl Permissions {
    /// The mask that grants the listed permissions.
    pub fn from_vec(permissions: &[Permission]) -> (r: Permissions)
        ensures
            r.mask == mask_of(permissions@),
    {
        let mut mask: u8 = 0;
        let mut i: usize = 0;
        while i < permissions.len()
            invariant
                0 <= i <= permissions@.len(),
                mask == mask_of(permissions@.subrange(0, i as int)),
            decreases permissions@.len() - i,
        {
            let bit: u8 = match permissions[i] {
                Permission::Initiate => 1,
                Permission::Vote => 2,
                Permission::Execute => 4,
            };
            proof {
                let next = permissions@.subrange(0, i + 1);
                assert(next.drop_last() =~= permissions@.subrange(0, i as int));
            }
            mask = mask | bit;
            i = i + 1;
        }
        assert(permissions@.subrange(0, permissions@.len() as int) =~= permissions@);
        Permissions { mask }
    }

    /// Initiate, Vote and Execute.
    pub fn full() -> (r: Permissions)
        ensures
            r.mask == full_mask(),
    {
        Permissions { mask: 7 }
    }

    /// Whether the mask grants `permission`.
    pub fn has(&self, permission: Permission) -> (r: bool)
        ensures
            r == (self.mask & permission_bit(permission) != 0),
    {
        let bit: u8 = match permission {
            Permission::Initiate => 1,
            Permission::Vote => 2,
            Permission::Execute => 4,
        };
        self.mask & bit != 0
    }
}

/// A member of a multisig: an identity key and its permissions.
#[derive(Clone, Copy, Debug)]
pub struct Member {
    pub key: Address,
    pub permissions: Permissions,
}

impl Member {
    pub open spec fn view(&self) -> (Seq<u8>, u8) {
        (self.key@, self.permissions.mask)
    }
}

pub open spec fn members_view(ms: Seq<Member>) -> Seq<(Seq<u8>, u8)> {
    ms.map_values(|m: Member| m@)
}

/// The fields of a multisig account that this library reads.
pub struct MultisigView {
    pub create_key: Seq<u8>,
    pub threshold: u16,
    pub time_lock: u32,
    pub transaction_index: u64,
    pub members: Seq<(Seq<u8>, u8)>,
}

/// A decoded multisig account.
#[derive(Clone, Debug)]
pub struct MultisigState {
    pub create_key: Address,
    pub threshold: u16,
    pub time_lock: u32,
    /// Index of the last transaction created; 0 when none was.
    pub transaction_index: u64,
    pub members: Vec<Member>,
}

impl MultisigState {
    pub open spec fn view(&self) -> MultisigView {
        MultisigView {
            create_key: self.create_key@,
            threshold: self.threshold,
            time_lock: self.time_lock,
            transaction_index: self.transaction_index,
            members: members_view(self.members@),
        }
    }
}

/// The status of a proposal, each with the time it was set.
#[derive(Clone, Copy, Debug, PartialEq, Eq, Structural)]
pub enum ProposalStatus {
    Draft { timestamp: i64 },
    Active { timestamp: i64 },
    Rejected { timestamp: i64 },
    Approved { timestamp: i64 },
    Executing,
    Executed { timestamp: i64 },
    Cancelled { timestamp: i64 },
}

/// The fields of the program-wide configuration account.
pub struct ProgramConfigView {
    pub authority: Seq<u8>,
    pub multisig_creation_fee: u64,
    pub treasury: Seq<u8>,
}

/// A decoded program configuration account.
#[derive(Clone, Copy, Debug)]
pub struct ProgramConfigState {
    pub authority: Address,
    pub multisig_creation_fee: u64,
    pub treasury: Address,
}

impl ProgramConfigState {
    pub open spec fn view(&self) -> ProgramConfigView {
        ProgramConfigView {
            authority: self.authority@,
            multisig_creation_fee: self.multisig_creation_fee,
            treasury: self.treasury@,
        }
    }
}

/// What `Multisig::try_deserialize` of the multisig program makes of account
/// bytes: the account, or none where the bytes are not one.
pub uninterp spec fn decoded_multisig(data: Seq<u8>) -> Option<MultisigView>;

/// What `Proposal::try_deserialize` of the multisig program makes of account
/// bytes: the proposal's status, or none where the bytes are not a proposal
/// or hold a status that this library does not know.
pub uninterp spec fn decoded_proposal_status(data: Seq<u8>) -> Option<ProposalStatus>;

/// What `ProgramConfig::try_deserialize` of the multisig program makes of
/// account bytes: the configuration, or none where the bytes are not one.
pub uninterp spec fn decoded_program_config(data: Seq<u8>) -> Option<ProgramConfigView>;

/// Relies on `AccountDeserialize::try_deserialize` for the program's
/// `Multisig`: it depends on the bytes alone and fails on fewer than the eight
/// bytes of the account discriminator.
#[verifier::external_body]
fn decode_multisig(data: &[u8]) -> (r: Option<MultisigState>)
    ensures
        match r {
            Some(m) => decoded_multisig(data@) == Some(m@),
            None => decoded_multisig(data@).is_none(),
        },
        data@.len() < 8 ==> r.is_none(),
{
    let mut buf: &[u8] = data;
    squads_multisig_program::Multisig::try_deserialize(&mut buf).ok().map(|m| MultisigState {
        create_key: Address { bytes: m.create_key.to_bytes() },
        threshold: m.threshold,
        time_lock: m.time_lock,
        transaction_index: m.transaction_index,
        members: m.members.iter().map(|x| Member {
            key: Address { bytes: x.key.to_bytes() },
            permissions: Permissions { mask: x.permissions.mask },
        }).collect(),
    })
}

/// Relies on `AccountDeserialize::try_deserialize` for the program's
/// `Proposal`: it depends on the bytes alone and fails on fewer than the eight
/// bytes of the account discriminator. The status enum is non-exhaustive; a
/// variant added after the seven known ones reads as none.
#[verifier::external_body]
#[allow(deprecated)]
fn decode_proposal_status(data: &[u8]) -> (r: Option<ProposalStatus>)
    ensures
        r == decoded_proposal_status(data@),
        data@.len() < 8 ==> r.is_none(),
{
    let mut buf: &[u8] = data;
    squads_multisig_program::Proposal::try_deserialize(&mut buf).ok().and_then(|p| match p.status {
        S::Draft { timestamp } => Some(ProposalStatus::Draft { timestamp }),
        S::Active { timestamp } => Some(ProposalStatus::Active { timestamp }),
        S::Rejected { timestamp } => Some(ProposalStatus::Rejected { timestamp }),
        S::Approved { timestamp } => Some(ProposalStatus::Approved { timestamp }),
        S::Executing => Some(ProposalStatus::Executing),
        S::Executed { timestamp } => Some(ProposalStatus::Executed { timestamp }),
        S::Cancelled { timestamp } => Some(ProposalStatus::Cancelled { timestamp }),
        _ => None,
    })
}

/// Relies on `AccountDeserialize::try_deserialize` for the program's
/// `ProgramConfig`: it depends on the bytes alone and fails on fewer than the
/// eight bytes of the account discriminator.
#[verifier::external_body]
fn decode_program_config(data: &[u8]) -> (r: Option<ProgramConfigState>)
    ensures
        match r {
            Some(c) => decoded_program_config(data@) == Some(c@),
            None => decoded_program_config(data@).is_none(),
        },
        data@.len() < 8 ==> r.is_none(),
{
    let mut buf: &[u8] = data;
    squads_multisig_program::state::ProgramConfig::try_deserialize(&mut buf).ok().map(|c| ProgramConfigState {
        authority: Address { bytes: c.authority.to_bytes() },
        multisig_creation_fee: c.multisig_creation_fee,
        treasury: Address { bytes: c.treasury.to_bytes() },
    })
}

/// Why an account could not be read.
#[derive(Clone, Copy, Debug, PartialEq, Eq, Structural)]
pub enum ReadFailure {
    /// The account could not be fetched.
    Fetch,
    /// The account's bytes are not an account of the expected kind.
    Decode,
}

/// What reading a fetched multisig account gives: the fetch failure, the
/// decode failure, or the decoded account.
pub open spec fn multisig_read(fetched: Option<Seq<u8>>) -> Result<MultisigView, ReadFailure> {
    match fetched {
        None => Err(ReadFailure::Fetch),
        Some(d) => match decoded_multisig(d) {
            None => Err(ReadFailure::Decode),
            Some(v) => Ok(v),
        },
    }
}

/// What reading a fetched proposal account gives.
pub open spec fn proposal_status_read(fetched: Option<Seq<u8>>) -> Result<ProposalStatus, ReadFailure> {
    match fetched {
        None => Err(ReadFailure::Fetch),
        Some(d) => match decoded_proposal_status(d) {
            None => Err(ReadFailure::Decode),
            Some(v) => Ok(v),
        },
    }
}

/// What reading a fetched program configuration account gives.
pub open spec fn program_config_read(fetched: Option<Seq<u8>>) -> Result<ProgramConfigView, ReadFailure> {
    match fetched {
        None => Err(ReadFailure::Fetch),
        Some(d) => match decoded_program_config(d) {
            None => Err(ReadFailure::Decode),
            Some(v) => Ok(v),
        },
    }
}

pub open spec fn fetched_view(fetched: Option<Vec<u8>>) -> Option<Seq<u8>> {
    match fetched {
        Some(d) => Some(d@),
        None => None,
    }
}

/// Reads a multisig account from the outcome of fetching it (`None` where
/// the fetch failed).
pub fn read_multisig(fetched: &Option<Vec<u8>>) -> (r: Result<MultisigState, ReadFailure>)
    ensures
        match r {
            Ok(m) => multisig_read(fetched_view(*fetched)) == Ok::<MultisigView, ReadFailure>(m@),
            Err(e) => multisig_read(fetched_view(*fetched)) == Err::<MultisigView, ReadFailure>(e),
        },
{
    match fetched {
        None => Err(ReadFailure::Fetch),
        Some(data) => match decode_multisig(data.as_slice()) {
            None => Err(ReadFailure::Decode),
            Some(m) => Ok(m),
        },
    }
}

/// Reads a proposal's status from the outcome of fetching the proposal.
pub fn read_proposal_status(fetched: &Option<Vec<u8>>) -> (r: Result<ProposalStatus, ReadFailure>)
    ensures
        r == proposal_status_read(fetched_view(*fetched)),
{
    match fetched {
        None => Err(ReadFailure::Fetch),
        Some(data) => match decode_proposal_status(data.as_slice()) {
            None => Err(ReadFailure::Decode),
            Some(s) => Ok(s),
        },
    }
}

/// Reads the program configuration from the outcome of fetching it.
pub fn read_program_config(fetched: &Option<Vec<u8>>) -> (r: Result<ProgramConfigState, ReadFailure>)
    ensures
        match r {
            Ok(c) => program_config_read(fetched_view(*fetched)) == Ok::<ProgramConfigView, ReadFailure>(c@),
            Err(e) => program_config_read(fetched_view(*fetched)) == Err::<ProgramConfigView, ReadFailure>(e),
        },
{
    match fetched {
        None => Err(ReadFailure::Fetch),
        Some(data) => match decode_program_config(data.as_slice()) {
            None => Err(ReadFailure::Decode),
            Some(c) => Ok(c),
        },
    }
}

} // verus!
