//! The account set of one multisig and the instructions built against it.
//! Both views of a multisig, administrative and voting, stand on this type.
use crate::address::{
    derive_multisig_address, derive_program_config_address, derive_proposal_address,
    derive_transaction_address, derive_vault_address, multisig_address, program_config_address,
    proposal_address, squads_program, squads_program_id, system_program, system_program_id,
    transaction_address, vault_address, Address,
};
use crate::instruction::{
    actions_view, metas_view,
    config_transaction_create_accounts, config_transaction_create_bytes,
    config_transaction_create_data, config_transaction_create_metas,
    config_transaction_execute_accounts, config_transaction_execute_data,
    config_transaction_execute_discriminator, config_transaction_execute_metas,
    multisig_create_v2_accounts, multisig_create_v2_bytes, multisig_create_v2_data,
    multisig_create_v2_metas, proposal_approve_bytes, proposal_approve_data,
    proposal_cancel_bytes, proposal_cancel_data, proposal_create_accounts, proposal_create_bytes,
    proposal_create_data, proposal_create_metas, proposal_vote_accounts, proposal_vote_metas,
    vault_transaction_create_accounts, vault_transaction_create_bytes,
    vault_transaction_create_data, vault_transaction_create_metas,
    vault_transaction_execute_accounts, vault_transaction_execute_data,
    vault_transaction_execute_discriminator, vault_transaction_execute_metas, ConfigAction,
    ConfigActionView, Instruction, InstructionView,
};
use crate::memo::{
    add_member_memo, change_threshold_memo, create_memo, memo_add_member, memo_change_threshold,
    memo_create, memo_remove_member, memo_transfer, remove_member_memo, transfer_memo,
};
use crate::state::{
    fetched_view, full_mask, members_view, multisig_read, program_config_read,
    proposal_status_read, read_multisig, read_program_config, read_proposal_status, Member,
    MultisigState, MultisigView, Permissions, ProposalStatus, ReadFailure,
};
use crate::vault_message::{
    compile_transfer_message, execution_account_metas, execution_accounts,
    serialize_transaction_message, transaction_message_bytes, transfer_message,
};
use vstd::prelude::*;

verus! {

/// An account that this library reads.
#[derive(Clone, Copy, Debug, PartialEq, Eq, Structural)]
pub enum AccountKind {
    ProgramConfig,
    Multisig,
    Proposal,
}

/// Why an operation on a multisig failed.
#[derive(Clone, Copy, Debug, PartialEq, Eq, Structural)]
pub enum Failure {
    /// The account could not be fetched.
    AccountFetch(AccountKind),
    /// The account's bytes are not an account of its kind.
    AccountDecode(AccountKind),
    /// No recent blockhash could be fetched.
    LatestBlockhash,
    /// No program address exists for the seeds.
    AddressDerivation,
    /// The multisig's transaction index cannot grow any more.
    IndexOverflow,
    /// A cancel was asked for a proposal that is not approved.
    StatusNotApproved,
}

pub open spec fn read_failure(e: ReadFailure, kind: AccountKind) -> Failure {
    match e {
        ReadFailure::Fetch => Failure::AccountFetch(kind),
        ReadFailure::Decode => Failure::AccountDecode(kind),
    }
}

fn to_failure(e: ReadFailure, kind: AccountKind) -> (r: Failure)
    ensures
        r == read_failure(e, kind),
{
    match e {
        ReadFailure::Fetch => Failure::AccountFetch(kind),
        ReadFailure::Decode => Failure::AccountDecode(kind),
    }
}

/// The multisig as read from a fetched account.
pub open spec fn multisig_of(fetched: Option<Seq<u8>>) -> Result<MultisigView, Failure> {
    match multisig_read(fetched) {
        Ok(m) => Ok(m),
        Err(e) => Err(read_failure(e, AccountKind::Multisig)),
    }
}

/// The index of the multisig's last transaction, as read from a fetched
/// account.
pub open spec fn current_index(fetched: Option<Seq<u8>>) -> Result<u64, Failure> {
    match multisig_of(fetched) {
        Ok(m) => Ok(m.transaction_index),
        Err(e) => Err(e),
    }
}

/// The index that a new config or vault transaction takes: one past the
/// current one.
pub open spec fn next_index(fetched: Option<Seq<u8>>) -> Result<u64, Failure> {
    match current_index(fetched) {
        Ok(i) => if i == u64::MAX {
            Err(Failure::IndexOverflow)
        } else {
            Ok((i + 1) as u64)
        },
        Err(e) => Err(e),
    }
}

pub open spec fn ix_result(r: Result<Instruction, Failure>) -> Result<InstructionView, Failure> {
    match r {
        Ok(ix) => Ok(ix@),
        Err(e) => Err(e),
    }
}

/// Whether some member has `key`.
pub open spec fn has_member(members: Seq<(Seq<u8>, u8)>, key: Seq<u8>) -> bool {
    exists|i: int| 0 <= i < members.len() && (#[trigger] members[i]).0 == key
}

/// The member list with the creator added, with every permission, unless a
/// member already has the creator's key.
pub open spec fn with_creator(members: Seq<(Seq<u8>, u8)>, creator: Seq<u8>) -> Seq<(Seq<u8>, u8)> {
    if has_member(members, creator) {
        members
    } else {
        members.push((creator, full_mask()))
    }
}

pub open spec fn proposal_vote_ix(multisig: Seq<u8>, member: Seq<u8>, proposal: Seq<u8>, data: Seq<u8>) -> InstructionView {
    InstructionView {
        program_id: squads_program(),
        accounts: proposal_vote_metas((multisig, member, proposal)),
        data,
    }
}

/// Whether a proposal status is the approved one.
pub open spec fn is_approved(s: ProposalStatus) -> bool {
    s is Approved
}

/// The addresses of one multisig, and the program-wide accounts that its
/// instructions name.
#[derive(Clone, Copy, Debug)]
pub struct MultisigAccounts {
    /// Public key of the keypair that seeded the multisig address.
    pub create_key: Address,
    /// The member on whose behalf the multisig is created.
    pub creator: Address,
    pub multisig_pda: Address,
    pub vault_pda: Address,
    pub program_config_pda: Address,
    /// Where the program takes its fee, read from the program configuration.
    pub treasury: Address,
}

impl MultisigAccounts {
    /// The addresses are those that `create_key` derives.
    pub open spec fn wf(&self) -> bool {
        &&& multisig_address(self.create_key@) == Some(self.multisig_pda@)
        &&& vault_address(self.multisig_pda@, 0) == Some(self.vault_pda@)
        &&& program_config_address() == Some(self.program_config_pda@)
    }

    /// What building the account set gives, for a program configuration
    /// fetched from `program_config_address()`.
    pub open spec fn build(create_key: Seq<u8>, creator: Seq<u8>, fetched: Option<Seq<u8>>) -> Result<
        (Seq<u8>, Seq<u8>, Seq<u8>, Seq<u8>, Seq<u8>, Seq<u8>),
        Failure,
    > {
        match multisig_address(create_key) {
            None => Err(Failure::AddressDerivation),
            Some(m) => match vault_address(m, 0) {
                None => Err(Failure::AddressDerivation),
                Some(v) => match program_config_address() {
                    None => Err(Failure::AddressDerivation),
                    Some(p) => match program_config_read(fetched) {
                        Err(e) => Err(read_failure(e, AccountKind::ProgramConfig)),
                        Ok(c) => Ok((create_key, creator, m, v, p, c.treasury)),
                    },
                },
            },
        }
    }

    pub open spec fn fields(&self) -> (Seq<u8>, Seq<u8>, Seq<u8>, Seq<u8>, Seq<u8>, Seq<u8>) {
        (self.create_key@, self.creator@, self.multisig_pda@, self.vault_pda@, self.program_config_pda@, self.treasury@)
    }

    /// Derives the multisig's addresses from its create key and reads the
    /// treasury from the fetched program configuration (`None` where the fetch
    /// failed).
    pub fn new(create_key: Address, creator: Address, program_config_account: &Option<Vec<u8>>) -> (r: Result<MultisigAccounts, Failure>)
        ensures
            match r {
                Ok(a) => a.wf() && Self::build(create_key@, creator@, fetched_view(*program_config_account)) == Ok::<_, Failure>(a.fields()),
                Err(e) => Self::build(create_key@, creator@, fetched_view(*program_config_account)) == Err::<(Seq<u8>, Seq<u8>, Seq<u8>, Seq<u8>, Seq<u8>, Seq<u8>), Failure>(e),
            },
    {
        let multisig_pda = match derive_multisig_address(&create_key) {
            Some(a) => a,
            None => return Err(Failure::AddressDerivation),
        };
        let vault_pda = match derive_vault_address(&multisig_pda, 0) {
            Some(a) => a,
            None => return Err(Failure::AddressDerivation),
        };
        let program_config_pda = match derive_program_config_address() {
            Some(a) => a,
            None => return Err(Failure::AddressDerivation),
        };
        let config = match read_program_config(program_config_account) {
            Ok(c) => c,
            Err(e) => return Err(to_failure(e, AccountKind::ProgramConfig)),
        };
        Ok(MultisigAccounts {
            create_key,
            creator,
            multisig_pda,
            vault_pda,
            program_config_pda,
            treasury: config.treasury,
        })
    }

    /// Builds the account set of an existing multisig from its fetched
    /// account, whose create key seeds every address.
    pub fn from_multisig(
        creator: Address,
        multisig_account: &Option<Vec<u8>>,
        program_config_account: &Option<Vec<u8>>,
    ) -> (r: Result<MultisigAccounts, Failure>)
        ensures
            match multisig_of(fetched_view(*multisig_account)) {
                Err(e) => r == Err::<MultisigAccounts, Failure>(e),
                Ok(m) => match r {
                    Ok(a) => a.wf() && Self::build(m.create_key, creator@, fetched_view(*program_config_account)) == Ok::<_, Failure>(a.fields()),
                    Err(e) => Self::build(m.create_key, creator@, fetched_view(*program_config_account)) == Err::<(Seq<u8>, Seq<u8>, Seq<u8>, Seq<u8>, Seq<u8>, Seq<u8>), Failure>(e),
                },
            },
    {
        let multisig = match read_multisig(multisig_account) {
            Ok(m) => m,
            Err(e) => return Err(to_failure(e, AccountKind::Multisig)),
        };
        Self::new(multisig.create_key, creator, program_config_account)
    }

    /// Reads the multisig from its fetched account.
    pub fn get_multisig(&self, multisig_account: &Option<Vec<u8>>) -> (r: Result<MultisigState, Failure>)
        ensures
            match r {
                Ok(m) => multisig_of(fetched_view(*multisig_account)) == Ok::<MultisigView, Failure>(m@),
                Err(e) => multisig_of(fetched_view(*multisig_account)) == Err::<MultisigView, Failure>(e),
            },
    {
        match read_multisig(multisig_account) {
            Ok(m) => Ok(m),
            Err(e) => Err(to_failure(e, AccountKind::Multisig)),
        }
    }

    /// The index of the multisig's last transaction.
    pub fn get_multisig_transaction_index(&self, multisig_account: &Option<Vec<u8>>) -> (r: Result<u64, Failure>)
        ensures
            r == current_index(fetched_view(*multisig_account)),
    {
        match self.get_multisig(multisig_account) {
            Ok(m) => Ok(m.transaction_index),
            Err(e) => Err(e),
        }
    }

    /// The index that the next config or vault transaction takes.
    pub fn next_transaction_index(&self, multisig_account: &Option<Vec<u8>>) -> (r: Result<u64, Failure>)
        ensures
            r == next_index(fetched_view(*multisig_account)),
    {
        let index = self.get_multisig_transaction_index(multisig_account)?;
        if index == u64::MAX {
            Err(Failure::IndexOverflow)
        } else {
            Ok(index + 1)
        }
    }

    /// Address of the proposal of the multisig's current transaction: the one
    /// whose account `get_current_proposal_status` and
    /// `instruction_proposal_cancel` read.
    pub fn current_proposal_address(&self, multisig_account: &Option<Vec<u8>>) -> (r: Result<Address, Failure>)
        ensures
            match current_index(fetched_view(*multisig_account)) {
                Err(e) => r == Err::<Address, Failure>(e),
                Ok(i) => match proposal_address(self.multisig_pda@, i) {
                    None => r == Err::<Address, Failure>(Failure::AddressDerivation),
                    Some(p) => r.is_ok() && r.unwrap()@ == p,
                },
            },
    {
        let index = self.get_multisig_transaction_index(multisig_account)?;
        match derive_proposal_address(&self.multisig_pda, index) {
            Some(p) => Ok(p),
            None => Err(Failure::AddressDerivation),
        }
    }

    /// The status of the current transaction's proposal, read from the
    /// proposal account fetched at `current_proposal_address`.
    pub open spec fn status_of(
        &self,
        multisig_fetched: Option<Seq<u8>>,
        proposal_fetched: Option<Seq<u8>>,
    ) -> Result<ProposalStatus, Failure> {
        match current_index(multisig_fetched) {
            Err(e) => Err(e),
            Ok(i) => match proposal_address(self.multisig_pda@, i) {
                None => Err(Failure::AddressDerivation),
                Some(_) => match proposal_status_read(proposal_fetched) {
                    Err(e) => Err(read_failure(e, AccountKind::Proposal)),
                    Ok(s) => Ok(s),
                },
            },
        }
    }

    pub fn get_current_proposal_status(
        &self,
        multisig_account: &Option<Vec<u8>>,
        proposal_account: &Option<Vec<u8>>,
    ) -> (r: Result<ProposalStatus, Failure>)
        ensures
            r == self.status_of(fetched_view(*multisig_account), fetched_view(*proposal_account)),
    {
        let _proposal = self.current_proposal_address(multisig_account)?;
        match read_proposal_status(proposal_account) {
            Ok(s) => Ok(s),
            Err(e) => Err(to_failure(e, AccountKind::Proposal)),
        }
    }

    /// The multisig's members.
    pub fn get_multisig_members(&self, multisig_account: &Option<Vec<u8>>) -> (r: Result<Vec<Member>, Failure>)
        ensures
            match r {
                Ok(ms) => multisig_of(fetched_view(*multisig_account)) is Ok
                    && members_view(ms@) == multisig_of(fetched_view(*multisig_account))->Ok_0.members,
                Err(e) => multisig_of(fetched_view(*multisig_account)) == Err::<MultisigView, Failure>(e),
            },
    {
        match self.get_multisig(multisig_account) {
            Ok(m) => Ok(m.members),
            Err(e) => Err(e),
        }
    }

    /// The number of approvals that a proposal needs.
    pub fn get_threshold(&self, multisig_account: &Option<Vec<u8>>) -> (r: Result<u16, Failure>)
        ensures
            match multisig_of(fetched_view(*multisig_account)) {
                Ok(m) => r == Ok::<u16, Failure>(m.threshold),
                Err(e) => r == Err::<u16, Failure>(e),
            },
    {
        match self.get_multisig(multisig_account) {
            Ok(m) => Ok(m.threshold),
            Err(e) => Err(e),
        }
    }

    /// Whether some member of the multisig has `member_pubkey`.
    pub fn is_member(&self, member_pubkey: Address, multisig_account: &Option<Vec<u8>>) -> (r: Result<bool, Failure>)
        ensures
            match multisig_of(fetched_view(*multisig_account)) {
                Ok(m) => r == Ok::<bool, Failure>(has_member(m.members, member_pubkey@)),
                Err(e) => r == Err::<bool, Failure>(e),
            },
    {
        let m = match self.get_multisig(multisig_account) {
            Ok(m) => m,
            Err(e) => return Err(e),
        };
        assert(multisig_of(fetched_view(*multisig_account)) == Ok::<MultisigView, Failure>(m@));
        let mut i: usize = 0;
        while i < m.members.len()
            invariant
                0 <= i <= m.members@.len(),
                multisig_of(fetched_view(*multisig_account)) == Ok::<MultisigView, Failure>(m@),
                forall|j: int| 0 <= j < i ==> (#[trigger] m.members@[j]).key@ != member_pubkey@,
            decreases m.members@.len() - i,
        {
            if m.members[i].key.same(&member_pubkey) {
                assert(members_view(m.members@)[i as int].0 == member_pubkey@);
                assert(has_member(members_view(m.members@), member_pubkey@));
                return Ok(true);
            }
            i = i + 1;
        }
        proof {
            let all = members_view(m.members@);
            if has_member(all, member_pubkey@) {
                let j = choose|j: int| 0 <= j < all.len() && (#[trigger] all[j]).0 == member_pubkey@;
                assert(m.members@[j].key@ == member_pubkey@);
            }
        }
        Ok(false)
    }

    /// The instruction that creates the multisig with `members`, the creator
    /// among them.
    pub open spec fn create_multisig_ix(&self, members: Seq<(Seq<u8>, u8)>, threshold: u16, time_lock: u32) -> InstructionView {
        InstructionView {
            program_id: squads_program(),
            accounts: multisig_create_v2_metas(
                (self.program_config_pda@, self.treasury@, self.multisig_pda@, self.create_key@, self.creator@, system_program()),
            ),
            data: multisig_create_v2_bytes(
                (None, threshold, with_creator(members, self.creator@), time_lock, None, Some(create_memo())),
            ),
        }
    }

    /// `members` with the creator added, with every permission, unless a
    /// member already has the creator's key.
    pub fn members_with_creator(&self, members: &[Member]) -> (r: Vec<Member>)
        ensures
            members_view(r@) == with_creator(members_view(members@), self.creator@),
    {
        let mut r: Vec<Member> = Vec::new();
        let mut found = false;
        let mut i: usize = 0;
        while i < members.len()
            invariant
                0 <= i <= members@.len(),
                r@ == members@.subrange(0, i as int),
                found == (exists|j: int| 0 <= j < i && (#[trigger] members@[j]).key@ == self.creator@),
            decreases members@.len() - i,
        {
            let m = members[i];
            if m.key.same(&self.creator) {
                found = true;
            }
            r.push(m);
            i = i + 1;
            assert(r@ =~= members@.subrange(0, i as int));
        }
        assert(r@ =~= members@);
        proof {
            let all = members_view(members@);
            if found {
                let j = choose|j: int| 0 <= j < members@.len() && (#[trigger] members@[j]).key@ == self.creator@;
                assert(all[j].0 == self.creator@);
            }
            if has_member(all, self.creator@) {
                let j = choose|j: int| 0 <= j < all.len() && (#[trigger] all[j]).0 == self.creator@;
                assert(members@[j].key@ == self.creator@);
            }
        }
        if !found {
            let creator = Member { key: self.creator, permissions: Permissions::full() };
            r.push(creator);
            assert(members_view(r@) =~= members_view(members@).push((self.creator@, full_mask())));
        }
        r
    }

    /// The instruction that creates the multisig with `members`, threshold and
    /// time lock, the creator added as a member where it is absent.
    pub fn instruction_create_multisig(&self, members: &[Member], threshold: u16, time_lock: u32) -> (r: Instruction)
        ensures
            r@ == self.create_multisig_ix(members_view(members@), threshold, time_lock),
    {
        let members = self.members_with_creator(members);
        let accounts = multisig_create_v2_accounts(
            &self.program_config_pda,
            &self.treasury,
            &self.multisig_pda,
            &self.create_key,
            &self.creator,
            &system_program_id(),
        );
        let data = multisig_create_v2_data(None, threshold, &members, time_lock, None, Some(memo_create()));
        Instruction { program_id: squads_program_id(), accounts, data }
    }

    /// The instruction that creates a config transaction holding `action`, at
    /// the index after the multisig's current one.
    pub open spec fn config_transaction_ix(
        &self,
        creator: Seq<u8>,
        action: ConfigActionView,
        memo: Seq<char>,
        fetched: Option<Seq<u8>>,
    ) -> Result<InstructionView, Failure> {
        match next_index(fetched) {
            Err(e) => Err(e),
            Ok(i) => match transaction_address(self.multisig_pda@, i) {
                None => Err(Failure::AddressDerivation),
                Some(t) => Ok(InstructionView {
                    program_id: squads_program(),
                    accounts: config_transaction_create_metas(
                        (self.multisig_pda@, t, creator, creator, system_program()),
                    ),
                    data: config_transaction_create_bytes((seq![action], Some(memo))),
                }),
            },
        }
    }

    fn config_transaction_create(
        &self,
        creator: &Address,
        action: ConfigAction,
        memo: String,
        multisig_account: &Option<Vec<u8>>,
    ) -> (r: Result<Instruction, Failure>)
        ensures
            ix_result(r) == self.config_transaction_ix(creator@, action@, memo@, fetched_view(*multisig_account)),
    {
        let index = self.next_transaction_index(multisig_account)?;
        let transaction = match derive_transaction_address(&self.multisig_pda, index) {
            Some(t) => t,
            None => return Err(Failure::AddressDerivation),
        };
        let accounts = config_transaction_create_accounts(
            &self.multisig_pda,
            &transaction,
            creator,
            creator,
            &system_program_id(),
        );
        let actions = vec![action];
        assert(actions_view(actions@) =~= seq![action@]);
        let data = config_transaction_create_data(&actions, Some(memo));
        Ok(Instruction { program_id: squads_program_id(), accounts, data })
    }

    /// A config transaction, created by `adder`, that adds `new_member`.
    pub fn instructions_add_member(
        &self,
        adder: Address,
        new_member: Member,
        multisig_account: &Option<Vec<u8>>,
    ) -> (r: Result<Instruction, Failure>)
        ensures
            ix_result(r) == self.config_transaction_ix(
                adder@,
                ConfigActionView::AddMember { key: new_member.key@, mask: new_member.permissions.mask },
                add_member_memo(new_member.key@, self.multisig_pda@),
                fetched_view(*multisig_account),
            ),
    {
        let memo = memo_add_member(&new_member.key, &self.multisig_pda);
        self.config_transaction_create(&adder, ConfigAction::AddMember { new_member }, memo, multisig_account)
    }

    /// A config transaction, created by `remover`, that removes the member
    /// with key `old_member`.
    pub fn instructions_remove_member(
        &self,
        remover: Address,
        old_member: Address,
        multisig_account: &Option<Vec<u8>>,
    ) -> (r: Result<Instruction, Failure>)
        ensures
            ix_result(r) == self.config_transaction_ix(
                remover@,
                ConfigActionView::RemoveMember { key: old_member@ },
                remove_member_memo(old_member@, self.multisig_pda@),
                fetched_view(*multisig_account),
            ),
    {
        let memo = memo_remove_member(&old_member, &self.multisig_pda);
        self.config_transaction_create(&remover, ConfigAction::RemoveMember { old_member }, memo, multisig_account)
    }

    /// A config transaction, created by `changer`, that sets the threshold.
    pub fn instruction_change_threshold(
        &self,
        changer: Address,
        new_threshold: u16,
        multisig_account: &Option<Vec<u8>>,
    ) -> (r: Result<Instruction, Failure>)
        ensures
            ix_result(r) == self.config_transaction_ix(
                changer@,
                ConfigActionView::ChangeThreshold { threshold: new_threshold },
                change_threshold_memo(new_threshold, self.multisig_pda@),
                fetched_view(*multisig_account),
            ),
    {
        let memo = memo_change_threshold(new_threshold, &self.multisig_pda);
        self.config_transaction_create(&changer, ConfigAction::ChangeThreshold { new_threshold }, memo, multisig_account)
    }

    /// The instruction that creates a vault transaction moving `lamports`
    /// from vault 0 to `receiver`, at the index after the current one.
    pub open spec fn transfer_from_vault_ix(
        &self,
        sender: Seq<u8>,
        receiver: Seq<u8>,
        lamports: u64,
        fetched: Option<Seq<u8>>,
    ) -> Result<InstructionView, Failure> {
        match next_index(fetched) {
            Err(e) => Err(e),
            Ok(i) => match transaction_address(self.multisig_pda@, i) {
                None => Err(Failure::AddressDerivation),
                Some(t) => Ok(InstructionView {
                    program_id: squads_program(),
                    accounts: vault_transaction_create_metas(
                        (self.multisig_pda@, t, sender, sender, system_program()),
                    ),
                    data: vault_transaction_create_bytes((
                        0u8,
                        0u8,
                        transaction_message_bytes(transfer_message(self.vault_pda@, receiver, lamports)),
                        Some(transfer_memo(lamports, self.vault_pda@, receiver)),
                    )),
                }),
            },
        }
    }

    pub fn instruction_transfer_from_vault(
        &self,
        sender: Address,
        receiver: Address,
        lamports: u64,
        multisig_account: &Option<Vec<u8>>,
    ) -> (r: Result<Instruction, Failure>)
        ensures
            ix_result(r) == self.transfer_from_vault_ix(sender@, receiver@, lamports, fetched_view(*multisig_account)),
    {
        let index = self.next_transaction_index(multisig_account)?;
        let transaction = match derive_transaction_address(&self.multisig_pda, index) {
            Some(t) => t,
            None => return Err(Failure::AddressDerivation),
        };
        let message = compile_transfer_message(&self.vault_pda, &receiver, lamports);
        let message_bytes = serialize_transaction_message(&message);
        let accounts = vault_transaction_create_accounts(
            &self.multisig_pda,
            &transaction,
            &sender,
            &sender,
            &system_program_id(),
        );
        let memo = memo_transfer(lamports, &self.vault_pda, &receiver);
        let data = vault_transaction_create_data(0, 0, &message_bytes, Some(memo));
        Ok(Instruction { program_id: squads_program_id(), accounts, data })
    }

    /// The instruction that creates the proposal of the multisig's current
    /// transaction, not as a draft.
    pub open spec fn proposal_create_ix(&self, creator: Seq<u8>, fetched: Option<Seq<u8>>) -> Result<InstructionView, Failure> {
        match current_index(fetched) {
            Err(e) => Err(e),
            Ok(i) => match proposal_address(self.multisig_pda@, i) {
                None => Err(Failure::AddressDerivation),
                Some(p) => Ok(InstructionView {
                    program_id: squads_program(),
                    accounts: proposal_create_metas((self.multisig_pda@, p, creator, creator, system_program())),
                    data: proposal_create_bytes((i, false)),
                }),
            },
        }
    }

    pub fn instruction_proposal_create(&self, creator: Address, multisig_account: &Option<Vec<u8>>) -> (r: Result<Instruction, Failure>)
        ensures
            ix_result(r) == self.proposal_create_ix(creator@, fetched_view(*multisig_account)),
    {
        let index = self.get_multisig_transaction_index(multisig_account)?;
        let proposal = match derive_proposal_address(&self.multisig_pda, index) {
            Some(p) => p,
            None => return Err(Failure::AddressDerivation),
        };
        let accounts = proposal_create_accounts(&self.multisig_pda, &proposal, &creator, &creator, &system_program_id());
        let data = proposal_create_data(index, false);
        Ok(Instruction { program_id: squads_program_id(), accounts, data })
    }

    /// The vote that approves the proposal of the current transaction.
    pub open spec fn proposal_approve_ix(&self, approver: Seq<u8>, fetched: Option<Seq<u8>>) -> Result<InstructionView, Failure> {
        match current_index(fetched) {
            Err(e) => Err(e),
            Ok(i) => match proposal_address(self.multisig_pda@, i) {
                None => Err(Failure::AddressDerivation),
                Some(p) => Ok(proposal_vote_ix(self.multisig_pda@, approver, p, proposal_approve_bytes(None))),
            },
        }
    }

    pub fn instruction_proposal_approve(&self, approver: Address, multisig_account: &Option<Vec<u8>>) -> (r: Result<Instruction, Failure>)
        ensures
            ix_result(r) == self.proposal_approve_ix(approver@, fetched_view(*multisig_account)),
    {
        let proposal = self.current_proposal_address(multisig_account)?;
        let accounts = proposal_vote_accounts(&self.multisig_pda, &approver, &proposal);
        let data = proposal_approve_data(None);
        Ok(Instruction { program_id: squads_program_id(), accounts, data })
    }

    /// The vote that cancels the proposal of the current transaction: only
    /// where that proposal, as fetched, is approved.
    pub open spec fn proposal_cancel_ix(
        &self,
        canceler: Seq<u8>,
        fetched: Option<Seq<u8>>,
        proposal_fetched: Option<Seq<u8>>,
    ) -> Result<InstructionView, Failure> {
        match self.status_of(fetched, proposal_fetched) {
            Err(e) => Err(e),
            Ok(s) => if !is_approved(s) {
                Err(Failure::StatusNotApproved)
            } else {
                Ok(proposal_vote_ix(
                    self.multisig_pda@,
                    canceler,
                    proposal_address(self.multisig_pda@, current_index(fetched)->Ok_0)->Some_0,
                    proposal_cancel_bytes(None),
                ))
            },
        }
    }

    pub fn instruction_proposal_cancel(
        &self,
        canceler: Address,
        multisig_account: &Option<Vec<u8>>,
        proposal_account: &Option<Vec<u8>>,
    ) -> (r: Result<Instruction, Failure>)
        ensures
            ix_result(r) == self.proposal_cancel_ix(canceler@, fetched_view(*multisig_account), fetched_view(*proposal_account)),
    {
        let status = self.get_current_proposal_status(multisig_account, proposal_account)?;
        match status {
            ProposalStatus::Approved { .. } => {},
            _ => return Err(Failure::StatusNotApproved),
        }
        let proposal = self.current_proposal_address(multisig_account)?;
        let accounts = proposal_vote_accounts(&self.multisig_pda, &canceler, &proposal);
        let data = proposal_cancel_data(None);
        Ok(Instruction { program_id: squads_program_id(), accounts, data })
    }

    /// The instruction that executes the current config transaction.
    pub open spec fn config_transaction_execute_ix(&self, executer: Seq<u8>, fetched: Option<Seq<u8>>) -> Result<InstructionView, Failure> {
        match current_index(fetched) {
            Err(e) => Err(e),
            Ok(i) => match (proposal_address(self.multisig_pda@, i), transaction_address(self.multisig_pda@, i)) {
                (Some(p), Some(t)) => Ok(InstructionView {
                    program_id: squads_program(),
                    accounts: config_transaction_execute_metas(
                        (self.multisig_pda@, executer, p, t, Some(executer), Some(system_program())),
                    ),
                    data: config_transaction_execute_discriminator(),
                }),
                _ => Err(Failure::AddressDerivation),
            },
        }
    }

    pub fn instruction_config_transaction_execute(&self, executer: Address, multisig_account: &Option<Vec<u8>>) -> (r: Result<Instruction, Failure>)
        ensures
            ix_result(r) == self.config_transaction_execute_ix(executer@, fetched_view(*multisig_account)),
    {
        let index = self.get_multisig_transaction_index(multisig_account)?;
        let proposal = match derive_proposal_address(&self.multisig_pda, index) {
            Some(p) => p,
            None => return Err(Failure::AddressDerivation),
        };
        let transaction = match derive_transaction_address(&self.multisig_pda, index) {
            Some(t) => t,
            None => return Err(Failure::AddressDerivation),
        };
        let accounts = config_transaction_execute_accounts(
            &self.multisig_pda,
            &executer,
            &proposal,
            &transaction,
            Some(executer),
            Some(system_program_id()),
        );
        let data = config_transaction_execute_data();
        Ok(Instruction { program_id: squads_program_id(), accounts, data })
    }

    /// The instruction that executes the current vault transaction, which
    /// moves `lamports` from vault 0 to `receiver`: the message is compiled
    /// again exactly as at creation, and its accounts follow the program's own.
    pub open spec fn vault_transaction_execute_ix(
        &self,
        sender: Seq<u8>,
        receiver: Seq<u8>,
        lamports: u64,
        fetched: Option<Seq<u8>>,
    ) -> Result<InstructionView, Failure> {
        match current_index(fetched) {
            Err(e) => Err(e),
            Ok(i) => match (transaction_address(self.multisig_pda@, i), proposal_address(self.multisig_pda@, i)) {
                (Some(t), Some(p)) => Ok(InstructionView {
                    program_id: squads_program(),
                    accounts: vault_transaction_execute_metas((self.multisig_pda@, p, t, sender))
                        + execution_accounts(transfer_message(self.vault_pda@, receiver, lamports)),
                    data: vault_transaction_execute_discriminator(),
                }),
                _ => Err(Failure::AddressDerivation),
            },
        }
    }

    pub fn instruction_vault_transaction_execute(
        &self,
        sender: Address,
        receiver: Address,
        lamports: u64,
        multisig_account: &Option<Vec<u8>>,
    ) -> (r: Result<Instruction, Failure>)
        ensures
            ix_result(r) == self.vault_transaction_execute_ix(sender@, receiver@, lamports, fetched_view(*multisig_account)),
    {
        let index = self.get_multisig_transaction_index(multisig_account)?;
        let transaction = match derive_transaction_address(&self.multisig_pda, index) {
            Some(t) => t,
            None => return Err(Failure::AddressDerivation),
        };
        let proposal = match derive_proposal_address(&self.multisig_pda, index) {
            Some(p) => p,
            None => return Err(Failure::AddressDerivation),
        };
        let message = compile_transfer_message(&self.vault_pda, &receiver, lamports);
        let mut accounts = vault_transaction_execute_accounts(&self.multisig_pda, &proposal, &transaction, &sender);
        let mut extra = execution_account_metas(&message);
        let ghost head = accounts@;
        let ghost tail = extra@;
        accounts.append(&mut extra);
        assert(metas_view(accounts@) =~= metas_view(head) + metas_view(tail));
        let data = vault_transaction_execute_data();
        Ok(Instruction { program_id: squads_program_id(), accounts, data })
    }
}

} // verus!
