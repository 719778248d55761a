//! Laws of the proposal lifecycle and of the instructions built for it.
use crate::address::{proposal_address, system_program, transaction_address};
use crate::instruction::{
    config_transaction_create_metas, config_transaction_execute_metas, proposal_create_bytes,
    proposal_create_metas, proposal_vote_metas, vault_transaction_create_bytes,
    vault_transaction_execute_metas, ConfigActionView, InstructionView,
};
use crate::memo::transfer_memo;
use crate::multisig::{
    current_index, has_member, is_approved, multisig_of, next_index, with_creator, AccountKind,
    Failure, MultisigAccounts,
};
use crate::state::{decoded_multisig, full_mask, permission_bit, Permission};
use crate::vault_message::{execution_accounts, lemma_index_from_finds, transaction_message_bytes, transfer_message};
use vstd::prelude::*;

verus! {

/// Two account sets built from the same create key hold the same multisig,
/// vault and program configuration addresses; and the proposal and
/// transaction addresses depend on the multisig and the index alone.
pub proof fn lemma_derivation_deterministic(a: MultisigAccounts, b: MultisigAccounts, index: u64)
    requires
        a.wf(),
        b.wf(),
        a.create_key@ == b.create_key@,
    ensures
        a.multisig_pda@ == b.multisig_pda@,
        a.vault_pda@ == b.vault_pda@,
        a.program_config_pda@ == b.program_config_pda@,
        proposal_address(a.multisig_pda@, index) == proposal_address(b.multisig_pda@, index),
        transaction_address(a.multisig_pda@, index) == transaction_address(b.multisig_pda@, index),
{
}

/// A new config transaction takes the index after the current one; once it
/// is created (the account then reads `n + 1`), the proposal is created,
/// voted on and executed at that same index, and the next new transaction
/// takes `n + 2`.
pub proof fn lemma_transaction_index_sequencing(
    a: MultisigAccounts,
    before: Option<Seq<u8>>,
    after: Option<Seq<u8>>,
    member: Seq<u8>,
    action: ConfigActionView,
    memo: Seq<char>,
    n: u64,
)
    requires
        current_index(before) == Ok::<u64, Failure>(n),
        current_index(after) == Ok::<u64, Failure>((n + 1) as u64),
        n + 2 <= u64::MAX,
    ensures
        next_index(before) == Ok::<u64, Failure>((n + 1) as u64),
        next_index(after) == Ok::<u64, Failure>((n + 2) as u64),
        transaction_address(a.multisig_pda@, (n + 1) as u64) matches Some(t) ==>
            a.config_transaction_ix(member, action, memo, before) is Ok
            && a.config_transaction_ix(member, action, memo, before)->Ok_0.accounts
                == config_transaction_create_metas((a.multisig_pda@, t, member, member, system_program())),
        proposal_address(a.multisig_pda@, (n + 1) as u64) matches Some(p) ==> {
            &&& a.proposal_create_ix(member, after) == Ok::<InstructionView, Failure>(InstructionView {
                program_id: crate::address::squads_program(),
                accounts: proposal_create_metas((a.multisig_pda@, p, member, member, system_program())),
                data: proposal_create_bytes(((n + 1) as u64, false)),
            })
            &&& a.proposal_approve_ix(member, after) is Ok
            &&& a.proposal_approve_ix(member, after)->Ok_0.accounts == proposal_vote_metas((a.multisig_pda@, member, p))
        },
        (proposal_address(a.multisig_pda@, (n + 1) as u64) matches Some(p)
            && transaction_address(a.multisig_pda@, (n + 1) as u64) matches Some(t)) ==> {
            &&& a.config_transaction_execute_ix(member, after) is Ok
            &&& a.config_transaction_execute_ix(member, after)->Ok_0.accounts == config_transaction_execute_metas(
                (a.multisig_pda@, member, proposal_address(a.multisig_pda@, (n + 1) as u64)->Some_0,
                 transaction_address(a.multisig_pda@, (n + 1) as u64)->Some_0, Some(member), Some(system_program())),
            )
        },
{
}

/// Creating a multisig with no members gives exactly one member, the creator,
/// with the Initiate, Vote and Execute permissions; a list that already has a
/// member with the creator's key is kept as it is, so the creator never
/// stands twice; any other list gains the creator once.
pub proof fn lemma_creator_auto_inclusion(members: Seq<(Seq<u8>, u8)>, creator: Seq<u8>)
    ensures
        with_creator(Seq::empty(), creator) == seq![(creator, full_mask())],
        full_mask() & permission_bit(Permission::Initiate) != 0,
        full_mask() & permission_bit(Permission::Vote) != 0,
        full_mask() & permission_bit(Permission::Execute) != 0,
        has_member(members, creator) ==> with_creator(members, creator) == members,
        !has_member(members, creator) ==> with_creator(members, creator) == members.push((creator, full_mask())),
        has_member(with_creator(members, creator), creator),
{
    assert(!has_member(Seq::empty(), creator));
    assert(seq![].push((creator, full_mask())) =~= seq![(creator, full_mask())]);
    assert(7u8 & 1u8 != 0) by (bit_vector);
    assert(7u8 & 2u8 != 0) by (bit_vector);
    assert(7u8 & 4u8 != 0) by (bit_vector);
    if !has_member(members, creator) {
        let added = members.push((creator, full_mask()));
        assert(added[members.len() as int].0 == creator);
    }
}

/// A cancel of a proposal whose fetched status is not Approved fails with the
/// status error and gives no instruction; where the status is Approved the
/// cancel targets the proposal of the current index.
pub proof fn lemma_cancel_guard(
    a: MultisigAccounts,
    multisig_fetched: Option<Seq<u8>>,
    proposal_fetched: Option<Seq<u8>>,
    canceler: Seq<u8>,
)
    ensures
        a.status_of(multisig_fetched, proposal_fetched) matches Ok(s) ==> (
            !is_approved(s) ==> a.proposal_cancel_ix(canceler, multisig_fetched, proposal_fetched)
                == Err::<InstructionView, Failure>(Failure::StatusNotApproved)),
        a.status_of(multisig_fetched, proposal_fetched) matches Ok(s) ==> (
            is_approved(s) ==> {
                &&& current_index(multisig_fetched) is Ok
                &&& proposal_address(a.multisig_pda@, current_index(multisig_fetched)->Ok_0) is Some
                &&& a.proposal_cancel_ix(canceler, multisig_fetched, proposal_fetched) is Ok
                &&& a.proposal_cancel_ix(canceler, multisig_fetched, proposal_fetched)->Ok_0.accounts
                    == proposal_vote_metas((a.multisig_pda@, canceler,
                        proposal_address(a.multisig_pda@, current_index(multisig_fetched)->Ok_0)->Some_0))
            }),
{
}

/// The vault transfer's creation and execution carry one and the same
/// compiled message: creation stores its bytes, execution passes on its
/// accounts, both at the index that creation took; its one instruction moves
/// the amount from the vault (the first key) to the receiver.
pub proof fn lemma_vault_transfer_replayed(
    a: MultisigAccounts,
    before: Option<Seq<u8>>,
    after: Option<Seq<u8>>,
    sender: Seq<u8>,
    receiver: Seq<u8>,
    lamports: u64,
    n: u64,
)
    requires
        current_index(before) == Ok::<u64, Failure>(n),
        current_index(after) == Ok::<u64, Failure>((n + 1) as u64),
        n < u64::MAX,
        transaction_address(a.multisig_pda@, (n + 1) as u64) is Some,
        proposal_address(a.multisig_pda@, (n + 1) as u64) is Some,
    ensures
        ({
            let m = transfer_message(a.vault_pda@, receiver, lamports);
            let t = transaction_address(a.multisig_pda@, (n + 1) as u64)->Some_0;
            let p = proposal_address(a.multisig_pda@, (n + 1) as u64)->Some_0;
            &&& a.transfer_from_vault_ix(sender, receiver, lamports, before) is Ok
            &&& a.transfer_from_vault_ix(sender, receiver, lamports, before)->Ok_0.data
                == vault_transaction_create_bytes((0u8, 0u8, transaction_message_bytes(m),
                    Some(transfer_memo(lamports, a.vault_pda@, receiver))))
            &&& a.vault_transaction_execute_ix(sender, receiver, lamports, after) is Ok
            &&& a.vault_transaction_execute_ix(sender, receiver, lamports, after)->Ok_0.accounts
                == vault_transaction_execute_metas((a.multisig_pda@, p, t, sender)) + execution_accounts(m)
            &&& m.account_keys[0] == a.vault_pda@
            &&& m.instructions.len() == 1
            &&& m.instructions[0].1[0] == 0
            &&& m.account_keys[m.instructions[0].1[1] as int] == receiver
            &&& m.instructions[0].2 == crate::instruction::transfer_bytes(lamports)
        }),
{
    let m = transfer_message(a.vault_pda@, receiver, lamports);
    let keys = m.account_keys;
    lemma_index_from_finds(keys, a.vault_pda@, 0, 0);
    if receiver == a.vault_pda@ {
        lemma_index_from_finds(keys, receiver, 0, 0);
    } else {
        lemma_index_from_finds(keys, receiver, 0, 1);
    }
    let ix = m.instructions[0];
    assert(ix.1[0] == 0);
    assert(m.account_keys[ix.1[1] as int] == receiver);
}

/// Reading a multisig that could not be fetched fails as a fetch failure;
/// reading bytes that are not a multisig fails as a decode failure; the two
/// are told apart.
pub proof fn lemma_error_distinction(data: Seq<u8>)
    ensures
        multisig_of(None) == Err::<crate::state::MultisigView, Failure>(Failure::AccountFetch(AccountKind::Multisig)),
        decoded_multisig(data) is None ==> multisig_of(Some(data))
            == Err::<crate::state::MultisigView, Failure>(Failure::AccountDecode(AccountKind::Multisig)),
        Failure::AccountFetch(AccountKind::Multisig) != Failure::AccountDecode(AccountKind::Multisig),
{
}

} // verus!
