//! The message of a vault transaction that moves lamports out of the vault,
//! compiled once for creation and again, identically, for execution.
use crate::address::{system_program, system_program_id, Address};
use crate::instruction::{metas_view, system_transfer, transfer_bytes, AccountMeta};
use squads_multisig_program::anchor_lang::AnchorSerialize;
use squads_multisig_program::SmallVec;
use solana_program::pubkey::Pubkey;
use vstd::prelude::*;

verus! {

/// An instruction whose program and accounts are indexes into the message's
/// account keys.
#[derive(Clone, Debug)]
pub struct CompiledInstruction {
    pub program_id_index: u8,
    pub account_indexes: Vec<u8>,
    pub data: Vec<u8>,
}

impl CompiledInstruction {
    pub open spec fn view(&self) -> (u8, Seq<u8>, Seq<u8>) {
        (self.program_id_index, self.account_indexes@, self.data@)
    }
}

pub struct VaultMessageView {
    pub num_signers: u8,
    pub num_writable_signers: u8,
    pub num_writable_non_signers: u8,
    pub account_keys: Seq<Seq<u8>>,
    pub instructions: Seq<(u8, Seq<u8>, Seq<u8>)>,
}

/// A vault transaction message without address lookup tables.
#[derive(Clone, Debug)]
pub struct VaultTransactionMessage {
    pub num_signers: u8,
    pub num_writable_signers: u8,
    pub num_writable_non_signers: u8,
    pub account_keys: Vec<Address>,
    pub instructions: Vec<CompiledInstruction>,
}

impl VaultTransactionMessage {
    pub open spec fn view(&self) -> VaultMessageView {
        VaultMessageView {
            num_signers: self.num_signers,
            num_writable_signers: self.num_writable_signers,
            num_writable_non_signers: self.num_writable_non_signers,
            account_keys: self.account_keys@.map_values(|k: Address| k@),
            instructions: self.instructions@.map_values(|i: CompiledInstruction| i@),
        }
    }

    /// Lengths that the message's compact encoding can hold.
    pub open spec fn fits(&self) -> bool {
        &&& self.account_keys@.len() <= 255
        &&& self.instructions@.len() <= 255
        &&& forall|i: int| 0 <= i < self.instructions@.len() ==> {
            &&& (#[trigger] self.instructions@[i]).account_indexes@.len() <= 255
            &&& self.instructions@[i].data@.len() <= 65535
        }
    }
}

/// The first position of `k` in `keys` from position `i` on, or the length
/// of `keys` where `k` does not stand there.
pub open spec fn index_from(keys: Seq<Seq<u8>>, k: Seq<u8>, i: nat) -> nat
    decreases keys.len() - i,
{
    if i >= keys.len() {
        keys.len()
    } else if keys[i as int] == k {
        i
    } else {
        index_from(keys, k, i + 1)
    }
}

/// The compiled message of one system transfer of `lamports` from `vault` to
/// `receiver`, the vault paying and signing. Each key stands once, writable
/// signers first, then writable non-signers, then read-only non-signers: the
/// vault; the receiver, writable, unless it is the vault; the system program,
/// read-only, unless it is already there. The instruction names the system
/// program, the vault and the receiver by their positions.
pub open spec fn transfer_message(vault: Seq<u8>, receiver: Seq<u8>, lamports: u64) -> VaultMessageView {
    let sys = system_program();
    let writable: Seq<Seq<u8>> = if receiver == vault { seq![] } else { seq![receiver] };
    let readonly: Seq<Seq<u8>> = if sys == vault || sys == receiver { seq![] } else { seq![sys] };
    let keys = seq![vault] + writable + readonly;
    VaultMessageView {
        num_signers: 1,
        num_writable_signers: 1,
        num_writable_non_signers: writable.len() as u8,
        account_keys: keys,
        instructions: seq![(
            index_from(keys, sys, 0) as u8,
            seq![index_from(keys, vault, 0) as u8, index_from(keys, receiver, 0) as u8],
            transfer_bytes(lamports),
        )],
    }
}

/// Where `k` stands at or after position `i`, the search finds a position of
/// `k`, no later than any such position.
pub proof fn lemma_index_from_finds(keys: Seq<Seq<u8>>, k: Seq<u8>, i: nat, j: int)
    requires
        i <= j < keys.len(),
        keys[j] == k,
    ensures
        index_from(keys, k, i) <= j,
        keys[index_from(keys, k, i) as int] == k,
    decreases j - i,
{
    if keys[i as int] != k {
        lemma_index_from_finds(keys, k, i + 1, j);
    }
}

pub open spec fn keys_view(keys: Seq<Address>) -> Seq<Seq<u8>> {
    keys.map_values(|k: Address| k@)
}

/// The first position of `k` in `keys`, or their number where it is absent.
fn position(keys: &Vec<Address>, k: &Address) -> (r: usize)
    ensures
        r == index_from(keys_view(keys@), k@, 0),
        r <= keys@.len(),
{
    let ghost kv = keys_view(keys@);
    let mut i: usize = 0;
    while i < keys.len()
        invariant
            0 <= i <= keys@.len(),
            kv == keys_view(keys@),
            index_from(kv, k@, 0) == index_from(kv, k@, i as nat),
        decreases keys@.len() - i,
    {
        assert(kv[i as int] == keys@[i as int]@);
        if keys[i].same(k) {
            return i;
        }
        i = i + 1;
    }
    i
}

/// Whether the key at index `i` of a message is writable.
pub open spec fn is_writable_index(m: VaultMessageView, i: int) -> bool {
    i < m.num_writable_signers || (m.num_signers <= i && i < m.num_signers + m.num_writable_non_signers)
}

/// The accounts that executing a vault transaction passes on: each key of its
/// message, in order, none as a signer, writable where the message says so.
pub open spec fn execution_accounts(m: VaultMessageView) -> Seq<(Seq<u8>, bool, bool)> {
    Seq::new(m.account_keys.len(), |i: int| (m.account_keys[i], false, is_writable_index(m, i)))
}

/// Compiles the transfer of `lamports` from the vault to `receiver` into a
/// vault transaction message.
pub fn compile_transfer_message(vault: &Address, receiver: &Address, lamports: u64) -> (r: VaultTransactionMessage)
    ensures
        r@ == transfer_message(vault@, receiver@, lamports),
        r.fits(),
{
    let transfer = system_transfer(vault, receiver, lamports);
    let sys = system_program_id();
    let data = transfer.data;
    let mut keys: Vec<Address> = vec![*vault];
    let mut writable: u8 = 0;
    if !receiver.same(vault) {
        keys.push(*receiver);
        writable = 1;
    }
    if !(sys.same(vault) || sys.same(receiver)) {
        keys.push(sys);
    }
    let program_index = position(&keys, &sys) as u8;
    let indexes = vec![position(&keys, vault) as u8, position(&keys, receiver) as u8];
    let ix = CompiledInstruction { program_id_index: program_index, account_indexes: indexes, data };
    let r = VaultTransactionMessage {
        num_signers: 1,
        num_writable_signers: 1,
        num_writable_non_signers: writable,
        account_keys: keys,
        instructions: vec![ix],
    };
    proof {
        let t = transfer_message(vault@, receiver@, lamports);
        assert(keys_view(r.account_keys@) =~= t.account_keys);
        assert(r@.account_keys =~= t.account_keys);
        assert(r.instructions@[0].account_indexes@ =~= t.instructions[0].1);
        assert(r@.instructions =~= t.instructions);
    }
    r
}

/// The accounts that executing the vault transaction with message `m` passes
/// on, in order.
pub fn execution_account_metas(m: &VaultTransactionMessage) -> (r: Vec<AccountMeta>)
    ensures
        metas_view(r@) == execution_accounts(m@),
{
    let mut r: Vec<AccountMeta> = Vec::new();
    let mut i: usize = 0;
    while i < m.account_keys.len()
        invariant
            0 <= i <= m.account_keys@.len(),
            r@.len() == i,
            forall|j: int| 0 <= j < i ==> (#[trigger] r@[j])@ == execution_accounts(m@)[j],
        decreases m.account_keys@.len() - i,
    {
        let writable = (i as u64) < (m.num_writable_signers as u64) || ((m.num_signers as u64) <= (i as u64)
            && (i as u64) < (m.num_signers as u64) + (m.num_writable_non_signers as u64));
        r.push(AccountMeta { pubkey: m.account_keys[i], is_signer: false, is_writable: writable });
        assert(m@.account_keys[i as int] == m.account_keys@[i as int]@);
        assert(writable == is_writable_index(m@, i as int));
        i = i + 1;
    }
    assert(metas_view(r@) =~= execution_accounts(m@));
    r
}

/// The keys one after the other, 32 bytes each.
pub open spec fn keys_bytes(keys: Seq<Seq<u8>>) -> Seq<u8>
    decreases keys.len(),
{
    if keys.len() == 0 {
        seq![]
    } else {
        keys_bytes(keys.drop_last()) + keys.last()
    }
}

/// One compiled instruction: its program index, the number of its account
/// indexes as one byte and the indexes, the length of its data as two
/// little-endian bytes and the data.
pub open spec fn instruction_bytes(ix: (u8, Seq<u8>, Seq<u8>)) -> Seq<u8> {
    seq![ix.0, ix.1.len() as u8] + ix.1 + seq![(ix.2.len() % 256) as u8, (ix.2.len() / 256) as u8] + ix.2
}

pub open spec fn instructions_bytes(ixs: Seq<(u8, Seq<u8>, Seq<u8>)>) -> Seq<u8>
    decreases ixs.len(),
{
    if ixs.len() == 0 {
        seq![]
    } else {
        instructions_bytes(ixs.drop_last()) + instruction_bytes(ixs.last())
    }
}

/// The program's Borsh encoding of a transaction message: the three header
/// counts; the number of keys as one byte and the keys; the number of
/// instructions as one byte and the instructions; and no address table
/// lookups, a zero count.
pub open spec fn transaction_message_bytes(m: VaultMessageView) -> Seq<u8> {
    seq![m.num_signers, m.num_writable_signers, m.num_writable_non_signers, m.account_keys.len() as u8]
        + keys_bytes(m.account_keys) + seq![m.instructions.len() as u8] + instructions_bytes(m.instructions)
        + seq![0u8]
}

/// Relies on the Borsh serialization (`AnchorSerialize::try_to_vec`) of the
/// program's `TransactionMessage`: fields in order, `SmallVec` lengths as one
/// byte (two for instruction data), a key as its 32 bytes. It fails only where
/// a length does not fit its prefix, which `fits` rules out.
#[verifier::external_body]
pub(crate) fn serialize_transaction_message(m: &VaultTransactionMessage) -> (r: Vec<u8>)
    requires
        m.fits(),
    ensures
        r@ == transaction_message_bytes(m@),
{
    squads_multisig_program::TransactionMessage {
        num_signers: m.num_signers,
        num_writable_signers: m.num_writable_signers,
        num_writable_non_signers: m.num_writable_non_signers,
        account_keys: SmallVec::from(m.account_keys.iter().map(|k| Pubkey::new_from_array(k.bytes)).collect::<Vec<_>>()),
        instructions: SmallVec::from(m.instructions.iter().map(|i| squads_multisig_program::CompiledInstruction {
            program_id_index: i.program_id_index,
            account_indexes: SmallVec::from(i.account_indexes.clone()),
            data: SmallVec::from(i.data.clone()),
        }).collect::<Vec<_>>()),
        address_table_lookups: SmallVec::from(Vec::new()),
    }.try_to_vec().unwrap()
}

} // verus!
