//! Unsigned transactions: instructions bound to a fee payer and a recent
//! blockhash.
use crate::address::Address;
use crate::instruction::{Instruction, InstructionView};
use solana_program::pubkey::Pubkey;
use solana_sdk::message::Message;
use solana_sdk::transaction::Transaction;
use vstd::prelude::*;

verus! {

#[verifier::external_type_specification]
#[verifier::external_body]
pub struct ExMessage(Message);

#[verifier::external_type_specification]
#[verifier::external_body]
pub struct ExTransaction(Transaction);

pub struct UnsignedTransactionView {
    pub fee_payer: Seq<u8>,
    pub instructions: Seq<InstructionView>,
    pub recent_blockhash: Seq<u8>,
}

/// A transaction that is ready to be signed: its instructions, the account
/// that pays its fee, and the blockhash that proves it recent.
#[derive(Clone, Debug)]
pub struct UnsignedTransaction {
    pub fee_payer: Address,
    pub instructions: Vec<Instruction>,
    pub recent_blockhash: [u8; 32],
}

pub open spec fn instructions_view(ixs: Seq<Instruction>) -> Seq<InstructionView> {
    ixs.map_values(|i: Instruction| i@)
}

impl UnsignedTransaction {
    pub open spec fn view(&self) -> UnsignedTransactionView {
        UnsignedTransactionView {
            fee_payer: self.fee_payer@,
            instructions: instructions_view(self.instructions@),
            recent_blockhash: self.recent_blockhash@,
        }
    }

    /// The transaction in solana-sdk's form, with no signature yet; `None`
    /// where it names more accounts than a legacy message can index.
    pub fn to_transaction(&self) -> (r: Option<Transaction>)
        ensures
            r.is_some() == (key_slots(self@) < 256),
    {
        let mut count: usize = 1;
        let mut i: usize = 0;
        while i < self.instructions.len()
            invariant
                0 <= i <= self.instructions@.len(),
                count < 256,
                count == 1 + instruction_slots(instructions_view(self.instructions@.subrange(0, i as int))),
            decreases self.instructions@.len() - i,
        {
            let ghost before = instructions_view(self.instructions@.subrange(0, i as int));
            let ghost after = instructions_view(self.instructions@.subrange(0, i + 1));
            proof {
                assert(after.drop_last() =~= before);
                assert(after.last() == self.instructions@[i as int]@);
            }
            let n = self.instructions[i].accounts.len();
            if n >= 255 - count {
                proof {
                    lemma_slots_grow(instructions_view(self.instructions@), i + 1);
                    assert(instructions_view(self.instructions@).subrange(0, i + 1) =~= after);
                    assert(instructions_view(self.instructions@).subrange(0, self.instructions@.len() as int)
                        =~= instructions_view(self.instructions@));
                }
                return None;
            }
            count = count + 1 + n;
            i = i + 1;
        }
        assert(self.instructions@.subrange(0, i as int) =~= self.instructions@);
        Some(unsigned_transaction(legacy_message(&self.instructions, &self.fee_payer, &self.recent_blockhash)))
    }
}

/// The account slots that the instructions take before keys are merged: the
/// program and each account meta of every instruction.
pub open spec fn instruction_slots(ixs: Seq<InstructionView>) -> int
    decreases ixs.len(),
{
    if ixs.len() == 0 {
        0
    } else {
        instruction_slots(ixs.drop_last()) + 1 + ixs.last().accounts.len()
    }
}

/// The account slots of a transaction: its fee payer and its instructions'.
/// The distinct keys of its message are never more.
pub open spec fn key_slots(t: UnsignedTransactionView) -> int {
    1 + instruction_slots(t.instructions)
}

/// A prefix of the instructions takes no more slots than all of them.
proof fn lemma_slots_grow(ixs: Seq<InstructionView>, k: int)
    requires
        0 <= k <= ixs.len(),
    ensures
        instruction_slots(ixs.subrange(0, k)) <= instruction_slots(ixs),
    decreases ixs.len() - k,
{
    if k < ixs.len() {
        lemma_slots_grow(ixs, k + 1);
        assert(ixs.subrange(0, k + 1).drop_last() =~= ixs.subrange(0, k));
    } else {
        assert(ixs.subrange(0, k) =~= ixs);
    }
}

/// Binds `instructions` to `fee_payer` and to the blockhash that was fetched
/// for this assembly; `None` where fetching it failed.
pub fn assemble(
    fee_payer: &Address,
    instructions: Vec<Instruction>,
    latest_blockhash: Option<[u8; 32]>,
) -> (r: Option<UnsignedTransaction>)
    ensures
        match latest_blockhash {
            None => r.is_none(),
            Some(h) => r.is_some() && r.unwrap()@ == (UnsignedTransactionView {
                fee_payer: fee_payer@,
                instructions: instructions_view(instructions@),
                recent_blockhash: h@,
            }),
        },
{
    match latest_blockhash {
        None => None,
        Some(h) => Some(UnsignedTransaction { fee_payer: *fee_payer, instructions, recent_blockhash: h }),
    }
}

/// What wrapping the outcome of one instruction into a transaction gives:
/// the instruction's error, else `no_blockhash` where no blockhash was
/// fetched, else the transaction paid by `payer`.
pub open spec fn single_tx<E>(
    ix: Result<InstructionView, E>,
    payer: Seq<u8>,
    latest_blockhash: Option<[u8; 32]>,
    no_blockhash: E,
) -> Result<UnsignedTransactionView, E> {
    match ix {
        Err(e) => Err(e),
        Ok(v) => match latest_blockhash {
            None => Err(no_blockhash),
            Some(h) => Ok(UnsignedTransactionView { fee_payer: payer, instructions: seq![v], recent_blockhash: h@ }),
        },
    }
}

pub open spec fn tx_result<E>(r: Result<UnsignedTransaction, E>) -> Result<UnsignedTransactionView, E> {
    match r {
        Ok(t) => Ok(t@),
        Err(e) => Err(e),
    }
}

/// Relies on `Message::new` of solana-sdk, which compiles the instructions
/// into a legacy message with `payer` as its first signer; the blockhash is
/// then set on it. It panics where the signer or read-only keys pass 255, and
/// indexes keys by one byte: fewer than 256 slots keep both within range.
#[verifier::external_body]
fn legacy_message(instructions: &Vec<Instruction>, payer: &Address, blockhash: &[u8; 32]) -> Message
    requires
        1 + instruction_slots(instructions_view(instructions@)) < 256,
{
    let ixs: Vec<solana_sdk::instruction::Instruction> = instructions.iter().map(|ix| solana_sdk::instruction::Instruction {
        program_id: Pubkey::new_from_array(ix.program_id.bytes),
        accounts: ix.accounts.iter().map(|m| solana_sdk::instruction::AccountMeta {
            pubkey: Pubkey::new_from_array(m.pubkey.bytes),
            is_signer: m.is_signer,
            is_writable: m.is_writable,
        }).collect(),
        data: ix.data.clone(),
    }).collect();
    let mut message = Message::new(&ixs, Some(&Pubkey::new_from_array(payer.bytes)));
    message.recent_blockhash = solana_sdk::hash::Hash::new_from_array(*blockhash);
    message
}

/// Relies on `Transaction::new_unsigned` of solana-sdk, which wraps the
/// message with empty signatures.
#[verifier::external_body]
fn unsigned_transaction(message: Message) -> Transaction {
    Transaction::new_unsigned(message)
}

} // verus!
