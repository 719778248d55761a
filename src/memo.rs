//! The human-readable memos attached to the instructions this library builds.
use crate::address::Address;
use solana_program::pubkey::Pubkey;
use vstd::prelude::*;
use vstd::string::StringExecFns;

verus! {

/// The Bitcoin base58 alphabet.
pub open spec fn base58_alphabet() -> Seq<char> {
    "123456789ABCDEFGHJKLMNPQRSTUVWXYZabcdefghijkmnopqrstuvwxyz"@
}

/// The bytes read as one big-endian number.
pub open spec fn big_endian_value(bytes: Seq<u8>) -> nat
    decreases bytes.len(),
{
    if bytes.len() == 0 {
        0
    } else {
        big_endian_value(bytes.drop_last()) * 256 + bytes.last() as nat
    }
}

/// The base58 digits of `n`, most significant first, none for zero.
pub open spec fn base58_digits(n: nat) -> Seq<char>
    decreases n,
{
    if n == 0 {
        seq![]
    } else {
        base58_digits(n / 58) + seq![base58_alphabet()[(n % 58) as int]]
    }
}

/// The number of zero bytes that the bytes start with.
pub open spec fn leading_zeros(bytes: Seq<u8>) -> nat
    decreases bytes.len(),
{
    if bytes.len() > 0 && bytes[0] == 0 {
        1 + leading_zeros(bytes.drop_first())
    } else {
        0
    }
}

/// The base58 text of an address: a `1` for each leading zero byte, then the
/// digits of the bytes read as a big-endian number.
pub open spec fn base58_of(bytes: Seq<u8>) -> Seq<char> {
    Seq::new(leading_zeros(bytes), |i: int| '1') + base58_digits(big_endian_value(bytes))
}

/// Relies on `Display` of solana-program's `Pubkey`, which writes
/// `bs58::encode` of the key's bytes with the Bitcoin alphabet.
#[verifier::external_body]
fn base58(a: &Address) -> (r: String)
    ensures
        r@ == base58_of(a@),
{
    Pubkey::new_from_array(a.bytes).to_string()
}

pub open spec fn digit_char(d: nat) -> char {
    if d == 0 { '0' }
    else if d == 1 { '1' }
    else if d == 2 { '2' }
    else if d == 3 { '3' }
    else if d == 4 { '4' }
    else if d == 5 { '5' }
    else if d == 6 { '6' }
    else if d == 7 { '7' }
    else if d == 8 { '8' }
    else { '9' }
}

/// The decimal digits of `n`, most significant first, with no leading zero.
pub open spec fn decimal(n: nat) -> Seq<char>
    decreases n,
{
    if n < 10 {
        seq![digit_char(n)]
    } else {
        decimal(n / 10) + seq![digit_char(n % 10)]
    }
}

fn digit_str(d: u64) -> (r: &'static str)
    requires
        d < 10,
    ensures
        r@ == seq![digit_char(d as nat)],
{
    proof {
        reveal_strlit("0");
        reveal_strlit("1");
        reveal_strlit("2");
        reveal_strlit("3");
        reveal_strlit("4");
        reveal_strlit("5");
        reveal_strlit("6");
        reveal_strlit("7");
        reveal_strlit("8");
        reveal_strlit("9");
    }
    let r = if d == 0 { "0" }
    else if d == 1 { "1" }
    else if d == 2 { "2" }
    else if d == 3 { "3" }
    else if d == 4 { "4" }
    else if d == 5 { "5" }
    else if d == 6 { "6" }
    else if d == 7 { "7" }
    else if d == 8 { "8" }
    else { "9" };
    assert(r@ =~= seq![digit_char(d as nat)]);
    r
}

/// Appends the decimal digits of `n`.
fn push_decimal(s: &mut String, n: u64)
    ensures
        final(s)@ == old(s)@ + decimal(n as nat),
    decreases n,
{
    if n >= 10 {
        push_decimal(s, n / 10);
    }
    s.append(digit_str(n % 10));
    proof {
        if n >= 10 {
            assert(old(s)@ + decimal(n as nat) =~= old(s)@ + decimal((n / 10) as nat) + seq![digit_char((n % 10) as nat)]);
        } else {
            assert(n % 10 == n);
        }
    }
}

pub open spec fn add_member_memo(member: Seq<u8>, multisig: Seq<u8>) -> Seq<char> {
    "Add "@ + base58_of(member) + " as member to multisig "@ + base58_of(multisig)
}

pub open spec fn remove_member_memo(member: Seq<u8>, multisig: Seq<u8>) -> Seq<char> {
    "Remove "@ + base58_of(member) + " member from multisig "@ + base58_of(multisig)
}

pub open spec fn change_threshold_memo(threshold: u16, multisig: Seq<u8>) -> Seq<char> {
    "Changing threshold to "@ + decimal(threshold as nat) + " on multisig "@ + base58_of(multisig)
}

pub open spec fn transfer_memo(lamports: u64, vault: Seq<u8>, receiver: Seq<u8>) -> Seq<char> {
    "Sending "@ + decimal(lamports as nat) + " lamports from "@ + base58_of(vault) + " to "@ + base58_of(receiver)
}

/// The memo of the multisig creation instruction.
pub open spec fn create_memo() -> Seq<char> {
    "Deploy my own Squad"@
}

pub fn memo_add_member(member: &Address, multisig: &Address) -> (r: String)
    ensures
        r@ == add_member_memo(member@, multisig@),
{
    let mut s = String::from_str("Add ");
    s.append(base58(member).as_str());
    s.append(" as member to multisig ");
    s.append(base58(multisig).as_str());
    s
}

pub fn memo_remove_member(member: &Address, multisig: &Address) -> (r: String)
    ensures
        r@ == remove_member_memo(member@, multisig@),
{
    let mut s = String::from_str("Remove ");
    s.append(base58(member).as_str());
    s.append(" member from multisig ");
    s.append(base58(multisig).as_str());
    s
}

pub fn memo_change_threshold(threshold: u16, multisig: &Address) -> (r: String)
    ensures
        r@ == change_threshold_memo(threshold, multisig@),
{
    let mut s = String::from_str("Changing threshold to ");
    push_decimal(&mut s, threshold as u64);
    s.append(" on multisig ");
    s.append(base58(multisig).as_str());
    s
}

pub fn memo_transfer(lamports: u64, vault: &Address, receiver: &Address) -> (r: String)
    ensures
        r@ == transfer_memo(lamports, vault@, receiver@),
{
    let mut s = String::from_str("Sending ");
    push_decimal(&mut s, lamports);
    s.append(" lamports from ");
    s.append(base58(vault).as_str());
    s.append(" to ");
    s.append(base58(receiver).as_str());
    s
}

pub fn memo_create() -> (r: String)
    ensures
        r@ == create_memo(),
{
    String::from_str("Deploy my own Squad")
}

} // verus!
