//! On-chain addresses and their program-derived forms.
use solana_program::pubkey::Pubkey;
use vstd::prelude::*;

verus! {

/// A 32-byte on-chain account address.
#[derive(Clone, Copy, Debug)]
pub struct Address {
    pub bytes: [u8; 32],
}

impl Address {
    pub open spec fn view(&self) -> Seq<u8> {
        self.bytes@
    }

    /// Address made of the given bytes.
    pub fn from_bytes(bytes: [u8; 32]) -> (r: Address)
        ensures
            r@ == bytes@,
    {
        Address { bytes }
    }

    /// Whether two addresses hold the same bytes.
    pub fn same(&self, other: &Address) -> (r: bool)
        ensures
            r == (self@ == other@),
    {
        let mut i: usize = 0;
        while i < 32
            invariant
                0 <= i <= 32,
                self.bytes@.len() == 32,
                other.bytes@.len() == 32,
                forall|j: int| 0 <= j < i ==> self.bytes@[j] == other.bytes@[j],
            decreases 32 - i,
        {
            if self.bytes[i] != other.bytes[i] {
                return false;
            }
            i = i + 1;
        }
        proof {
            assert(self@ =~= other@);
        }
        true
    }
}

impl PartialEq for Address {
    fn eq(&self, other: &Address) -> (r: bool) {
        self.same(other)
    }
}

impl vstd::std_specs::cmp::PartialEqSpecImpl for Address {
    open spec fn obeys_eq_spec() -> bool {
        true
    }

    open spec fn eq_spec(&self, other: &Address) -> bool {
        self@ == other@
    }
}

impl Eq for Address {}

/// What `Pubkey::try_find_program_address` returns for the given seeds and
/// program: the derived address, or none where no bump seed gives one.
pub uninterp spec fn program_address(seeds: Seq<Seq<u8>>, program: Seq<u8>) -> Option<Seq<u8>>;

pub open spec fn opt_view(o: Option<Address>) -> Option<Seq<u8>> {
    match o {
        Some(a) => Some(a@),
        None => None,
    }
}

pub open spec fn seeds_view(seeds: Seq<Vec<u8>>) -> Seq<Seq<u8>> {
    seeds.map_values(|s: Vec<u8>| s@)
}

/// Relies on `Pubkey::try_find_program_address` of solana-program: the
/// derived address depends on the seeds and the program alone; the bump seed
/// is dropped.
#[verifier::external_body]
fn find_program_address(seeds: &Vec<Vec<u8>>, program: &Address) -> (r: Option<Address>)
    ensures
        opt_view(r) == program_address(seeds_view(seeds@), program@),
{
    let slices: Vec<&[u8]> = seeds.iter().map(|s| s.as_slice()).collect();
    Pubkey::try_find_program_address(&slices, &Pubkey::new_from_array(program.bytes))
        .map(|(key, _bump)| Address { bytes: key.to_bytes() })
}


/// The bytes of the Squads multisig program's id,
/// `SQDS4ep65T869zMMBKyuUq6aD6EgTu8psMjkvj52pCf`.
pub open spec fn squads_program() -> Seq<u8> {
    seq![
        6u8, 129, 196, 206, 71, 226, 35, 104, 184, 177, 85, 94, 200, 135, 175, 9,
        46, 252, 126, 251, 182, 108, 163, 245, 47, 191, 104, 212, 172, 156, 183, 168,
    ]
}

/// The bytes of the system program's id, `11111111111111111111111111111111`.
pub open spec fn system_program() -> Seq<u8> {
    Seq::new(32, |i: int| 0u8)
}

/// Relies on `squads_multisig_program::ID`, the program's declared id.
#[verifier::external_body]
pub(crate) fn squads_program_id() -> (r: Address)
    ensures
        r@ == squads_program(),
{
    Address { bytes: squads_multisig_program::ID.to_bytes() }
}

/// Relies on `solana_program::system_program::ID`, the system program's id.
#[verifier::external_body]
pub(crate) fn system_program_id() -> (r: Address)
    ensures
        r@ == system_program(),
{
    Address { bytes: solana_program::system_program::ID.to_bytes() }
}

/// The seed that starts every address of the multisig program.
pub open spec fn seed_prefix() -> Seq<u8> {
    seq![109u8, 117, 108, 116, 105, 115, 105, 103]
}

pub open spec fn seed_multisig() -> Seq<u8> {
    seq![109u8, 117, 108, 116, 105, 115, 105, 103]
}

pub open spec fn seed_program_config() -> Seq<u8> {
    seq![112u8, 114, 111, 103, 114, 97, 109, 95, 99, 111, 110, 102, 105, 103]
}

pub open spec fn seed_vault() -> Seq<u8> {
    seq![118u8, 97, 117, 108, 116]
}

pub open spec fn seed_transaction() -> Seq<u8> {
    seq![116u8, 114, 97, 110, 115, 97, 99, 116, 105, 111, 110]
}

pub open spec fn seed_proposal() -> Seq<u8> {
    seq![112u8, 114, 111, 112, 111, 115, 97, 108]
}

/// Little-endian bytes of a 64-bit integer.
pub open spec fn le_bytes(x: u64) -> Seq<u8> {
    seq![
        (x & 0xff) as u8,
        ((x >> 8u64) & 0xff) as u8,
        ((x >> 16u64) & 0xff) as u8,
        ((x >> 24u64) & 0xff) as u8,
        ((x >> 32u64) & 0xff) as u8,
        ((x >> 40u64) & 0xff) as u8,
        ((x >> 48u64) & 0xff) as u8,
        ((x >> 56u64) & 0xff) as u8,
    ]
}

pub open spec fn multisig_seeds(create_key: Seq<u8>) -> Seq<Seq<u8>> {
    seq![seed_prefix(), seed_multisig(), create_key]
}

pub open spec fn vault_seeds(multisig: Seq<u8>, vault_index: u8) -> Seq<Seq<u8>> {
    seq![seed_prefix(), multisig, seed_vault(), seq![vault_index]]
}

pub open spec fn program_config_seeds() -> Seq<Seq<u8>> {
    seq![seed_prefix(), seed_program_config()]
}

pub open spec fn transaction_seeds(multisig: Seq<u8>, index: u64) -> Seq<Seq<u8>> {
    seq![seed_prefix(), multisig, seed_transaction(), le_bytes(index)]
}

pub open spec fn proposal_seeds(multisig: Seq<u8>, index: u64) -> Seq<Seq<u8>> {
    seq![seed_prefix(), multisig, seed_transaction(), le_bytes(index), seed_proposal()]
}

/// Address of the multisig account seeded by `create_key`.
pub open spec fn multisig_address(create_key: Seq<u8>) -> Option<Seq<u8>> {
    program_address(multisig_seeds(create_key), squads_program())
}

/// Address of the vault with the given index of a multisig.
pub open spec fn vault_address(multisig: Seq<u8>, vault_index: u8) -> Option<Seq<u8>> {
    program_address(vault_seeds(multisig, vault_index), squads_program())
}

/// Address of the program-wide configuration account.
pub open spec fn program_config_address() -> Option<Seq<u8>> {
    program_address(program_config_seeds(), squads_program())
}

/// Address of the config or vault transaction at `index` of a multisig.
pub open spec fn transaction_address(multisig: Seq<u8>, index: u64) -> Option<Seq<u8>> {
    program_address(transaction_seeds(multisig, index), squads_program())
}

/// Address of the proposal at `index` of a multisig.
pub open spec fn proposal_address(multisig: Seq<u8>, index: u64) -> Option<Seq<u8>> {
    program_address(proposal_seeds(multisig, index), squads_program())
}

fn prefix_seed() -> (r: Vec<u8>)
    ensures
        r@ == seed_prefix(),
{
    let r = vec![109u8, 117, 108, 116, 105, 115, 105, 103];
    assert(r@ =~= seed_prefix());
    r
}

fn multisig_seed() -> (r: Vec<u8>)
    ensures
        r@ == seed_multisig(),
{
    let r = vec![109u8, 117, 108, 116, 105, 115, 105, 103];
    assert(r@ =~= seed_multisig());
    r
}

fn program_config_seed() -> (r: Vec<u8>)
    ensures
        r@ == seed_program_config(),
{
    let r = vec![112u8, 114, 111, 103, 114, 97, 109, 95, 99, 111, 110, 102, 105, 103];
    assert(r@ =~= seed_program_config());
    r
}

fn vault_seed() -> (r: Vec<u8>)
    ensures
        r@ == seed_vault(),
{
    let r = vec![118u8, 97, 117, 108, 116];
    assert(r@ =~= seed_vault());
    r
}

fn transaction_seed() -> (r: Vec<u8>)
    ensures
        r@ == seed_transaction(),
{
    let r = vec![116u8, 114, 97, 110, 115, 97, 99, 116, 105, 111, 110];
    assert(r@ =~= seed_transaction());
    r
}

fn proposal_seed() -> (r: Vec<u8>)
    ensures
        r@ == seed_proposal(),
{
    let r = vec![112u8, 114, 111, 112, 111, 115, 97, 108];
    assert(r@ =~= seed_proposal());
    r
}

fn le_bytes_of(x: u64) -> (r: Vec<u8>)
    ensures
        r@ == le_bytes(x),
{
    let r = vec![
        (x & 0xff) as u8,
        ((x >> 8u64) & 0xff) as u8,
        ((x >> 16u64) & 0xff) as u8,
        ((x >> 24u64) & 0xff) as u8,
        ((x >> 32u64) & 0xff) as u8,
        ((x >> 40u64) & 0xff) as u8,
        ((x >> 48u64) & 0xff) as u8,
        ((x >> 56u64) & 0xff) as u8,
    ];
    assert(r@ =~= le_bytes(x));
    r
}

/// Derives the multisig account address from its create key.
pub fn derive_multisig_address(create_key: &Address) -> (r: Option<Address>)
    ensures
        opt_view(r) == multisig_address(create_key@),
{
    let seeds = vec![
        prefix_seed(),
        multisig_seed(),
        bytes_of(create_key),
    ];
    assert(seeds_view(seeds@) =~= multisig_seeds(create_key@));
    let program = squads_program_id();
    find_program_address(&seeds, &program)
}


fn bytes_of(a: &Address) -> (r: Vec<u8>)
    ensures
        r@ == a@,
{
    let mut r: Vec<u8> = Vec::new();
    let mut i: usize = 0;
    while i < 32
        invariant
            0 <= i <= 32,
            a.bytes@.len() == 32,
            r@ == a@.subrange(0, i as int),
        decreases 32 - i,
    {
        r.push(a.bytes[i]);
        i = i + 1;
        assert(r@ =~= a@.subrange(0, i as int));
    }
    assert(a@.subrange(0, 32) =~= a@);
    r
}

/// Derives the vault address of a multisig.
pub fn derive_vault_address(multisig: &Address, vault_index: u8) -> (r: Option<Address>)
    ensures
        opt_view(r) == vault_address(multisig@, vault_index),
{
    let index_seed = vec![vault_index];
    assert(index_seed@ =~= seq![vault_index]);
    let seeds = vec![prefix_seed(), bytes_of(multisig), vault_seed(), index_seed];
    assert(seeds_view(seeds@) =~= vault_seeds(multisig@, vault_index));
    let program = squads_program_id();
    find_program_address(&seeds, &program)
}

/// Derives the address of the program-wide configuration account.
pub fn derive_program_config_address() -> (r: Option<Address>)
    ensures
        opt_view(r) == program_config_address(),
{
    let seeds = vec![prefix_seed(), program_config_seed()];
    assert(seeds_view(seeds@) =~= program_config_seeds());
    let program = squads_program_id();
    find_program_address(&seeds, &program)
}

/// Derives the address of the transaction at `index` of a multisig.
pub fn derive_transaction_address(multisig: &Address, index: u64) -> (r: Option<Address>)
    ensures
        opt_view(r) == transaction_address(multisig@, index),
{
    let seeds = vec![prefix_seed(), bytes_of(multisig), transaction_seed(), le_bytes_of(index)];
    assert(seeds_view(seeds@) =~= transaction_seeds(multisig@, index));
    let program = squads_program_id();
    find_program_address(&seeds, &program)
}

/// Derives the address of the proposal at `index` of a multisig.
pub fn derive_proposal_address(multisig: &Address, index: u64) -> (r: Option<Address>)
    ensures
        opt_view(r) == proposal_address(multisig@, index),
{
    let seeds = vec![
        prefix_seed(),
        bytes_of(multisig),
        transaction_seed(),
        le_bytes_of(index),
        proposal_seed(),
    ];
    assert(seeds_view(seeds@) =~= proposal_seeds(multisig@, index));
    let program = squads_program_id();
    find_program_address(&seeds, &program)
}

} // verus!
