//! Account addresses and their derivation from fixed seeds.
use anchor_lang::prelude::Pubkey;
use vstd::prelude::*;
use vstd::slice::slice_to_vec;

verus! {

/// A 32-byte account address.
#[derive(Clone, Copy, Debug)]
pub struct Address {
    pub bytes: [u8; 32],
}

impl View for Address {
    type V = Seq<u8>;

    open spec fn view(&self) -> Seq<u8> {
        self.bytes@
    }
}

impl Address {
    pub fn new(bytes: [u8; 32]) -> (r: Address)
        ensures
            r@ == bytes@,
    {
        Address { bytes }
    }

    /// Byte-wise comparison of two addresses.
    pub fn same(&self, other: &Address) -> (r: bool)
        ensures
            r == (self@ == other@),
    {
        let mut i: usize = 0;
        while i < 32
            invariant
                i <= 32,
                forall|j: int| 0 <= j < i ==> self.bytes[j] == other.bytes[j],
            decreases 32 - i,
        {
            if self.bytes[i] != other.bytes[i] {
                return false;
            }
            i = i + 1;
        }
        assert(self@ =~= other@);
        true
    }

    /// The address as a seed for a derivation.
    pub fn to_seed(&self) -> (r: Vec<u8>)
        ensures
            r@ == self@,
    {
        slice_to_vec(self.bytes.as_slice())
    }
}

impl PartialEq for Address {
    fn eq(&self, other: &Address) -> (r: bool) {
        self.same(other)
    }
}

impl vstd::std_specs::cmp::PartialEqSpecImpl for Address {
    open spec fn obeys_eq_spec() -> bool {
        true
    }

    open spec fn eq_spec(&self, other: &Address) -> bool {
        self@ == other@
    }
}

impl Eq for Address {}

/// The outcome of the canonical bump search over `seeds` for `program`:
/// the derived address and the bump that yields it, if any bump does.
pub uninterp spec fn canonical_pda(seeds: Seq<Seq<u8>>, program: Seq<u8>) -> Option<(Seq<u8>, u8)>;

/// The seed list as byte sequences.
pub open spec fn seeds_view(seeds: Seq<Vec<u8>>) -> Seq<Seq<u8>> {
    seeds.map_values(|s: Vec<u8>| s@)
}

/// Relies on `Pubkey::try_find_program_address`, which searches bumps from
/// 255 downwards and returns the first address off the curve: the result is a
/// function of the seeds and the program id alone.
#[verifier::external_body]
fn find_program_address(seeds: &Vec<Vec<u8>>, program: &Address) -> (r: Option<(Address, u8)>)
    ensures
        derived_as(r, canonical_pda(seeds_view(seeds@), program@)),
{
    let refs: Vec<&[u8]> = seeds.iter().map(|s| s.as_slice()).collect();
    let program_key = Pubkey::new_from_array(program.bytes);
    match Pubkey::try_find_program_address(&refs, &program_key) {
        Some((key, bump)) => Some((Address { bytes: key.to_bytes() }, bump)),
        None => None,
    }
}

/// Domain seed of the pool state address: `b"state"`.
pub open spec fn pool_state_seed() -> Seq<u8> {
    seq![115u8, 116, 97, 116, 101]
}

/// Domain seed of the vault authority address: `b"vault_authority"`.
pub open spec fn vault_authority_seed() -> Seq<u8> {
    seq![118u8, 97, 117, 108, 116, 95, 97, 117, 116, 104, 111, 114, 105, 116, 121]
}

/// Domain seed of the vault address: `b"vault"`.
pub open spec fn vault_seed() -> Seq<u8> {
    seq![118u8, 97, 117, 108, 116]
}

/// Domain seed of a stake entry address: `b"stake_entry"`.
pub open spec fn stake_entry_seed() -> Seq<u8> {
    seq![115u8, 116, 97, 107, 101, 95, 101, 110, 116, 114, 121]
}

/// Seeds of the pool state of `mint`.
pub open spec fn pool_state_seeds(mint: Seq<u8>) -> Seq<Seq<u8>> {
    seq![mint, pool_state_seed()]
}

/// Seeds of the authority that controls every vault.
pub open spec fn vault_authority_seeds() -> Seq<Seq<u8>> {
    seq![vault_authority_seed()]
}

/// Seeds of the vault of `mint`, controlled by `authority`.
pub open spec fn vault_seeds(mint: Seq<u8>, authority: Seq<u8>) -> Seq<Seq<u8>> {
    seq![mint, authority, vault_seed()]
}

/// Seeds of the stake entry of `user` in the pool of `mint`.
pub open spec fn stake_entry_seeds(user: Seq<u8>, mint: Seq<u8>) -> Seq<Seq<u8>> {
    seq![user, mint, stake_entry_seed()]
}

/// Derives the canonical pool state address of `mint` under `program_id`.
pub fn pool_state_address(mint: &Address, program_id: &Address) -> (r: Option<(Address, u8)>)
    ensures
        derived_as(r, canonical_pda(pool_state_seeds(mint@), program_id@)),
{
    let seeds: Vec<Vec<u8>> = vec![mint.to_seed(), vec![115u8, 116, 97, 116, 101]];
    assert(seeds_view(seeds@) =~= pool_state_seeds(mint@));
    find_program_address(&seeds, program_id)
}

/// Derives the canonical vault authority address under `program_id`.
pub fn vault_authority_address(program_id: &Address) -> (r: Option<(Address, u8)>)
    ensures
        derived_as(r, canonical_pda(vault_authority_seeds(), program_id@)),
{
    let seeds: Vec<Vec<u8>> = vec![
        vec![118u8, 97, 117, 108, 116, 95, 97, 117, 116, 104, 111, 114, 105, 116, 121],
    ];
    assert(seeds_view(seeds@) =~= vault_authority_seeds());
    find_program_address(&seeds, program_id)
}

/// Derives the canonical vault address of `mint` held by `authority`.
pub fn vault_address(mint: &Address, authority: &Address, program_id: &Address) -> (r: Option<(Address, u8)>)
    ensures
        derived_as(r, canonical_pda(vault_seeds(mint@, authority@), program_id@)),
{
    let seeds: Vec<Vec<u8>> = vec![mint.to_seed(), authority.to_seed(), vec![118u8, 97, 117, 108, 116]];
    assert(seeds_view(seeds@) =~= vault_seeds(mint@, authority@));
    find_program_address(&seeds, program_id)
}

/// Derives the canonical stake entry address of `user` in the pool of `mint`.
pub fn stake_entry_address(user: &Address, mint: &Address, program_id: &Address) -> (r: Option<(Address, u8)>)
    ensures
        derived_as(r, canonical_pda(stake_entry_seeds(user@, mint@), program_id@)),
{
    let seeds: Vec<Vec<u8>> = vec![
        user.to_seed(),
        mint.to_seed(),
        vec![115u8, 116, 97, 107, 101, 95, 101, 110, 116, 114, 121],
    ];
    assert(seeds_view(seeds@) =~= stake_entry_seeds(user@, mint@));
    find_program_address(&seeds, program_id)
}

/// `r` is the executable form of the derivation outcome `d`.
pub open spec fn derived_as(r: Option<(Address, u8)>, d: Option<(Seq<u8>, u8)>) -> bool {
    match r {
        Some((a, b)) => d == Some((a@, b)),
        None => d is None,
    }
}

} // verus!
