//! Account addresses and the derivation of program-owned addresses.

use anchor_lang::prelude::Pubkey;
use vstd::prelude::*;

verus! {

/// Number of bytes in an account address.
pub const ADDRESS_BYTES: usize = 32;

/// The address of an account: 32 raw bytes.
#[derive(Clone, Copy, Debug, PartialEq, Eq)]
pub struct Address {
    pub bytes: [u8; 32],
}

impl View for Address {
    type V = Seq<u8>;

    open spec fn view(&self) -> Seq<u8> {
        self.bytes@
    }
}

/// What the search for a program-derived address yields for the given seeds
/// under the given program: the address and the bump seed that was found, or
/// `None` where there is none.
pub uninterp spec fn program_address(seeds: Seq<Seq<u8>>, program_id: Seq<u8>) -> Option<(Seq<u8>, u8)>;

/// Whether the bytes are a point of the curve on which keys lie, so that a
/// secret key may belong to them.
pub uninterp spec fn curve_point(bytes: Seq<u8>) -> bool;

/// The view of a derivation result.
pub open spec fn derived_view(r: Option<(Address, u8)>) -> Option<(Seq<u8>, u8)> {
    match r {
        Some((address, bump)) => Some((address@, bump)),
        None => None,
    }
}

/// Calls `Pubkey::try_find_program_address`. Believed, not proved: the result
/// is a function of the seeds and the program alone, here named
/// `program_address`; and an address that is found does not lie on the curve,
/// since the search passes over every candidate that does.
#[verifier::external_body]
fn find_program_address(seeds: &Vec<Vec<u8>>, program_id: &Address) -> (r: Option<(Address, u8)>)
    ensures
        derived_view(r) == program_address(seeds.deep_view(), program_id@),
        r matches Some((address, _)) ==> !curve_point(address@),
{
    let parts: Vec<&[u8]> = seeds.iter().map(|s| s.as_slice()).collect();
    let program = Pubkey::new_from_array(program_id.bytes);
    Pubkey::try_find_program_address(&parts, &program)
        .map(|(key, bump)| (Address { bytes: key.to_bytes() }, bump))
}

impl Address {
    /// The address as a byte vector.
    pub fn to_vec(&self) -> (v: Vec<u8>)
        ensures
            v@ == self@,
    {
        let mut v: Vec<u8> = Vec::new();
        let mut i: usize = 0;
        while i < 32
            invariant
                i <= 32,
                v@ == self@.subrange(0, i as int),
            decreases 32 - i,
        {
            v.push(self.bytes[i]);
            i = i + 1;
        }
        v
    }

    /// Whether two addresses hold the same bytes.
    pub fn same(&self, other: &Address) -> (b: bool)
        ensures
            b == (self@ == other@),
    {
        let mut i: usize = 0;
        while i < 32
            invariant
                i <= 32,
                forall|j: int| 0 <= j < i ==> self@[j] == other@[j],
            decreases 32 - i,
        {
            if self.bytes[i] != other.bytes[i] {
                return false;
            }
            i = i + 1;
        }
        assert(self@ =~= other@);
        true
    }
}

/// The label under which identity records are derived: the bytes of
/// `identity`.
pub open spec fn identity_seed() -> Seq<u8> {
    seq![105u8, 100u8, 101u8, 110u8, 116u8, 105u8, 116u8, 121u8]
}

/// The label under which the metadata program derives its records: the
/// bytes of `metadata`.
pub open spec fn metadata_seed() -> Seq<u8> {
    seq![109u8, 101u8, 116u8, 97u8, 100u8, 97u8, 116u8, 97u8]
}

/// The label that marks a supply-lock record: the bytes of `edition`.
pub open spec fn edition_seed() -> Seq<u8> {
    seq![101u8, 100u8, 105u8, 116u8, 105u8, 111u8, 110u8]
}

/// The seeds of an authority's identity record.
pub open spec fn identity_seeds(authority: Seq<u8>) -> Seq<Seq<u8>> {
    seq![identity_seed(), authority]
}

/// The seeds of a mint's metadata record.
pub open spec fn metadata_seeds(metadata_program: Seq<u8>, mint: Seq<u8>) -> Seq<Seq<u8>> {
    seq![metadata_seed(), metadata_program, mint]
}

/// The seeds of a mint's supply-lock record.
pub open spec fn edition_seeds(metadata_program: Seq<u8>, mint: Seq<u8>) -> Seq<Seq<u8>> {
    seq![metadata_seed(), metadata_program, mint, edition_seed()]
}

/// Address and bump of the identity record of `authority` under `program_id`.
pub open spec fn identity_address(authority: Seq<u8>, program_id: Seq<u8>) -> Option<(Seq<u8>, u8)> {
    program_address(identity_seeds(authority), program_id)
}

/// Address and bump of the metadata record of `mint`, owned by
/// `metadata_program`.
pub open spec fn metadata_address(metadata_program: Seq<u8>, mint: Seq<u8>) -> Option<
    (Seq<u8>, u8),
> {
    program_address(metadata_seeds(metadata_program, mint), metadata_program)
}

/// Address and bump of the supply-lock record of `mint`, owned by
/// `metadata_program`.
pub open spec fn edition_address(metadata_program: Seq<u8>, mint: Seq<u8>) -> Option<
    (Seq<u8>, u8),
> {
    program_address(edition_seeds(metadata_program, mint), metadata_program)
}

/// The bytes of `identity`.
pub fn identity_seed_bytes() -> (v: Vec<u8>)
    ensures
        v@ == identity_seed(),
{
    let v: Vec<u8> = vec![105u8, 100u8, 101u8, 110u8, 116u8, 105u8, 116u8, 121u8];
    assert(v@ =~= identity_seed());
    v
}

/// The bytes of `metadata`.
pub fn metadata_seed_bytes() -> (v: Vec<u8>)
    ensures
        v@ == metadata_seed(),
{
    let v: Vec<u8> = vec![109u8, 101u8, 116u8, 97u8, 100u8, 97u8, 116u8, 97u8];
    assert(v@ =~= metadata_seed());
    v
}

/// The bytes of `edition`.
pub fn edition_seed_bytes() -> (v: Vec<u8>)
    ensures
        v@ == edition_seed(),
{
    let v: Vec<u8> = vec![101u8, 100u8, 105u8, 116u8, 105u8, 111u8, 110u8];
    assert(v@ =~= edition_seed());
    v
}

/// Derives the address of the identity record of `authority` under
/// `program_id`, with its bump; `None` where no bump yields an address.
pub fn find_identity_address(authority: &Address, program_id: &Address) -> (r: Option<
    (Address, u8),
>)
    ensures
        derived_view(r) == identity_address(authority@, program_id@),
        r matches Some((address, _)) ==> !curve_point(address@),
{
    let mut seeds: Vec<Vec<u8>> = Vec::new();
    seeds.push(identity_seed_bytes());
    seeds.push(authority.to_vec());
    assert(seeds.deep_view() =~~= identity_seeds(authority@));
    find_program_address(&seeds, program_id)
}

/// Derives the address of the metadata record of `mint`, with its bump.
pub fn find_metadata_address(metadata_program: &Address, mint: &Address) -> (r: Option<
    (Address, u8),
>)
    ensures
        derived_view(r) == metadata_address(metadata_program@, mint@),
        r matches Some((address, _)) ==> !curve_point(address@),
{
    let mut seeds: Vec<Vec<u8>> = Vec::new();
    seeds.push(metadata_seed_bytes());
    seeds.push(metadata_program.to_vec());
    seeds.push(mint.to_vec());
    assert(seeds.deep_view() =~~= metadata_seeds(metadata_program@, mint@));
    find_program_address(&seeds, metadata_program)
}

/// Derives the address of the supply-lock record of `mint`, with its bump.
pub fn find_edition_address(metadata_program: &Address, mint: &Address) -> (r: Option<
    (Address, u8),
>)
    ensures
        derived_view(r) == edition_address(metadata_program@, mint@),
        r matches Some((address, _)) ==> !curve_point(address@),
{
    let mut seeds: Vec<Vec<u8>> = Vec::new();
    seeds.push(metadata_seed_bytes());
    seeds.push(metadata_program.to_vec());
    seeds.push(mint.to_vec());
    seeds.push(edition_seed_bytes());
    assert(seeds.deep_view() =~~= edition_seeds(metadata_program@, mint@));
    find_program_address(&seeds, metadata_program)
}

/// Derivation is a function of its inputs: for the same authority under the
/// same program it yields the same address and the same bump, however often
/// and wherever it is asked.
pub proof fn lemma_derivation_deterministic(
    authority: Address,
    program_id: Address,
    authority_again: Address,
    program_id_again: Address,
)
    requires
        authority@ == authority_again@,
        program_id@ == program_id_again@,
    ensures
        identity_address(authority@, program_id@) == identity_address(
            authority_again@,
            program_id_again@,
        ),
{
}

} // verus!
