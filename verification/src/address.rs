use crate::pubkey::Pubkey;
use vstd::prelude::*;

verus! {

/// The address and bump seed that the runtime derives for a program from a
/// list of seeds, or `None` where the seeds derive no address.
///
/// Address derivation hashes the seeds, a bump seed and the program's address
/// and searches the bump seeds downwards from 255 for the first hash that is
/// no curve point. The result depends on the seeds and the program alone.
pub uninterp spec fn program_address(seeds: Seq<Seq<u8>>, program_id: Seq<u8>) -> Option<
    (Seq<u8>, u8),
>;

/// Calls the runtime's `Pubkey::try_find_program_address`.
///
/// Trusted: the call returns the derived address and its bump seed, or `None`,
/// as a function of the seeds and the program's address alone.
#[verifier::external_body]
fn try_find_program_address(seeds: &Vec<Vec<u8>>, program_id: &Pubkey) -> (found: Option<
    (Pubkey, u8),
>)
    ensures
        found matches Some((address, bump)) ==> program_address(seeds.deep_view(), program_id@)
            == Some((address@, bump)),
        found is None ==> program_address(seeds.deep_view(), program_id@) is None,
{
    let parts: Vec<&[u8]> = seeds.iter().map(|seed| seed.as_slice()).collect();
    let program = anchor_lang::prelude::Pubkey::new_from_array(program_id.bytes);
    match anchor_lang::prelude::Pubkey::try_find_program_address(&parts, &program) {
        Some((address, bump)) => Some((Pubkey { bytes: address.to_bytes() }, bump)),
        None => None,
    }
}

/// Reads the registry's `Metadata::PREFIX`.
///
/// Trusted: the constant holds the bytes of `metadata`.
#[verifier::external_body]
fn metadata_prefix() -> (prefix: Vec<u8>)
    ensures
        prefix@ == metadata_seed(),
{
    mpl_token_metadata::accounts::Metadata::PREFIX.to_vec()
}

/// The seed that names the bank record: the bytes of `bank_v17`.
pub open spec fn bank_seed() -> Seq<u8> {
    seq![98u8, 97u8, 110u8, 107u8, 95u8, 118u8, 49u8, 55u8]
}

/// The seed that names the records of collectibles: the bytes of
/// `commit_v01`.
pub open spec fn commit_seed() -> Seq<u8> {
    seq![99u8, 111u8, 109u8, 109u8, 105u8, 116u8, 95u8, 118u8, 48u8, 49u8]
}

/// The seed that names the entries of the metadata registry: the bytes of
/// `metadata`.
pub open spec fn metadata_seed() -> Seq<u8> {
    seq![109u8, 101u8, 116u8, 97u8, 100u8, 97u8, 116u8, 97u8]
}

/// The address of the bank record of a program, with its bump seed: derived
/// from the bank seed alone.
pub open spec fn bank_address(program_id: Seq<u8>) -> Option<(Seq<u8>, u8)> {
    program_address(seq![bank_seed()], program_id)
}

/// The address of the record of the collectible `mint`, with its bump seed:
/// derived from the commit seed, then the collectible's identity.
pub open spec fn commit_address(program_id: Seq<u8>, mint: Seq<u8>) -> Option<(Seq<u8>, u8)> {
    program_address(seq![commit_seed(), mint], program_id)
}

/// The address of the registry entry of the collectible `mint`, with its bump
/// seed: derived for the registry program from the registry's seed, the
/// registry program's address and the collectible's identity.
pub open spec fn metadata_address(metadata_program: Seq<u8>, mint: Seq<u8>) -> Option<
    (Seq<u8>, u8),
> {
    program_address(seq![metadata_seed(), metadata_program, mint], metadata_program)
}

fn bank_seed_bytes() -> (seed: Vec<u8>)
    ensures
        seed@ == bank_seed(),
{
    let seed: Vec<u8> = vec![98u8, 97u8, 110u8, 107u8, 95u8, 118u8, 49u8, 55u8];
    assert(seed@ =~= bank_seed());
    seed
}

fn commit_seed_bytes() -> (seed: Vec<u8>)
    ensures
        seed@ == commit_seed(),
{
    let seed: Vec<u8> = vec![99u8, 111u8, 109u8, 109u8, 105u8, 116u8, 95u8, 118u8, 48u8, 49u8];
    assert(seed@ =~= commit_seed());
    seed
}

/// Derives the address of the bank record of `program_id`.
pub fn find_bank_address(program_id: &Pubkey) -> (found: Option<(Pubkey, u8)>)
    ensures
        found matches Some((address, bump)) ==> bank_address(program_id@) == Some(
            (address@, bump),
        ),
        found is None ==> bank_address(program_id@) is None,
{
    let mut seeds: Vec<Vec<u8>> = Vec::new();
    seeds.push(bank_seed_bytes());
    assert(seeds.deep_view() =~~= seq![bank_seed()]);
    try_find_program_address(&seeds, program_id)
}

/// Derives the address of the record of the collectible `mint`.
pub fn find_commit_address(program_id: &Pubkey, mint: &Pubkey) -> (found: Option<(Pubkey, u8)>)
    ensures
        found matches Some((address, bump)) ==> commit_address(program_id@, mint@) == Some(
            (address@, bump),
        ),
        found is None ==> commit_address(program_id@, mint@) is None,
{
    let mut seeds: Vec<Vec<u8>> = Vec::new();
    seeds.push(commit_seed_bytes());
    seeds.push(mint.to_vec());
    assert(seeds.deep_view() =~~= seq![commit_seed(), mint@]);
    try_find_program_address(&seeds, program_id)
}

/// Derives the address of the registry entry of the collectible `mint` under
/// the registry program `metadata_program`.
pub fn find_metadata_address(metadata_program: &Pubkey, mint: &Pubkey) -> (found: Option<
    (Pubkey, u8),
>)
    ensures
        found matches Some((address, bump)) ==> metadata_address(metadata_program@, mint@)
            == Some((address@, bump)),
        found is None ==> metadata_address(metadata_program@, mint@) is None,
{
    let mut seeds: Vec<Vec<u8>> = Vec::new();
    seeds.push(metadata_prefix());
    seeds.push(metadata_program.to_vec());
    seeds.push(mint.to_vec());
    assert(seeds.deep_view() =~~= seq![metadata_seed(), metadata_program@, mint@]);
    try_find_program_address(&seeds, metadata_program)
}

} // verus!
