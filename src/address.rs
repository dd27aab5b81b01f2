use vstd::prelude::*;

use crate::key::Key;

verus! {

/// The program-derived address of `seeds` under `program_id`, or `None` when
/// the derivation is rejected (the hash lies on the ed25519 curve, or a seed
/// limit is exceeded). A function of its arguments alone.
pub uninterp spec fn program_address(seeds: Seq<Seq<u8>>, program_id: Seq<u8>) -> Option<Seq<u8>>;

/// The views of a list of byte seeds.
pub open spec fn seeds_view(seeds: Seq<Vec<u8>>) -> Seq<Seq<u8>> {
    seeds.map_values(|s: Vec<u8>| s@)
}

/// Relies on `Pubkey::create_program_address` (solana-program, re-exported by
/// anchor-lang): derives the address of `seeds` under `program_id`, failing for
/// seeds whose hash is a curve point or that break the seed limits.
#[verifier::external_body]
fn create_program_address(seeds: &Vec<Vec<u8>>, program_id: &Key) -> (r: Option<Key>)
    ensures
        match r {
            Some(k) => program_address(seeds_view(seeds@), program_id@) == Some(k@),
            None => program_address(seeds_view(seeds@), program_id@) is None,
        },
{
    let slices: Vec<&[u8]> = seeds.iter().map(|s| s.as_slice()).collect();
    let program = anchor_lang::prelude::Pubkey::new_from_array(program_id.bytes);
    anchor_lang::prelude::Pubkey::create_program_address(&slices, &program).ok().map(
        |p| Key { bytes: p.to_bytes() },
    )
}

/// Relies on `Pubkey::try_find_program_address` (solana-program, re-exported by
/// anchor-lang): appends a one-byte bump seed to `seeds`, tries the bumps from
/// 255 down to 1 with `create_program_address`, and returns the first address
/// found with its bump, or `None` when no bump in that range derives one.
#[verifier::external_body]
fn try_find_program_address(seeds: &Vec<Vec<u8>>, program_id: &Key) -> (r: Option<(Key, u8)>)
    ensures
        match r {
            Some((k, bump)) => {
                &&& 1 <= bump
                &&& program_address(seeds_view(seeds@).push(seq![bump]), program_id@) == Some(k@)
                &&& forall|c: u8|
                    bump < c ==> (#[trigger] program_address(
                        seeds_view(seeds@).push(seq![c]),
                        program_id@,
                    )) is None
            },
            None => forall|c: u8|
                1 <= c ==> (#[trigger] program_address(
                    seeds_view(seeds@).push(seq![c]),
                    program_id@,
                )) is None,
        },
{
    let slices: Vec<&[u8]> = seeds.iter().map(|s| s.as_slice()).collect();
    let program = anchor_lang::prelude::Pubkey::new_from_array(program_id.bytes);
    anchor_lang::prelude::Pubkey::try_find_program_address(&slices, &program).map(
        |(p, bump)| (Key { bytes: p.to_bytes() }, bump),
    )
}

/// The domain tag that separates configuration records from other addresses
/// of the program: the ASCII bytes of `bot_config`.
pub open spec fn config_tag() -> Seq<u8> {
    seq![98u8, 111u8, 116u8, 95u8, 99u8, 111u8, 110u8, 102u8, 105u8, 103u8]
}

/// The seeds of an owner's configuration record, before the bump.
pub open spec fn config_seeds(owner: Seq<u8>) -> Seq<Seq<u8>> {
    seq![config_tag(), owner]
}

/// The address of an owner's configuration record for a given bump: the same
/// address acts as the signer of delegated calls.
pub open spec fn config_address(owner: Seq<u8>, bump: u8, program_id: Seq<u8>) -> Option<Seq<u8>> {
    program_address(config_seeds(owner).push(seq![bump]), program_id)
}

/// `bump` is the canonical bump of the owner's record, as the record is
/// created with: the largest bump in 1..=255 that derives an address.
pub open spec fn is_canonical_bump(owner: Seq<u8>, bump: u8, program_id: Seq<u8>) -> bool {
    &&& 1 <= bump
    &&& config_address(owner, bump, program_id) is Some
    &&& forall|c: u8| bump < c ==> (#[trigger] config_address(owner, c, program_id)) is None
}

fn config_tag_bytes() -> (r: Vec<u8>)
    ensures
        r@ == config_tag(),
{
    let r: Vec<u8> = vec![98u8, 111u8, 116u8, 95u8, 99u8, 111u8, 110u8, 102u8, 105u8, 103u8];
    assert(r@ =~= config_tag());
    r
}

fn config_seed_list(owner: &Key) -> (r: Vec<Vec<u8>>)
    ensures
        seeds_view(r@) =~= config_seeds(owner@),
{
    let mut r: Vec<Vec<u8>> = Vec::new();
    r.push(config_tag_bytes());
    r.push(owner.to_vec());
    r
}

/// The signer seeds of an owner's record: tag, owner, bump. Delegated calls
/// are signed with these, never with a key held by anyone.
pub fn config_signer_seeds(owner: &Key, bump: u8) -> (r: Vec<Vec<u8>>)
    ensures
        seeds_view(r@) =~= config_seeds(owner@).push(seq![bump]),
{
    let mut r = config_seed_list(owner);
    let mut b: Vec<u8> = Vec::new();
    b.push(bump);
    assert(b@ =~= seq![bump]);
    r.push(b);
    r
}

/// Finds the address and canonical bump of an owner's configuration record.
pub fn find_config_address(owner: &Key, program_id: &Key) -> (r: Option<(Key, u8)>)
    ensures
        match r {
            Some((k, bump)) => {
                &&& config_address(owner@, bump, program_id@) == Some(k@)
                &&& is_canonical_bump(owner@, bump, program_id@)
            },
            None => forall|c: u8| 1 <= c ==> (#[trigger] config_address(owner@, c, program_id@)) is None,
        },
{
    let seeds = config_seed_list(owner);
    try_find_program_address(&seeds, program_id)
}

/// Whether `address` is the record address that the owner and bump derive.
pub fn is_config_address(owner: &Key, bump: u8, program_id: &Key, address: &Key) -> (r: bool)
    ensures
        r == (config_address(owner@, bump, program_id@) == Some(address@)),
{
    let seeds = config_signer_seeds(owner, bump);
    match create_program_address(&seeds, program_id) {
        Some(k) => k.same_as(address),
        None => false,
    }
}

} // verus!
