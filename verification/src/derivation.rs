//! Deterministic addresses: the address of a seller's record, and the two
//! addresses under which the certificate registry keeps what it knows of a
//! mint.
//!
//! The derivation itself (a hash over the seeds and a search for a bump that
//! leaves the curve) is the host's. The library names its result and fixes
//! which seeds go in.

use vstd::prelude::*;
use crate::address::Address;

verus! {

/// What `Pubkey::try_find_program_address` yields for these seeds under this
/// program: the derived address with its bump, or nothing where no bump
/// gives an address or the seeds are not acceptable.
pub uninterp spec fn program_address(seeds: Seq<Seq<u8>>, program_id: Seq<u8>) -> Option<(Seq<u8>, u8)>;

/// A derived address and its bump, as plain bytes.
pub open spec fn derived_view(derived: Option<(Address, u8)>) -> Option<(Seq<u8>, u8)> {
    match derived {
        Some((address, nonce)) => Some((address@, nonce)),
        None => None,
    }
}

/// Calls `Pubkey::try_find_program_address` of the host's SDK. Trusted: that
/// the outcome is a function of the seeds' bytes and the program's address
/// alone, which is all that the name `program_address` claims.
#[verifier::external_body]
pub(crate) fn find_program_address(seeds: &Vec<Vec<u8>>, program_id: &Address) -> (r: Option<(Address, u8)>)
    ensures
        derived_view(r) == program_address(seeds.deep_view(), program_id@),
{
    let parts: Vec<&[u8]> = seeds.iter().map(|seed| seed.as_slice()).collect();
    let program = anchor_lang::prelude::Pubkey::new_from_array(program_id.bytes);
    anchor_lang::prelude::Pubkey::try_find_program_address(&parts, &program)
        .map(|(key, nonce)| (Address { bytes: key.to_bytes() }, nonce))
}

/// The registry's seed prefix, `metadata`.
pub open spec fn metadata_prefix() -> Seq<u8> {
    seq![109u8, 101u8, 116u8, 97u8, 100u8, 97u8, 116u8, 97u8]
}

/// The registry's seed suffix for master editions, `edition`.
pub open spec fn edition_suffix() -> Seq<u8> {
    seq![101u8, 100u8, 105u8, 116u8, 105u8, 111u8, 110u8]
}

/// The tag under which this program derives record addresses, `config-seed`.
pub open spec fn config_seed() -> Seq<u8> {
    seq![99u8, 111u8, 110u8, 102u8, 105u8, 103u8, 45u8, 115u8, 101u8, 101u8, 100u8]
}

/// The address of the certificate registry.
pub open spec fn registry_id() -> Seq<u8> {
    seq![
        11u8, 112u8, 101u8, 177u8, 227u8, 209u8, 124u8, 69u8, 56u8, 157u8, 82u8, 127u8, 107u8,
        4u8, 195u8, 205u8, 88u8, 184u8, 108u8, 115u8, 26u8, 160u8, 253u8, 181u8, 73u8, 182u8,
        209u8, 188u8, 3u8, 248u8, 41u8, 70u8,
    ]
}

/// Reads the registry's own address, `mpl_token_metadata::id()`. Trusted:
/// that the address it declares, `metaqbxxUerdq28cj1RbAWkYQm3ybzjb6a8bt518x1s`
/// in base 58, is these thirty-two bytes.
#[verifier::external_body]
pub(crate) fn registry_address() -> (r: Address)
    ensures
        r@ == registry_id(),
{
    Address { bytes: mpl_token_metadata::id().to_bytes() }
}

/// Reads the registry's constant `PREFIX`. Trusted: that it spells
/// `metadata`.
#[verifier::external_body]
pub(crate) fn registry_prefix() -> (r: Vec<u8>)
    ensures
        r@ == metadata_prefix(),
{
    mpl_token_metadata::state::PREFIX.as_bytes().to_vec()
}

/// Reads the registry's constant `EDITION`. Trusted: that it spells
/// `edition`.
#[verifier::external_body]
pub(crate) fn registry_edition() -> (r: Vec<u8>)
    ensures
        r@ == edition_suffix(),
{
    mpl_token_metadata::state::EDITION.as_bytes().to_vec()
}

/// The seeds of a seller's record: the tag, then the seller.
pub open spec fn config_seeds(creator: Seq<u8>) -> Seq<Seq<u8>> {
    seq![config_seed(), creator]
}

/// The seeds with which a record signs: those of its address, then the bump.
pub open spec fn signer_seeds(creator: Seq<u8>, nonce: u8) -> Seq<Seq<u8>> {
    seq![config_seed(), creator, seq![nonce]]
}

/// The seeds of a mint's master edition.
pub open spec fn master_edition_seeds(registry: Seq<u8>, mint: Seq<u8>) -> Seq<Seq<u8>> {
    seq![metadata_prefix(), registry, mint, edition_suffix()]
}

/// The seeds of a mint's metadata.
pub open spec fn metadata_seeds(registry: Seq<u8>, mint: Seq<u8>) -> Seq<Seq<u8>> {
    seq![metadata_prefix(), registry, mint]
}

/// The address of the record of `creator` under `program_id`.
pub open spec fn spec_config_address(creator: Address, program_id: Address) -> Option<(Seq<u8>, u8)> {
    program_address(config_seeds(creator@), program_id@)
}

/// The master edition address of `mint` in the registry `registry`.
pub open spec fn spec_master_edition_address(registry: Address, mint: Address) -> Option<(Seq<u8>, u8)> {
    program_address(master_edition_seeds(registry@, mint@), registry@)
}

/// The metadata address of `mint` in the registry `registry`.
pub open spec fn spec_metadata_address(registry: Address, mint: Address) -> Option<(Seq<u8>, u8)> {
    program_address(metadata_seeds(registry@, mint@), registry@)
}

/// The bytes of the tag `config-seed`.
pub fn config_seed_bytes() -> (r: Vec<u8>)
    ensures
        r@ == config_seed(),
{
    let r: Vec<u8> = vec![99u8, 111u8, 110u8, 102u8, 105u8, 103u8, 45u8, 115u8, 101u8, 101u8, 100u8];
    assert(r@ =~= config_seed());
    r
}

/// Where the record of `creator` lives, and the bump that was needed to get
/// there.
pub fn config_address(creator: &Address, program_id: &Address) -> (r: Option<(Address, u8)>)
    ensures
        derived_view(r) == spec_config_address(*creator, *program_id),
{
    let mut seeds: Vec<Vec<u8>> = Vec::new();
    seeds.push(config_seed_bytes());
    seeds.push(creator.to_vec());
    assert(seeds.deep_view() =~~= config_seeds(creator@));
    find_program_address(&seeds, program_id)
}

/// Where the registry keeps the master edition of `mint`.
pub fn master_edition_address(registry: &Address, mint: &Address) -> (r: Option<(Address, u8)>)
    ensures
        derived_view(r) == spec_master_edition_address(*registry, *mint),
{
    let mut seeds: Vec<Vec<u8>> = Vec::new();
    seeds.push(registry_prefix());
    seeds.push(registry.to_vec());
    seeds.push(mint.to_vec());
    seeds.push(registry_edition());
    assert(seeds.deep_view() =~~= master_edition_seeds(registry@, mint@));
    find_program_address(&seeds, registry)
}

/// Where the registry keeps the metadata of `mint`.
pub fn metadata_address(registry: &Address, mint: &Address) -> (r: Option<(Address, u8)>)
    ensures
        derived_view(r) == spec_metadata_address(*registry, *mint),
{
    let mut seeds: Vec<Vec<u8>> = Vec::new();
    seeds.push(registry_prefix());
    seeds.push(registry.to_vec());
    seeds.push(mint.to_vec());
    assert(seeds.deep_view() =~~= metadata_seeds(registry@, mint@));
    find_program_address(&seeds, registry)
}

/// Whether `derived` is exactly the address `key`, reached with `nonce`.
pub fn is_derived(derived: &Option<(Address, u8)>, key: &Address, nonce: u8) -> (r: bool)
    ensures
        r == (derived_view(*derived) == Some((key@, nonce))),
{
    match derived {
        Some((address, bump)) => {
            proof {
                Address::lemma_view_injective(*address, *key);
            }
            *address == *key && *bump == nonce
        },
        None => false,
    }
}

/// Whether `derived` is the address `key`, with whatever bump.
pub fn is_derived_address(derived: &Option<(Address, u8)>, key: &Address) -> (r: bool)
    ensures
        r == (derived_view(*derived) matches Some((address, _)) && address == key@),
{
    match derived {
        Some((address, _)) => {
            proof {
                Address::lemma_view_injective(*address, *key);
            }
            *address == *key
        },
        None => false,
    }
}

} // verus!
