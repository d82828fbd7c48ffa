//! The authority deriver: the pool's two keyless custody identities.
//!
//! From the pool's own identity and a fixed textual label, the underlying
//! ledger defines a deterministic derivation that yields an address with no
//! private key plus a numeric proof (the "bump").  Re-deriving the same pair
//! is how the program authorizes transfers out of the treasury and mint or
//! burn operations on the receipt-token.  The derivation itself is a pure
//! function of its inputs, computed by the ledger's SDK; this module gives its
//! result a name and proves that the treasury and mint authorities are each
//! derived from their fixed label.

use vstd::prelude::*;
use crate::identity::Identity;

verus! {

/// The address-and-bump pair, if any, that the ledger's derivation yields for
/// the given seed label, pool identity and program identity.  The derivation
/// is a pure function of these three inputs alone.
pub uninterp spec fn derived_address(label: Seq<u8>, pool: Seq<u8>, program: Seq<u8>) -> Option<
    (Seq<u8>, u8),
>;

/// The bytes of a derived address together with its bump, for stating what a
/// derivation call returned.
pub open spec fn address_bump_view(r: Option<(Identity, u8)>) -> Option<(Seq<u8>, u8)> {
    match r {
        Some((id, bump)) => Some((id@, bump)),
        None => None,
    }
}

/// Relies on solana-pubkey's `Pubkey::try_find_program_address` (re-exported
/// by anchor-lang): a deterministic search over bump seeds that depends only
/// on the seeds and the program identity, returning `None` instead of
/// panicking in the statistically improbable event that no bump works or when
/// the seeds are out of range.
#[verifier::external_body]
fn find_derived_address(label: &Vec<u8>, pool: &Identity, program: &Identity) -> (r: Option<
    (Identity, u8),
>)
    ensures
        address_bump_view(r) == derived_address(label@, pool@, program@),
{
    let seeds: &[&[u8]] = &[label.as_slice(), &pool.bytes];
    let program_id = anchor_lang::prelude::Pubkey::new_from_array(program.bytes);
    anchor_lang::prelude::Pubkey::try_find_program_address(seeds, &program_id).map(
        |pair: (anchor_lang::prelude::Pubkey, u8)| (Identity { bytes: pair.0.to_bytes() }, pair.1),
    )
}

/// The fixed label under which the treasury authority is derived.
pub open spec fn treasury_label() -> Seq<u8> {
    seq![0x74u8, 0x72, 0x65, 0x61, 0x73, 0x75, 0x72, 0x79]
}

/// The fixed label under which the mint authority is derived.
pub open spec fn mint_authority_label() -> Seq<u8> {
    seq![0x6du8, 0x69, 0x6e, 0x74, 0x5f, 0x61, 0x75, 0x74, 0x68, 0x6f, 0x72, 0x69, 0x74, 0x79]
}

fn treasury_label_bytes() -> (r: Vec<u8>)
    ensures
        r@ == treasury_label(),
{
    let mut v: Vec<u8> = Vec::new();
    v.push(0x74);
    v.push(0x72);
    v.push(0x65);
    v.push(0x61);
    v.push(0x73);
    v.push(0x75);
    v.push(0x72);
    v.push(0x79);
    proof {
        assert(v@ =~= treasury_label());
    }
    v
}

fn mint_authority_label_bytes() -> (r: Vec<u8>)
    ensures
        r@ == mint_authority_label(),
{
    let mut v: Vec<u8> = Vec::new();
    v.push(0x6d);
    v.push(0x69);
    v.push(0x6e);
    v.push(0x74);
    v.push(0x5f);
    v.push(0x61);
    v.push(0x75);
    v.push(0x74);
    v.push(0x68);
    v.push(0x6f);
    v.push(0x72);
    v.push(0x69);
    v.push(0x74);
    v.push(0x79);
    proof {
        assert(v@ =~= mint_authority_label());
    }
    v
}

/// The treasury authority of the pool: the derived custody address that holds
/// the staked native value, with its bump.
pub fn derive_treasury_authority(pool: &Identity, program: &Identity) -> (r: Option<
    (Identity, u8),
>)
    ensures
        address_bump_view(r) == derived_address(treasury_label(), pool@, program@),
{
    let label = treasury_label_bytes();
    find_derived_address(&label, pool, program)
}

/// The mint authority of the pool: the derived address that alone may mint
/// and burn the receipt-token, with its bump.
pub fn derive_mint_authority(pool: &Identity, program: &Identity) -> (r: Option<(Identity, u8)>)
    ensures
        address_bump_view(r) == derived_address(mint_authority_label(), pool@, program@),
{
    let label = mint_authority_label_bytes();
    find_derived_address(&label, pool, program)
}

} // verus!
