//! The market authority: an identity derived from the market's own address
//! and the market program's identity, for which no private key exists.

use crate::address::Address;
use solana_program::pubkey::Pubkey;
use vstd::prelude::*;

verus! {

/// The program-derived address for `seed` under `program_id`, with its bump
/// seed, or none where no bump seed gives an address off the curve.
pub uninterp spec fn program_address(seed: Seq<u8>, program_id: Seq<u8>) -> Option<(Seq<u8>, u8)>;

/// The view of a derived authority and its bump seed.
pub open spec fn derived_view(d: Option<(Address, u8)>) -> Option<(Seq<u8>, u8)> {
    match d {
        Some((key, bump)) => Some((key@, bump)),
        None => None,
    }
}

/// Relies on `Pubkey::try_find_program_address` with the market's address as
/// the only seed: a pure function of the seed and the program identity.
#[verifier::external_body]
pub(crate) fn find_market_authority(market: &Address, program_id: &Address) -> (r: Option<
    (Address, u8),
>)
    ensures
        derived_view(r) == program_address(market@, program_id@),
{
    let seeds: [&[u8]; 1] = [&market.bytes];
    match Pubkey::try_find_program_address(&seeds, &Pubkey::new_from_array(program_id.bytes)) {
        Some((key, bump)) => Some((Address { bytes: key.to_bytes() }, bump)),
        None => None,
    }
}

} // verus!
