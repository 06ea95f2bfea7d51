//! The market record: the one piece of state the market persists.
//!
//! Layout, 161 bytes: the initialized flag as one byte (0 or 1), then the
//! owner, bank, emitter mint, authority and acceptable mint, 32 bytes each.

use crate::address::Address;
use crate::error::TokenMarketError;
use vstd::prelude::*;

verus! {

/// The persisted description of one market.
#[derive(Clone, Copy, Debug)]
pub struct TokenMarket {
    pub is_initialized: bool,
    /// The account that created the market.
    pub owner: Address,
    /// The token account that holds the accepted tokens.
    pub bank: Address,
    /// The mint that the market emits from.
    pub emitter_mint: Address,
    /// The authority derived from the market's own address.
    pub authority: Address,
    /// The mint that buyers pay with.
    pub mint_of_acceptable: Address,
}

/// The mathematical view of a market record.
pub struct MarketModel {
    pub is_initialized: bool,
    pub owner: Seq<u8>,
    pub bank: Seq<u8>,
    pub emitter_mint: Seq<u8>,
    pub authority: Seq<u8>,
    pub mint_of_acceptable: Seq<u8>,
}

impl View for TokenMarket {
    type V = MarketModel;

    open spec fn view(&self) -> MarketModel {
        MarketModel {
            is_initialized: self.is_initialized,
            owner: self.owner@,
            bank: self.bank@,
            emitter_mint: self.emitter_mint@,
            authority: self.authority@,
            mint_of_acceptable: self.mint_of_acceptable@,
        }
    }
}

/// Every identity of the record is 32 bytes long.
pub open spec fn market_model_wf(m: MarketModel) -> bool {
    &&& m.owner.len() == 32
    &&& m.bank.len() == 32
    &&& m.emitter_mint.len() == 32
    &&& m.authority.len() == 32
    &&& m.mint_of_acceptable.len() == 32
}

/// The bytes that persist a record.
pub open spec fn encode_market(m: MarketModel) -> Seq<u8> {
    seq![if m.is_initialized { 1u8 } else { 0u8 }] + m.owner + m.bank + m.emitter_mint
        + m.authority + m.mint_of_acceptable
}

/// The record that `data` persists, if it is well formed.
pub open spec fn decode_market(data: Seq<u8>) -> Option<MarketModel> {
    if data.len() == TokenMarket::LEN && data[0] <= 1 {
        Some(
            MarketModel {
                is_initialized: data[0] == 1,
                owner: data.subrange(1, 33),
                bank: data.subrange(33, 65),
                emitter_mint: data.subrange(65, 97),
                authority: data.subrange(97, 129),
                mint_of_acceptable: data.subrange(129, 161),
            },
        )
    } else {
        None
    }
}

/// Appends the bytes of `a` to `out`.
fn push_address(out: &mut Vec<u8>, a: &Address)
    ensures
        final(out)@ == old(out)@ + a@,
{
    let mut i: usize = 0;
    while i < 32
        invariant
            i <= 32,
            out@ == old(out)@ + a@.subrange(0, i as int),
        decreases 32 - i,
    {
        out.push(a.bytes[i]);
        assert(a@.subrange(0, i + 1) =~= a@.subrange(0, i as int).push(a@[i as int]));
        i = i + 1;
    }
    assert(a@.subrange(0, 32) =~= a@);
}

impl TokenMarket {
    /// Size of the persisted record in bytes.
    pub const LEN: usize = 32 * 5 + 1;

    /// Whether the record describes a created market.
    pub fn is_initialized(&self) -> (r: bool)
        ensures
            r == self.is_initialized,
    {
        self.is_initialized
    }

    /// Decodes a persisted record; fails with `DecodeError` on malformed bytes.
    pub fn unpack(data: &[u8]) -> (r: Result<TokenMarket, TokenMarketError>)
        ensures
            match r {
                Ok(m) => decode_market(data@) == Some(m@),
                Err(e) => decode_market(data@) is None && e == TokenMarketError::DecodeError,
            },
    {
        if data.len() != TokenMarket::LEN || data[0] > 1 {
            return Err(TokenMarketError::DecodeError);
        }
        let m = TokenMarket {
            is_initialized: data[0] == 1,
            owner: Address::from_slice_at(data, 1),
            bank: Address::from_slice_at(data, 33),
            emitter_mint: Address::from_slice_at(data, 65),
            authority: Address::from_slice_at(data, 97),
            mint_of_acceptable: Address::from_slice_at(data, 129),
        };
        Ok(m)
    }

    /// Encodes the record.
    pub fn pack(&self) -> (r: Vec<u8>)
        ensures
            r@ == encode_market(self@),
    {
        let mut out: Vec<u8> = Vec::new();
        out.push(if self.is_initialized { 1u8 } else { 0u8 });
        push_address(&mut out, &self.owner);
        push_address(&mut out, &self.bank);
        push_address(&mut out, &self.emitter_mint);
        push_address(&mut out, &self.authority);
        push_address(&mut out, &self.mint_of_acceptable);
        assert(out@ =~= encode_market(self@));
        out
    }
}

/// Decoding the encoding of a record gives the record back.
pub proof fn lemma_decode_encode_market(m: MarketModel)
    requires
        market_model_wf(m),
    ensures
        decode_market(encode_market(m)) == Some(m),
{
    let e = encode_market(m);
    assert(e.len() == TokenMarket::LEN);
    assert(e.subrange(1, 33) =~= m.owner);
    assert(e.subrange(33, 65) =~= m.bank);
    assert(e.subrange(65, 97) =~= m.emitter_mint);
    assert(e.subrange(97, 129) =~= m.authority);
    assert(e.subrange(129, 161) =~= m.mint_of_acceptable);
}

/// Bytes that decode to a record are exactly that record's encoding.
pub proof fn lemma_encode_decode_market(data: Seq<u8>)
    requires
        decode_market(data) is Some,
    ensures
        market_model_wf(decode_market(data).unwrap()),
        encode_market(decode_market(data).unwrap()) == data,
{
    assert(encode_market(decode_market(data).unwrap()) =~= data);
}

} // verus!
