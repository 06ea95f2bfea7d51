//! Instructions of the token market and their byte encoding: a one-byte
//! variant tag, followed for `BuyTokens` by the amount as eight
//! little-endian bytes.

use crate::address::Address;
use crate::error::TokenMarketError;
use crate::ledger::{token_program_id, token_program_key};
use vstd::bytes::{
    lemma_auto_spec_u64_to_from_le_bytes, spec_u64_from_le_bytes, spec_u64_to_le_bytes,
    u64_from_le_bytes, u64_to_le_bytes,
};
use vstd::prelude::*;

verus! {

/// The instructions that the processor accepts.
#[derive(Clone, Copy, Debug, PartialEq, Eq, Structural)]
pub enum TokenMarketInstructions {
    /// Create the market.
    ///
    /// Accounts expected, in order:
    /// 0. `[]` the market's owner
    /// 1. `[writable]` the market record
    /// 2. `[]` the market authority
    /// 3. `[writable]` the bank token account that collects accepted tokens
    /// 4. `[writable]` the mint of the emitted token
    /// 5. `[]` the mint of the accepted token
    /// 6. `[]` the token program
    Initialize,
    /// Exchange `amount` accepted tokens for as many emitted tokens.
    ///
    /// Accounts expected, in order:
    /// 0. `[]` the market record
    /// 1. `[]` the market authority
    /// 2. `[writable]` the mint of the emitted token
    /// 3. `[writable]` the bank
    /// 4. `[writable]` the token account that receives emitted tokens
    /// 5. `[writable]` the write-off account that pays accepted tokens
    /// 6. `[]` the token program
    BuyTokens { amount: u64 },
}

/// Tag byte of `Initialize`.
pub const INITIALIZE_TAG: u8 = 0;

/// Tag byte of `BuyTokens`.
pub const BUY_TOKENS_TAG: u8 = 1;

/// The bytes that encode an instruction.
pub open spec fn encode_instruction(i: TokenMarketInstructions) -> Seq<u8> {
    match i {
        TokenMarketInstructions::Initialize => seq![INITIALIZE_TAG],
        TokenMarketInstructions::BuyTokens { amount } => seq![BUY_TOKENS_TAG]
            + spec_u64_to_le_bytes(amount),
    }
}

/// The instruction that `data` encodes, if any: the encoding is closed, so
/// trailing or missing bytes and unknown tags are rejected.
pub open spec fn decode_instruction(data: Seq<u8>) -> Option<TokenMarketInstructions> {
    if data.len() == 1 && data[0] == INITIALIZE_TAG {
        Some(TokenMarketInstructions::Initialize)
    } else if data.len() == 9 && data[0] == BUY_TOKENS_TAG {
        Some(TokenMarketInstructions::BuyTokens { amount: spec_u64_from_le_bytes(data.subrange(1, 9)) })
    } else {
        None
    }
}

impl TokenMarketInstructions {
    /// Decodes an instruction; fails with `DecodeError` on bytes that encode none.
    pub fn unpack(input: &[u8]) -> (r: Result<TokenMarketInstructions, TokenMarketError>)
        ensures
            match r {
                Ok(i) => decode_instruction(input@) == Some(i),
                Err(e) => decode_instruction(input@) is None && e == TokenMarketError::DecodeError,
            },
    {
        if input.len() == 1 && input[0] == INITIALIZE_TAG {
            Ok(TokenMarketInstructions::Initialize)
        } else if input.len() == 9 && input[0] == BUY_TOKENS_TAG {
            let payload = &input[1..9];
            assert(payload@ == input@.subrange(1, 9));
            let amount = u64_from_le_bytes(payload);
            Ok(TokenMarketInstructions::BuyTokens { amount })
        } else {
            Err(TokenMarketError::DecodeError)
        }
    }

    /// Encodes the instruction.
    pub fn pack(&self) -> (r: Vec<u8>)
        ensures
            r@ == encode_instruction(*self),
    {
        match self {
            TokenMarketInstructions::Initialize => {
                let r = vec![INITIALIZE_TAG];
                assert(r@ =~= encode_instruction(*self));
                r
            },
            TokenMarketInstructions::BuyTokens { amount } => {
                let mut r = vec![BUY_TOKENS_TAG];
                let mut payload = u64_to_le_bytes(*amount);
                r.append(&mut payload);
                assert(r@ =~= encode_instruction(*self));
                r
            },
        }
    }
}

/// One account reference of an instruction, with the access it needs.
#[derive(Clone, Copy, Debug)]
pub struct AccountMeta {
    pub pubkey: Address,
    pub is_signer: bool,
    pub is_writable: bool,
}

impl View for AccountMeta {
    type V = (Seq<u8>, bool, bool);

    open spec fn view(&self) -> (Seq<u8>, bool, bool) {
        (self.pubkey@, self.is_signer, self.is_writable)
    }
}

/// An instruction addressed to a program: its accounts in order and its data.
#[derive(Clone, Debug)]
pub struct Instruction {
    pub program_id: Address,
    pub accounts: Vec<AccountMeta>,
    pub data: Vec<u8>,
}

/// The accounts of an instruction as (identity, signer, writable) triples.
pub open spec fn metas_view(accounts: Seq<AccountMeta>) -> Seq<(Seq<u8>, bool, bool)> {
    accounts.map_values(|m: AccountMeta| m@)
}

/// Builds an `Initialize` instruction for the market program `program_id`,
/// with the accounts in the order that the processor resolves them.
pub fn initialize(
    program_id: &Address,
    owner: &Address,
    market: &Address,
    authority: &Address,
    bank: &Address,
    emitter: &Address,
    acceptable: &Address,
) -> (r: Result<Instruction, TokenMarketError>)
    ensures
        r matches Ok(i) && {
            &&& i.program_id@ == program_id@
            &&& i.data@ == encode_instruction(TokenMarketInstructions::Initialize)
            &&& metas_view(i.accounts@) == seq![
                (owner@, false, false),
                (market@, false, true),
                (authority@, false, false),
                (bank@, false, true),
                (emitter@, false, true),
                (acceptable@, false, false),
                (token_program_key(), false, false),
            ]
        },
{
    let accounts = vec![
        AccountMeta { pubkey: *owner, is_signer: false, is_writable: false },
        AccountMeta { pubkey: *market, is_signer: false, is_writable: true },
        AccountMeta { pubkey: *authority, is_signer: false, is_writable: false },
        AccountMeta { pubkey: *bank, is_signer: false, is_writable: true },
        AccountMeta { pubkey: *emitter, is_signer: false, is_writable: true },
        AccountMeta { pubkey: *acceptable, is_signer: false, is_writable: false },
        AccountMeta { pubkey: token_program_id(), is_signer: false, is_writable: false },
    ];
    let data = TokenMarketInstructions::Initialize.pack();
    let i = Instruction { program_id: *program_id, accounts, data };
    assert(metas_view(i.accounts@) =~= seq![
        (owner@, false, false),
        (market@, false, true),
        (authority@, false, false),
        (bank@, false, true),
        (emitter@, false, true),
        (acceptable@, false, false),
        (token_program_key(), false, false),
    ]);
    Ok(i)
}

/// Builds a `BuyTokens { amount }` instruction for the market program
/// `program_id`, with the accounts in the order that the processor
/// resolves them.
pub fn buy_tokens(
    program_id: &Address,
    market: &Address,
    authority: &Address,
    emitter: &Address,
    bank: &Address,
    recipient_account: &Address,
    write_off_acc: &Address,
    amount: u64,
) -> (r: Result<Instruction, TokenMarketError>)
    ensures
        r matches Ok(i) && {
            &&& i.program_id@ == program_id@
            &&& i.data@ == encode_instruction(TokenMarketInstructions::BuyTokens { amount })
            &&& metas_view(i.accounts@) == seq![
                (market@, false, false),
                (authority@, false, false),
                (emitter@, false, true),
                (bank@, false, true),
                (recipient_account@, false, true),
                (write_off_acc@, false, true),
                (token_program_key(), false, false),
            ]
        },
{
    let accounts = vec![
        AccountMeta { pubkey: *market, is_signer: false, is_writable: false },
        AccountMeta { pubkey: *authority, is_signer: false, is_writable: false },
        AccountMeta { pubkey: *emitter, is_signer: false, is_writable: true },
        AccountMeta { pubkey: *bank, is_signer: false, is_writable: true },
        AccountMeta { pubkey: *recipient_account, is_signer: false, is_writable: true },
        AccountMeta { pubkey: *write_off_acc, is_signer: false, is_writable: true },
        AccountMeta { pubkey: token_program_id(), is_signer: false, is_writable: false },
    ];
    let data = TokenMarketInstructions::BuyTokens { amount }.pack();
    let i = Instruction { program_id: *program_id, accounts, data };
    assert(metas_view(i.accounts@) =~= seq![
        (market@, false, false),
        (authority@, false, false),
        (emitter@, false, true),
        (bank@, false, true),
        (recipient_account@, false, true),
        (write_off_acc@, false, true),
        (token_program_key(), false, false),
    ]);
    Ok(i)
}

/// Decoding the encoding of an instruction gives the instruction back.
pub proof fn lemma_decode_encode(i: TokenMarketInstructions)
    ensures
        decode_instruction(encode_instruction(i)) == Some(i),
{
    lemma_auto_spec_u64_to_from_le_bytes();
    if let TokenMarketInstructions::BuyTokens { amount } = i {
        let e = encode_instruction(i);
        assert(e.subrange(1, 9) =~= spec_u64_to_le_bytes(amount));
    }
}

/// Bytes that decode to an instruction are exactly that instruction's
/// encoding, so decoding then re-encoding gives the same bytes back.
pub proof fn lemma_encode_decode(data: Seq<u8>)
    requires
        decode_instruction(data) is Some,
    ensures
        encode_instruction(decode_instruction(data).unwrap()) == data,
{
    lemma_auto_spec_u64_to_from_le_bytes();
    if data.len() == 1 {
        assert(encode_instruction(decode_instruction(data).unwrap()) =~= data);
    } else {
        let payload = data.subrange(1, 9);
        assert(spec_u64_to_le_bytes(spec_u64_from_le_bytes(payload)) == payload);
        assert(encode_instruction(decode_instruction(data).unwrap()) =~= data);
    }
}

/// The encoding of every `BuyTokens` amount survives a decode and a
/// re-encode unchanged.
pub proof fn lemma_buy_tokens_round_trip(amount: u64)
    ensures
        ({
            let bytes = encode_instruction(TokenMarketInstructions::BuyTokens { amount });
            &&& decode_instruction(bytes) == Some(TokenMarketInstructions::BuyTokens { amount })
            &&& encode_instruction(decode_instruction(bytes).unwrap()) == bytes
        }),
{
    lemma_decode_encode(TokenMarketInstructions::BuyTokens { amount });
}

} // verus!
