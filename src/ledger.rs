//! The token ledger that the market drives: its program's identity, the
//! parts of its account and mint records that the market reads, and the
//! operations that the market asks it to perform.

use crate::address::Address;
use crate::error::TokenMarketError;
use solana_program::program_error::ProgramError;
use solana_program::program_pack::Pack;
use vstd::bytes::spec_u64_from_le_bytes;
use vstd::prelude::*;

verus! {

/// Size of a token account record.
pub const TOKEN_ACCOUNT_LEN: usize = 165;

/// Size of a mint record.
pub const MINT_LEN: usize = 82;

/// The address of the token program, `TokenkegQfeZyiNwAJbNbGKPFXCWuBvf9Ss623VQ5DA`.
pub open spec fn token_program_key() -> Seq<u8> {
    seq![
        6u8, 221, 246, 225, 215, 101, 161, 147, 217, 203, 225, 70, 206, 235, 121, 172, 28, 180,
        133, 237, 95, 91, 55, 145, 58, 140, 245, 133, 126, 255, 0, 169,
    ]
}

/// Relies on `spl_token::id()`, the token program's declared address.
#[verifier::external_body]
pub(crate) fn token_program_id() -> (r: Address)
    ensures
        r@ == token_program_key(),
{
    Address { bytes: spl_token::id().to_bytes() }
}

/// The four-byte tag of an optional field at `at` is "absent" or "present".
pub open spec fn option_tag_valid(d: Seq<u8>, at: int) -> bool {
    &&& d[at] == 0 || d[at] == 1
    &&& d[at + 1] == 0
    &&& d[at + 2] == 0
    &&& d[at + 3] == 0
}

/// Token account layout: mint (0..32), owner (32..64), amount (64..72,
/// little-endian), optional delegate (72..108), state (108: uninitialized,
/// initialized or frozen), optional native amount (109..121), delegated
/// amount (121..129), optional close authority (129..165).
pub open spec fn token_account_layout_valid(d: Seq<u8>) -> bool {
    &&& d.len() == TOKEN_ACCOUNT_LEN
    &&& option_tag_valid(d, 72)
    &&& d[108] <= 2
    &&& option_tag_valid(d, 109)
    &&& option_tag_valid(d, 129)
}

/// The mint and the balance of the token account that `d` holds.
pub open spec fn token_account_of(d: Seq<u8>) -> Result<(Seq<u8>, u64), TokenMarketError> {
    if !token_account_layout_valid(d) {
        Err(TokenMarketError::InvalidAccountData)
    } else if d[108] == 0 {
        Err(TokenMarketError::Uninitialized)
    } else {
        Ok((d.subrange(0, 32), spec_u64_from_le_bytes(d.subrange(64, 72))))
    }
}

/// Mint layout: optional mint authority (0..36), supply (36..44), decimals
/// (44), initialized flag (45), optional freeze authority (46..82).
pub open spec fn mint_layout_valid(d: Seq<u8>) -> bool {
    &&& d.len() == MINT_LEN
    &&& option_tag_valid(d, 0)
    &&& d[45] <= 1
    &&& option_tag_valid(d, 46)
}

/// The decimal precision of the mint that `d` holds.
pub open spec fn mint_decimals_of(d: Seq<u8>) -> Result<u8, TokenMarketError> {
    if !mint_layout_valid(d) {
        Err(TokenMarketError::InvalidAccountData)
    } else if d[45] == 0 {
        Err(TokenMarketError::Uninitialized)
    } else {
        Ok(d[44])
    }
}

/// What the market reads of a token account.
#[derive(Clone, Copy, Debug)]
pub struct TokenAccount {
    pub mint: Address,
    pub amount: u64,
}

/// Relies on `spl_token::state::Account::unpack`: it accepts exactly the
/// initialized records of the token account layout, failing with
/// `UninitializedAccount` on a well-formed record whose state is
/// uninitialized and with `InvalidAccountData` otherwise.
#[verifier::external_body]
pub(crate) fn unpack_token_account(data: &[u8]) -> (r: Result<TokenAccount, TokenMarketError>)
    ensures
        match r {
            Ok(a) => token_account_of(data@) == Ok::<(Seq<u8>, u64), TokenMarketError>(
                (a.mint@, a.amount),
            ),
            Err(e) => token_account_of(data@) == Err::<(Seq<u8>, u64), TokenMarketError>(e),
        },
{
    match spl_token::state::Account::unpack(data) {
        Ok(a) => Ok(TokenAccount { mint: Address { bytes: a.mint.to_bytes() }, amount: a.amount }),
        Err(ProgramError::UninitializedAccount) => Err(TokenMarketError::Uninitialized),
        Err(_) => Err(TokenMarketError::InvalidAccountData),
    }
}

/// Relies on `spl_token::state::Mint::unpack`: it accepts exactly the
/// initialized records of the mint layout, failing with
/// `UninitializedAccount` on a well-formed record whose flag is clear and
/// with `InvalidAccountData` otherwise.
#[verifier::external_body]
pub(crate) fn unpack_mint_decimals(data: &[u8]) -> (r: Result<u8, TokenMarketError>)
    ensures
        r == mint_decimals_of(data@),
{
    match spl_token::state::Mint::unpack(data) {
        Ok(m) => Ok(m.decimals),
        Err(ProgramError::UninitializedAccount) => Err(TokenMarketError::Uninitialized),
        Err(_) => Err(TokenMarketError::InvalidAccountData),
    }
}

/// An operation that the market asks the token ledger to perform.
#[derive(Clone, Copy, Debug)]
pub enum TokenOp {
    /// Make `account` a token account of `mint` owned by `owner`.
    InitializeAccount { account: Address, mint: Address, owner: Address },
    /// Make `mint` a mint with `decimals` places whose mint authority is
    /// `mint_authority` and which has no freeze authority.
    InitializeMint { mint: Address, mint_authority: Address, decimals: u8 },
    /// Move `amount` tokens from `source` to `destination`, signed by `authority`.
    Transfer { source: Address, destination: Address, authority: Address, amount: u64 },
    /// Mint `amount` tokens of `mint` into `destination`, signed by `authority`.
    MintTo { mint: Address, destination: Address, authority: Address, amount: u64 },
}

/// The mathematical view of a ledger operation.
pub enum TokenOpModel {
    InitializeAccount { account: Seq<u8>, mint: Seq<u8>, owner: Seq<u8> },
    InitializeMint { mint: Seq<u8>, mint_authority: Seq<u8>, decimals: u8 },
    Transfer { source: Seq<u8>, destination: Seq<u8>, authority: Seq<u8>, amount: u64 },
    MintTo { mint: Seq<u8>, destination: Seq<u8>, authority: Seq<u8>, amount: u64 },
}

impl View for TokenOp {
    type V = TokenOpModel;

    open spec fn view(&self) -> TokenOpModel {
        match *self {
            TokenOp::InitializeAccount { account, mint, owner } => TokenOpModel::InitializeAccount {
                account: account@,
                mint: mint@,
                owner: owner@,
            },
            TokenOp::InitializeMint { mint, mint_authority, decimals } =>
                TokenOpModel::InitializeMint {
                mint: mint@,
                mint_authority: mint_authority@,
                decimals,
            },
            TokenOp::Transfer { source, destination, authority, amount } => TokenOpModel::Transfer {
                source: source@,
                destination: destination@,
                authority: authority@,
                amount,
            },
            TokenOp::MintTo { mint, destination, authority, amount } => TokenOpModel::MintTo {
                mint: mint@,
                destination: destination@,
                authority: authority@,
                amount,
            },
        }
    }
}

} // verus!
