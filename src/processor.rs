//! The instruction processor: validates the supplied accounts against the
//! decoded instruction and, only when every precondition holds, returns the
//! token-ledger operations to perform and the record to persist.
//!
//! The emitted mint is created without a freeze authority and with the
//! acceptable mint's decimal precision, so the one-to-one exchange needs no
//! precision check when tokens are bought.

use crate::address::{AccountInput, AccountModel, Address};
use crate::authority::{derived_view, find_market_authority, program_address};
use crate::error::TokenMarketError;
use crate::instruction::{decode_instruction, TokenMarketInstructions};
use crate::ledger::{
    mint_decimals_of, token_account_of, token_program_id, token_program_key,
    unpack_mint_decimals, unpack_token_account, TokenOp, TokenOpModel,
};
use crate::state::{decode_market, encode_market, lemma_decode_encode_market, MarketModel, TokenMarket};
use vstd::prelude::*;

verus! {

/// Number of accounts that each instruction's layout names.
pub const ACCOUNTS_PER_INSTRUCTION: usize = 7;

/// What an accepted instruction asks of its environment: the ledger
/// operations to perform in order, each signed where it needs it by the
/// market authority, whose signature is seeded by the address of the
/// `market` account and `authority_bump`; and the bytes to write into the
/// data of that same `market` account, if any. The instruction takes effect
/// only if all of it does.
#[derive(Clone, Debug)]
pub struct Effects {
    pub market: Address,
    pub ops: Vec<TokenOp>,
    pub authority_bump: u8,
    pub market_data: Option<Vec<u8>>,
}

/// The mathematical view of an instruction's effects.
pub struct EffectsModel {
    pub market: Seq<u8>,
    pub ops: Seq<TokenOpModel>,
    pub authority_bump: u8,
    pub market_data: Option<Seq<u8>>,
}

impl View for Effects {
    type V = EffectsModel;

    open spec fn view(&self) -> EffectsModel {
        EffectsModel {
            market: self.market@,
            ops: self.ops@.map_values(|o: TokenOp| o@),
            authority_bump: self.authority_bump,
            market_data: match self.market_data {
                Some(d) => Some(d@),
                None => None,
            },
        }
    }
}

/// The view of a processor result.
pub open spec fn outcome_view(r: Result<Effects, TokenMarketError>) -> Result<
    EffectsModel,
    TokenMarketError,
> {
    match r {
        Ok(e) => Ok(e@),
        Err(e) => Err(e),
    }
}

/// The market record behind `market`, which the program must own.
pub open spec fn market_of(program_id: Seq<u8>, market: AccountModel) -> Result<
    MarketModel,
    TokenMarketError,
> {
    if market.owner != program_id {
        Err(TokenMarketError::IncorrectProgramId)
    } else {
        match decode_market(market.data) {
            Some(m) => Ok(m),
            None => Err(TokenMarketError::DecodeError),
        }
    }
}

/// The outcome of `Initialize`, given the derived authority and bump seed
/// of the market's address. Checks in order: the record is the program's,
/// well formed and not yet initialized; the token program is the real one;
/// the acceptable mint is an initialized mint; the supplied authority is the
/// derived one. Then the bank becomes a token account of the acceptable mint
/// and the emitter a mint of the same precision, both under the derived
/// authority, and the record is written initialized.
pub open spec fn init_market_outcome(
    program_id: Seq<u8>,
    owner: AccountModel,
    market: AccountModel,
    authority: AccountModel,
    bank: AccountModel,
    emitter: AccountModel,
    acceptable: AccountModel,
    token_program: AccountModel,
    derived: Option<(Seq<u8>, u8)>,
) -> Result<EffectsModel, TokenMarketError> {
    match market_of(program_id, market) {
        Err(e) => Err(e),
        Ok(record) => if record.is_initialized {
            Err(TokenMarketError::AlreadyInitialized)
        } else if token_program.key != token_program_key() {
            Err(TokenMarketError::IncorrectProgramId)
        } else {
            match mint_decimals_of(acceptable.data) {
                Err(e) => Err(e),
                Ok(decimals) => match derived {
                    None => Err(TokenMarketError::IncorrectAuthority),
                    Some((key, bump)) => if authority.key != key {
                        Err(TokenMarketError::IncorrectAuthority)
                    } else {
                        Ok(
                            EffectsModel {
                                market: market.key,
                                ops: seq![
                                    TokenOpModel::InitializeAccount {
                                        account: bank.key,
                                        mint: acceptable.key,
                                        owner: key,
                                    },
                                    TokenOpModel::InitializeMint {
                                        mint: emitter.key,
                                        mint_authority: key,
                                        decimals,
                                    },
                                ],
                                authority_bump: bump,
                                market_data: Some(
                                    encode_market(
                                        MarketModel {
                                            is_initialized: true,
                                            owner: owner.key,
                                            bank: bank.key,
                                            emitter_mint: emitter.key,
                                            authority: key,
                                            mint_of_acceptable: acceptable.key,
                                        },
                                    ),
                                ),
                            },
                        )
                    },
                },
            }
        },
    }
}

/// The checks of `BuyTokens` on the record and on the fixed accounts: the
/// record is the program's, well formed and initialized; the token program
/// is the real one; the supplied authority is the stored one and the
/// re-derived one; bank and emitter are the record's.
pub open spec fn buy_market_checks(
    program_id: Seq<u8>,
    market: AccountModel,
    authority: AccountModel,
    emitter: AccountModel,
    bank: AccountModel,
    token_program: AccountModel,
    derived: Option<(Seq<u8>, u8)>,
) -> Result<MarketModel, TokenMarketError> {
    match market_of(program_id, market) {
        Err(e) => Err(e),
        Ok(record) => if !record.is_initialized {
            Err(TokenMarketError::Uninitialized)
        } else if token_program.key != token_program_key() {
            Err(TokenMarketError::IncorrectProgramId)
        } else if authority.key != record.authority {
            Err(TokenMarketError::IncorrectAuthority)
        } else if derived is None || derived.unwrap().0 != record.authority {
            Err(TokenMarketError::IncorrectAuthority)
        } else if bank.key != record.bank || emitter.key != record.emitter_mint {
            Err(TokenMarketError::InvalidAccountData)
        } else {
            Ok(record)
        },
    }
}

/// The outcome of `BuyTokens { amount }`, given the derived authority and
/// bump seed of the market's address. After the checks on the record, the
/// recipient must be an initialized token account of the emitter mint, the
/// write-off account another account than the bank, and one of the
/// acceptable mint holding at least `amount`.
/// Then `amount` moves from the write-off account to the bank and as much
/// is minted to the recipient; the record is not written.
pub open spec fn buy_tokens_outcome(
    program_id: Seq<u8>,
    market: AccountModel,
    authority: AccountModel,
    emitter: AccountModel,
    bank: AccountModel,
    recipient: AccountModel,
    write_off: AccountModel,
    token_program: AccountModel,
    amount: u64,
    derived: Option<(Seq<u8>, u8)>,
) -> Result<EffectsModel, TokenMarketError> {
    match buy_market_checks(program_id, market, authority, emitter, bank, token_program, derived) {
        Err(e) => Err(e),
        Ok(record) => match token_account_of(recipient.data) {
            Err(e) => Err(e),
            Ok((recipient_mint, _)) => if recipient_mint != record.emitter_mint {
                Err(TokenMarketError::InvalidAccountData)
            } else if write_off.key == record.bank {
                Err(TokenMarketError::InvalidAccountData)
            } else {
                match token_account_of(write_off.data) {
                    Err(e) => Err(e),
                    Ok((write_off_mint, balance)) => if write_off_mint
                        != record.mint_of_acceptable {
                        Err(TokenMarketError::InvalidAccountData)
                    } else if balance < amount {
                        Err(TokenMarketError::InsufficientFunds)
                    } else {
                        Ok(
                            EffectsModel {
                                market: market.key,
                                ops: seq![
                                    TokenOpModel::Transfer {
                                        source: write_off.key,
                                        destination: record.bank,
                                        authority: record.authority,
                                        amount,
                                    },
                                    TokenOpModel::MintTo {
                                        mint: record.emitter_mint,
                                        destination: recipient.key,
                                        authority: record.authority,
                                        amount,
                                    },
                                ],
                                authority_bump: derived.unwrap().1,
                                market_data: None,
                            },
                        )
                    },
                }
            },
        },
    }
}

/// The outcome of an instruction: decode it, resolve its seven accounts by
/// position, and derive the authority from the market's address.
pub open spec fn instruction_outcome(
    program_id: Seq<u8>,
    accounts: Seq<AccountModel>,
    input: Seq<u8>,
) -> Result<EffectsModel, TokenMarketError> {
    match decode_instruction(input) {
        None => Err(TokenMarketError::DecodeError),
        Some(instruction) => if accounts.len() < ACCOUNTS_PER_INSTRUCTION {
            Err(TokenMarketError::NotEnoughAccountKeys)
        } else {
            match instruction {
                TokenMarketInstructions::Initialize => init_market_outcome(
                    program_id,
                    accounts[0],
                    accounts[1],
                    accounts[2],
                    accounts[3],
                    accounts[4],
                    accounts[5],
                    accounts[6],
                    program_address(accounts[1].key, program_id),
                ),
                TokenMarketInstructions::BuyTokens { amount } => buy_tokens_outcome(
                    program_id,
                    accounts[0],
                    accounts[1],
                    accounts[2],
                    accounts[3],
                    accounts[4],
                    accounts[5],
                    accounts[6],
                    amount,
                    program_address(accounts[0].key, program_id),
                ),
            }
        },
    }
}

/// Reads the market record, which the program must own.
fn load_market(program_id: &Address, market: &AccountInput) -> (r: Result<
    TokenMarket,
    TokenMarketError,
>)
    ensures
        match r {
            Ok(m) => market_of(program_id@, market@) == Ok::<MarketModel, TokenMarketError>(m@),
            Err(e) => market_of(program_id@, market@) == Err::<MarketModel, TokenMarketError>(e),
        },
{
    if !market.owner.same_as(program_id) {
        return Err(TokenMarketError::IncorrectProgramId);
    }
    TokenMarket::unpack(market.data.as_slice())
}

/// The token-market program's instruction handler.
pub struct Processor;

impl Processor {
    /// Processes one instruction: decodes `input`, resolves the accounts by
    /// position and runs the matching handler.
    pub fn process_instruction(
        program_id: &Address,
        accounts: &[AccountInput],
        input: &[u8],
    ) -> (r: Result<Effects, TokenMarketError>)
        ensures
            outcome_view(r) == instruction_outcome(
                program_id@,
                accounts@.map_values(|a: AccountInput| a@),
                input@,
            ),
    {
        let instruction = match TokenMarketInstructions::unpack(input) {
            Ok(i) => i,
            Err(e) => return Err(e),
        };
        if accounts.len() < ACCOUNTS_PER_INSTRUCTION {
            return Err(TokenMarketError::NotEnoughAccountKeys);
        }
        match instruction {
            TokenMarketInstructions::Initialize => Self::process_init_market(
                program_id,
                &accounts[0],
                &accounts[1],
                &accounts[2],
                &accounts[3],
                &accounts[4],
                &accounts[5],
                &accounts[6],
            ),
            TokenMarketInstructions::BuyTokens { amount } => Self::process_buy_tokens(
                program_id,
                &accounts[0],
                &accounts[1],
                &accounts[2],
                &accounts[3],
                &accounts[4],
                &accounts[5],
                &accounts[6],
                amount,
            ),
        }
    }

    /// Processes `Initialize`, deriving the market authority from the
    /// market's address.
    pub fn process_init_market(
        program_id: &Address,
        owner: &AccountInput,
        market: &AccountInput,
        authority: &AccountInput,
        bank: &AccountInput,
        emitter: &AccountInput,
        acceptable: &AccountInput,
        token_program: &AccountInput,
    ) -> (r: Result<Effects, TokenMarketError>)
        ensures
            outcome_view(r) == init_market_outcome(
                program_id@,
                owner@,
                market@,
                authority@,
                bank@,
                emitter@,
                acceptable@,
                token_program@,
                program_address(market.key@, program_id@),
            ),
    {
        let derived = find_market_authority(&market.key, program_id);
        Self::init_market_with_authority(
            program_id,
            owner,
            market,
            authority,
            bank,
            emitter,
            acceptable,
            token_program,
            derived,
        )
    }

    /// Processes `Initialize` with `derived`, the authority and bump seed
    /// derived from the market's address.
    pub fn init_market_with_authority(
        program_id: &Address,
        owner: &AccountInput,
        market: &AccountInput,
        authority: &AccountInput,
        bank: &AccountInput,
        emitter: &AccountInput,
        acceptable: &AccountInput,
        token_program: &AccountInput,
        derived: Option<(Address, u8)>,
    ) -> (r: Result<Effects, TokenMarketError>)
        ensures
            outcome_view(r) == init_market_outcome(
                program_id@,
                owner@,
                market@,
                authority@,
                bank@,
                emitter@,
                acceptable@,
                token_program@,
                derived_view(derived),
            ),
    {
        let record = match load_market(program_id, market) {
            Ok(m) => m,
            Err(e) => return Err(e),
        };
        if record.is_initialized() {
            return Err(TokenMarketError::AlreadyInitialized);
        }
        if !token_program.key.same_as(&token_program_id()) {
            return Err(TokenMarketError::IncorrectProgramId);
        }
        let decimals = match unpack_mint_decimals(acceptable.data.as_slice()) {
            Ok(d) => d,
            Err(e) => return Err(e),
        };
        let (key, bump) = match derived {
            Some(d) => d,
            None => return Err(TokenMarketError::IncorrectAuthority),
        };
        if !authority.key.same_as(&key) {
            return Err(TokenMarketError::IncorrectAuthority);
        }
        let created = TokenMarket {
            is_initialized: true,
            owner: owner.key,
            bank: bank.key,
            emitter_mint: emitter.key,
            authority: key,
            mint_of_acceptable: acceptable.key,
        };
        let ops = vec![
            TokenOp::InitializeAccount { account: bank.key, mint: acceptable.key, owner: key },
            TokenOp::InitializeMint { mint: emitter.key, mint_authority: key, decimals },
        ];
        let effects = Effects {
            market: market.key,
            ops,
            authority_bump: bump,
            market_data: Some(created.pack()),
        };
        assert(effects@.ops =~= init_market_outcome(
            program_id@,
            owner@,
            market@,
            authority@,
            bank@,
            emitter@,
            acceptable@,
            token_program@,
            derived_view(derived),
        ).unwrap().ops);
        Ok(effects)
    }

    /// Processes `BuyTokens { amount }`, re-deriving the market authority
    /// from the market's address.
    pub fn process_buy_tokens(
        program_id: &Address,
        market: &AccountInput,
        authority: &AccountInput,
        emitter: &AccountInput,
        bank: &AccountInput,
        recipient: &AccountInput,
        write_off: &AccountInput,
        token_program: &AccountInput,
        amount: u64,
    ) -> (r: Result<Effects, TokenMarketError>)
        ensures
            outcome_view(r) == buy_tokens_outcome(
                program_id@,
                market@,
                authority@,
                emitter@,
                bank@,
                recipient@,
                write_off@,
                token_program@,
                amount,
                program_address(market.key@, program_id@),
            ),
    {
        let derived = find_market_authority(&market.key, program_id);
        Self::buy_tokens_with_authority(
            program_id,
            market,
            authority,
            emitter,
            bank,
            recipient,
            write_off,
            token_program,
            amount,
            derived,
        )
    }

    /// Processes `BuyTokens { amount }` with `derived`, the authority and
    /// bump seed derived from the market's address.
    pub fn buy_tokens_with_authority(
        program_id: &Address,
        market: &AccountInput,
        authority: &AccountInput,
        emitter: &AccountInput,
        bank: &AccountInput,
        recipient: &AccountInput,
        write_off: &AccountInput,
        token_program: &AccountInput,
        amount: u64,
        derived: Option<(Address, u8)>,
    ) -> (r: Result<Effects, TokenMarketError>)
        ensures
            outcome_view(r) == buy_tokens_outcome(
                program_id@,
                market@,
                authority@,
                emitter@,
                bank@,
                recipient@,
                write_off@,
                token_program@,
                amount,
                derived_view(derived),
            ),
    {
        let record = match load_market(program_id, market) {
            Ok(m) => m,
            Err(e) => return Err(e),
        };
        if !record.is_initialized() {
            return Err(TokenMarketError::Uninitialized);
        }
        if !token_program.key.same_as(&token_program_id()) {
            return Err(TokenMarketError::IncorrectProgramId);
        }
        if !authority.key.same_as(&record.authority) {
            return Err(TokenMarketError::IncorrectAuthority);
        }
        let bump = match derived {
            Some((key, bump)) => {
                if !key.same_as(&record.authority) {
                    return Err(TokenMarketError::IncorrectAuthority);
                }
                bump
            },
            None => return Err(TokenMarketError::IncorrectAuthority),
        };
        if !bank.key.same_as(&record.bank) || !emitter.key.same_as(&record.emitter_mint) {
            return Err(TokenMarketError::InvalidAccountData);
        }
        let recipient_account = match unpack_token_account(recipient.data.as_slice()) {
            Ok(a) => a,
            Err(e) => return Err(e),
        };
        if !recipient_account.mint.same_as(&record.emitter_mint) {
            return Err(TokenMarketError::InvalidAccountData);
        }
        if write_off.key.same_as(&record.bank) {
            return Err(TokenMarketError::InvalidAccountData);
        }
        let write_off_account = match unpack_token_account(write_off.data.as_slice()) {
            Ok(a) => a,
            Err(e) => return Err(e),
        };
        if !write_off_account.mint.same_as(&record.mint_of_acceptable) {
            return Err(TokenMarketError::InvalidAccountData);
        }
        if write_off_account.amount < amount {
            return Err(TokenMarketError::InsufficientFunds);
        }
        let ops = vec![
            TokenOp::Transfer {
                source: write_off.key,
                destination: record.bank,
                authority: record.authority,
                amount,
            },
            TokenOp::MintTo {
                mint: record.emitter_mint,
                destination: recipient.key,
                authority: record.authority,
                amount,
            },
        ];
        let effects = Effects { market: market.key, ops, authority_bump: bump, market_data: None };
        assert(effects@.ops =~= buy_tokens_outcome(
            program_id@,
            market@,
            authority@,
            emitter@,
            bank@,
            recipient@,
            write_off@,
            token_program@,
            amount,
            derived_view(derived),
        ).unwrap().ops);
        Ok(effects)
    }
}

/// Every identity of the account snapshot is 32 bytes long.
pub open spec fn account_model_wf(a: AccountModel) -> bool {
    a.key.len() == 32 && a.owner.len() == 32
}

/// Once `Initialize` has succeeded, every later `Initialize` against the
/// record it wrote fails with `AlreadyInitialized`, whatever the other
/// accounts and the derivation; a failure writes nothing, so the record
/// stays byte for byte as the first call left it.
pub proof fn lemma_initialize_only_once(
    program_id: Seq<u8>,
    owner: AccountModel,
    market: AccountModel,
    authority: AccountModel,
    bank: AccountModel,
    emitter: AccountModel,
    acceptable: AccountModel,
    token_program: AccountModel,
    derived: Option<(Seq<u8>, u8)>,
    owner2: AccountModel,
    authority2: AccountModel,
    bank2: AccountModel,
    emitter2: AccountModel,
    acceptable2: AccountModel,
    token_program2: AccountModel,
    derived2: Option<(Seq<u8>, u8)>,
)
    requires
        account_model_wf(owner),
        account_model_wf(authority),
        account_model_wf(bank),
        account_model_wf(emitter),
        account_model_wf(acceptable),
        init_market_outcome(
            program_id,
            owner,
            market,
            authority,
            bank,
            emitter,
            acceptable,
            token_program,
            derived,
        ) is Ok,
    ensures
        ({
            let first = init_market_outcome(
                program_id,
                owner,
                market,
                authority,
                bank,
                emitter,
                acceptable,
                token_program,
                derived,
            ).unwrap();
            let after = AccountModel { data: first.market_data.unwrap(), ..market };
            init_market_outcome(
                program_id,
                owner2,
                after,
                authority2,
                bank2,
                emitter2,
                acceptable2,
                token_program2,
                derived2,
            ) == Err::<EffectsModel, TokenMarketError>(TokenMarketError::AlreadyInitialized)
        }),
{
    let key = derived.unwrap().0;
    let created = MarketModel {
        is_initialized: true,
        owner: owner.key,
        bank: bank.key,
        emitter_mint: emitter.key,
        authority: key,
        mint_of_acceptable: acceptable.key,
    };
    lemma_decode_encode_market(created);
}

/// `Initialize` with an authority other than the one derived from the
/// market's address always fails, so no bank or mint is touched; once the
/// checks that come before it pass, it fails with `IncorrectAuthority`.
pub proof fn lemma_foreign_authority_rejected(
    program_id: Seq<u8>,
    owner: AccountModel,
    market: AccountModel,
    authority: AccountModel,
    bank: AccountModel,
    emitter: AccountModel,
    acceptable: AccountModel,
    token_program: AccountModel,
)
    requires
        program_address(market.key, program_id) is None || authority.key != program_address(
            market.key,
            program_id,
        ).unwrap().0,
    ensures
        ({
            let r = init_market_outcome(
                program_id,
                owner,
                market,
                authority,
                bank,
                emitter,
                acceptable,
                token_program,
                program_address(market.key, program_id),
            );
            &&& r is Err
            &&& (market_of(program_id, market) matches Ok(record) && !record.is_initialized
                && token_program.key == token_program_key() && mint_decimals_of(
                acceptable.data,
            ) is Ok) ==> r == Err::<EffectsModel, TokenMarketError>(
                TokenMarketError::IncorrectAuthority,
            )
        }),
{
}

/// `BuyTokens` for more than the write-off account holds always fails, so
/// no transfer and no mint is issued and every balance stays as it was;
/// once every account check passes, it fails with `InsufficientFunds`.
pub proof fn lemma_overdraw_rejected(
    program_id: Seq<u8>,
    market: AccountModel,
    authority: AccountModel,
    emitter: AccountModel,
    bank: AccountModel,
    recipient: AccountModel,
    write_off: AccountModel,
    token_program: AccountModel,
    amount: u64,
    derived: Option<(Seq<u8>, u8)>,
)
    requires
        token_account_of(write_off.data) is Ok,
        amount > token_account_of(write_off.data).unwrap().1,
    ensures
        ({
            let r = buy_tokens_outcome(
                program_id,
                market,
                authority,
                emitter,
                bank,
                recipient,
                write_off,
                token_program,
                amount,
                derived,
            );
            &&& r is Err
            &&& (buy_market_checks(
                program_id,
                market,
                authority,
                emitter,
                bank,
                token_program,
                derived,
            ) matches Ok(record) && token_account_of(recipient.data) matches Ok((recipient_mint, _))
                && recipient_mint == record.emitter_mint && write_off.key != record.bank
                && token_account_of(write_off.data).unwrap().0 == record.mint_of_acceptable) ==> r == Err::<EffectsModel, TokenMarketError>(
                TokenMarketError::InsufficientFunds,
            )
        }),
{
}

/// Once the checks on the record pass, `BuyTokens` with a recipient token
/// account of another mint than the market's emitter mint fails with
/// `InvalidAccountData`, whatever the amount and the write-off account.
pub proof fn lemma_foreign_recipient_rejected(
    program_id: Seq<u8>,
    market: AccountModel,
    authority: AccountModel,
    emitter: AccountModel,
    bank: AccountModel,
    recipient: AccountModel,
    write_off: AccountModel,
    token_program: AccountModel,
    amount: u64,
    derived: Option<(Seq<u8>, u8)>,
)
    requires
        buy_market_checks(program_id, market, authority, emitter, bank, token_program, derived) is Ok,
        token_account_of(recipient.data) is Ok,
        token_account_of(recipient.data).unwrap().0 != buy_market_checks(
            program_id,
            market,
            authority,
            emitter,
            bank,
            token_program,
            derived,
        ).unwrap().emitter_mint,
    ensures
        buy_tokens_outcome(
            program_id,
            market,
            authority,
            emitter,
            bank,
            recipient,
            write_off,
            token_program,
            amount,
            derived,
        ) == Err::<EffectsModel, TokenMarketError>(TokenMarketError::InvalidAccountData),
{
}

/// The first `Initialize` against a fresh record of the program succeeds
/// when the token program is the real one, the acceptable mint is an
/// initialized mint and the supplied authority is the one derived from the
/// market's address; the record it writes is initialized and holds the
/// acceptable mint and the derived authority.
pub proof fn lemma_first_initialize_succeeds(
    program_id: Seq<u8>,
    owner: AccountModel,
    market: AccountModel,
    authority: AccountModel,
    bank: AccountModel,
    emitter: AccountModel,
    acceptable: AccountModel,
    token_program: AccountModel,
)
    requires
        account_model_wf(owner),
        account_model_wf(authority),
        account_model_wf(bank),
        account_model_wf(emitter),
        account_model_wf(acceptable),
        market.owner == program_id,
        decode_market(market.data) matches Some(record) && !record.is_initialized,
        token_program.key == token_program_key(),
        mint_decimals_of(acceptable.data) is Ok,
        program_address(market.key, program_id) is Some,
        authority.key == program_address(market.key, program_id).unwrap().0,
    ensures
        ({
            let r = init_market_outcome(
                program_id,
                owner,
                market,
                authority,
                bank,
                emitter,
                acceptable,
                token_program,
                program_address(market.key, program_id),
            );
            &&& r is Ok
            &&& r.unwrap().market == market.key
            &&& decode_market(r.unwrap().market_data.unwrap()) == Some(
                MarketModel {
                    is_initialized: true,
                    owner: owner.key,
                    bank: bank.key,
                    emitter_mint: emitter.key,
                    authority: program_address(market.key, program_id).unwrap().0,
                    mint_of_acceptable: acceptable.key,
                },
            )
        }),
{
    let created = MarketModel {
        is_initialized: true,
        owner: owner.key,
        bank: bank.key,
        emitter_mint: emitter.key,
        authority: authority.key,
        mint_of_acceptable: acceptable.key,
    };
    lemma_decode_encode_market(created);
}

/// `BuyTokens { amount }` succeeds once every account check passes and the
/// write-off account holds at least `amount`: it moves exactly `amount` from
/// the write-off account into the bank, mints exactly `amount` to the
/// recipient, and writes no record.
pub proof fn lemma_covered_buy_succeeds(
    program_id: Seq<u8>,
    market: AccountModel,
    authority: AccountModel,
    emitter: AccountModel,
    bank: AccountModel,
    recipient: AccountModel,
    write_off: AccountModel,
    token_program: AccountModel,
    amount: u64,
    derived: Option<(Seq<u8>, u8)>,
)
    requires
        buy_market_checks(program_id, market, authority, emitter, bank, token_program, derived) is Ok,
        token_account_of(recipient.data) is Ok,
        token_account_of(recipient.data).unwrap().0 == buy_market_checks(
            program_id,
            market,
            authority,
            emitter,
            bank,
            token_program,
            derived,
        ).unwrap().emitter_mint,
        write_off.key != buy_market_checks(
            program_id,
            market,
            authority,
            emitter,
            bank,
            token_program,
            derived,
        ).unwrap().bank,
        token_account_of(write_off.data) is Ok,
        token_account_of(write_off.data).unwrap().0 == buy_market_checks(
            program_id,
            market,
            authority,
            emitter,
            bank,
            token_program,
            derived,
        ).unwrap().mint_of_acceptable,
        amount <= token_account_of(write_off.data).unwrap().1,
    ensures
        ({
            let record = buy_market_checks(
                program_id,
                market,
                authority,
                emitter,
                bank,
                token_program,
                derived,
            ).unwrap();
            let r = buy_tokens_outcome(
                program_id,
                market,
                authority,
                emitter,
                bank,
                recipient,
                write_off,
                token_program,
                amount,
                derived,
            );
            &&& r is Ok
            &&& r.unwrap().market_data is None
            &&& r.unwrap().ops == seq![
                TokenOpModel::Transfer {
                    source: write_off.key,
                    destination: record.bank,
                    authority: record.authority,
                    amount,
                },
                TokenOpModel::MintTo {
                    mint: record.emitter_mint,
                    destination: recipient.key,
                    authority: record.authority,
                    amount,
                },
            ]
        }),
{
}

/// `BuyTokens` naming the market's own bank as the write-off account fails
/// with `InvalidAccountData` once the recipient is accepted, whatever the
/// amount: the bank's funds never pay for emitted tokens.
pub proof fn lemma_bank_as_write_off_rejected(
    program_id: Seq<u8>,
    market: AccountModel,
    authority: AccountModel,
    emitter: AccountModel,
    bank: AccountModel,
    recipient: AccountModel,
    write_off: AccountModel,
    token_program: AccountModel,
    amount: u64,
    derived: Option<(Seq<u8>, u8)>,
)
    requires
        write_off.key == bank.key,
    ensures
        ({
            let r = buy_tokens_outcome(
                program_id,
                market,
                authority,
                emitter,
                bank,
                recipient,
                write_off,
                token_program,
                amount,
                derived,
            );
            &&& r is Err
            &&& (token_account_of(recipient.data) matches Ok((recipient_mint, _))
                && buy_market_checks(
                program_id,
                market,
                authority,
                emitter,
                bank,
                token_program,
                derived,
            ) matches Ok(record) && recipient_mint == record.emitter_mint) ==> r == Err::<
                EffectsModel,
                TokenMarketError,
            >(TokenMarketError::InvalidAccountData)
        }),
{
}

} // verus!
