use std::collections::HashMap;

use solana_program::account_info::AccountInfo;
use solana_program::instruction::Instruction;
use solana_program::program_error::ProgramError;
use solana_program::program_option::COption;
use solana_program::program_pack::Pack;
use solana_program::pubkey::Pubkey;
use spl_token::state::{Account, AccountState, Mint};
use token_market::address::{AccountInput, Address};
use token_market::error::TokenMarketError;
use token_market::instruction::TokenMarketInstructions;
use token_market::ledger::TokenOp;
use token_market::processor::{Effects, Processor};
use token_market::state::TokenMarket;

fn key(b: u8) -> Pubkey {
    Pubkey::new_from_array([b; 32])
}

fn addr(k: &Pubkey) -> Address {
    Address { bytes: k.to_bytes() }
}

fn pk(a: &Address) -> Pubkey {
    Pubkey::new_from_array(a.bytes)
}

fn mint_data(authority: Option<Pubkey>, decimals: u8) -> Vec<u8> {
    let mint = Mint {
        mint_authority: match authority {
            Some(a) => COption::Some(a),
            None => COption::None,
        },
        supply: 0,
        decimals,
        is_initialized: true,
        freeze_authority: COption::None,
    };
    let mut data = vec![0u8; Mint::LEN];
    Mint::pack(mint, &mut data).unwrap();
    data
}

fn token_account_data(mint: Pubkey, owner: Pubkey, amount: u64, delegate: Option<Pubkey>) -> Vec<u8> {
    let account = Account {
        mint,
        owner,
        amount,
        delegate: match delegate {
            Some(d) => COption::Some(d),
            None => COption::None,
        },
        state: AccountState::Initialized,
        is_native: COption::None,
        delegated_amount: if delegate.is_some() { amount } else { 0 },
        close_authority: COption::None,
    };
    let mut data = vec![0u8; Account::LEN];
    Account::pack(account, &mut data).unwrap();
    data
}

/// The accounts of one market, as a ledger of (owner, data) by identity.
struct World {
    program: Pubkey,
    owner: Pubkey,
    market: Pubkey,
    authority: Pubkey,
    bump: u8,
    bank: Pubkey,
    emitter: Pubkey,
    acceptable: Pubkey,
    buyer: Pubkey,
    write_off: Pubkey,
    recipient: Pubkey,
    ledger: HashMap<Pubkey, (Pubkey, Vec<u8>)>,
}

impl World {
    fn new() -> World {
        let program = key(77);
        let market = key(2);
        let (authority, bump) = Pubkey::find_program_address(&[&market.to_bytes()], &program);
        let system = Pubkey::new_from_array([0; 32]);
        let token = spl_token::id();
        let mut w = World {
            program,
            owner: key(1),
            market,
            authority,
            bump,
            bank: key(3),
            emitter: key(4),
            acceptable: key(5),
            buyer: key(6),
            write_off: key(7),
            recipient: key(8),
            ledger: HashMap::new(),
        };
        w.ledger.insert(w.owner, (system, vec![]));
        w.ledger.insert(w.market, (program, vec![0u8; TokenMarket::LEN]));
        w.ledger.insert(w.authority, (system, vec![]));
        w.ledger.insert(w.bank, (token, vec![0u8; Account::LEN]));
        w.ledger.insert(w.emitter, (token, vec![0u8; Mint::LEN]));
        w.ledger.insert(w.acceptable, (token, mint_data(Some(w.owner), 9)));
        w.ledger.insert(token, (Pubkey::new_from_array([9; 32]), vec![]));
        w
    }

    fn input(&self, k: &Pubkey) -> AccountInput {
        let (owner, data) = self.ledger.get(k).cloned().unwrap_or((Pubkey::new_from_array([0; 32]), vec![]));
        AccountInput { key: addr(k), owner: addr(&owner), data }
    }

    fn init_accounts(&self) -> Vec<AccountInput> {
        vec![
            self.input(&self.owner),
            self.input(&self.market),
            self.input(&self.authority),
            self.input(&self.bank),
            self.input(&self.emitter),
            self.input(&self.acceptable),
            self.input(&spl_token::id()),
        ]
    }

    fn buy_accounts(&self) -> Vec<AccountInput> {
        vec![
            self.input(&self.market),
            self.input(&self.authority),
            self.input(&self.emitter),
            self.input(&self.bank),
            self.input(&self.recipient),
            self.input(&self.write_off),
            self.input(&spl_token::id()),
        ]
    }

    fn initialize(&self) -> Result<Effects, TokenMarketError> {
        let input = TokenMarketInstructions::Initialize.pack();
        Processor::process_instruction(&addr(&self.program), &self.init_accounts(), &input)
    }

    fn buy(&self, amount: u64) -> Result<Effects, TokenMarketError> {
        let input = TokenMarketInstructions::BuyTokens { amount }.pack();
        Processor::process_instruction(&addr(&self.program), &self.buy_accounts(), &input)
    }

    fn set_data(&mut self, k: Pubkey, data: Vec<u8>) {
        self.ledger.get_mut(&k).unwrap().1 = data;
    }

    /// The state that the token program leaves after the operations of a
    /// successful `Initialize`, and a funded buyer with a recipient account.
    fn initialized_and_funded(write_off_balance: u64) -> World {
        let mut w = World::new();
        let effects = w.initialize().unwrap();
        w.set_data(w.market, effects.market_data.unwrap());
        let bank = token_account_data(w.acceptable, w.authority, 0, None);
        w.set_data(w.bank, bank);
        let emitter = mint_data(Some(w.authority), 9);
        w.set_data(w.emitter, emitter);
        let token = spl_token::id();
        let write_off = token_account_data(w.acceptable, w.buyer, write_off_balance, Some(w.authority));
        w.ledger.insert(w.write_off, (token, write_off));
        let recipient = token_account_data(w.emitter, key(10), 0, None);
        w.ledger.insert(w.recipient, (token, recipient));
        w
    }

    fn balance(&self, k: &Pubkey) -> u64 {
        Account::unpack(&self.ledger.get(k).unwrap().1).unwrap().amount
    }

    /// Runs one token-program instruction against the ledger.
    fn run(&mut self, ix: &Instruction) -> Result<(), ProgramError> {
        let keys: Vec<Pubkey> = ix.accounts.iter().map(|m| m.pubkey).collect();
        let owners: Vec<Pubkey> = keys.iter().map(|k| self.ledger.get(k).unwrap().0).collect();
        let mut datas: Vec<Vec<u8>> = keys.iter().map(|k| self.ledger.get(k).unwrap().1.clone()).collect();
        let mut lamports: Vec<u64> = vec![1_000_000_000; keys.len()];
        let result = {
            let mut infos = Vec::new();
            for (i, (d, l)) in datas.iter_mut().zip(lamports.iter_mut()).enumerate() {
                let meta = &ix.accounts[i];
                infos.push(AccountInfo::new(&keys[i], meta.is_signer, meta.is_writable, l, d.as_mut_slice(), &owners[i], false, 0));
            }
            spl_token::processor::Processor::process(&ix.program_id, &infos, &ix.data)
        };
        for (k, d) in keys.iter().zip(datas) {
            self.ledger.get_mut(k).unwrap().1 = d;
        }
        result
    }

    /// Performs the transfers and mints of accepted effects, as the
    /// market authority signing for them.
    fn apply(&mut self, effects: &Effects) {
        for op in effects.ops.iter() {
            let ix = match op {
                TokenOp::Transfer { source, destination, authority, amount } => spl_token::instruction::transfer(
                    &spl_token::id(),
                    &pk(source),
                    &pk(destination),
                    &pk(authority),
                    &[],
                    *amount,
                )
                .unwrap(),
                TokenOp::MintTo { mint, destination, authority, amount } => spl_token::instruction::mint_to(
                    &spl_token::id(),
                    &pk(mint),
                    &pk(destination),
                    &pk(authority),
                    &[],
                    *amount,
                )
                .unwrap(),
                _ => panic!("not a buy operation"),
            };
            self.run(&ix).unwrap();
        }
    }
}

#[test]
fn test_create_market() {
    let w = World::new();
    let effects = w.initialize().unwrap();
    assert_eq!(effects.authority_bump, w.bump);
    assert_eq!(pk(&effects.market), w.market);
    assert_eq!(effects.ops.len(), 2);
    match effects.ops[0] {
        TokenOp::InitializeAccount { account, mint, owner } => {
            assert_eq!(pk(&account), w.bank);
            assert_eq!(pk(&mint), w.acceptable);
            assert_eq!(pk(&owner), w.authority);
        }
        _ => panic!("the bank is initialized first"),
    }
    match effects.ops[1] {
        TokenOp::InitializeMint { mint, mint_authority, decimals } => {
            assert_eq!(pk(&mint), w.emitter);
            assert_eq!(pk(&mint_authority), w.authority);
            assert_eq!(decimals, 9);
        }
        _ => panic!("the emitter is initialized second"),
    }
    let record = TokenMarket::unpack(&effects.market_data.unwrap()).unwrap();
    assert!(record.is_initialized());
    assert_eq!(pk(&record.owner), w.owner);
    assert_eq!(pk(&record.bank), w.bank);
    assert_eq!(pk(&record.emitter_mint), w.emitter);
    assert_eq!(pk(&record.mint_of_acceptable), w.acceptable);
    assert_eq!(pk(&record.authority), w.authority);
}

#[test]
fn second_initialize_is_rejected_and_record_kept() {
    let mut w = World::new();
    let effects = w.initialize().unwrap();
    let written = effects.market_data.unwrap();
    w.set_data(w.market, written.clone());
    assert_eq!(w.initialize().err(), Some(TokenMarketError::AlreadyInitialized));
    assert_eq!(w.ledger.get(&w.market).unwrap().1, written);
    // Other accounts do not matter once the record is initialized.
    w.ledger.insert(key(20), (Pubkey::new_from_array([0; 32]), vec![]));
    let mut accounts = w.init_accounts();
    accounts[2] = w.input(&key(20));
    accounts[6] = w.input(&key(20));
    let input = TokenMarketInstructions::Initialize.pack();
    assert_eq!(
        Processor::process_instruction(&addr(&w.program), &accounts, &input).err(),
        Some(TokenMarketError::AlreadyInitialized)
    );
}

#[test]
fn initialize_with_foreign_authority_is_rejected() {
    let w = World::new();
    for foreign in [w.owner, w.market, key(30), w.program] {
        let mut accounts = w.init_accounts();
        accounts[2] = AccountInput { key: addr(&foreign), owner: Address { bytes: [0; 32] }, data: vec![] };
        let input = TokenMarketInstructions::Initialize.pack();
        assert_eq!(
            Processor::process_instruction(&addr(&w.program), &accounts, &input).err(),
            Some(TokenMarketError::IncorrectAuthority)
        );
    }
}

#[test]
fn initialize_with_given_authority_is_exact() {
    let w = World::new();
    let a = w.init_accounts();
    let derived = Address { bytes: [42; 32] };
    let mut with_derived = a.clone();
    with_derived[2].key = derived;
    let r = Processor::init_market_with_authority(
        &addr(&w.program), &with_derived[0], &with_derived[1], &with_derived[2], &with_derived[3],
        &with_derived[4], &with_derived[5], &with_derived[6], Some((derived, 200)),
    )
    .unwrap();
    assert_eq!(r.authority_bump, 200);
    let record = TokenMarket::unpack(&r.market_data.unwrap()).unwrap();
    assert_eq!(record.authority.bytes, [42; 32]);
    let none = Processor::init_market_with_authority(
        &addr(&w.program), &a[0], &a[1], &a[2], &a[3], &a[4], &a[5], &a[6], None,
    );
    assert_eq!(none.err(), Some(TokenMarketError::IncorrectAuthority));
}

#[test]
fn initialize_checks_market_owner_and_token_program() {
    let mut w = World::new();
    let mut accounts = w.init_accounts();
    accounts[6] = w.input(&w.owner);
    let input = TokenMarketInstructions::Initialize.pack();
    assert_eq!(
        Processor::process_instruction(&addr(&w.program), &accounts, &input).err(),
        Some(TokenMarketError::IncorrectProgramId)
    );
    w.ledger.get_mut(&w.market).unwrap().0 = key(66);
    assert_eq!(w.initialize().err(), Some(TokenMarketError::IncorrectProgramId));
}

#[test]
fn initialize_checks_market_record_and_acceptable_mint() {
    let mut w = World::new();
    w.set_data(w.market, vec![0u8; 100]);
    assert_eq!(w.initialize().err(), Some(TokenMarketError::DecodeError));
    let mut w = World::new();
    w.set_data(w.acceptable, vec![0u8; Mint::LEN]);
    assert_eq!(w.initialize().err(), Some(TokenMarketError::Uninitialized));
    w.set_data(w.acceptable, vec![0u8; 10]);
    assert_eq!(w.initialize().err(), Some(TokenMarketError::InvalidAccountData));
    let mut bad_tag = mint_data(None, 6);
    bad_tag[0] = 2;
    w.set_data(w.acceptable, bad_tag);
    assert_eq!(w.initialize().err(), Some(TokenMarketError::InvalidAccountData));
}

#[test]
fn initialize_copies_the_acceptable_precision() {
    let mut w = World::new();
    w.set_data(w.acceptable, mint_data(None, 6));
    let effects = w.initialize().unwrap();
    match effects.ops[1] {
        TokenOp::InitializeMint { decimals, .. } => assert_eq!(decimals, 6),
        _ => panic!("the emitter is initialized second"),
    }
}

#[test]
fn test_buy_tokens() {
    let mut w = World::initialized_and_funded(100);
    let amount = 70;
    let effects = w.buy(amount).unwrap();
    assert_eq!(effects.authority_bump, w.bump);
    assert_eq!(pk(&effects.market), w.market);
    assert!(effects.market_data.is_none());
    match effects.ops[0] {
        TokenOp::Transfer { source, destination, authority, amount } => {
            assert_eq!(pk(&source), w.write_off);
            assert_eq!(pk(&destination), w.bank);
            assert_eq!(pk(&authority), w.authority);
            assert_eq!(amount, 70);
        }
        _ => panic!("the transfer comes first"),
    }
    match effects.ops[1] {
        TokenOp::MintTo { mint, destination, authority, amount } => {
            assert_eq!(pk(&mint), w.emitter);
            assert_eq!(pk(&destination), w.recipient);
            assert_eq!(pk(&authority), w.authority);
            assert_eq!(amount, 70);
        }
        _ => panic!("the mint comes second"),
    }
    w.apply(&effects);
    assert!(w.balance(&w.write_off) == 30, "Leftover funds are not correct");
    assert!(w.balance(&w.bank) == 70, "The amount of funds is not correct");
    assert!(w.balance(&w.recipient) == 70, "The amount of funds is not correct");
}

#[test]
fn buying_more_than_the_balance_changes_nothing() {
    let w = World::initialized_and_funded(100);
    assert_eq!(w.buy(150).err(), Some(TokenMarketError::InsufficientFunds));
    assert_eq!(w.buy(101).err(), Some(TokenMarketError::InsufficientFunds));
    assert_eq!(w.balance(&w.write_off), 100);
    assert_eq!(w.balance(&w.bank), 0);
    assert_eq!(w.balance(&w.recipient), 0);
}

#[test]
fn buying_the_whole_balance_succeeds() {
    let mut w = World::initialized_and_funded(100);
    let effects = w.buy(100).unwrap();
    w.apply(&effects);
    assert_eq!(w.balance(&w.write_off), 0);
    assert_eq!(w.balance(&w.bank), 100);
    assert_eq!(w.balance(&w.recipient), 100);
    let w = World::initialized_and_funded(0);
    assert!(w.buy(0).is_ok());
}

#[test]
fn recipient_of_another_mint_is_rejected() {
    let mut w = World::initialized_and_funded(100);
    let other = token_account_data(w.acceptable, key(10), 0, None);
    w.set_data(w.recipient, other);
    for amount in [0u64, 1, 70, 100, 150, u64::MAX] {
        assert_eq!(w.buy(amount).err(), Some(TokenMarketError::InvalidAccountData));
    }
    let empty = token_account_data(w.acceptable, w.buyer, 0, None);
    w.set_data(w.write_off, empty);
    assert_eq!(w.buy(5).err(), Some(TokenMarketError::InvalidAccountData));
}

#[test]
fn bank_as_write_off_is_rejected() {
    let w = World::initialized_and_funded(100);
    let mut accounts = w.buy_accounts();
    accounts[5] = w.input(&w.bank);
    for amount in [0u64, 1, 70, 100] {
        let input = TokenMarketInstructions::BuyTokens { amount }.pack();
        assert_eq!(
            Processor::process_instruction(&addr(&w.program), &accounts, &input).err(),
            Some(TokenMarketError::InvalidAccountData)
        );
    }
}

#[test]
fn write_off_account_is_checked() {
    let mut w = World::initialized_and_funded(100);
    let other_mint = token_account_data(w.emitter, w.buyer, 100, None);
    w.set_data(w.write_off, other_mint);
    assert_eq!(w.buy(10).err(), Some(TokenMarketError::InvalidAccountData));
    w.set_data(w.write_off, vec![0u8; Account::LEN]);
    assert_eq!(w.buy(10).err(), Some(TokenMarketError::Uninitialized));
    let mut bad_state = token_account_data(w.acceptable, w.buyer, 100, None);
    bad_state[108] = 3;
    w.set_data(w.write_off, bad_state);
    assert_eq!(w.buy(10).err(), Some(TokenMarketError::InvalidAccountData));
}

#[test]
fn buy_checks_record_and_fixed_accounts() {
    let w = World::new();
    assert_eq!(w.buy(1).err(), Some(TokenMarketError::Uninitialized));

    let w = World::initialized_and_funded(100);
    let program = addr(&w.program);
    let input = TokenMarketInstructions::BuyTokens { amount: 1 }.pack();
    let stranger = w.input(&w.owner);
    let cases = [
        (1usize, TokenMarketError::IncorrectAuthority),
        (2usize, TokenMarketError::InvalidAccountData),
        (3usize, TokenMarketError::InvalidAccountData),
        (6usize, TokenMarketError::IncorrectProgramId),
    ];
    for (slot, expected) in cases {
        let mut accounts = w.buy_accounts();
        accounts[slot] = stranger.clone();
        assert_eq!(Processor::process_instruction(&program, &accounts, &input).err(), Some(expected));
    }
    let mut foreign_market = w.buy_accounts();
    foreign_market[0].owner = Address { bytes: [66; 32] };
    assert_eq!(
        Processor::process_instruction(&program, &foreign_market, &input).err(),
        Some(TokenMarketError::IncorrectProgramId)
    );
}

#[test]
fn buy_with_given_authority_is_exact() {
    let w = World::initialized_and_funded(100);
    let a = w.buy_accounts();
    let program = addr(&w.program);
    let r = Processor::buy_tokens_with_authority(
        &program, &a[0], &a[1], &a[2], &a[3], &a[4], &a[5], &a[6], 40, Some((addr(&w.authority), 17)),
    )
    .unwrap();
    assert_eq!(r.authority_bump, 17);
    match r.ops[0] {
        TokenOp::Transfer { amount, .. } => assert_eq!(amount, 40),
        _ => panic!("the transfer comes first"),
    }
    let other = Processor::buy_tokens_with_authority(
        &program, &a[0], &a[1], &a[2], &a[3], &a[4], &a[5], &a[6], 40, Some((Address { bytes: [42; 32] }, 17)),
    );
    assert_eq!(other.err(), Some(TokenMarketError::IncorrectAuthority));
    let none = Processor::buy_tokens_with_authority(
        &program, &a[0], &a[1], &a[2], &a[3], &a[4], &a[5], &a[6], 40, None,
    );
    assert_eq!(none.err(), Some(TokenMarketError::IncorrectAuthority));
}

#[test]
fn instruction_level_errors() {
    let w = World::initialized_and_funded(100);
    let program = addr(&w.program);
    assert_eq!(
        Processor::process_instruction(&program, &w.buy_accounts(), &[3]).err(),
        Some(TokenMarketError::DecodeError)
    );
    let accounts = w.buy_accounts();
    let input = TokenMarketInstructions::BuyTokens { amount: 1 }.pack();
    assert_eq!(
        Processor::process_instruction(&program, &accounts[..6], &input).err(),
        Some(TokenMarketError::NotEnoughAccountKeys)
    );
    assert_eq!(
        Processor::process_instruction(&program, &[], &TokenMarketInstructions::Initialize.pack()).err(),
        Some(TokenMarketError::NotEnoughAccountKeys)
    );
}

#[test]
fn processor_handlers_agree_with_dispatch() {
    let w = World::initialized_and_funded(100);
    let a = w.buy_accounts();
    let direct = Processor::process_buy_tokens(&addr(&w.program), &a[0], &a[1], &a[2], &a[3], &a[4], &a[5], &a[6], 25)
        .unwrap();
    let dispatched = w.buy(25).unwrap();
    assert_eq!(direct.market_data, dispatched.market_data);
    assert_eq!(direct.authority_bump, dispatched.authority_bump);
    let v = World::new();
    let b = v.init_accounts();
    let init = Processor::process_init_market(&addr(&v.program), &b[0], &b[1], &b[2], &b[3], &b[4], &b[5], &b[6])
        .unwrap();
    assert_eq!(init.market_data, v.initialize().unwrap().market_data);
}
