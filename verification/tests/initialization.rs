use lending_ledger::{Address, LedgerError, LendingContract, Token};

fn address(key: &str) -> Address {
    Address { key: key.to_string() }
}

#[test]
fn initialize_seeds_xlm_with_its_rates() {
    let ledger = LendingContract::initialize(address("owner"));
    let xlm = ledger.get_token_info("XLM".to_string()).unwrap();
    assert_eq!(
        xlm,
        Token {
            symbol: "XLM".to_string(),
            name: "Stellar Lumens".to_string(),
            lend_rate: 520,
            borrow_rate: 680,
            total_supplied: 0,
            total_borrowed: 0,
        }
    );
}

#[test]
fn initialize_seeds_usdc_with_its_rates() {
    let ledger = LendingContract::initialize(address("owner"));
    let usdc = ledger.get_token_info("USDC".to_string()).unwrap();
    assert_eq!(
        usdc,
        Token {
            symbol: "USDC".to_string(),
            name: "USD Coin".to_string(),
            lend_rate: 810,
            borrow_rate: 950,
            total_supplied: 0,
            total_borrowed: 0,
        }
    );
}

#[test]
fn initialize_registers_exactly_two_tokens() {
    let ledger = LendingContract::initialize(address("owner"));
    let (_, tokens, _, _) = ledger.parts();
    assert_eq!(tokens.len(), 2);
    let mut symbols: Vec<String> = tokens.iter().map(|token| token.symbol.clone()).collect();
    symbols.sort();
    assert_eq!(symbols, vec!["USDC".to_string(), "XLM".to_string()]);
}

#[test]
fn initialize_records_the_owner() {
    let ledger = LendingContract::initialize(address("GOWNER"));
    let (owner, _, _, _) = ledger.parts();
    assert_eq!(owner, &address("GOWNER"));
}

#[test]
fn initialize_starts_without_pools_or_loans() {
    let ledger = LendingContract::initialize(address("owner"));
    let (_, _, pools, loans) = ledger.parts();
    assert!(pools.is_empty());
    assert!(loans.is_empty());
    assert_eq!(ledger.next_pool_id(), 0);
    assert_eq!(ledger.next_loan_id(), 0);
    assert_eq!(ledger.get_pool(0), Err(LedgerError::NotFound));
    assert_eq!(ledger.get_loan(0), Err(LedgerError::NotFound));
}

#[test]
fn unknown_symbols_are_not_found() {
    let ledger = LendingContract::initialize(address("owner"));
    assert_eq!(ledger.get_token_info("BTC".to_string()), Err(LedgerError::NotFound));
    assert_eq!(ledger.get_token_info("xlm".to_string()), Err(LedgerError::NotFound));
    assert_eq!(ledger.get_token_info("XLM ".to_string()), Err(LedgerError::NotFound));
    assert_eq!(ledger.get_token_info(String::new()), Err(LedgerError::NotFound));
}

#[test]
fn unknown_identifiers_are_not_found() {
    let ledger = LendingContract::initialize(address("owner"));
    assert_eq!(ledger.get_pool(1), Err(LedgerError::NotFound));
    assert_eq!(ledger.get_pool(u32::MAX), Err(LedgerError::NotFound));
    assert_eq!(ledger.get_loan(7), Err(LedgerError::NotFound));
    assert_eq!(ledger.get_loan(u32::MAX), Err(LedgerError::NotFound));
}

#[test]
fn initializing_again_gives_a_fresh_ledger() {
    let first = LendingContract::initialize(address("owner"));
    let second = LendingContract::initialize(address("owner"));
    assert_eq!(first, second);
    let other = LendingContract::initialize(address("someone else"));
    assert_ne!(first, other);
}

#[test]
fn a_clone_is_equal_to_its_ledger() {
    let ledger = LendingContract::initialize(address("owner"));
    let copy = ledger.clone();
    assert_eq!(copy, ledger);
    assert_eq!(copy.get_token_info("XLM".to_string()), ledger.get_token_info("XLM".to_string()));
}
