use lending_ledger::{
    Address, CallContext, LedgerError, LendingContract, LendingPool, Loan, LoanDisbursedEvent,
    LoanRepaidEvent, LoanStatus, PoolType, Token,
};

fn holder(key: &str) -> Address {
    Address { key: key.to_string() }
}

fn token(symbol: &str, borrow_rate: i128) -> Token {
    Token {
        symbol: symbol.to_string(),
        name: symbol.to_string(),
        lend_rate: 1,
        borrow_rate,
        total_supplied: 0,
        total_borrowed: 0,
    }
}

fn pool(token: &str, total: i128, available: i128) -> LendingPool {
    LendingPool {
        owner: holder("ledger"),
        token: token.to_string(),
        pool_type: PoolType::Global,
        total_liquidity: total,
        available_liquidity: available,
        min_loan_amount: 1,
        max_loan_amount: 100,
    }
}

#[test]
fn a_ledger_taken_apart_can_be_put_together_again() {
    let mut ledger = LendingContract::initialize(holder("owner"));
    let ctx = CallContext { invoker: holder("owner"), contract: holder("ledger"), timestamp: 3 };
    ledger.create_pool(&ctx, "XLM".to_string(), PoolType::Global, 10, 10_000).unwrap();
    ledger.create_pool(&ctx, "USDC".to_string(), PoolType::Isolated, 1, 5).unwrap();
    ledger.supply(0, 5_000).unwrap();
    ledger.request_loan(&ctx, 0, 2_000, 30).unwrap();

    let (owner, tokens, pools, loans) = ledger.parts();
    assert_eq!(pools.len(), 2);
    assert_eq!(loans.len(), 1);
    let again =
        LendingContract::from_parts(owner.clone(), tokens.clone(), pools.clone(), loans.clone())
            .unwrap();
    assert_eq!(again, ledger);
    assert_eq!(again.next_pool_id(), 2);
    assert_eq!(again.next_loan_id(), 1);
    assert_eq!(again.get_pool(0), ledger.get_pool(0));
    assert_eq!(again.get_loan(0), ledger.get_loan(0));
}

#[test]
fn parts_are_numbered_by_their_places() {
    let loan = Loan {
        borrower: holder("ledger"),
        token: "ABC".to_string(),
        amount: 5,
        interest_rate: 42,
        term_days: 3,
        status: LoanStatus::Requested,
        created_at: 11,
        repaid_at: None,
        pool_type: PoolType::Global,
    };
    let mut ledger = LendingContract::from_parts(
        holder("owner"),
        vec![token("ABC", 42)],
        vec![pool("ABC", 10, 10), pool("ABC", 30, 20)],
        vec![loan.clone()],
    )
    .unwrap();
    assert_eq!(ledger.get_pool(1), Ok(pool("ABC", 30, 20)));
    assert_eq!(ledger.get_loan(0), Ok(loan));
    assert_eq!(ledger.get_token_info("ABC".to_string()), Ok(token("ABC", 42)));
    assert_eq!(ledger.get_token_info("XLM".to_string()), Err(LedgerError::NotFound));
    let ctx = CallContext { invoker: holder("owner"), contract: holder("ledger"), timestamp: 3 };
    assert_eq!(ledger.create_pool(&ctx, "ABC".to_string(), PoolType::Global, 1, 2), Ok(2));
    let (id, event) = ledger.request_loan(&ctx, 1, 20, 8).unwrap();
    assert_eq!(id, 1);
    assert_eq!(event.interest_rate, 42);
    assert_eq!(
        ledger.request_loan(&ctx, 1, 21, 8),
        Err(LedgerError::InsufficientLiquidity)
    );
}

#[test]
fn a_symbol_may_not_occur_twice() {
    let refused = LendingContract::from_parts(
        holder("owner"),
        vec![token("ABC", 1), token("DEF", 2), token("ABC", 3)],
        Vec::new(),
        Vec::new(),
    );
    assert_eq!(refused, None);
    let accepted = LendingContract::from_parts(
        holder("owner"),
        vec![token("ABC", 1), token("DEF", 2), token("abc", 3)],
        Vec::new(),
        Vec::new(),
    );
    assert!(accepted.is_some());
}

#[test]
fn a_pool_may_not_have_more_available_than_it_holds() {
    let refused = LendingContract::from_parts(
        holder("owner"),
        vec![token("ABC", 1)],
        vec![pool("ABC", 10, 10), pool("ABC", 10, 11)],
        Vec::new(),
    );
    assert_eq!(refused, None);
}

#[test]
fn a_ledger_may_be_empty() {
    let ledger =
        LendingContract::from_parts(holder("owner"), Vec::new(), Vec::new(), Vec::new()).unwrap();
    assert_eq!(ledger.next_pool_id(), 0);
    assert_eq!(ledger.get_token_info("XLM".to_string()), Err(LedgerError::NotFound));
}

#[test]
fn addresses_compare_by_their_keys() {
    assert!(holder("GABC").same_as(&holder("GABC")));
    assert!(!holder("GABC").same_as(&holder("GABD")));
    assert!(!holder("GABC").same_as(&holder("gabc")));
    assert!(holder("").same_as(&holder("")));
}

#[test]
fn later_lifecycle_records_hold_what_they_are_given() {
    let disbursed = LoanDisbursedEvent {
        loan_id: 4,
        borrower: holder("borrower"),
        token: "XLM".to_string(),
        amount: 700,
    };
    assert_eq!(disbursed.clone(), disbursed);
    let repaid = LoanRepaidEvent {
        loan_id: 4,
        borrower: holder("borrower"),
        token: "XLM".to_string(),
        amount: 700,
        interest_paid: 48,
    };
    assert_eq!(repaid.clone(), repaid);
    assert_eq!(repaid.interest_paid, 48);
}
