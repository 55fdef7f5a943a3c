use lending_ledger::{Address, CallContext, LendingContract, LoanStatus, PoolType};

#[test]
fn end_to_end() {
    let owner = Address { key: "owner".to_string() };
    let ledger_address = Address { key: "ledger".to_string() };
    let mut ledger = LendingContract::initialize(owner.clone());

    let by_owner =
        CallContext { invoker: owner, contract: ledger_address.clone(), timestamp: 1_000 };
    let pool_id = ledger
        .create_pool(&by_owner, "XLM".to_string(), PoolType::Global, 10, 10_000)
        .unwrap();
    assert_eq!(pool_id, 0);

    assert!(ledger.can_supply(pool_id, 5_000));
    ledger.supply(pool_id, 5_000).unwrap();

    let by_anyone = CallContext {
        invoker: Address { key: "anyone".to_string() },
        contract: ledger_address.clone(),
        timestamp: 2_000,
    };
    let (loan_id, event) = ledger.request_loan(&by_anyone, pool_id, 2_000, 30).unwrap();
    assert_eq!(loan_id, 0);
    assert_eq!(event.loan_id, loan_id);

    let loan = ledger.get_loan(loan_id).unwrap();
    assert_eq!(loan.amount, 2_000);
    assert_eq!(loan.interest_rate, 680);
    assert_eq!(loan.term_days, 30);
    assert_eq!(loan.pool_type, PoolType::Global);
    assert_eq!(loan.status, LoanStatus::Requested);
    assert_eq!(loan.repaid_at, None);
    assert_eq!(loan.created_at, 2_000);
    assert_eq!(loan.borrower, ledger_address);
    assert_eq!(loan.token, "XLM".to_string());
}
