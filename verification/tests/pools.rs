use lending_ledger::{Address, CallContext, LedgerError, LendingContract, LendingPool, PoolType};

fn identity(key: &str) -> Address {
    Address { key: key.to_string() }
}

fn call_by(invoker: &str) -> CallContext {
    CallContext { invoker: identity(invoker), contract: identity("ledger"), timestamp: 1_700_000_000 }
}

fn fresh_ledger() -> LendingContract {
    LendingContract::initialize(identity("owner"))
}

#[test]
fn owner_creates_the_first_pool_under_id_zero() {
    let mut ledger = fresh_ledger();
    let id = ledger.create_pool(&call_by("owner"), "XLM".to_string(), PoolType::Global, 10, 10_000);
    assert_eq!(id, Ok(0));
    assert_eq!(ledger.next_pool_id(), 1);
}

#[test]
fn a_created_pool_is_empty_and_belongs_to_the_ledger() {
    let mut ledger = fresh_ledger();
    let id = ledger
        .create_pool(&call_by("owner"), "USDC".to_string(), PoolType::Isolated, 25, 900)
        .unwrap();
    assert_eq!(
        ledger.get_pool(id),
        Ok(LendingPool {
            owner: identity("ledger"),
            token: "USDC".to_string(),
            pool_type: PoolType::Isolated,
            total_liquidity: 0,
            available_liquidity: 0,
            min_loan_amount: 25,
            max_loan_amount: 900,
        })
    );
}

#[test]
fn a_stranger_may_not_create_a_pool() {
    let mut ledger = fresh_ledger();
    let before = ledger.clone();
    let refused =
        ledger.create_pool(&call_by("stranger"), "XLM".to_string(), PoolType::Global, 10, 10_000);
    assert_eq!(refused, Err(LedgerError::Unauthorized));
    assert_eq!(ledger, before);
    assert_eq!(ledger.next_pool_id(), 0);
    assert_eq!(ledger.get_pool(0), Err(LedgerError::NotFound));
}

#[test]
fn the_ledger_itself_is_not_the_owner() {
    let mut ledger = fresh_ledger();
    let refused =
        ledger.create_pool(&call_by("ledger"), "XLM".to_string(), PoolType::Global, 10, 10_000);
    assert_eq!(refused, Err(LedgerError::Unauthorized));
}

#[test]
fn pool_ids_grow_by_one() {
    let mut ledger = fresh_ledger();
    let ctx = call_by("owner");
    assert_eq!(ledger.create_pool(&ctx, "XLM".to_string(), PoolType::Global, 1, 2), Ok(0));
    assert_eq!(ledger.create_pool(&ctx, "USDC".to_string(), PoolType::Isolated, 3, 4), Ok(1));
    assert_eq!(ledger.create_pool(&ctx, "XLM".to_string(), PoolType::NativeStake, 5, 6), Ok(2));
    assert_eq!(ledger.next_pool_id(), 3);
    assert_eq!(ledger.get_pool(1).unwrap().pool_type, PoolType::Isolated);
    assert_eq!(ledger.get_pool(2).unwrap().min_loan_amount, 5);
    assert_eq!(ledger.get_pool(3), Err(LedgerError::NotFound));
}

#[test]
fn a_refused_creation_uses_no_id() {
    let mut ledger = fresh_ledger();
    assert_eq!(
        ledger.create_pool(&call_by("stranger"), "XLM".to_string(), PoolType::Global, 1, 2),
        Err(LedgerError::Unauthorized)
    );
    assert_eq!(
        ledger.create_pool(&call_by("owner"), "XLM".to_string(), PoolType::Global, 1, 2),
        Ok(0)
    );
}

#[test]
fn a_pool_may_name_a_token_that_is_not_registered() {
    let mut ledger = fresh_ledger();
    let id = ledger
        .create_pool(&call_by("owner"), "DOGE".to_string(), PoolType::Global, 1, 100)
        .unwrap();
    assert_eq!(ledger.get_pool(id).unwrap().token, "DOGE".to_string());
    let before = ledger.clone();
    assert_eq!(ledger.supply(id, 50), Err(LedgerError::NotFound));
    assert_eq!(ledger, before);
}

#[test]
fn a_pool_may_have_unordered_bounds() {
    let mut ledger = fresh_ledger();
    let id = ledger
        .create_pool(&call_by("owner"), "XLM".to_string(), PoolType::Global, 100, 10)
        .unwrap();
    let pool = ledger.get_pool(id).unwrap();
    assert_eq!(pool.min_loan_amount, 100);
    assert_eq!(pool.max_loan_amount, 10);
}

#[test]
fn supplying_1000_to_a_fresh_pool() {
    let mut ledger = fresh_ledger();
    let id = ledger
        .create_pool(&call_by("owner"), "XLM".to_string(), PoolType::Global, 10, 10_000)
        .unwrap();
    let supplied_before = ledger.get_token_info("XLM".to_string()).unwrap().total_supplied;
    assert_eq!(ledger.supply(id, 1000), Ok(()));
    let pool = ledger.get_pool(id).unwrap();
    assert_eq!(pool.total_liquidity, 1000);
    assert_eq!(pool.available_liquidity, 1000);
    let xlm = ledger.get_token_info("XLM".to_string()).unwrap();
    assert_eq!(xlm.total_supplied, supplied_before + 1000);
    assert_eq!(xlm.total_borrowed, 0);
    assert_eq!(xlm.lend_rate, 520);
    assert_eq!(xlm.borrow_rate, 680);
}

#[test]
fn supplies_add_up() {
    let mut ledger = fresh_ledger();
    let ctx = call_by("owner");
    let first = ledger.create_pool(&ctx, "XLM".to_string(), PoolType::Global, 1, 10).unwrap();
    let second = ledger.create_pool(&ctx, "XLM".to_string(), PoolType::Isolated, 1, 10).unwrap();
    let third = ledger.create_pool(&ctx, "USDC".to_string(), PoolType::Global, 1, 10).unwrap();
    assert_eq!(ledger.supply(first, 300), Ok(()));
    assert_eq!(ledger.supply(first, 45), Ok(()));
    assert_eq!(ledger.supply(second, 7), Ok(()));
    assert_eq!(ledger.get_pool(first).unwrap().total_liquidity, 345);
    assert_eq!(ledger.get_pool(first).unwrap().available_liquidity, 345);
    assert_eq!(ledger.get_pool(second).unwrap().total_liquidity, 7);
    assert_eq!(ledger.get_pool(third).unwrap().total_liquidity, 0);
    assert_eq!(ledger.get_token_info("XLM".to_string()).unwrap().total_supplied, 352);
    assert_eq!(ledger.get_token_info("USDC".to_string()).unwrap().total_supplied, 0);
}

#[test]
fn supplying_to_an_unknown_pool_finds_nothing() {
    let mut ledger = fresh_ledger();
    let before = ledger.clone();
    assert_eq!(ledger.supply(0, 1000), Err(LedgerError::NotFound));
    assert_eq!(ledger, before);
    ledger.create_pool(&call_by("owner"), "XLM".to_string(), PoolType::Global, 1, 10).unwrap();
    assert_eq!(ledger.supply(1, 1000), Err(LedgerError::NotFound));
    assert_eq!(ledger.get_token_info("XLM".to_string()).unwrap().total_supplied, 0);
}

#[test]
fn a_supply_of_zero_changes_nothing() {
    let mut ledger = fresh_ledger();
    let id = ledger
        .create_pool(&call_by("owner"), "XLM".to_string(), PoolType::Global, 1, 10)
        .unwrap();
    ledger.supply(id, 12).unwrap();
    let before = ledger.clone();
    assert_eq!(ledger.supply(id, 0), Ok(()));
    assert_eq!(ledger, before);
}

#[test]
fn a_negative_supply_is_taken_as_given() {
    let mut ledger = fresh_ledger();
    let id = ledger
        .create_pool(&call_by("owner"), "USDC".to_string(), PoolType::Global, 1, 10)
        .unwrap();
    ledger.supply(id, 100).unwrap();
    assert_eq!(ledger.supply(id, -30), Ok(()));
    let pool = ledger.get_pool(id).unwrap();
    assert_eq!(pool.total_liquidity, 70);
    assert_eq!(pool.available_liquidity, 70);
    assert_eq!(ledger.get_token_info("USDC".to_string()).unwrap().total_supplied, 70);
}

#[test]
fn can_supply_tells_when_the_sums_fit() {
    let mut ledger = fresh_ledger();
    let ctx = call_by("owner");
    let first = ledger.create_pool(&ctx, "XLM".to_string(), PoolType::Global, 1, 10).unwrap();
    let second = ledger.create_pool(&ctx, "XLM".to_string(), PoolType::Global, 1, 10).unwrap();
    assert!(ledger.can_supply(first, i128::MAX));
    ledger.supply(first, i128::MAX).unwrap();
    assert_eq!(ledger.get_pool(first).unwrap().total_liquidity, i128::MAX);
    assert!(!ledger.can_supply(first, 1));
    assert!(ledger.can_supply(first, 0));
    assert!(ledger.can_supply(first, -1));
    // the second pool is empty, but its token's total is at the limit
    assert!(!ledger.can_supply(second, 1));
    assert!(ledger.can_supply(second, 0));
    // a supply that will be refused forms no sum
    assert!(ledger.can_supply(9, i128::MAX));
}

#[test]
fn can_supply_watches_the_lower_limit_too() {
    let mut ledger = fresh_ledger();
    let id = ledger
        .create_pool(&call_by("owner"), "USDC".to_string(), PoolType::Global, 1, 10)
        .unwrap();
    assert!(ledger.can_supply(id, i128::MIN));
    ledger.supply(id, i128::MIN).unwrap();
    assert!(!ledger.can_supply(id, -1));
    assert!(ledger.can_supply(id, 1));
}
