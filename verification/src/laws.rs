//! What holds of the ledger's operations, proved of the model that the
//! contracts of [`crate::contract::LendingContract`] speak of.

use vstd::prelude::*;
use crate::context::CallContextView;
use crate::error::LedgerError;
use crate::loan::{LoanStatus, LoanView};
use crate::model::LedgerModel;
use crate::pool::{PoolType, PoolView};
use crate::token::TokenView;

verus! {

/// Initialization registers exactly two tokens: XLM at a lend rate of 520
/// and a borrow rate of 680, and USDC at 810 and 950, both with nothing
/// supplied and nothing borrowed. There is no pool and no loan yet, both
/// counters stand at zero, and the ledger is well formed.
pub proof fn lemma_initial_state(owner: Seq<char>)
    ensures
        "XLM"@ != "USDC"@,
        forall|symbol: Seq<char>|
            LedgerModel::initial(owner).tokens.contains_key(symbol) <==> (symbol == "XLM"@
                || symbol == "USDC"@),
        LedgerModel::initial(owner).tokens["XLM"@] == (TokenView {
            symbol: "XLM"@,
            name: "Stellar Lumens"@,
            lend_rate: 520,
            borrow_rate: 680,
            total_supplied: 0,
            total_borrowed: 0,
        }),
        LedgerModel::initial(owner).tokens["USDC"@] == (TokenView {
            symbol: "USDC"@,
            name: "USD Coin"@,
            lend_rate: 810,
            borrow_rate: 950,
            total_supplied: 0,
            total_borrowed: 0,
        }),
        LedgerModel::initial(owner).owner == owner,
        LedgerModel::initial(owner).pools == Map::<nat, PoolView>::empty(),
        LedgerModel::initial(owner).loans == Map::<nat, LoanView>::empty(),
        LedgerModel::initial(owner).next_pool_id == 0,
        LedgerModel::initial(owner).next_loan_id == 0,
        LedgerModel::initial(owner).well_formed(),
{
    reveal_strlit("XLM");
    reveal_strlit("USDC");
    assert("XLM"@.len() != "USDC"@.len());
}

/// Only the owner may create a pool: the request is refused as unauthorized
/// exactly when the invoker is someone else, and for no other reason.
pub proof fn lemma_create_pool_authorization(ledger: LedgerModel, ctx: CallContextView)
    ensures
        ctx.invoker != ledger.owner <==> ledger.create_pool_rejection(ctx) == Some(
            LedgerError::Unauthorized,
        ),
        ctx.invoker == ledger.owner <==> ledger.create_pool_rejection(ctx) is None,
{
}

/// Creating a pool registers it under the identifier the pool counter
/// stood at, advances that counter by exactly one, and touches neither the
/// loan counter nor any other entry of the ledger. The new pool belongs to
/// the ledger's own address and holds no liquidity.
pub proof fn lemma_create_pool_effect(
    ledger: LedgerModel,
    ctx: CallContextView,
    token: Seq<char>,
    pool_type: PoolType,
    min_loan_amount: int,
    max_loan_amount: int,
)
    requires
        ledger.well_formed(),
    ensures
        ({
            let after = ledger.after_create_pool(
                ctx,
                token,
                pool_type,
                min_loan_amount,
                max_loan_amount,
            );
            let pool = after.pools[ledger.next_pool_id];
            &&& after.well_formed()
            &&& !ledger.pools.contains_key(ledger.next_pool_id)
            &&& after.pools.contains_key(ledger.next_pool_id)
            &&& after.next_pool_id == ledger.next_pool_id + 1
            &&& after.next_loan_id == ledger.next_loan_id
            &&& pool.owner == ctx.contract
            &&& pool.token == token
            &&& pool.pool_type == pool_type
            &&& pool.total_liquidity == 0
            &&& pool.available_liquidity == 0
            &&& pool.min_loan_amount == min_loan_amount
            &&& pool.max_loan_amount == max_loan_amount
            &&& forall|id: nat|
                ledger.pools.contains_key(id) ==> after.pools.contains_key(id) && after.pools[id]
                    == ledger.pools[id]
            &&& after.tokens == ledger.tokens
            &&& after.loans == ledger.loans
            &&& after.owner == ledger.owner
        }),
{
}

/// Supplying to a pool is refused exactly when the pool, or the token it
/// is denominated in, is not registered; who supplies plays no part.
pub proof fn lemma_supply_rejections(ledger: LedgerModel, pool_id: nat)
    ensures
        ledger.supply_rejection(pool_id) is None <==> ledger.pools.contains_key(pool_id)
            && ledger.tokens.contains_key(ledger.pools[pool_id].token),
        ledger.supply_rejection(pool_id) is Some ==> ledger.supply_rejection(pool_id) == Some(
            LedgerError::NotFound,
        ),
{
}

/// Supplying `amount` to a pool raises the pool's total liquidity, its
/// available liquidity and the supplied total of its token by `amount`
/// each. Every other pool and token, every loan and both counters stay as
/// they were, and so do the rates of the pool's token.
pub proof fn lemma_supply_effect(ledger: LedgerModel, pool_id: nat, amount: int)
    requires
        ledger.well_formed(),
        ledger.supply_rejection(pool_id) is None,
    ensures
        ({
            let after = ledger.after_supply(pool_id, amount);
            let symbol = ledger.pools[pool_id].token;
            &&& after.well_formed()
            &&& after.pools.contains_key(pool_id)
            &&& after.tokens.contains_key(symbol)
            &&& after.pools[pool_id].total_liquidity == ledger.pools[pool_id].total_liquidity
                + amount
            &&& after.pools[pool_id].available_liquidity
                == ledger.pools[pool_id].available_liquidity + amount
            &&& after.tokens[symbol].total_supplied == ledger.tokens[symbol].total_supplied
                + amount
            &&& after.pools[pool_id] == (PoolView {
                total_liquidity: after.pools[pool_id].total_liquidity,
                available_liquidity: after.pools[pool_id].available_liquidity,
                ..ledger.pools[pool_id]
            })
            &&& after.tokens[symbol] == (TokenView {
                total_supplied: after.tokens[symbol].total_supplied,
                ..ledger.tokens[symbol]
            })
            &&& forall|id: nat| after.pools.contains_key(id) <==> ledger.pools.contains_key(id)
            &&& forall|id: nat|
                ledger.pools.contains_key(id) && id != pool_id ==> after.pools[id]
                    == ledger.pools[id]
            &&& forall|other: Seq<char>|
                after.tokens.contains_key(other) <==> ledger.tokens.contains_key(other)
            &&& forall|other: Seq<char>|
                ledger.tokens.contains_key(other) && other != symbol ==> after.tokens[other]
                    == ledger.tokens[other]
            &&& after.loans == ledger.loans
            &&& after.next_pool_id == ledger.next_pool_id
            &&& after.next_loan_id == ledger.next_loan_id
            &&& after.owner == ledger.owner
        }),
{
}

/// When a loan request is refused, and why. With the pool and its token
/// registered, an amount below the pool's minimum is too small; an amount
/// that reaches the minimum but exceeds the maximum is too large; an amount
/// within both bounds that exceeds the available liquidity finds
/// insufficient liquidity; and any other amount is accepted. An amount
/// equal to a bound, or to the available liquidity, is within it.
pub proof fn lemma_request_loan_rejections(ledger: LedgerModel, pool_id: nat, amount: int)
    requires
        ledger.pools.contains_key(pool_id),
        ledger.tokens.contains_key(ledger.pools[pool_id].token),
    ensures
        ({
            let pool = ledger.pools[pool_id];
            let rejection = ledger.request_loan_rejection(pool_id, amount);
            &&& amount < pool.min_loan_amount ==> rejection == Some(LedgerError::AmountTooSmall)
            &&& pool.min_loan_amount <= amount && amount > pool.max_loan_amount ==> rejection
                == Some(LedgerError::AmountTooLarge)
            &&& pool.min_loan_amount <= amount <= pool.max_loan_amount && amount
                > pool.available_liquidity ==> rejection == Some(
                LedgerError::InsufficientLiquidity,
            )
            &&& pool.min_loan_amount <= amount <= pool.max_loan_amount && amount
                <= pool.available_liquidity <==> rejection is None
        }),
{
}

/// A loan request against a pool that is not registered, or whose token is
/// not, finds nothing, whatever the amount.
pub proof fn lemma_request_loan_not_found(ledger: LedgerModel, pool_id: nat, amount: int)
    ensures
        !ledger.pools.contains_key(pool_id) || !ledger.tokens.contains_key(
            ledger.pools[pool_id].token,
        ) <==> ledger.request_loan_rejection(pool_id, amount) == Some(LedgerError::NotFound),
{
}

/// An accepted loan request registers the loan under the identifier the
/// loan counter stood at and advances that counter by exactly one. The loan
/// is in the state `Requested`, carries the borrow rate of the pool's token
/// and the type of the pool as they are at that moment, and has no
/// repayment time. The record that announces it carries the same values.
/// Tokens, pools, the pool counter and every earlier loan stay as they
/// were: the pool's liquidity is not debited.
pub proof fn lemma_request_loan_effect(
    ledger: LedgerModel,
    ctx: CallContextView,
    pool_id: nat,
    amount: int,
    term_days: int,
)
    requires
        ledger.well_formed(),
        ledger.request_loan_rejection(pool_id, amount) is None,
    ensures
        ({
            let after = ledger.after_request_loan(ctx, pool_id, amount, term_days);
            let loan = after.loans[ledger.next_loan_id];
            let event = ledger.loan_created(ctx, pool_id, amount, term_days);
            let pool = ledger.pools[pool_id];
            &&& after.well_formed()
            &&& !ledger.loans.contains_key(ledger.next_loan_id)
            &&& after.loans.contains_key(ledger.next_loan_id)
            &&& after.next_loan_id == ledger.next_loan_id + 1
            &&& after.next_pool_id == ledger.next_pool_id
            &&& loan.status == LoanStatus::Requested
            &&& loan.interest_rate == ledger.tokens[pool.token].borrow_rate
            &&& loan.pool_type == pool.pool_type
            &&& loan.repaid_at is None
            &&& loan.amount == amount
            &&& loan.term_days == term_days
            &&& loan.token == pool.token
            &&& loan.borrower == ctx.contract
            &&& loan.created_at == ctx.timestamp
            &&& event.loan_id == ledger.next_loan_id
            &&& event.borrower == loan.borrower
            &&& event.token == loan.token
            &&& event.amount == loan.amount
            &&& event.interest_rate == loan.interest_rate
            &&& event.term_days == loan.term_days
            &&& event.pool_type == loan.pool_type
            &&& forall|id: nat|
                ledger.loans.contains_key(id) ==> after.loans.contains_key(id) && after.loans[id]
                    == ledger.loans[id]
            &&& after.tokens == ledger.tokens
            &&& after.pools == ledger.pools
            &&& after.owner == ledger.owner
        }),
{
}

/// What was never created is not found: in a well-formed ledger no pool
/// and no loan stands under an identifier that its counter has not reached
/// yet, and every identifier below the counter is in use.
pub proof fn lemma_identifiers_in_use(ledger: LedgerModel, id: nat)
    requires
        ledger.well_formed(),
    ensures
        ledger.pools.contains_key(id) <==> id < ledger.next_pool_id,
        ledger.loans.contains_key(id) <==> id < ledger.next_loan_id,
{
}

} // verus!
