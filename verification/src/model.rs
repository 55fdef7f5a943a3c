//! The mathematical model of the ledger: its state, and each operation as a
//! function from state to state.

use vstd::prelude::*;
use crate::context::CallContextView;
use crate::error::LedgerError;
use crate::events::LoanCreatedEventView;
use crate::loan::{LoanStatus, LoanView};
use crate::pool::{PoolType, PoolView};
use crate::token::TokenView;

verus! {

/// The state of the ledger: the owner, the three registries and the two
/// identifier counters.
pub struct LedgerModel {
    pub owner: Seq<char>,
    pub tokens: Map<Seq<char>, TokenView>,
    pub pools: Map<nat, PoolView>,
    pub loans: Map<nat, LoanView>,
    pub next_pool_id: nat,
    pub next_loan_id: nat,
}

impl LedgerModel {
    /// The structural invariant of the ledger: each token is registered under
    /// its own symbol, the identifiers in use are exactly those below the
    /// counters, and no pool has more liquidity available than it holds.
    pub open spec fn well_formed(self) -> bool {
        &&& forall|symbol: Seq<char>| #[trigger]
            self.tokens.contains_key(symbol) ==> self.tokens[symbol].symbol == symbol
        &&& forall|id: nat| #[trigger] self.pools.contains_key(id) <==> id < self.next_pool_id
        &&& forall|id: nat| #[trigger] self.loans.contains_key(id) <==> id < self.next_loan_id
        &&& forall|id: nat| #[trigger]
            self.pools.contains_key(id) ==> self.pools[id].liquidity_consistent()
    }

    /// The ledger right after initialization: two tokens with their rates,
    /// no pool, no loan, both counters at zero.
    pub open spec fn initial(owner: Seq<char>) -> LedgerModel {
        LedgerModel {
            owner,
            tokens: Map::empty().insert(
                "XLM"@,
                TokenView::seeded("XLM"@, "Stellar Lumens"@, 520, 680),
            ).insert("USDC"@, TokenView::seeded("USDC"@, "USD Coin"@, 810, 950)),
            pools: Map::empty(),
            loans: Map::empty(),
            next_pool_id: 0,
            next_loan_id: 0,
        }
    }

    /// Why `create_pool` is refused, if it is: only the owner may create pools.
    pub open spec fn create_pool_rejection(self, ctx: CallContextView) -> Option<LedgerError> {
        if ctx.invoker != self.owner {
            Some(LedgerError::Unauthorized)
        } else {
            None
        }
    }

    /// The ledger after a pool was created: the new pool stands under the
    /// next pool identifier, and that counter has advanced by one.
    pub open spec fn after_create_pool(
        self,
        ctx: CallContextView,
        token: Seq<char>,
        pool_type: PoolType,
        min_loan_amount: int,
        max_loan_amount: int,
    ) -> LedgerModel {
        LedgerModel {
            pools: self.pools.insert(
                self.next_pool_id,
                PoolView::fresh(ctx.contract, token, pool_type, min_loan_amount, max_loan_amount),
            ),
            next_pool_id: self.next_pool_id + 1,
            ..self
        }
    }

    /// Why `supply` is refused, if it is: the pool or its token is unknown.
    pub open spec fn supply_rejection(self, pool_id: nat) -> Option<LedgerError> {
        if !self.pools.contains_key(pool_id) {
            Some(LedgerError::NotFound)
        } else if !self.tokens.contains_key(self.pools[pool_id].token) {
            Some(LedgerError::NotFound)
        } else {
            None
        }
    }

    /// Whether the three sums that `supply` forms fit the machine's 128-bit
    /// amounts.
    pub open spec fn supply_fits(self, pool_id: nat, amount: int) -> bool {
        let pool = self.pools[pool_id];
        let token = self.tokens[pool.token];
        &&& i128::MIN <= pool.total_liquidity + amount <= i128::MAX
        &&& i128::MIN <= pool.available_liquidity + amount <= i128::MAX
        &&& i128::MIN <= token.total_supplied + amount <= i128::MAX
    }

    /// The ledger after `amount` was supplied to a pool: the pool's total and
    /// available liquidity and its token's supplied total have each grown by
    /// `amount`.
    pub open spec fn after_supply(self, pool_id: nat, amount: int) -> LedgerModel {
        let pool = self.pools[pool_id];
        let token = self.tokens[pool.token];
        LedgerModel {
            tokens: self.tokens.insert(pool.token, token.credited(amount)),
            pools: self.pools.insert(pool_id, pool.credited(amount)),
            ..self
        }
    }

    /// Why `request_loan` is refused, if it is. The rules are tried in this
    /// order, and the first one broken decides.
    pub open spec fn request_loan_rejection(self, pool_id: nat, amount: int) -> Option<
        LedgerError,
    > {
        if !self.pools.contains_key(pool_id) {
            Some(LedgerError::NotFound)
        } else if !self.tokens.contains_key(self.pools[pool_id].token) {
            Some(LedgerError::NotFound)
        } else if amount < self.pools[pool_id].min_loan_amount {
            Some(LedgerError::AmountTooSmall)
        } else if amount > self.pools[pool_id].max_loan_amount {
            Some(LedgerError::AmountTooLarge)
        } else if amount > self.pools[pool_id].available_liquidity {
            Some(LedgerError::InsufficientLiquidity)
        } else {
            None
        }
    }

    /// The loan that a request against `pool_id` creates. Its rate is the
    /// token's borrow rate and its pool type the pool's, both as they are now.
    pub open spec fn requested_loan(
        self,
        ctx: CallContextView,
        pool_id: nat,
        amount: int,
        term_days: int,
    ) -> LoanView {
        let pool = self.pools[pool_id];
        LoanView {
            borrower: ctx.contract,
            token: pool.token,
            amount,
            interest_rate: self.tokens[pool.token].borrow_rate,
            term_days,
            status: LoanStatus::Requested,
            created_at: ctx.timestamp,
            repaid_at: None,
            pool_type: pool.pool_type,
        }
    }

    /// The record announcing the loan that a request against `pool_id` creates.
    pub open spec fn loan_created(
        self,
        ctx: CallContextView,
        pool_id: nat,
        amount: int,
        term_days: int,
    ) -> LoanCreatedEventView {
        let loan = self.requested_loan(ctx, pool_id, amount, term_days);
        LoanCreatedEventView {
            loan_id: self.next_loan_id,
            borrower: loan.borrower,
            token: loan.token,
            amount: loan.amount,
            interest_rate: loan.interest_rate,
            term_days: loan.term_days,
            pool_type: loan.pool_type,
        }
    }

    /// The ledger after a loan was requested: the new loan stands under the
    /// next loan identifier, and that counter has advanced by one. Tokens and
    /// pools are as before; in particular the pool's liquidity is not debited.
    pub open spec fn after_request_loan(
        self,
        ctx: CallContextView,
        pool_id: nat,
        amount: int,
        term_days: int,
    ) -> LedgerModel {
        LedgerModel {
            loans: self.loans.insert(
                self.next_loan_id,
                self.requested_loan(ctx, pool_id, amount, term_days),
            ),
            next_loan_id: self.next_loan_id + 1,
            ..self
        }
    }
}

} // verus!
