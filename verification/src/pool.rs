//! Liquidity pools.

use vstd::prelude::*;
use crate::context::Address;

verus! {

/// How a pool's liquidity is shared.
#[derive(Clone, Copy, Debug, PartialEq, Eq, Structural)]
pub enum PoolType {
    Global,
    Isolated,
    NativeStake,
}

/// A bucket of liquidity in one token, with the bounds on the loans it grants.
#[derive(Debug, PartialEq, Eq)]
pub struct LendingPool {
    pub owner: Address,
    pub token: String,
    pub pool_type: PoolType,
    pub total_liquidity: i128,
    pub available_liquidity: i128,
    pub min_loan_amount: i128,
    pub max_loan_amount: i128,
}

/// What a [`LendingPool`] holds, as mathematical values.
pub struct PoolView {
    pub owner: Seq<char>,
    pub token: Seq<char>,
    pub pool_type: PoolType,
    pub total_liquidity: int,
    pub available_liquidity: int,
    pub min_loan_amount: int,
    pub max_loan_amount: int,
}

impl PoolView {
    /// The pool that `create_pool` registers: no liquidity yet.
    pub open spec fn fresh(
        owner: Seq<char>,
        token: Seq<char>,
        pool_type: PoolType,
        min_loan_amount: int,
        max_loan_amount: int,
    ) -> PoolView {
        PoolView {
            owner,
            token,
            pool_type,
            total_liquidity: 0,
            available_liquidity: 0,
            min_loan_amount,
            max_loan_amount,
        }
    }

    /// The pool after `amount` was added to its liquidity.
    pub open spec fn credited(self, amount: int) -> PoolView {
        PoolView {
            total_liquidity: self.total_liquidity + amount,
            available_liquidity: self.available_liquidity + amount,
            ..self
        }
    }

    /// Available liquidity never exceeds the total.
    pub open spec fn liquidity_consistent(self) -> bool {
        self.available_liquidity <= self.total_liquidity
    }

    /// The pool's amounts are as the protocol means them: liquidity is not
    /// negative and the loan bounds are ordered.
    pub open spec fn sound(self) -> bool {
        &&& 0 <= self.available_liquidity <= self.total_liquidity
        &&& self.min_loan_amount <= self.max_loan_amount
    }
}

impl View for LendingPool {
    type V = PoolView;

    open spec fn view(&self) -> PoolView {
        PoolView {
            owner: self.owner@,
            token: self.token@,
            pool_type: self.pool_type,
            total_liquidity: self.total_liquidity as int,
            available_liquidity: self.available_liquidity as int,
            min_loan_amount: self.min_loan_amount as int,
            max_loan_amount: self.max_loan_amount as int,
        }
    }
}

impl Clone for LendingPool {
    fn clone(&self) -> (res: Self)
        ensures
            res == *self,
    {
        LendingPool {
            owner: self.owner.clone(),
            token: self.token.clone(),
            pool_type: self.pool_type,
            total_liquidity: self.total_liquidity,
            available_liquidity: self.available_liquidity,
            min_loan_amount: self.min_loan_amount,
            max_loan_amount: self.max_loan_amount,
        }
    }
}

} // verus!
