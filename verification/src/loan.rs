//! Loans and their lifecycle.

use vstd::prelude::*;
use crate::context::Address;
use crate::pool::PoolType;

verus! {

/// Where a loan stands in its lifecycle.
#[derive(Clone, Copy, Debug, PartialEq, Eq, Structural)]
pub enum LoanStatus {
    Requested,
    Approved,
    Disbursed,
    Repaid,
    Defaulted,
}

impl LoanStatus {
    /// The lifecycle's transition table. No operation of the ledger moves a
    /// loan out of the state it was created in, so the table is empty.
    pub open spec fn allows(self, next: LoanStatus) -> bool {
        false
    }

    /// Whether a loan in this state may move to `next`.
    pub fn can_transition_to(self, next: LoanStatus) -> (allowed: bool)
        ensures
            allowed == self.allows(next),
    {
        false
    }
}

/// A borrowing record against a pool. The interest rate and the pool type
/// are fixed when the loan is created.
#[derive(Debug, PartialEq, Eq)]
pub struct Loan {
    pub borrower: Address,
    pub token: String,
    pub amount: i128,
    pub interest_rate: i128,
    pub term_days: u32,
    pub status: LoanStatus,
    pub created_at: u64,
    pub repaid_at: Option<u64>,
    pub pool_type: PoolType,
}

/// What a [`Loan`] holds, as mathematical values.
pub struct LoanView {
    pub borrower: Seq<char>,
    pub token: Seq<char>,
    pub amount: int,
    pub interest_rate: int,
    pub term_days: int,
    pub status: LoanStatus,
    pub created_at: int,
    pub repaid_at: Option<int>,
    pub pool_type: PoolType,
}

impl View for Loan {
    type V = LoanView;

    open spec fn view(&self) -> LoanView {
        LoanView {
            borrower: self.borrower@,
            token: self.token@,
            amount: self.amount as int,
            interest_rate: self.interest_rate as int,
            term_days: self.term_days as int,
            status: self.status,
            created_at: self.created_at as int,
            repaid_at: match self.repaid_at {
                Some(at) => Some(at as int),
                None => None,
            },
            pool_type: self.pool_type,
        }
    }
}

impl Clone for Loan {
    fn clone(&self) -> (res: Self)
        ensures
            res == *self,
    {
        Loan {
            borrower: self.borrower.clone(),
            token: self.token.clone(),
            amount: self.amount,
            interest_rate: self.interest_rate,
            term_days: self.term_days,
            status: self.status,
            created_at: self.created_at,
            repaid_at: self.repaid_at,
            pool_type: self.pool_type,
        }
    }
}

} // verus!
