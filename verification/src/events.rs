//! The records the ledger hands to the event channel.

use vstd::prelude::*;
use crate::context::Address;
use crate::pool::PoolType;

verus! {

/// Announces that a loan was created.
#[derive(Debug, PartialEq, Eq)]
pub struct LoanCreatedEvent {
    pub loan_id: u32,
    pub borrower: Address,
    pub token: String,
    pub amount: i128,
    pub interest_rate: i128,
    pub term_days: u32,
    pub pool_type: PoolType,
}

/// What a [`LoanCreatedEvent`] holds, as mathematical values.
pub struct LoanCreatedEventView {
    pub loan_id: nat,
    pub borrower: Seq<char>,
    pub token: Seq<char>,
    pub amount: int,
    pub interest_rate: int,
    pub term_days: int,
    pub pool_type: PoolType,
}

impl View for LoanCreatedEvent {
    type V = LoanCreatedEventView;

    open spec fn view(&self) -> LoanCreatedEventView {
        LoanCreatedEventView {
            loan_id: self.loan_id as nat,
            borrower: self.borrower@,
            token: self.token@,
            amount: self.amount as int,
            interest_rate: self.interest_rate as int,
            term_days: self.term_days as int,
            pool_type: self.pool_type,
        }
    }
}

impl Clone for LoanCreatedEvent {
    fn clone(&self) -> (res: Self)
        ensures
            res == *self,
    {
        LoanCreatedEvent {
            loan_id: self.loan_id,
            borrower: self.borrower.clone(),
            token: self.token.clone(),
            amount: self.amount,
            interest_rate: self.interest_rate,
            term_days: self.term_days,
            pool_type: self.pool_type,
        }
    }
}

/// Announces that a loan's principal was paid out.
#[derive(Debug, PartialEq, Eq)]
pub struct LoanDisbursedEvent {
    pub loan_id: u32,
    pub borrower: Address,
    pub token: String,
    pub amount: i128,
}

impl Clone for LoanDisbursedEvent {
    fn clone(&self) -> (res: Self)
        ensures
            res == *self,
    {
        LoanDisbursedEvent {
            loan_id: self.loan_id,
            borrower: self.borrower.clone(),
            token: self.token.clone(),
            amount: self.amount,
        }
    }
}

/// Announces that a loan was paid back.
#[derive(Debug, PartialEq, Eq)]
pub struct LoanRepaidEvent {
    pub loan_id: u32,
    pub borrower: Address,
    pub token: String,
    pub amount: i128,
    pub interest_paid: i128,
}

impl Clone for LoanRepaidEvent {
    fn clone(&self) -> (res: Self)
        ensures
            res == *self,
    {
        LoanRepaidEvent {
            loan_id: self.loan_id,
            borrower: self.borrower.clone(),
            token: self.token.clone(),
            amount: self.amount,
            interest_paid: self.interest_paid,
        }
    }
}

} // verus!
