//! Histories: what holds of the ledger after any sequence of calls.

use vstd::prelude::*;
use crate::context::CallContextView;
use crate::error::LedgerError;
use crate::laws::{
    lemma_create_pool_effect, lemma_initial_state, lemma_request_loan_effect, lemma_supply_effect,
};
use crate::loan::LoanStatus;
use crate::model::LedgerModel;
use crate::pool::PoolType;

verus! {

/// One call of an operation that can change the ledger, with its arguments.
pub enum Call {
    CreatePool {
        ctx: CallContextView,
        token: Seq<char>,
        pool_type: PoolType,
        min_loan_amount: int,
        max_loan_amount: int,
    },
    Supply { pool_id: nat, amount: int },
    RequestLoan { ctx: CallContextView, pool_id: nat, amount: int, term_days: int },
}

impl Call {
    /// The call's amounts are as the protocol means them: a pool is created
    /// with ordered loan bounds, and what is supplied is not negative. The
    /// ledger accepts calls that are not proper; they are what can make its
    /// amounts unsound.
    pub open spec fn proper(self) -> bool {
        match self {
            Call::CreatePool { min_loan_amount, max_loan_amount, .. } => min_loan_amount
                <= max_loan_amount,
            Call::Supply { amount, .. } => 0 <= amount,
            Call::RequestLoan { .. } => true,
        }
    }
}

impl LedgerModel {
    /// Why the call is refused, if it is.
    pub open spec fn rejection(self, call: Call) -> Option<LedgerError> {
        match call {
            Call::CreatePool { ctx, .. } => self.create_pool_rejection(ctx),
            Call::Supply { pool_id, .. } => self.supply_rejection(pool_id),
            Call::RequestLoan { pool_id, amount, .. } => self.request_loan_rejection(
                pool_id,
                amount,
            ),
        }
    }

    /// The ledger after the call: changed as the operation says if the call
    /// is accepted, and as it was if the call is refused.
    pub open spec fn step(self, call: Call) -> LedgerModel {
        if self.rejection(call) is Some {
            self
        } else {
            match call {
                Call::CreatePool {
                    ctx,
                    token,
                    pool_type,
                    min_loan_amount,
                    max_loan_amount,
                } => self.after_create_pool(ctx, token, pool_type, min_loan_amount, max_loan_amount),
                Call::Supply { pool_id, amount } => self.after_supply(pool_id, amount),
                Call::RequestLoan { ctx, pool_id, amount, term_days } => self.after_request_loan(
                    ctx,
                    pool_id,
                    amount,
                    term_days,
                ),
            }
        }
    }

    /// The ledger after the calls were made one after the other.
    pub open spec fn run(self, calls: Seq<Call>) -> LedgerModel
        decreases calls.len(),
    {
        if calls.len() == 0 {
            self
        } else {
            self.run(calls.drop_last()).step(calls.last())
        }
    }

    /// How many of the calls created a pool.
    pub open spec fn pools_created(self, calls: Seq<Call>) -> nat
        decreases calls.len(),
    {
        if calls.len() == 0 {
            0
        } else {
            let before = self.run(calls.drop_last());
            let created: nat = if calls.last() is CreatePool && before.rejection(calls.last())
                is None {
                1
            } else {
                0
            };
            self.pools_created(calls.drop_last()) + created
        }
    }

    /// How many of the calls created a loan.
    pub open spec fn loans_created(self, calls: Seq<Call>) -> nat
        decreases calls.len(),
    {
        if calls.len() == 0 {
            0
        } else {
            let before = self.run(calls.drop_last());
            let created: nat = if calls.last() is RequestLoan && before.rejection(calls.last())
                is None {
                1
            } else {
                0
            };
            self.loans_created(calls.drop_last()) + created
        }
    }

    /// Every amount in the ledger is as the protocol means it: no pool
    /// has negative liquidity or more available than it holds, every pool's
    /// loan bounds are ordered, and no token has a negative total.
    pub open spec fn sound(self) -> bool {
        &&& forall|id: nat| #[trigger] self.pools.contains_key(id) ==> self.pools[id].sound()
        &&& forall|symbol: Seq<char>| #[trigger]
            self.tokens.contains_key(symbol) ==> self.tokens[symbol].sound()
    }

    /// The liquidity that the pools with identifiers below `upto` hold in
    /// the token `symbol`.
    pub open spec fn pooled_liquidity(self, symbol: Seq<char>, upto: nat) -> int
        decreases upto,
    {
        if upto == 0 {
            0
        } else {
            let id: nat = (upto - 1) as nat;
            let held: int = if self.pools.contains_key(id) && self.pools[id].token == symbol {
                self.pools[id].total_liquidity
            } else {
                0
            };
            self.pooled_liquidity(symbol, id) + held
        }
    }

    /// The token registry agrees with the pool registry: what is supplied
    /// of each token is what its pools hold together, and nothing is
    /// borrowed of it.
    pub open spec fn balanced(self) -> bool {
        forall|symbol: Seq<char>| #[trigger]
            self.tokens.contains_key(symbol) ==> self.tokens[symbol].total_supplied
                == self.pooled_liquidity(symbol, self.next_pool_id)
                && self.tokens[symbol].total_borrowed == 0
    }

    /// What no call changes once it holds: the ledger is well formed, every
    /// loan is in the state `Requested` and has no repayment time, and every
    /// pool has all of its liquidity available.
    pub open spec fn steady(self) -> bool {
        &&& self.well_formed()
        &&& forall|id: nat| #[trigger]
            self.loans.contains_key(id) ==> self.loans[id].status == LoanStatus::Requested
                && self.loans[id].repaid_at is None
        &&& forall|id: nat| #[trigger]
            self.pools.contains_key(id) ==> self.pools[id].available_liquidity
                == self.pools[id].total_liquidity
    }
}

/// Ledgers with the same pools below `upto` hold the same liquidity there.
proof fn lemma_pooled_liquidity_same(
    before: LedgerModel,
    after: LedgerModel,
    symbol: Seq<char>,
    upto: nat,
)
    requires
        forall|id: nat|
            id < upto ==> (before.pools.contains_key(id) <==> after.pools.contains_key(id)),
        forall|id: nat|
            id < upto && before.pools.contains_key(id) ==> after.pools[id] == before.pools[id],
    ensures
        after.pooled_liquidity(symbol, upto) == before.pooled_liquidity(symbol, upto),
    decreases upto,
{
    if upto > 0 {
        lemma_pooled_liquidity_same(before, after, symbol, (upto - 1) as nat);
    }
}

/// After a supply, the pools hold `amount` more in the token of the pool
/// supplied to, counted from that pool on, and as much as before in every
/// other token.
proof fn lemma_pooled_liquidity_supplied(
    ledger: LedgerModel,
    pool_id: nat,
    amount: int,
    symbol: Seq<char>,
    upto: nat,
)
    requires
        ledger.supply_rejection(pool_id) is None,
    ensures
        ledger.after_supply(pool_id, amount).pooled_liquidity(symbol, upto)
            == ledger.pooled_liquidity(symbol, upto) + (if symbol == ledger.pools[pool_id].token
            && pool_id < upto {
            amount
        } else {
            0
        }),
    decreases upto,
{
    if upto > 0 {
        lemma_pooled_liquidity_supplied(ledger, pool_id, amount, symbol, (upto - 1) as nat);
    }
}

/// A single call keeps a balanced ledger balanced.
proof fn lemma_step_balanced(ledger: LedgerModel, call: Call)
    requires
        ledger.well_formed(),
        ledger.balanced(),
    ensures
        ledger.step(call).balanced(),
{
    let after = ledger.step(call);
    if ledger.rejection(call) is None {
        match call {
            Call::CreatePool { .. } => {
                assert forall|symbol: Seq<char>| #[trigger]
                    after.tokens.contains_key(symbol) implies after.tokens[symbol].total_supplied
                    == after.pooled_liquidity(symbol, after.next_pool_id) by {
                    lemma_pooled_liquidity_same(ledger, after, symbol, ledger.next_pool_id);
                }
            },
            Call::Supply { pool_id, amount } => {
                assert forall|symbol: Seq<char>| #[trigger]
                    after.tokens.contains_key(symbol) implies after.tokens[symbol].total_supplied
                    == after.pooled_liquidity(symbol, after.next_pool_id) by {
                    lemma_pooled_liquidity_supplied(
                        ledger,
                        pool_id,
                        amount,
                        symbol,
                        ledger.next_pool_id,
                    );
                }
            },
            Call::RequestLoan { .. } => {
                assert forall|symbol: Seq<char>| #[trigger]
                    after.tokens.contains_key(symbol) implies after.tokens[symbol].total_supplied
                    == after.pooled_liquidity(symbol, after.next_pool_id) by {
                    lemma_pooled_liquidity_same(ledger, after, symbol, ledger.next_pool_id);
                }
            },
        }
    }
}

/// A single call keeps a well-formed ledger well formed. It leaves the
/// owner as it is, registers no token and removes none, changes no rate,
/// changes no loan that exists, and advances each counter by one exactly
/// when it creates a pool or a loan. What is steady, sound or balanced
/// before the call is so after it; for soundness the call must be proper.
pub proof fn lemma_step(ledger: LedgerModel, call: Call)
    requires
        ledger.well_formed(),
    ensures
        ledger.step(call).well_formed(),
        ledger.step(call).owner == ledger.owner,
        forall|symbol: Seq<char>|
            ledger.step(call).tokens.contains_key(symbol) <==> ledger.tokens.contains_key(symbol),
        forall|symbol: Seq<char>| #[trigger]
            ledger.tokens.contains_key(symbol) ==> ledger.step(call).tokens[symbol].lend_rate
                == ledger.tokens[symbol].lend_rate && ledger.step(call).tokens[symbol].borrow_rate
                == ledger.tokens[symbol].borrow_rate,
        forall|id: nat| #[trigger]
            ledger.loans.contains_key(id) ==> ledger.step(call).loans.contains_key(id)
                && ledger.step(call).loans[id] == ledger.loans[id],
        ledger.step(call).next_pool_id == ledger.next_pool_id + (if call is CreatePool
            && ledger.rejection(call) is None {
            1nat
        } else {
            0nat
        }),
        ledger.step(call).next_loan_id == ledger.next_loan_id + (if call is RequestLoan
            && ledger.rejection(call) is None {
            1nat
        } else {
            0nat
        }),
        ledger.steady() ==> ledger.step(call).steady(),
        ledger.sound() && call.proper() ==> ledger.step(call).sound(),
        ledger.balanced() ==> ledger.step(call).balanced(),
{
    if ledger.balanced() {
        lemma_step_balanced(ledger, call);
    }
    if ledger.rejection(call) is None {
        match call {
            Call::CreatePool { ctx, token, pool_type, min_loan_amount, max_loan_amount } => {
                lemma_create_pool_effect(
                    ledger,
                    ctx,
                    token,
                    pool_type,
                    min_loan_amount,
                    max_loan_amount,
                );
            },
            Call::Supply { pool_id, amount } => {
                lemma_supply_effect(ledger, pool_id, amount);
            },
            Call::RequestLoan { ctx, pool_id, amount, term_days } => {
                lemma_request_loan_effect(ledger, ctx, pool_id, amount, term_days);
            },
        }
    }
}

/// Whatever calls are made on a freshly initialized ledger, and whether
/// they are accepted or refused:
/// the ledger stays well formed and keeps its owner;
/// the pool counter stands at the number of pools created and the loan
/// counter at the number of loans created, so identifiers start at zero
/// and each counter grows by one per creation, independently of the other;
/// the registered tokens are XLM and USDC and no others, at the rates they
/// were seeded with;
/// every loan is still in the state `Requested` with no repayment time;
/// every pool has all of its liquidity available;
/// and what is supplied of each token is what its pools hold together.
pub proof fn lemma_history(owner: Seq<char>, calls: Seq<Call>)
    ensures
        ({
            let start = LedgerModel::initial(owner);
            let ledger = start.run(calls);
            &&& ledger.steady()
            &&& ledger.balanced()
            &&& ledger.owner == owner
            &&& ledger.next_pool_id == start.pools_created(calls)
            &&& ledger.next_loan_id == start.loans_created(calls)
            &&& forall|symbol: Seq<char>|
                ledger.tokens.contains_key(symbol) <==> (symbol == "XLM"@ || symbol == "USDC"@)
            &&& ledger.tokens["XLM"@].lend_rate == 520
            &&& ledger.tokens["XLM"@].borrow_rate == 680
            &&& ledger.tokens["USDC"@].lend_rate == 810
            &&& ledger.tokens["USDC"@].borrow_rate == 950
        }),
    decreases calls.len(),
{
    lemma_initial_state(owner);
    if calls.len() > 0 {
        lemma_history(owner, calls.drop_last());
        lemma_step(LedgerModel::initial(owner).run(calls.drop_last()), calls.last());
    }
}

/// As long as every call is proper, the amounts of a freshly initialized
/// ledger stay sound.
pub proof fn lemma_history_sound(owner: Seq<char>, calls: Seq<Call>)
    requires
        forall|i: int| 0 <= i < calls.len() ==> (#[trigger] calls[i]).proper(),
    ensures
        LedgerModel::initial(owner).run(calls).sound(),
    decreases calls.len(),
{
    lemma_initial_state(owner);
    if calls.len() > 0 {
        let earlier = calls.drop_last();
        assert forall|i: int| 0 <= i < earlier.len() implies (#[trigger] earlier[i]).proper() by {
            assert(earlier[i] == calls[i]);
        }
        lemma_history_sound(owner, earlier);
        lemma_history(owner, earlier);
        lemma_step(LedgerModel::initial(owner).run(earlier), calls.last());
    }
}

/// Calls made one after the other extend a history: pools and loans that
/// exist stay under their identifiers, loans unchanged, and the counters
/// never go back.
pub proof fn lemma_run_keeps_entries(ledger: LedgerModel, calls: Seq<Call>)
    requires
        ledger.well_formed(),
    ensures
        ledger.run(calls).well_formed(),
        ledger.run(calls).next_pool_id == ledger.next_pool_id + ledger.pools_created(calls),
        ledger.run(calls).next_loan_id == ledger.next_loan_id + ledger.loans_created(calls),
        forall|id: nat| #[trigger]
            ledger.loans.contains_key(id) ==> ledger.run(calls).loans.contains_key(id)
                && ledger.run(calls).loans[id] == ledger.loans[id],
        forall|id: nat| #[trigger]
            ledger.pools.contains_key(id) ==> ledger.run(calls).pools.contains_key(id),
    decreases calls.len(),
{
    if calls.len() > 0 {
        lemma_run_keeps_entries(ledger, calls.drop_last());
        lemma_step(ledger.run(calls.drop_last()), calls.last());
    }
}

} // verus!
