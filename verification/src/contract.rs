//! The ledger engine: initialization, pool creation, supply, loan requests
//! and the read accessors.

use vstd::prelude::*;
use crate::context::{Address, CallContext};
use crate::error::LedgerError;
use crate::events::LoanCreatedEvent;
use crate::loan::{Loan, LoanStatus};
use crate::model::LedgerModel;
use crate::pool::{LendingPool, PoolType};
use crate::registry::{
    distinct_symbols, lemma_token_at, lemma_token_replaced, numbered, position, registered,
    token_map,
};
use crate::token::Token;

verus! {

/// The ledger of the lending protocol.
///
/// Pools and loans are kept in the order of their creation, so that an
/// entry's identifier is its place in its registry and the next identifier
/// is the registry's length.
#[derive(Debug, PartialEq, Eq)]
pub struct LendingContract {
    owner: Address,
    tokens: Vec<Token>,
    pools: Vec<LendingPool>,
    loans: Vec<Loan>,
}

/// Whether the given parts can make up a ledger: no token symbol occurs
/// twice, the identifiers fit in 32 bits, and no pool has more liquidity
/// available than it holds.
pub open spec fn parts_valid(tokens: Seq<Token>, pools: Seq<LendingPool>, loans: Seq<Loan>) -> bool {
    &&& distinct_symbols(tokens)
    &&& pools.len() <= u32::MAX
    &&& loans.len() <= u32::MAX
    &&& forall|i: int| 0 <= i < pools.len() ==> (#[trigger] pools[i])@.liquidity_consistent()
}

/// The ledger that the given parts make up.
pub open spec fn model_of(
    owner: Address,
    tokens: Seq<Token>,
    pools: Seq<LendingPool>,
    loans: Seq<Loan>,
) -> LedgerModel {
    LedgerModel {
        owner: owner@,
        tokens: token_map(tokens),
        pools: numbered(pools),
        loans: numbered(loans),
        next_pool_id: pools.len(),
        next_loan_id: loans.len(),
    }
}

/// A ledger made of valid parts is well formed.
pub proof fn lemma_model_of_well_formed(
    owner: Address,
    tokens: Seq<Token>,
    pools: Seq<LendingPool>,
    loans: Seq<Loan>,
)
    requires
        parts_valid(tokens, pools, loans),
    ensures
        model_of(owner, tokens, pools, loans).well_formed(),
{
    let model = model_of(owner, tokens, pools, loans);
    assert forall|symbol: Seq<char>| #[trigger]
        model.tokens.contains_key(symbol) implies model.tokens[symbol].symbol == symbol by {
        let i: int = position(tokens, symbol);
        assert(tokens[i].symbol@ == symbol);
    }
    assert forall|id: nat| #[trigger]
        model.pools.contains_key(id) implies model.pools[id].liquidity_consistent() by {
        assert(pools[id as int]@.liquidity_consistent());
    }
}

impl Clone for LendingContract {
    fn clone(&self) -> (res: Self)
        ensures
            res@ == self@,
    {
        proof {
            use_type_invariant(self);
        }
        let tokens = self.tokens.clone();
        let pools = self.pools.clone();
        let loans = self.loans.clone();
        proof {
            assert(tokens@ =~= self.tokens@);
            assert(pools@ =~= self.pools@);
            assert(loans@ =~= self.loans@);
        }
        LendingContract { owner: self.owner.clone(), tokens, pools, loans }
    }
}

impl LendingContract {
    #[verifier::type_invariant]
    spec fn valid(self) -> bool {
        parts_valid(self.tokens@, self.pools@, self.loans@)
    }

    /// The state of the ledger.
    pub closed spec fn view(&self) -> LedgerModel {
        model_of(self.owner, self.tokens@, self.pools@, self.loans@)
    }

    /// Sets up a ledger owned by `owner`, with the two supported tokens and
    /// nothing else. Whatever ledger there was before plays no part.
    pub fn initialize(owner: Address) -> (ledger: LendingContract)
        ensures
            ledger@ == LedgerModel::initial(owner@),
            ledger@.well_formed(),
    {
        let xlm = Token {
            symbol: "XLM".to_owned(),
            name: "Stellar Lumens".to_owned(),
            lend_rate: 520,
            borrow_rate: 680,
            total_supplied: 0,
            total_borrowed: 0,
        };
        let usdc = Token {
            symbol: "USDC".to_owned(),
            name: "USD Coin".to_owned(),
            lend_rate: 810,
            borrow_rate: 950,
            total_supplied: 0,
            total_borrowed: 0,
        };
        let mut tokens: Vec<Token> = Vec::new();
        tokens.push(xlm);
        tokens.push(usdc);
        proof {
            reveal_strlit("XLM");
            reveal_strlit("USDC");
            assert("XLM"@.len() != "USDC"@.len());
            assert(distinct_symbols(tokens@));
            lemma_token_at(tokens@, 0);
            lemma_token_at(tokens@, 1);
        }
        let ledger = LendingContract { owner, tokens, pools: Vec::new(), loans: Vec::new() };
        proof {
            let expected = LedgerModel::initial(owner@);
            assert(ledger@.tokens =~= expected.tokens);
            assert(ledger@.pools =~= expected.pools);
            assert(ledger@.loans =~= expected.loans);
            lemma_model_of_well_formed(ledger.owner, ledger.tokens@, ledger.pools@, ledger.loans@);
        }
        ledger
    }

    /// Creates a pool for `token` with the given loan bounds. Only the owner
    /// of the ledger may do so. The pool is registered under the next pool
    /// identifier, which is returned; it belongs to the ledger's own address
    /// and holds no liquidity yet.
    pub fn create_pool(
        &mut self,
        ctx: &CallContext,
        token: String,
        pool_type: PoolType,
        min_loan_amount: i128,
        max_loan_amount: i128,
    ) -> (result: Result<u32, LedgerError>)
        requires
            old(self)@.create_pool_rejection(ctx@) is None ==> old(self)@.next_pool_id < u32::MAX,
        ensures
            match result {
                Ok(pool_id) => {
                    &&& old(self)@.create_pool_rejection(ctx@) is None
                    &&& pool_id == old(self)@.next_pool_id
                    &&& final(self)@ == old(self)@.after_create_pool(
                        ctx@,
                        token@,
                        pool_type,
                        min_loan_amount as int,
                        max_loan_amount as int,
                    )
                },
                Err(e) => {
                    &&& old(self)@.create_pool_rejection(ctx@) == Some(e)
                    &&& final(self)@ == old(self)@
                },
            },
            final(self)@.well_formed(),
    {
        proof {
            use_type_invariant(&*self);
            lemma_model_of_well_formed(self.owner, self.tokens@, self.pools@, self.loans@);
        }
        if !ctx.invoker.same_as(&self.owner) {
            return Err(LedgerError::Unauthorized);
        }
        let pool_id: u32 = self.pools.len() as u32;
        let pool = LendingPool {
            owner: ctx.contract.clone(),
            token,
            pool_type,
            total_liquidity: 0,
            available_liquidity: 0,
            min_loan_amount,
            max_loan_amount,
        };
        let mut pools: Vec<LendingPool> = Vec::new();
        std::mem::swap(&mut pools, &mut self.pools);
        pools.push(pool);
        self.pools = pools;
        proof {
            let expected = old(self)@.after_create_pool(
                ctx@,
                token@,
                pool_type,
                min_loan_amount as int,
                max_loan_amount as int,
            );
            assert(self@.pools =~= expected.pools);
            lemma_model_of_well_formed(self.owner, self.tokens@, self.pools@, self.loans@);
        }
        Ok(pool_id)
    }

    /// Adds `amount` to the liquidity of the pool `pool_id`: to its total,
    /// to what is available of it, and to what is supplied of its token.
    /// Anyone may supply, and the amount is taken as it is given.
    pub fn supply(&mut self, pool_id: u32, amount: i128) -> (result: Result<(), LedgerError>)
        requires
            old(self)@.supply_rejection(pool_id as nat) is None ==> old(self)@.supply_fits(
                pool_id as nat,
                amount as int,
            ),
        ensures
            match result {
                Ok(()) => {
                    &&& old(self)@.supply_rejection(pool_id as nat) is None
                    &&& final(self)@ == old(self)@.after_supply(pool_id as nat, amount as int)
                },
                Err(e) => {
                    &&& old(self)@.supply_rejection(pool_id as nat) == Some(e)
                    &&& final(self)@ == old(self)@
                },
            },
            final(self)@.well_formed(),
    {
        proof {
            use_type_invariant(&*self);
            lemma_model_of_well_formed(self.owner, self.tokens@, self.pools@, self.loans@);
        }
        if pool_id as usize >= self.pools.len() {
            return Err(LedgerError::NotFound);
        }
        let at: usize = pool_id as usize;
        let token_at: usize = match find_token(&self.tokens, &self.pools[at].token) {
            Some(i) => i,
            None => {
                return Err(LedgerError::NotFound);
            },
        };
        proof {
            lemma_token_at(self.tokens@, token_at as int);
        }
        let mut pools: Vec<LendingPool> = Vec::new();
        std::mem::swap(&mut pools, &mut self.pools);
        let mut tokens: Vec<Token> = Vec::new();
        std::mem::swap(&mut tokens, &mut self.tokens);
        pools[at].total_liquidity = pools[at].total_liquidity + amount;
        pools[at].available_liquidity = pools[at].available_liquidity + amount;
        tokens[token_at].total_supplied = tokens[token_at].total_supplied + amount;
        proof {
            lemma_token_replaced(old(self).tokens@, token_at as int, tokens@[token_at as int]);
            assert(tokens@ =~= old(self).tokens@.update(token_at as int, tokens@[token_at as int]));
        }
        self.pools = pools;
        self.tokens = tokens;
        proof {
            let expected = old(self)@.after_supply(pool_id as nat, amount as int);
            assert(self@.pools =~= expected.pools);
            assert(self@.tokens =~= expected.tokens);
            lemma_model_of_well_formed(self.owner, self.tokens@, self.pools@, self.loans@);
        }
        Ok(())
    }

    /// Requests a loan of `amount` from the pool `pool_id`, for `term_days`
    /// days. The pool and its token must be registered, and the amount must
    /// lie within the pool's loan bounds and its available liquidity. On
    /// success the loan is registered under the next loan identifier, which
    /// is returned together with the record that announces the loan. The
    /// borrower on record is the ledger's own address, the creation time is
    /// the call's timestamp, and the pool's liquidity is left as it is.
    pub fn request_loan(
        &mut self,
        ctx: &CallContext,
        pool_id: u32,
        amount: i128,
        term_days: u32,
    ) -> (result: Result<(u32, LoanCreatedEvent), LedgerError>)
        requires
            old(self)@.request_loan_rejection(pool_id as nat, amount as int) is None ==> old(
                self,
            )@.next_loan_id < u32::MAX,
        ensures
            match result {
                Ok((loan_id, event)) => {
                    &&& old(self)@.request_loan_rejection(pool_id as nat, amount as int) is None
                    &&& loan_id == old(self)@.next_loan_id
                    &&& event@ == old(self)@.loan_created(
                        ctx@,
                        pool_id as nat,
                        amount as int,
                        term_days as int,
                    )
                    &&& final(self)@ == old(self)@.after_request_loan(
                        ctx@,
                        pool_id as nat,
                        amount as int,
                        term_days as int,
                    )
                },
                Err(e) => {
                    &&& old(self)@.request_loan_rejection(pool_id as nat, amount as int) == Some(e)
                    &&& final(self)@ == old(self)@
                },
            },
            final(self)@.well_formed(),
    {
        proof {
            use_type_invariant(&*self);
            lemma_model_of_well_formed(self.owner, self.tokens@, self.pools@, self.loans@);
        }
        if pool_id as usize >= self.pools.len() {
            return Err(LedgerError::NotFound);
        }
        let pool = &self.pools[pool_id as usize];
        let token_at: usize = match find_token(&self.tokens, &pool.token) {
            Some(i) => i,
            None => {
                return Err(LedgerError::NotFound);
            },
        };
        proof {
            lemma_token_at(self.tokens@, token_at as int);
        }
        if amount < pool.min_loan_amount {
            return Err(LedgerError::AmountTooSmall);
        }
        if amount > pool.max_loan_amount {
            return Err(LedgerError::AmountTooLarge);
        }
        if amount > pool.available_liquidity {
            return Err(LedgerError::InsufficientLiquidity);
        }
        let interest_rate: i128 = self.tokens[token_at].borrow_rate;
        let loan_id: u32 = self.loans.len() as u32;
        let loan = Loan {
            borrower: ctx.contract.clone(),
            token: pool.token.clone(),
            amount,
            interest_rate,
            term_days,
            status: LoanStatus::Requested,
            created_at: ctx.timestamp,
            repaid_at: None,
            pool_type: pool.pool_type,
        };
        let event = LoanCreatedEvent {
            loan_id,
            borrower: ctx.contract.clone(),
            token: pool.token.clone(),
            amount,
            interest_rate,
            term_days,
            pool_type: pool.pool_type,
        };
        let mut loans: Vec<Loan> = Vec::new();
        std::mem::swap(&mut loans, &mut self.loans);
        loans.push(loan);
        self.loans = loans;
        proof {
            let expected = old(self)@.after_request_loan(
                ctx@,
                pool_id as nat,
                amount as int,
                term_days as int,
            );
            assert(self@.loans =~= expected.loans);
            lemma_model_of_well_formed(self.owner, self.tokens@, self.pools@, self.loans@);
        }
        Ok((loan_id, event))
    }

    /// Whether `supply` may be called with these arguments: either it will
    /// be refused, or the sums it forms fit the 128-bit amounts.
    pub fn can_supply(&self, pool_id: u32, amount: i128) -> (fits: bool)
        ensures
            fits == (self@.supply_rejection(pool_id as nat) is None ==> self@.supply_fits(
                pool_id as nat,
                amount as int,
            )),
    {
        proof {
            use_type_invariant(self);
        }
        if pool_id as usize >= self.pools.len() {
            return true;
        }
        let pool = &self.pools[pool_id as usize];
        let token_at: usize = match find_token(&self.tokens, &pool.token) {
            Some(i) => i,
            None => {
                return true;
            },
        };
        proof {
            lemma_token_at(self.tokens@, token_at as int);
        }
        pool.total_liquidity.checked_add(amount).is_some()
            && pool.available_liquidity.checked_add(amount).is_some()
            && self.tokens[token_at].total_supplied.checked_add(amount).is_some()
    }

    /// Puts a ledger together from its owner and its three registries, as
    /// they were taken apart by [`LendingContract::parts`] or read back from
    /// a store. Pools and loans get their identifiers from their places.
    /// Parts that break the ledger's invariant are refused.
    pub fn from_parts(
        owner: Address,
        tokens: Vec<Token>,
        pools: Vec<LendingPool>,
        loans: Vec<Loan>,
    ) -> (ledger: Option<LendingContract>)
        ensures
            match ledger {
                Some(ledger) => {
                    &&& parts_valid(tokens@, pools@, loans@)
                    &&& ledger@ == model_of(owner, tokens@, pools@, loans@)
                },
                None => !parts_valid(tokens@, pools@, loans@),
            },
            ledger is Some ==> ledger->Some_0@.well_formed(),
    {
        if pools.len() > u32::MAX as usize || loans.len() > u32::MAX as usize {
            return None;
        }
        if !symbols_distinct(&tokens) || !liquidity_consistent(&pools) {
            return None;
        }
        proof {
            lemma_model_of_well_formed(owner, tokens@, pools@, loans@);
        }
        Some(LendingContract { owner, tokens, pools, loans })
    }

    /// The owner and the three registries of the ledger, in the order in
    /// which [`LendingContract::from_parts`] takes them.
    pub fn parts(&self) -> (parts: (&Address, &Vec<Token>, &Vec<LendingPool>, &Vec<Loan>))
        ensures
            parts_valid(parts.1@, parts.2@, parts.3@),
            self@ == model_of(*parts.0, parts.1@, parts.2@, parts.3@),
            self@.well_formed(),
    {
        proof {
            use_type_invariant(self);
            lemma_model_of_well_formed(self.owner, self.tokens@, self.pools@, self.loans@);
        }
        (&self.owner, &self.tokens, &self.pools, &self.loans)
    }

    /// The identifier that the next pool will get.
    pub fn next_pool_id(&self) -> (id: u32)
        ensures
            id == self@.next_pool_id,
            self@.well_formed(),
    {
        proof {
            use_type_invariant(self);
            lemma_model_of_well_formed(self.owner, self.tokens@, self.pools@, self.loans@);
        }
        self.pools.len() as u32
    }

    /// The identifier that the next loan will get.
    pub fn next_loan_id(&self) -> (id: u32)
        ensures
            id == self@.next_loan_id,
            self@.well_formed(),
    {
        proof {
            use_type_invariant(self);
            lemma_model_of_well_formed(self.owner, self.tokens@, self.pools@, self.loans@);
        }
        self.loans.len() as u32
    }

    /// The token registered under `symbol`.
    pub fn get_token_info(&self, symbol: String) -> (result: Result<Token, LedgerError>)
        ensures
            match result {
                Ok(token) => self@.tokens.contains_key(symbol@) && token@ == self@.tokens[symbol@],
                Err(e) => e == LedgerError::NotFound && !self@.tokens.contains_key(symbol@),
            },
            self@.well_formed(),
    {
        proof {
            use_type_invariant(self);
            lemma_model_of_well_formed(self.owner, self.tokens@, self.pools@, self.loans@);
        }
        match find_token(&self.tokens, &symbol) {
            Some(i) => {
                proof {
                    lemma_token_at(self.tokens@, i as int);
                }
                Ok(self.tokens[i].clone())
            },
            None => Err(LedgerError::NotFound),
        }
    }

    /// The pool registered under `pool_id`.
    pub fn get_pool(&self, pool_id: u32) -> (result: Result<LendingPool, LedgerError>)
        ensures
            match result {
                Ok(pool) => self@.pools.contains_key(pool_id as nat) && pool@ == self@.pools[pool_id as nat],
                Err(e) => e == LedgerError::NotFound && !self@.pools.contains_key(pool_id as nat),
            },
            self@.well_formed(),
    {
        proof {
            use_type_invariant(self);
            lemma_model_of_well_formed(self.owner, self.tokens@, self.pools@, self.loans@);
        }
        if (pool_id as usize) < self.pools.len() {
            Ok(self.pools[pool_id as usize].clone())
        } else {
            Err(LedgerError::NotFound)
        }
    }

    /// The loan registered under `loan_id`.
    pub fn get_loan(&self, loan_id: u32) -> (result: Result<Loan, LedgerError>)
        ensures
            match result {
                Ok(loan) => self@.loans.contains_key(loan_id as nat) && loan@ == self@.loans[loan_id as nat],
                Err(e) => e == LedgerError::NotFound && !self@.loans.contains_key(loan_id as nat),
            },
            self@.well_formed(),
    {
        proof {
            use_type_invariant(self);
            lemma_model_of_well_formed(self.owner, self.tokens@, self.pools@, self.loans@);
        }
        if (loan_id as usize) < self.loans.len() {
            Ok(self.loans[loan_id as usize].clone())
        } else {
            Err(LedgerError::NotFound)
        }
    }
}

/// Whether no symbol occurs twice among `tokens`.
fn symbols_distinct(tokens: &Vec<Token>) -> (distinct: bool)
    ensures
        distinct == distinct_symbols(tokens@),
{
    let mut j: usize = 0;
    while j < tokens.len()
        invariant
            j <= tokens.len(),
            forall|a: int, b: int|
                0 <= a < b < j ==> (#[trigger] tokens[a]).symbol@ != (#[trigger] tokens[b]).symbol@,
        decreases tokens.len() - j,
    {
        let mut i: usize = 0;
        while i < j
            invariant
                i <= j < tokens.len(),
                forall|a: int| 0 <= a < i ==> (#[trigger] tokens[a]).symbol@ != tokens[j as int].symbol@,
            decreases j - i,
        {
            if tokens[i].symbol == tokens[j].symbol {
                return false;
            }
            i += 1;
        }
        j += 1;
    }
    true
}

/// Whether no pool among `pools` has more liquidity available than it holds.
fn liquidity_consistent(pools: &Vec<LendingPool>) -> (consistent: bool)
    ensures
        consistent == (forall|i: int|
            0 <= i < pools.len() ==> (#[trigger] pools[i])@.liquidity_consistent()),
{
    let mut i: usize = 0;
    while i < pools.len()
        invariant
            i <= pools.len(),
            forall|k: int| 0 <= k < i ==> (#[trigger] pools[k])@.liquidity_consistent(),
        decreases pools.len() - i,
    {
        if pools[i].available_liquidity > pools[i].total_liquidity {
            return false;
        }
        i += 1;
    }
    true
}

/// Looks for the token with the given symbol.
fn find_token(tokens: &Vec<Token>, symbol: &String) -> (found: Option<usize>)
    ensures
        match found {
            Some(i) => i < tokens.len() && tokens[i as int].symbol@ == symbol@,
            None => !registered(tokens@, symbol@),
        },
{
    let mut i: usize = 0;
    while i < tokens.len()
        invariant
            i <= tokens.len(),
            forall|j: int| 0 <= j < i ==> (#[trigger] tokens[j]).symbol@ != symbol@,
        decreases tokens.len() - i,
    {
        if tokens[i].symbol == *symbol {
            return Some(i);
        }
        i += 1;
    }
    None
}

} // verus!
