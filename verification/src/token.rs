//! Supported assets and their rate parameters.

use vstd::prelude::*;

verus! {

/// A supported asset. Rates are in basis points: 520 stands for 5.20%.
#[derive(Debug, PartialEq, Eq)]
pub struct Token {
    pub symbol: String,
    pub name: String,
    pub lend_rate: i128,
    pub borrow_rate: i128,
    pub total_supplied: i128,
    pub total_borrowed: i128,
}

/// What a [`Token`] holds, as mathematical values.
pub struct TokenView {
    pub symbol: Seq<char>,
    pub name: Seq<char>,
    pub lend_rate: int,
    pub borrow_rate: int,
    pub total_supplied: int,
    pub total_borrowed: int,
}

impl TokenView {
    /// A token as it is registered: the given rates, and nothing supplied or
    /// borrowed yet.
    pub open spec fn seeded(
        symbol: Seq<char>,
        name: Seq<char>,
        lend_rate: int,
        borrow_rate: int,
    ) -> TokenView {
        TokenView { symbol, name, lend_rate, borrow_rate, total_supplied: 0, total_borrowed: 0 }
    }

    /// The token after `amount` was added to what is supplied of it.
    pub open spec fn credited(self, amount: int) -> TokenView {
        TokenView { total_supplied: self.total_supplied + amount, ..self }
    }

    /// The token's totals are not negative.
    pub open spec fn sound(self) -> bool {
        0 <= self.total_supplied && 0 <= self.total_borrowed
    }
}

impl View for Token {
    type V = TokenView;

    open spec fn view(&self) -> TokenView {
        TokenView {
            symbol: self.symbol@,
            name: self.name@,
            lend_rate: self.lend_rate as int,
            borrow_rate: self.borrow_rate as int,
            total_supplied: self.total_supplied as int,
            total_borrowed: self.total_borrowed as int,
        }
    }
}

impl Clone for Token {
    fn clone(&self) -> (res: Self)
        ensures
            res == *self,
    {
        Token {
            symbol: self.symbol.clone(),
            name: self.name.clone(),
            lend_rate: self.lend_rate,
            borrow_rate: self.borrow_rate,
            total_supplied: self.total_supplied,
            total_borrowed: self.total_borrowed,
        }
    }
}

} // verus!
