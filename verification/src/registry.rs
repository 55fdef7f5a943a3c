//! How the registries, held as vectors, are read as the maps of the model.

use vstd::prelude::*;
use crate::token::{Token, TokenView};

verus! {

/// No symbol occurs twice among `tokens`.
pub open spec fn distinct_symbols(tokens: Seq<Token>) -> bool {
    forall|i: int, j: int|
        0 <= i < j < tokens.len() ==> (#[trigger] tokens[i]).symbol@ != (#[trigger] tokens[j]).symbol@
}

/// Some token among `tokens` has the symbol `symbol`.
pub open spec fn registered(tokens: Seq<Token>, symbol: Seq<char>) -> bool {
    exists|i: int| 0 <= i < tokens.len() && (#[trigger] tokens[i]).symbol@ == symbol
}

/// The place of the token with the symbol `symbol` among `tokens`.
pub open spec fn position(tokens: Seq<Token>, symbol: Seq<char>) -> int {
    choose|i: int| 0 <= i < tokens.len() && (#[trigger] tokens[i]).symbol@ == symbol
}

/// The token registry as a map from symbol to token.
pub open spec fn token_map(tokens: Seq<Token>) -> Map<Seq<char>, TokenView> {
    Map::new(
        |symbol: Seq<char>| registered(tokens, symbol),
        |symbol: Seq<char>| tokens[position(tokens, symbol)]@,
    )
}

/// A registry whose entries are numbered from zero in the order of their
/// creation, as a map from identifier to entry.
pub open spec fn numbered<T: View>(entries: Seq<T>) -> Map<nat, T::V> {
    Map::new(|id: nat| id < entries.len(), |id: nat| entries[id as int]@)
}

/// Among distinct symbols, the token at place `i` is the one registered
/// under its symbol.
pub proof fn lemma_token_at(tokens: Seq<Token>, i: int)
    requires
        distinct_symbols(tokens),
        0 <= i < tokens.len(),
    ensures
        registered(tokens, tokens[i].symbol@),
        position(tokens, tokens[i].symbol@) == i,
        token_map(tokens).contains_key(tokens[i].symbol@),
        token_map(tokens)[tokens[i].symbol@] == tokens[i]@,
{
    let symbol = tokens[i].symbol@;
    let j: int = position(tokens, symbol);
    assert(0 <= j < tokens.len() && tokens[j].symbol@ == symbol);
    if j < i {
        assert(tokens[j].symbol@ != tokens[i].symbol@);
    } else if i < j {
        assert(tokens[i].symbol@ != tokens[j].symbol@);
    }
}

/// Replacing a token by one of the same symbol replaces it in the map, and
/// keeps the symbols distinct.
pub proof fn lemma_token_replaced(tokens: Seq<Token>, i: int, token: Token)
    requires
        distinct_symbols(tokens),
        0 <= i < tokens.len(),
        token.symbol@ == tokens[i].symbol@,
    ensures
        distinct_symbols(tokens.update(i, token)),
        token_map(tokens.update(i, token)) == token_map(tokens).insert(token.symbol@, token@),
{
    let updated = tokens.update(i, token);
    assert(distinct_symbols(updated)) by {
        assert forall|a: int, b: int| 0 <= a < b < updated.len() implies (#[trigger] updated[a]).symbol@
            != (#[trigger] updated[b]).symbol@ by {
            assert(tokens[a].symbol@ != tokens[b].symbol@);
        }
    }
    assert forall|symbol: Seq<char>| registered(updated, symbol) == registered(tokens, symbol) by {
        if registered(tokens, symbol) {
            let k: int = position(tokens, symbol);
            assert(updated[k].symbol@ == symbol);
        }
        if registered(updated, symbol) {
            let k: int = position(updated, symbol);
            assert(tokens[k].symbol@ == symbol);
        }
    }
    assert forall|symbol: Seq<char>| registered(updated, symbol) implies #[trigger] token_map(
        updated,
    )[symbol] == token_map(tokens).insert(token.symbol@, token@)[symbol] by {
        let k: int = position(updated, symbol);
        lemma_token_at(updated, k);
        lemma_token_at(tokens, k);
    }
    assert(token_map(updated) =~= token_map(tokens).insert(token.symbol@, token@));
}

} // verus!
