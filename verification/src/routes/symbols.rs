//! Looking symbols up by a part of their name.

use crate::domain::symbol_info::SymbolInfo;
use crate::domain::symbol_type::SymbolType;
use crate::text::contains_text;
use crate::text::lowercase;
use crate::text::lowercase_of;
use crate::text::occurs_in;
use crate::text::same_text;
use vstd::prelude::*;

verus! {

/// The parameters of a symbol query.
#[derive(Debug)]
pub struct SymbolsQueryParams {
    pub name: Option<String>,
    pub exchange: Option<String>,
    pub symbol_type: Option<SymbolType>,
}

/// The answer to a symbol query.
#[derive(Debug)]
pub enum SymbolsAnswer {
    /// These symbols, in the order in which they are listed.
    Found(Vec<SymbolInfo>),
    /// A name was asked for and no symbol matches.
    NotFound,
}

/// Whether a symbol answers a search: its name holds `name`, letter case
/// aside, and it is of the exchange and of the type where one is asked for.
pub open spec fn symbol_matches(
    symbol: SymbolInfo,
    name: Seq<char>,
    exchange: Option<String>,
    symbol_type: Option<SymbolType>,
) -> bool {
    &&& occurs_in(lowercase_of(name), lowercase_of(symbol.name@))
    &&& (exchange matches Some(e) ==> symbol.exchange@ == e@)
    &&& (symbol_type matches Some(t) ==> symbol.symbol_type == t)
}

/// The symbols that answer a search, in their order.
pub open spec fn matching(
    symbols: Seq<SymbolInfo>,
    name: Seq<char>,
    exchange: Option<String>,
    symbol_type: Option<SymbolType>,
) -> Seq<SymbolInfo>
    decreases symbols.len(),
{
    if symbols.len() == 0 {
        Seq::empty()
    } else {
        let before = matching(symbols.drop_last(), name, exchange, symbol_type);
        if symbol_matches(symbols.last(), name, exchange, symbol_type) {
            before.push(symbols.last())
        } else {
            before
        }
    }
}

/// Moves the symbols into a new list in reverse order.
fn reversed(symbols: Vec<SymbolInfo>) -> (r: Vec<SymbolInfo>)
    ensures
        r.len() == symbols.len(),
        forall|k: int| 0 <= k < r.len() ==> #[trigger] r[k] == symbols[symbols.len() - 1 - k],
{
    let mut rest = symbols;
    let mut stack: Vec<SymbolInfo> = Vec::new();
    while rest.len() > 0
        invariant
            rest.len() + stack.len() == symbols.len(),
            rest@ == symbols@.take(rest.len() as int),
            forall|k: int|
                0 <= k < stack.len() ==> #[trigger] stack[k] == symbols[symbols.len() - 1 - k],
        decreases rest.len(),
    {
        let ghost before = rest@;
        match rest.pop() {
            Some(symbol) => {
                stack.push(symbol);
                assert(rest@ =~= symbols@.take(rest.len() as int));
            },
            None => {},
        }
    }
    stack
}

/// The symbols whose name holds `name`, letter case aside, and that are of the
/// given exchange and type where one is given; in the order of `symbols`.
pub fn search(
    symbols: Vec<SymbolInfo>,
    name: &String,
    exchange: &Option<String>,
    symbol_type: &Option<SymbolType>,
) -> (r: Vec<SymbolInfo>)
    ensures
        r@ == matching(symbols@, name@, *exchange, *symbol_type),
{
    let ghost all = symbols@;
    let mut stack = reversed(symbols);
    let needle = lowercase(name.as_str());
    let mut found: Vec<SymbolInfo> = Vec::new();
    let ghost mut seen: int = 0;
    assert(all.take(0) =~= Seq::empty());
    while stack.len() > 0
        invariant
            seen + stack.len() == all.len(),
            0 <= seen,
            needle@ == lowercase_of(name@),
            forall|k: int| 0 <= k < stack.len() ==> #[trigger] stack[k] == all[all.len() - 1 - k],
            found@ == matching(all.take(seen), name@, *exchange, *symbol_type),
        decreases stack.len(),
    {
        match stack.pop() {
            Some(symbol) => {
                assert(symbol == all[seen]);
                assert(all.take(seen + 1).drop_last() =~= all.take(seen));
                assert(all.take(seen + 1).last() == all[seen]);
                let lower = lowercase(symbol.name.as_str());
                let mut keep = contains_text(lower.as_str(), needle.as_str());
                if keep {
                    match exchange {
                        Some(e) => {
                            keep = same_text(symbol.exchange.as_str(), e.as_str());
                        },
                        None => {},
                    }
                }
                if keep {
                    match symbol_type {
                        Some(t) => {
                            keep = symbol.symbol_type == *t;
                        },
                        None => {},
                    }
                }
                if keep {
                    found.push(symbol);
                }
                proof {
                    seen = seen + 1;
                }
            },
            None => {},
        }
    }
    assert(all.take(seen) =~= all);
    found
}

/// Answers a symbol query over the listed symbols: with a name, the symbols
/// that `search` finds, or `NotFound` where there is none; without a name,
/// all the symbols.
pub fn resolve(query: &SymbolsQueryParams, symbols: Vec<SymbolInfo>) -> (r: SymbolsAnswer)
    ensures
        match query.name {
            Some(name) => {
                let hits = matching(symbols@, name@, query.exchange, query.symbol_type);
                if hits.len() == 0 {
                    r is NotFound
                } else {
                    r matches SymbolsAnswer::Found(list) && list@ == hits
                }
            },
            None => r matches SymbolsAnswer::Found(list) && list@ == symbols@,
        },
{
    match &query.name {
        Some(name) => {
            let hits = search(symbols, name, &query.exchange, &query.symbol_type);
            if hits.len() == 0 {
                SymbolsAnswer::NotFound
            } else {
                SymbolsAnswer::Found(hits)
            }
        },
        None => SymbolsAnswer::Found(symbols),
    }
}

} // verus!
