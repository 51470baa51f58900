//! Lindenmayer system structures.
use vstd::prelude::*;

verus! {

/// A production rule of an L-system: a symbol and what it rewrites to.
#[derive(Clone, Debug)]
pub struct LSysItem {
    symbol: String,
    definition: String,
}

/// The symbols of an L-system alphabet.
#[derive(Clone, Copy, Debug, PartialEq, Eq, Structural)]
pub enum Symbols {
    A, B, C, D, E,
    F, G, H, I, J,
    K, L, M, N, O,
    P, Q, R, S, T,
    U, V, W, X, Y,
    Z,
}

impl View for LSysItem {
    type V = (Seq<char>, Seq<char>);

    closed spec fn view(&self) -> (Seq<char>, Seq<char>) {
        (self.symbol@, self.definition@)
    }
}

impl LSysItem {
    /// A rule rewriting `symbol` to `definition`.
    pub fn new(symbol: &str, definition: &str) -> (item: Self)
        ensures
            item@ == (symbol@, definition@),
    {
        Self { symbol: symbol.to_owned(), definition: definition.to_owned() }
    }

    /// The symbol the rule rewrites.
    pub fn symbol(&self) -> (s: &str)
        ensures
            s@ == self@.0,
    {
        self.symbol.as_str()
    }

    /// What the symbol rewrites to.
    pub fn definition(&self) -> (s: &str)
        ensures
            s@ == self@.1,
    {
        self.definition.as_str()
    }
}

/// An L-system: its rules and its start string.
pub struct LSys {
    items: Vec<LSysItem>,
    start: String,
}

} // verus!
