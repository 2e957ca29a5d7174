//! One entry of a binary's symbol table.

use vstd::prelude::*;

verus! {

/// What a symbol names. Only function symbols are told apart today; every
/// other entry keeps the unknown kind.
#[derive(Clone, Copy, Debug, PartialEq, Eq, Structural)]
pub enum SymbolType {
    /// Any symbol not recognized as a function.
    SymTypeUkn,
    /// A function symbol.
    SymTypeFunc,
}

/// One symbol: its kind, its name, and its address. The address is
/// meaningful only relative to the binary the symbol came from.
#[derive(Debug)]
pub struct Symbol {
    /// What the symbol names.
    pub kind: SymbolType,
    /// The symbol's name; empty names are kept to preserve entry order.
    pub name: String,
    /// The symbol's address.
    pub addr: u64,
}

/// The mathematical value of a `Symbol`: the same fields with the name as
/// a character sequence.
pub struct SymbolModel {
    /// What the symbol names.
    pub kind: SymbolType,
    /// The symbol's name.
    pub name: Seq<char>,
    /// The symbol's address.
    pub addr: u64,
}

impl View for Symbol {
    type V = SymbolModel;

    open spec fn view(&self) -> SymbolModel {
        SymbolModel { kind: self.kind, name: self.name@, addr: self.addr }
    }
}

} // verus!
