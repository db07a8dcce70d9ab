//! Symbols and the insertion-ordered tables that hold them.

use vstd::prelude::*;
use crate::token::Position;

verus! {

/// A type descriptor, as written in a declaration.
#[derive(Clone, Copy, Debug, PartialEq, Eq, Structural)]
pub enum Type {
    Integer,
    Boolean,
}

/// What a symbol stands for.
#[derive(Clone, Copy, Debug, PartialEq, Eq, Structural)]
pub enum SymbolType {
    /// A parameter passed by value.
    Param,
    /// A parameter passed by reference.
    VarParam,
    /// A function.
    Function,
}

/// A declared name with its kind, type and place of declaration.
#[derive(Debug, PartialEq, Eq)]
pub struct Symbol {
    pub name: String,
    pub s_type: SymbolType,
    pub r_type: Type,
    pub position: Position,
}

/// The mathematical model of a symbol: its name as a sequence of
/// characters.
pub struct SymbolView {
    pub name: Seq<char>,
    pub s_type: SymbolType,
    pub r_type: Type,
    pub position: Position,
}

impl View for Symbol {
    type V = SymbolView;

    open spec fn view(&self) -> SymbolView {
        SymbolView {
            name: self.name@,
            s_type: self.s_type,
            r_type: self.r_type,
            position: self.position,
        }
    }
}

/// The models of a sequence of symbols, in order.
pub open spec fn symbol_views(symbols: Seq<Symbol>) -> Seq<SymbolView> {
    Seq::new(symbols.len(), |i: int| symbols[i]@)
}

/// The model of a symbol that may be missing.
pub open spec fn found_view(found: Option<Symbol>) -> Option<SymbolView> {
    match found {
        Some(symbol) => Some(symbol@),
        None => None,
    }
}

impl Clone for Symbol {
    fn clone(&self) -> (res: Self)
        ensures
            res == *self,
    {
        Symbol {
            name: self.name.clone(),
            s_type: self.s_type,
            r_type: self.r_type,
            position: self.position,
        }
    }
}

/// The first symbol of `table` at or after index `from` whose name is
/// `name`, if there is one.
pub open spec fn lookup_from(table: Seq<SymbolView>, name: Seq<char>, from: int) -> Option<
    SymbolView,
>
    decreases table.len() - from,
{
    if from < 0 || from >= table.len() {
        None
    } else if table[from].name == name {
        Some(table[from])
    } else {
        lookup_from(table, name, from + 1)
    }
}

/// The symbol that `name` resolves to in `table`: the first one declared
/// under that name.
pub open spec fn lookup(table: Seq<SymbolView>, name: Seq<char>) -> Option<SymbolView> {
    lookup_from(table, name, 0)
}

/// An insertion-ordered collection of symbols.
#[derive(Debug, PartialEq, Eq)]
pub struct SymbolTable {
    pub symbols: Vec<Symbol>,
}

impl View for SymbolTable {
    type V = Seq<SymbolView>;

    open spec fn view(&self) -> Seq<SymbolView> {
        symbol_views(self.symbols@)
    }
}

impl Clone for SymbolTable {
    fn clone(&self) -> (res: Self)
        ensures
            res@ == self@,
    {
        let mut symbols: Vec<Symbol> = Vec::new();
        let mut i: usize = 0;
        while i < self.symbols.len()
            invariant
                i <= self.symbols.len(),
                symbols@ == self.symbols@.take(i as int),
            decreases self.symbols.len() - i,
        {
            symbols.push(self.symbols[i].clone());
            i += 1;
        }
        assert(symbols@ =~= self.symbols@);
        SymbolTable { symbols }
    }
}

impl SymbolTable {
    /// An empty table.
    pub fn new() -> (res: SymbolTable)
        ensures
            res@ == Seq::<SymbolView>::empty(),
    {
        let res = SymbolTable { symbols: Vec::new() };
        assert(res@ =~= Seq::<SymbolView>::empty());
        res
    }

    /// The number of symbols in the table.
    pub fn len(&self) -> (n: usize)
        ensures
            n == self@.len(),
    {
        self.symbols.len()
    }

    /// Appends `symbol` after the symbols already declared.
    pub fn push(&mut self, symbol: Symbol)
        ensures
            final(self)@ == old(self)@.push(symbol@),
    {
        self.symbols.push(symbol);
        assert(self@ =~= old(self)@.push(symbol@));
    }

    /// A copy of the symbol that `name` resolves to, or `None` where the
    /// table declares no such name.
    pub fn get(&self, name: &String) -> (res: Option<Symbol>)
        ensures
            found_view(res) == lookup(self@, name@),
    {
        let mut i: usize = 0;
        while i < self.symbols.len()
            invariant
                i <= self.symbols.len(),
                lookup(self@, name@) == lookup_from(self@, name@, i as int),
            decreases self.symbols.len() - i,
        {
            if self.symbols[i].name == *name {
                return Some(self.symbols[i].clone());
            }
            i += 1;
        }
        None
    }
}

} // verus!
