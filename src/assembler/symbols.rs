//! The symbol table: names declared in the source and the byte offsets they
//! stand for.
use vstd::prelude::*;

use crate::text::text_eq;

verus! {

#[derive(Debug, PartialEq, Eq, Clone, Copy, Structural)]
pub enum SymbolType {
    Label,
    Integer,
    IrString,
}

/// A declared name; `offset` is `None` until the declaration that gives it
/// an offset has been processed.
#[derive(Debug, PartialEq, Clone)]
pub struct Symbol {
    pub name: String,
    pub symbol_type: SymbolType,
    pub offset: Option<u32>,
}

pub struct SymbolView {
    pub name: Seq<char>,
    pub symbol_type: SymbolType,
    pub offset: Option<u32>,
}

impl View for Symbol {
    type V = SymbolView;

    open spec fn view(&self) -> SymbolView {
        SymbolView { name: self.name@, symbol_type: self.symbol_type, offset: self.offset }
    }
}

impl Symbol {
    pub fn new(name: String, symbol_type: SymbolType) -> (r: Symbol)
        ensures
            r.name == name,
            r.symbol_type == symbol_type,
            r.offset is None,
    {
        Symbol { name, symbol_type, offset: None }
    }

    pub fn new_with_offset(name: String, symbol_type: SymbolType, offset: u32) -> (r: Symbol)
        ensures
            r.name == name,
            r.symbol_type == symbol_type,
            r.offset == Some(offset),
    {
        Symbol { name, symbol_type, offset: Some(offset) }
    }
}

/// The symbols in the order they were added. Where a name occurs more than
/// once, the first entry is the one that counts.
#[derive(Debug, PartialEq, Clone, Default)]
pub struct SymbolTable {
    pub symbols: Vec<Symbol>,
}

/// The index of the first symbol named `name`, or -1 where there is none.
pub open spec fn first_index(syms: Seq<SymbolView>, name: Seq<char>) -> int
    decreases syms.len(),
{
    if syms.len() == 0 {
        -1
    } else if syms[0].name == name {
        0
    } else {
        let r = first_index(syms.drop_first(), name);
        if r < 0 {
            -1
        } else {
            r + 1
        }
    }
}

/// The offset that the table gives `name`: `None` where the name is not in
/// the table or has no offset yet.
pub open spec fn offset_of(syms: Seq<SymbolView>, name: Seq<char>) -> Option<u32> {
    let k = first_index(syms, name);
    if k < 0 {
        None
    } else {
        syms[k].offset
    }
}

pub proof fn lemma_first_index(syms: Seq<SymbolView>, name: Seq<char>)
    ensures
        -1 <= first_index(syms, name) < syms.len(),
        first_index(syms, name) == -1 <==> forall|j: int|
            0 <= j < syms.len() ==> (#[trigger] syms[j]).name != name,
        first_index(syms, name) >= 0 ==> syms[first_index(syms, name)].name == name,
        forall|j: int| 0 <= j < first_index(syms, name) ==> (#[trigger] syms[j]).name != name,
    decreases syms.len(),
{
    if syms.len() > 0 && syms[0].name != name {
        lemma_first_index(syms.drop_first(), name);
        assert forall|j: int| 1 <= j < syms.len() implies syms[j] == syms.drop_first()[j - 1] by {}
        if first_index(syms, name) == -1 {
            assert forall|j: int| 0 <= j < syms.len() implies (#[trigger] syms[j]).name != name by {
                if j > 0 {
                    assert(syms[j] == syms.drop_first()[j - 1]);
                }
            }
        }
    }
}

impl View for SymbolTable {
    type V = Seq<SymbolView>;

    open spec fn view(&self) -> Seq<SymbolView> {
        self.symbols@.map_values(|s: Symbol| s@)
    }
}

impl SymbolTable {
    pub fn new() -> (r: SymbolTable)
        ensures
            r@ == Seq::<SymbolView>::empty(),
    {
        SymbolTable { symbols: Vec::new() }
    }

    pub fn add_symbol(&mut self, s: Symbol)
        ensures
            final(self)@ == old(self)@.push(s@),
    {
        self.symbols.push(s);
        assert(self@ =~= old(self)@.push(s@));
    }

    /// The index of the first symbol named `s`.
    fn find(&self, s: &str) -> (r: Option<usize>)
        ensures
            match r {
                Some(k) => k as int == first_index(self@, s@) && k < self@.len(),
                None => first_index(self@, s@) == -1,
            },
    {
        proof {
            lemma_first_index(self@, s@);
        }
        let mut i: usize = 0;
        while i < self.symbols.len()
            invariant
                i <= self@.len(),
                self@.len() == self.symbols@.len(),
                forall|j: int| 0 <= j < i ==> (#[trigger] self@[j]).name != s@,
                -1 <= first_index(self@, s@) < self@.len(),
                first_index(self@, s@) == -1 <==> forall|j: int|
                    0 <= j < self@.len() ==> (#[trigger] self@[j]).name != s@,
                first_index(self@, s@) >= 0 ==> self@[first_index(self@, s@)].name == s@,
                forall|j: int|
                    0 <= j < first_index(self@, s@) ==> (#[trigger] self@[j]).name != s@,
            decreases self.symbols@.len() - i,
        {
            assert(self@[i as int] == self.symbols@[i as int]@);
            if text_eq(self.symbols[i].name.as_str(), s) {
                return Some(i);
            }
            i = i + 1;
        }
        None
    }

    pub fn has_symbol(&self, s: &str) -> (r: bool)
        ensures
            r == (first_index(self@, s@) >= 0),
    {
        self.find(s).is_some()
    }

    /// Gives the first symbol named `s` the offset `offset`; `false` where
    /// there is no such symbol.
    pub fn set_symbol_offset(&mut self, s: &str, offset: u32) -> (r: bool)
        ensures
            r == (first_index(old(self)@, s@) >= 0),
            r ==> final(self)@ == old(self)@.update(
                first_index(old(self)@, s@),
                SymbolView {
                    name: s@,
                    symbol_type: old(self)@[first_index(old(self)@, s@)].symbol_type,
                    offset: Some(offset),
                },
            ),
            !r ==> final(self)@ == old(self)@,
    {
        proof {
            lemma_first_index(self@, s@);
        }
        match self.find(s) {
            Some(k) => {
                let sym = Symbol {
                    name: self.symbols[k].name.clone(),
                    symbol_type: self.symbols[k].symbol_type,
                    offset: Some(offset),
                };
                self.symbols.set(k, sym);
                assert(self@ =~= old(self)@.update(
                    k as int,
                    SymbolView {
                        name: s@,
                        symbol_type: old(self)@[k as int].symbol_type,
                        offset: Some(offset),
                    },
                ));
                true
            },
            None => false,
        }
    }

    /// The offset of the first symbol named `s`.
    pub fn symbol_value(&self, s: &str) -> (r: Option<u32>)
        ensures
            r == offset_of(self@, s@),
    {
        match self.find(s) {
            Some(k) => {
                assert(self@[k as int] == self.symbols@[k as int]@);
                self.symbols[k].offset
            },
            None => None,
        }
    }
}

} // verus!
