//! Paths of the operating system, as plain values.

use vstd::prelude::*;

verus! {

/// One piece of a path.
#[derive(Clone, Copy, Debug, PartialEq, Eq, Structural)]
pub enum Unit {
    /// A character.
    Char(char),
    /// What is no Unicode and is displayed as one replacement character: a
    /// longest run of bytes that begin no character on Unix, a lone surrogate
    /// on Windows. The number stands for it; no rule reads it.
    Stray(u32),
}

impl Unit {
    /// The character the piece is displayed by.
    pub open spec fn shown(self) -> char {
        match self {
            Unit::Char(c) => c,
            Unit::Stray(_) => '\u{FFFD}',
        }
    }

    /// The character the piece is displayed by.
    fn show(&self) -> (c: char)
        ensures
            c == self.shown(),
    {
        match self {
            Unit::Char(c) => *c,
            Unit::Stray(_) => '\u{FFFD}',
        }
    }
}

/// The piece that a character is.
pub open spec fn unit_of(c: char) -> Unit {
    Unit::Char(c)
}

/// The path that `text` is.
pub open spec fn path_of_text(text: Seq<char>) -> Seq<Unit> {
    text.map_values(|c: char| unit_of(c))
}

/// The text a path is displayed by.
pub open spec fn displayed(path: Seq<Unit>) -> Seq<char> {
    path.map_values(|unit: Unit| unit.shown())
}

/// Whether a path is Unicode throughout.
pub open spec fn is_text(path: Seq<Unit>) -> bool {
    forall|i: int| 0 <= i < path.len() ==> #[trigger] path[i] is Char
}

/// A path: text, but for what in it is no Unicode.
#[derive(Debug, PartialEq, Eq)]
pub struct PipePath {
    pub units: Vec<Unit>,
}

impl View for PipePath {
    type V = Seq<Unit>;

    open spec fn view(&self) -> Seq<Unit> {
        self.units@
    }
}

impl Clone for PipePath {
    fn clone(&self) -> (path: Self)
        ensures
            path@ == self@,
    {
        let mut path = PipePath { units: Vec::new() };
        for i in 0..self.units.len()
            invariant
                path@ == self@.take(i as int),
        {
            path.units.push(self.units[i]);
        }
        path
    }
}

impl PipePath {
    /// The path that `text` is.
    #[must_use]
    pub fn from_text(text: &str) -> (path: PipePath)
        ensures
            path@ == path_of_text(text@),
    {
        let mut path = PipePath { units: Vec::new() };
        path.append(text);
        path
    }

    /// Write `text` behind the path.
    pub(crate) fn append(&mut self, text: &str)
        ensures
            final(self)@ == old(self)@ + path_of_text(text@),
    {
        let ghost before = self@;
        for c in it: text.chars()
            invariant
                it.seq() == text@,
                self@ == before + path_of_text(text@.take(it.index())),
        {
            self.units.push(Unit::Char(c));
            assert(unit_of(c) == Unit::Char(c));
            assert(self@ =~= before + path_of_text(text@.take(it.index() + 1)));
        }
    }

    /// The text the path is displayed by.
    #[must_use]
    pub fn display(&self) -> (text: String)
        ensures
            text@ == displayed(self@),
    {
        let mut text = String::new();
        for i in 0..self.units.len()
            invariant
                text@ == displayed(self@.take(i as int)),
        {
            text.push(self.units[i].show());
        }
        text
    }
}

} // verus!
