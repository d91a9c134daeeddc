//! Tables of microprogram memory: one labelled instruction per address,
//! and the table-holding front end that encodes and decodes text.
use vstd::prelude::*;
use crate::command::{labels_of, spec_text, spec_text_panics, Command};
use crate::parse::spec_from_str;

verus! {

/// A cell of microprogram memory: its label, its word and its text.
pub struct Instruction {
    pub label: String,
    pub encoded: u64,
    pub decoded: String,
}

/// A microprogram memory, indexed by address.
pub type Table = [Instruction];

impl Instruction {
    /// A copy of the cell.
    pub fn copy(&self) -> (r: Instruction)
        ensures
            r.label@ == self.label@,
            r.encoded == self.encoded,
            r.decoded@ == self.decoded@,
    {
        Instruction {
            label: self.label.clone(),
            encoded: self.encoded,
            decoded: self.decoded.clone(),
        }
    }
}

/// A microprogram memory that encodes and decodes microcommand text, naming
/// jump targets by the labels of its cells.
pub struct WTable {
    table: Vec<Instruction>,
}

impl WTable {
    /// The cells of the memory.
    pub closed spec fn cells(&self) -> Seq<Instruction> {
        self.table@
    }

    /// A front end over the cells `table`.
    pub fn new(table: Vec<Instruction>) -> (r: Self)
        ensures
            r.cells() == table@,
    {
        WTable { table }
    }

    /// The number of cells.
    pub fn len(&self) -> (r: usize)
        ensures
            r == self.cells().len(),
    {
        self.table.len()
    }

    /// The word of the microcommand text `s` (see `Command::from_str`).
    pub fn from_string(&self, s: String) -> (r: Option<Result<u64, String>>)
        ensures
            match spec_from_str(s@) {
                Some(Ok(b)) => r == Some(Ok::<u64, String>(b)),
                Some(Err(m)) => r matches Some(Err(e)) && e@ == m,
                None => r is None,
            },
    {
        match Command::from_str(s.as_str()) {
            Some(Ok(cmd)) => Some(Ok(cmd.cmd)),
            Some(Err(e)) => Some(Err(e)),
            None => None,
        }
    }

    /// The text of the word `s`, naming jump targets by the labels of the
    /// cells.
    pub fn to_string(&self, s: u64) -> (r: String)
        requires
            !spec_text_panics(s),
        ensures
            r@ == spec_text(s, Some(labels_of(self.cells()))),
    {
        Command::new(s).to_string(Some(self.table.as_slice()))
    }

    /// Sets the label of the cell at `idx`.
    pub fn set_label(&mut self, idx: usize, s: String)
        requires
            idx < old(self).cells().len(),
        ensures
            final(self).cells().len() == old(self).cells().len(),
            forall|i: int|
                0 <= i < old(self).cells().len() && i != idx ==> final(self).cells()[i] == old(
                    self,
                ).cells()[i],
            final(self).cells()[idx as int].label == s,
            final(self).cells()[idx as int].encoded == old(self).cells()[idx as int].encoded,
            final(self).cells()[idx as int].decoded == old(self).cells()[idx as int].decoded,
    {
        let mut cell = self.table.remove(idx);
        cell.label = s;
        self.table.insert(idx, cell);
    }

    /// A copy of the cell at `idx`.
    pub fn get(&mut self, idx: usize) -> (r: Instruction)
        requires
            idx < old(self).cells().len(),
        ensures
            final(self).cells() == old(self).cells(),
            r.label@ == old(self).cells()[idx as int].label@,
            r.encoded == old(self).cells()[idx as int].encoded,
            r.decoded@ == old(self).cells()[idx as int].decoded@,
    {
        self.table[idx].copy()
    }
}

} // verus!
