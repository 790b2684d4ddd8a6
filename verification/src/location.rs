//! Where a parse failure lies, and the table that maps a line of the
//! preprocessed text back to the line and file it came from.

use vstd::prelude::*;

verus! {

/// What a parse failure is made of, as plain values.
pub struct FailureModel {
    /// The line of the failure, counted from 1.
    pub line: nat,
    /// The column of the failure, counted from 1 in characters.
    pub column: nat,
    /// The description of the tokens that would have been accepted.
    pub expected: Seq<char>,
}

/// A failure reported by the parser: the furthest position it reached, and a
/// description of what it would have accepted there. Line and column are
/// both at least 1.
#[derive(Debug)]
pub struct ParseFailure {
    line: u32,
    column: u32,
    expected: String,
}

impl View for ParseFailure {
    type V = FailureModel;

    closed spec fn view(&self) -> FailureModel {
        FailureModel {
            line: self.line as nat,
            column: self.column as nat,
            expected: self.expected@,
        }
    }
}

impl ParseFailure {
    #[verifier::type_invariant]
    spec fn located(self) -> bool {
        self.line >= 1 && self.column >= 1
    }

    /// A failure at the given line and column, or `None` where one of them
    /// is 0.
    pub fn new(line: u32, column: u32, expected: String) -> (failure: Option<ParseFailure>)
        ensures
            failure is Some <==> line >= 1 && column >= 1,
            failure matches Some(f) ==> f@ == (FailureModel {
                line: line as nat,
                column: column as nat,
                expected: expected@,
            }),
    {
        if line >= 1 && column >= 1 {
            Some(ParseFailure { line, column, expected })
        } else {
            None
        }
    }

    /// The line of the failure, counted from 1.
    pub fn line(&self) -> (line: u32)
        ensures
            line >= 1,
            line == self@.line,
    {
        proof {
            use_type_invariant(self);
        }
        self.line
    }

    /// The column of the failure, counted from 1.
    pub fn column(&self) -> (column: u32)
        ensures
            column >= 1,
            column == self@.column,
    {
        proof {
            use_type_invariant(self);
        }
        self.column
    }

    /// The description of the tokens that would have been accepted.
    pub fn expected(&self) -> (expected: &str)
        ensures
            expected@ == self@.expected,
    {
        self.expected.as_str()
    }
}

/// One entry of the table as plain values: the line before preprocessing,
/// and the file where one is known.
pub type OriginModel = (nat, Option<Seq<char>>);

/// What the preprocessor hands on: for each line of the text it produced, in
/// order, the line that it came from and the file where one is known. The
/// entry at index `i` belongs to line `i + 1`.
#[derive(Debug)]
pub struct PreprocessInfo {
    pub line_origins: Vec<(u32, Option<String>)>,
}

/// An entry of the table as plain values.
pub open spec fn origin_model(entry: (u32, Option<String>)) -> OriginModel {
    (
        entry.0 as nat,
        match entry.1 {
            Some(file) => Some(file@),
            None => None,
        },
    )
}

/// The index of the entry that answers for `line`, counted from 1, in a table
/// of `len` entries: that of the line itself, and that of the last entry for
/// a line past the table's end.
pub open spec fn resolved_index(len: nat, line: nat) -> int {
    if line <= len {
        line - 1
    } else {
        len - 1
    }
}

/// A line inside the table is answered by its own entry, and a line past the
/// table's end by the last entry.
pub proof fn law_resolution_clamps(origins: Seq<OriginModel>, line: nat)
    requires
        origins.len() > 0,
        line >= 1,
    ensures
        line <= origins.len() ==> origins[resolved_index(origins.len(), line)] == origins[line
            - 1],
        line > origins.len() ==> origins[resolved_index(origins.len(), line)]
            == origins[origins.len() - 1],
{
}

impl PreprocessInfo {
    /// The table as plain values.
    pub open spec fn origins(&self) -> Seq<OriginModel> {
        Seq::new(self.line_origins@.len(), |i: int| origin_model(self.line_origins@[i]))
    }

    /// The index of the entry that answers for `line`, counted from 1. A
    /// line past the table's end is answered by the last entry.
    pub fn origin_index(&self, line: usize) -> (index: usize)
        requires
            self.line_origins@.len() > 0,
            line >= 1,
        ensures
            line <= self.line_origins@.len() ==> index == line - 1,
            line > self.line_origins@.len() ==> index == self.line_origins@.len() - 1,
            index == resolved_index(self.line_origins@.len(), line as nat),
    {
        let len = self.line_origins.len();
        if line <= len {
            line - 1
        } else {
            len - 1
        }
    }

    /// The entry that answers for `line`, counted from 1. A line past the
    /// table's end is answered by the last entry.
    pub fn origin_of(&self, line: usize) -> (entry: &(u32, Option<String>))
        requires
            self.line_origins@.len() > 0,
            line >= 1,
        ensures
            line <= self.line_origins@.len() ==> *entry == self.line_origins@[line - 1],
            line > self.line_origins@.len() ==> *entry == self.line_origins@[
                self.line_origins@.len() - 1
            ],
            origin_model(*entry) == self.origins()[resolved_index(
                self.line_origins@.len(),
                line as nat,
            )],
    {
        &self.line_origins[self.origin_index(line)]
    }
}

} // verus!
