use vstd::prelude::*;

verus! {

/// One loosely-typed source cell, as the wire envelope carries it: a numeric
/// value (already truncated to a 64-bit integer), a string, or nothing.
/// A missing `v` field, a null `v`, and a null cell entry all read as `Null`.
#[derive(Debug, Clone, PartialEq, Eq)]
pub enum SourceCell {
    Num(i64),
    Str(String),
    Null,
}

/// The target types the host can declare for a column. Only `I64` and `Text`
/// can be produced; the others are declarable but fail at scan time.
#[derive(Debug, Clone, Copy, PartialEq, Eq)]
pub enum TypeOid {
    Bool,
    I64,
    Text,
    Date,
    Timestamp,
}

/// One column of the target schema, supplied by the host per scan: a name, a
/// 1-based ordinal position, and a declared target type.
#[derive(Debug, Clone)]
pub struct TargetColumn {
    pub name: String,
    pub num: usize,
    pub ty: TypeOid,
}

/// One fully-typed target cell.
#[derive(Debug, Clone, PartialEq, Eq)]
pub enum Cell {
    I64(i64),
    Str(String),
}

/// One materialized target row: one slot per target column, in the columns'
/// ordinal order; `None` marks an absent value.
#[derive(Debug, Clone)]
pub struct TargetRow {
    pub cells: Vec<Option<Cell>>,
}

impl View for TargetRow {
    type V = Seq<Option<Cell>>;

    open spec fn view(&self) -> Seq<Option<Cell>> {
        self.cells@
    }
}

} // verus!
