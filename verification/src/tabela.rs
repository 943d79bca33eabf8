use vstd::prelude::*;

verus! {

/// The SQL column types the table definitions use.
#[derive(Clone, Copy, Debug, PartialEq, Eq, Structural)]
pub enum ColumnTypes {
    Index,
    Text,
    Timestamp,
}

/// Whether a column admits NULL.
#[derive(Clone, Copy, Debug, PartialEq, Eq, Structural)]
pub struct ColumnNullable(pub bool);

/// A column's default expression, when it has one.
#[derive(Debug)]
pub struct ColumnDefault(pub Option<String>);

impl View for ColumnDefault {
    type V = Option<Seq<char>>;

    open spec fn view(&self) -> Option<Seq<char>> {
        match self.0 {
            Some(s) => Some(s@),
            None => None,
        }
    }
}

impl Clone for ColumnDefault {
    fn clone(&self) -> (r: Self)
        ensures
            r@ == self@,
    {
        match &self.0 {
            Some(s) => ColumnDefault(Some(s.clone())),
            None => ColumnDefault(None),
        }
    }
}

} // verus!
