//! Values bound to the positional parameters of SQL statements.

use vstd::prelude::*;

verus! {

/// A value for one `?` of a prepared statement.
#[derive(Debug, PartialEq, Eq)]
pub enum SqlValue {
    UInt(u64),
    Text(String),
    Bool(bool),
    Null,
}

/// The value a parameter carries, as plain data.
pub enum SqlValueView {
    UInt(u64),
    Text(Seq<char>),
    Bool(bool),
    Null,
}

impl View for SqlValue {
    type V = SqlValueView;

    open spec fn view(&self) -> SqlValueView {
        match self {
            SqlValue::UInt(n) => SqlValueView::UInt(*n),
            SqlValue::Text(t) => SqlValueView::Text(t@),
            SqlValue::Bool(b) => SqlValueView::Bool(*b),
            SqlValue::Null => SqlValueView::Null,
        }
    }
}

pub open spec fn params_view(ps: Seq<SqlValue>) -> Seq<SqlValueView> {
    ps.map_values(|p: SqlValue| p@)
}

} // verus!
