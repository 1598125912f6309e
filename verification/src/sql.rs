//! The statements sent to the store: their SQL and the values bound to
//! their placeholders.

use vstd::prelude::*;

verus! {

/// Adds a row; the store gives it its id.
pub const INSERT_SQL: &'static str =
    "INSERT INTO pessoas (nome, data_nascimento, email) VALUES (?, ?, ?)";

/// Overwrites every field of the row with a given id.
pub const UPDATE_SQL: &'static str =
    "UPDATE pessoas SET nome=?, data_nascimento=?, email=? WHERE id=?";

/// Removes the row with a given id.
pub const DELETE_SQL: &'static str = "DELETE FROM pessoas WHERE id=?";

/// Reads every row.
pub const SELECT_SQL: &'static str = "SELECT id, nome, data_nascimento, email FROM pessoas";

/// A value bound to a placeholder of a statement.
#[derive(Debug, PartialEq, Eq)]
pub enum SqlValue {
    Integer(i64),
    Text(String),
}

/// A bound value in contracts: an integer, or text as its characters.
pub enum SqlValueView {
    Integer(int),
    Text(Seq<char>),
}

impl View for SqlValue {
    type V = SqlValueView;

    open spec fn view(&self) -> SqlValueView {
        match self {
            SqlValue::Integer(i) => SqlValueView::Integer(*i as int),
            SqlValue::Text(s) => SqlValueView::Text(s@),
        }
    }
}

/// SQL with the values for its placeholders, in the order of the
/// placeholders.
#[derive(Debug, PartialEq, Eq)]
pub struct Statement {
    pub sql: &'static str,
    pub params: Vec<SqlValue>,
}

/// A statement in contracts.
pub struct StatementView {
    pub sql: Seq<char>,
    pub params: Seq<SqlValueView>,
}

impl View for Statement {
    type V = StatementView;

    open spec fn view(&self) -> StatementView {
        StatementView { sql: self.sql@, params: self.params@.map_values(|v: SqlValue| v@) }
    }
}

} // verus!
