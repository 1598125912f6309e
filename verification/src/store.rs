//! The calls into the SQLite connection. Nothing is known of what they
//! return: it depends on the database behind the connection.

use vstd::prelude::*;
use crate::sql::{SqlValue, Statement, SELECT_SQL};

verus! {

/// `rusqlite::Connection`: an open database. The caller opens and closes it.
#[verifier::external_type_specification]
#[verifier::external_body]
pub struct SqliteConnection(rusqlite::Connection);

/// A row of the table as the store holds it: the date of birth is still text.
#[derive(Debug, PartialEq, Eq)]
pub struct StoredRow {
    pub id: Option<i64>,
    pub nome: String,
    pub data_nascimento: String,
    pub email: String,
}

/// A stored row in contracts: texts as their characters.
pub struct StoredRowView {
    pub id: Option<i64>,
    pub nome: Seq<char>,
    pub data_nascimento: Seq<char>,
    pub email: Seq<char>,
}

impl View for StoredRow {
    type V = StoredRowView;

    open spec fn view(&self) -> StoredRowView {
        StoredRowView {
            id: self.id,
            nome: self.nome@,
            data_nascimento: self.data_nascimento@,
            email: self.email@,
        }
    }
}

/// `rusqlite::Connection::last_insert_rowid`: the row id of the last
/// successful insert on this connection. Nothing is claimed of it.
pub assume_specification[ rusqlite::Connection::last_insert_rowid ](
    conn: &rusqlite::Connection,
) -> (rowid: i64)
;

/// `rusqlite::Connection::execute` on the statement's SQL with its values
/// bound in order. Returns what the database returned: the number of rows
/// changed, or its error. Nothing is claimed of it.
#[verifier::external_body]
pub(crate) fn execute(conn: &rusqlite::Connection, statement: &Statement) -> (changed: Result<
    usize,
    rusqlite::Error,
>) {
    conn.execute(
        statement.sql,
        rusqlite::params_from_iter(
            statement.params.iter().map(
                |value|
                    match value {
                        SqlValue::Integer(i) => i as &dyn rusqlite::ToSql,
                        SqlValue::Text(s) => s as &dyn rusqlite::ToSql,
                    },
            ),
        ),
    )
}

/// `rusqlite::Connection::prepare` and `rusqlite::Statement::query_map` on
/// [`SELECT_SQL`], the query without placeholders that selects id, name, date
/// and e-mail, in this order. Returns the rows in the order in which the
/// database gave them; a row whose columns could not be read stands as the
/// error of reading it. Nothing is claimed of what comes back.
#[verifier::external_body]
pub(crate) fn query_rows(conn: &rusqlite::Connection, sql: &str) -> (rows: Result<
    Vec<Result<StoredRow, rusqlite::Error>>,
    rusqlite::Error,
>)
    requires
        sql@ == SELECT_SQL@,
{
    let mut prepared = conn.prepare(sql)?;
    let rows = prepared.query_map(
        [],
        |row|
            Ok(
                StoredRow {
                    id: row.get(0)?,
                    nome: row.get(1)?,
                    data_nascimento: row.get(2)?,
                    email: row.get(3)?,
                },
            ),
    )?;
    Ok(rows.collect())
}

} // verus!
