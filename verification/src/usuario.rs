//! The person record and its four operations on the store.

use vstd::prelude::*;
use crate::date::{date_of_iso_text, lemma_iso_text_tells_dates_apart, CalendarDate, Date};
use crate::error::{StoreError, ValidationError};
use crate::sql::{
    SqlValue, SqlValueView, Statement, StatementView, DELETE_SQL, INSERT_SQL, SELECT_SQL,
    UPDATE_SQL,
};
use crate::store::{execute, query_rows, StoredRow, StoredRowView};

verus! {

/// A person. `id` is `None` until the record has been inserted; after that
/// it is the id of its row.
#[derive(Debug, PartialEq, Eq)]
pub struct Pessoa {
    pub id: Option<i64>,
    pub nome: String,
    pub data_nascimento: Date,
    pub email: String,
}

/// A person in contracts: texts as their characters, the date as a
/// calendar date.
pub struct PessoaView {
    pub id: Option<i64>,
    pub nome: Seq<char>,
    pub data_nascimento: CalendarDate,
    pub email: Seq<char>,
}

impl View for Pessoa {
    type V = PessoaView;

    open spec fn view(&self) -> PessoaView {
        PessoaView {
            id: self.id,
            nome: self.nome@,
            data_nascimento: self.data_nascimento@,
            email: self.email@,
        }
    }
}

impl PessoaView {
    /// The name, the date of birth as ISO 8601 text and the e-mail address:
    /// the values of a row's columns other than its id.
    pub open spec fn fields(self) -> Seq<SqlValueView> {
        seq![
            SqlValueView::Text(self.nome),
            SqlValueView::Text(self.data_nascimento.iso_text()),
            SqlValueView::Text(self.email),
        ]
    }

    /// The row that holds this person under `id`: its columns are the values
    /// that the statements bind.
    pub open spec fn stored_as(self, id: i64) -> StoredRowView {
        StoredRowView {
            id: Some(id),
            nome: self.nome,
            data_nascimento: self.data_nascimento.iso_text(),
            email: self.email,
        }
    }

    /// The statement that inserts this person.
    pub open spec fn insert_statement(self) -> StatementView {
        StatementView { sql: INSERT_SQL@, params: self.fields() }
    }

    /// The statement that overwrites the row `id` with this person's fields.
    pub open spec fn update_statement(self, id: i64) -> StatementView {
        StatementView {
            sql: UPDATE_SQL@,
            params: self.fields().push(SqlValueView::Integer(id as int)),
        }
    }
}

/// The statement that removes the row `id`.
pub open spec fn delete_statement(id: i64) -> StatementView {
    StatementView { sql: DELETE_SQL@, params: seq![SqlValueView::Integer(id as int)] }
}

impl Pessoa {
    /// A new person that is not in the store yet. The name is checked
    /// first, then the e-mail address; neither may be empty.
    pub fn new(nome: String, data_nascimento: Date, email: String) -> (res: Result<
        Pessoa,
        ValidationError,
    >)
        ensures
            match res {
                Ok(pessoa) => {
                    &&& nome@.len() > 0
                    &&& email@.len() > 0
                    &&& pessoa == (Pessoa { id: None, nome, data_nascimento, email })
                },
                Err(ValidationError::EmptyName) => nome@.len() == 0,
                Err(ValidationError::EmptyEmail) => nome@.len() > 0 && email@.len() == 0,
            },
    {
        if nome.as_str().is_empty() {
            return Err(ValidationError::EmptyName);
        }
        if email.as_str().is_empty() {
            return Err(ValidationError::EmptyEmail);
        }
        Ok(Pessoa { id: None, nome, data_nascimento, email })
    }

    fn field_values(&self) -> (values: Vec<SqlValue>)
        ensures
            values@.map_values(|v: SqlValue| v@) == self@.fields(),
    {
        let mut values: Vec<SqlValue> = Vec::new();
        values.push(SqlValue::Text(self.nome.clone()));
        values.push(SqlValue::Text(self.data_nascimento.to_text()));
        values.push(SqlValue::Text(self.email.clone()));
        values
    }

    /// The statement that inserts this person: the name, the date of birth
    /// as ISO 8601 text and the e-mail address. The id is left to the store.
    pub fn insert_statement(&self) -> (statement: Statement)
        ensures
            statement@ == self@.insert_statement(),
    {
        Statement { sql: INSERT_SQL, params: self.field_values() }
    }

    /// The statement that overwrites every field of this person's row, or
    /// `NotPersisted` where the person has no id.
    pub fn update_statement(&self) -> (res: Result<Statement, StoreError>)
        ensures
            match self.id {
                Some(id) => res matches Ok(statement) && statement@ == self@.update_statement(id),
                None => res matches Err(StoreError::NotPersisted),
            },
    {
        match self.id {
            Some(id) => {
                let mut params = self.field_values();
                params.push(SqlValue::Integer(id));
                assert(params@.map_values(|v: SqlValue| v@) =~= self@.fields().push(
                    SqlValueView::Integer(id as int),
                ));
                Ok(Statement { sql: UPDATE_SQL, params })
            },
            None => Err(StoreError::NotPersisted),
        }
    }

    /// The statement that removes this person's row, or `NotPersisted` where
    /// the person has no id.
    pub fn delete_statement(&self) -> (res: Result<Statement, StoreError>)
        ensures
            match self.id {
                Some(id) => res matches Ok(statement) && statement@ == delete_statement(id),
                None => res matches Err(StoreError::NotPersisted),
            },
    {
        match self.id {
            Some(id) => {
                let mut params: Vec<SqlValue> = Vec::new();
                params.push(SqlValue::Integer(id));
                assert(params@.map_values(|v: SqlValue| v@) =~= seq![
                    SqlValueView::Integer(id as int),
                ]);
                Ok(Statement { sql: DELETE_SQL, params })
            },
            None => Err(StoreError::NotPersisted),
        }
    }

    /// Takes the row id that the store gave to this person's row: it is the
    /// person's id from now on.
    pub fn assign_row_id(&mut self, rowid: i64)
        ensures
            final(self).id == Some(rowid),
            final(self).nome == old(self).nome,
            final(self).data_nascimento == old(self).data_nascimento,
            final(self).email == old(self).email,
    {
        self.id = Some(rowid);
    }

    /// Inserts the person as a new row and takes the id of that row.
    ///
    /// A person that has an id is in the store already: nothing is inserted,
    /// the id stays, and the call succeeds. For a person without an id, success
    /// leaves it with the id of its new row, and failure, which is the
    /// database's error, leaves it without one. The other fields never change.
    pub fn save(&mut self, conn: &rusqlite::Connection) -> (res: Result<(), StoreError>)
        ensures
            match old(self).id {
                Some(_) => res is Ok && final(self).id == old(self).id,
                None => match res {
                    Ok(_) => final(self).id is Some,
                    Err(e) => e is Database && final(self).id is None,
                },
            },
            final(self).nome == old(self).nome,
            final(self).data_nascimento == old(self).data_nascimento,
            final(self).email == old(self).email,
    {
        if self.id.is_some() {
            return Ok(());
        }
        let statement = self.insert_statement();
        match StoreError::from_execute(execute(conn, &statement)) {
            Ok(_) => {
                self.assign_row_id(conn.last_insert_rowid());
                Ok(())
            },
            Err(e) => Err(e),
        }
    }

    /// Overwrites every field of the person's row. Succeeds also where the
    /// store has no row with this id.
    ///
    /// Fails with `NotPersisted` exactly where the person has no id; any
    /// other failure is the database's error.
    pub fn atualizar(&self, conn: &rusqlite::Connection) -> (res: Result<(), StoreError>)
        ensures
            self.id is None <==> res matches Err(StoreError::NotPersisted),
            res matches Err(e) ==> e is NotPersisted || e is Database,
    {
        match self.update_statement() {
            Ok(statement) => StoreError::from_execute(execute(conn, &statement)),
            Err(e) => Err(e),
        }
    }

    /// Removes the person's row. The record is used up.
    ///
    /// Fails with `NotPersisted` exactly where the person has no id; any
    /// other failure is the database's error.
    pub fn remover(self, conn: &rusqlite::Connection) -> (res: Result<(), StoreError>)
        ensures
            self.id is None <==> res matches Err(StoreError::NotPersisted),
            res matches Err(e) ==> e is NotPersisted || e is Database,
    {
        match self.delete_statement() {
            Ok(statement) => StoreError::from_execute(execute(conn, &statement)),
            Err(e) => Err(e),
        }
    }

    /// The person that a row stands for, given the date that its date text
    /// stands for: `CorruptDate` where the text is not that of a date.
    pub fn from_columns(
        id: Option<i64>,
        nome: String,
        data_nascimento: Option<Date>,
        email: String,
    ) -> (res: Result<Pessoa, StoreError>)
        ensures
            match data_nascimento {
                Some(date) => res == Ok::<Pessoa, StoreError>(
                    Pessoa { id, nome, data_nascimento: date, email },
                ),
                None => res matches Err(StoreError::CorruptDate),
            },
    {
        match data_nascimento {
            Some(date) => Ok(Pessoa { id, nome, data_nascimento: date, email }),
            None => Err(StoreError::CorruptDate),
        }
    }

    /// The person that a stored row stands for, or `CorruptDate` where the
    /// row's date text is not the ISO 8601 text of a date. Name and e-mail
    /// address are taken as they are, empty or not.
    pub fn from_row(row: StoredRow) -> (res: Result<Pessoa, StoreError>)
        ensures
            match res {
                Ok(pessoa) => decoded_row(row@) == Ok::<PessoaView, StoreError>(pessoa@),
                Err(e) => decoded_row(row@) == Err::<PessoaView, StoreError>(e),
            },
    {
        let date = Date::from_iso_text(row.data_nascimento.as_str());
        Pessoa::from_columns(row.id, row.nome, date, row.email)
    }
}

/// What a stored row comes to: the person it stands for, or `CorruptDate`
/// where its date text is not the ISO 8601 text of a date.
pub open spec fn decoded_row(row: StoredRowView) -> Result<PessoaView, StoreError> {
    match date_of_iso_text(row.data_nascimento) {
        Some(date) => Ok(
            PessoaView { id: row.id, nome: row.nome, data_nascimento: date, email: row.email },
        ),
        None => Err(StoreError::CorruptDate),
    }
}

/// What a fetched row comes to: what the row comes to where it was read, the
/// database's error where it was not.
pub open spec fn decoded(fetched: Result<StoredRow, rusqlite::Error>) -> Result<
    PessoaView,
    StoreError,
> {
    match fetched {
        Ok(row) => decoded_row(row@),
        Err(e) => Err(StoreError::Database(e)),
    }
}

/// A row that holds a person is read back as that person under the row's id,
/// or refused as a corrupt date: it is never read back as anyone else.
pub proof fn lemma_stored_person_is_read_back(pessoa: PessoaView, id: i64)
    requires
        pessoa.data_nascimento.is_valid(),
    ensures
        match decoded_row(pessoa.stored_as(id)) {
            Ok(read) => read == (PessoaView { id: Some(id), ..pessoa }),
            Err(e) => e == StoreError::CorruptDate,
        },
        pessoa.fields() == seq![
            SqlValueView::Text(pessoa.stored_as(id).nome),
            SqlValueView::Text(pessoa.stored_as(id).data_nascimento),
            SqlValueView::Text(pessoa.stored_as(id).email),
        ],
{
    match date_of_iso_text(pessoa.data_nascimento.iso_text()) {
        Some(date) => lemma_iso_text_tells_dates_apart(date, pessoa.data_nascimento),
        None => {},
    }
}

/// Whether `res` is what the fetched `rows` come to: the people that the rows
/// stand for, one for each row and in the order of the rows, or the failure of
/// the first row that has one.
pub open spec fn is_decoding_of(
    res: Result<Vec<Pessoa>, StoreError>,
    rows: Seq<Result<StoredRow, rusqlite::Error>>,
) -> bool {
    match res {
        Ok(pessoas) => {
            &&& pessoas@.len() == rows.len()
            &&& forall|i: int|
                0 <= i < rows.len() ==> decoded(#[trigger] rows[i]) == Ok::<PessoaView, StoreError>(
                    pessoas@[i]@,
                )
        },
        Err(e) => exists|k: int|
            {
                &&& 0 <= k < rows.len()
                &&& decoded(#[trigger] rows[k]) == Err::<PessoaView, StoreError>(e)
                &&& forall|j: int| 0 <= j < k ==> decoded(#[trigger] rows[j]) is Ok
            },
    }
}

/// People decoded from fetched rows keep every column: each has the id, the
/// name and the e-mail address of its row, and the row's date text is what its
/// date is written as. So no id, name or date is listed that no row holds.
pub proof fn lemma_decoding_keeps_columns(
    res: Result<Vec<Pessoa>, StoreError>,
    rows: Seq<Result<StoredRow, rusqlite::Error>>,
)
    requires
        is_decoding_of(res, rows),
        res is Ok,
    ensures
        forall|i: int|
            0 <= i < rows.len() ==> {
                &&& (#[trigger] rows[i]) matches Ok(row)
                &&& res->Ok_0@[i].id == row.id
                &&& res->Ok_0@[i].nome@ == row.nome@
                &&& res->Ok_0@[i].data_nascimento@.iso_text() == row.data_nascimento@
                &&& res->Ok_0@[i].email@ == row.email@
            },
{
}

/// The people that fetched rows stand for, in the order of the rows, or the
/// failure of the first row that has one.
pub fn decode_rows(rows: Vec<Result<StoredRow, rusqlite::Error>>) -> (res: Result<
    Vec<Pessoa>,
    StoreError,
>)
    ensures
        is_decoding_of(res, rows@),
{
    let ghost all = rows@;
    let mut pessoas: Vec<Pessoa> = Vec::new();
    for fetched in it: rows.into_iter()
        invariant
            it.seq() == all,
            pessoas@.len() == it.index(),
            forall|i: int|
                0 <= i < it.index() ==> decoded(#[trigger] all[i]) == Ok::<PessoaView, StoreError>(
                    pessoas@[i]@,
                ),
    {
        let decoded_row = match fetched {
            Ok(row) => Pessoa::from_row(row),
            Err(e) => Err(StoreError::Database(e)),
        };
        match decoded_row {
            Ok(pessoa) => {
                pessoas.push(pessoa);
            },
            Err(e) => {
                return Err(e);
            },
        }
    }
    Ok(pessoas)
}

/// What the answer to the query for every row comes to: the database's error
/// where the query failed, else what the fetched rows come to.
pub fn decode_query(
    fetched: Result<Vec<Result<StoredRow, rusqlite::Error>>, rusqlite::Error>,
) -> (res: Result<Vec<Pessoa>, StoreError>)
    ensures
        match fetched {
            Ok(rows) => is_decoding_of(res, rows@),
            Err(e) => res == Err::<Vec<Pessoa>, StoreError>(StoreError::Database(e)),
        },
{
    match fetched {
        Ok(rows) => decode_rows(rows),
        Err(e) => Err(StoreError::Database(e)),
    }
}

/// Every person in the store, in the order in which the store gives the
/// rows.
///
/// Fails with the database's error where the rows could not be fetched or a
/// row could not be read, and with `CorruptDate` where a row's date text is
/// not the ISO 8601 text of a date.
pub fn listar_pessoas(conn: &rusqlite::Connection) -> (res: Result<Vec<Pessoa>, StoreError>)
    ensures
        res matches Err(e) ==> e is Database || e is CorruptDate,
{
    decode_query(query_rows(conn, SELECT_SQL))
}

} // verus!
