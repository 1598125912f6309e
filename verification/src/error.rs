//! The two ways an operation fails: a field that may not be empty is empty,
//! or the store could not do what was asked.

use vstd::prelude::*;

verus! {

/// `rusqlite::Error`: what went wrong in the database. Handed on as it came,
/// never looked into.
#[verifier::external_type_specification]
#[verifier::external_body]
pub struct SqliteError(rusqlite::Error);

/// Why a [`crate::usuario::Pessoa`] could not be made.
#[derive(Debug, Clone, Copy, PartialEq, Eq)]
pub enum ValidationError {
    /// The name is empty.
    EmptyName,
    /// The e-mail address is empty.
    EmptyEmail,
}

impl ValidationError {
    /// The sentence shown to the person who entered the data.
    pub open spec fn message_text(self) -> Seq<char> {
        match self {
            ValidationError::EmptyName => "Nome não pode ser vazio."@,
            ValidationError::EmptyEmail => "Email não pode ser vazio."@,
        }
    }

    /// The sentence shown to the person who entered the data.
    pub fn message(&self) -> (text: String)
        ensures
            text@ == self.message_text(),
    {
        match self {
            ValidationError::EmptyName => "Nome não pode ser vazio.".to_owned(),
            ValidationError::EmptyEmail => "Email não pode ser vazio.".to_owned(),
        }
    }
}

/// Why an operation on the store failed.
#[derive(Debug, PartialEq)]
pub enum StoreError {
    /// The record has no id: it was never inserted.
    NotPersisted,
    /// A row holds a date of birth that is not the text of a date.
    CorruptDate,
    /// The database refused or failed; its own error, as it came.
    Database(rusqlite::Error),
}

impl StoreError {
    /// What an executed statement comes to: success whatever the number of
    /// rows it touched, zero included, or the database's error.
    pub fn from_execute(outcome: Result<usize, rusqlite::Error>) -> (res: Result<(), StoreError>)
        ensures
            match outcome {
                Ok(_) => res is Ok,
                Err(e) => res == Err::<(), StoreError>(StoreError::Database(e)),
            },
    {
        match outcome {
            Ok(_) => Ok(()),
            Err(e) => Err(StoreError::Database(e)),
        }
    }
}

} // verus!
