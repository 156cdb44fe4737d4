//! The persisted side of the cache: its records and the statements that
//! read and write them.
//!
//! The store holds two tables, both keyed by the bytes of the account's
//! identifier: the names an account has carried, in the order in which they
//! were recorded, and at most one record of the last check per account.
//! Each operation of the store is one statement with its arguments in the
//! order of its placeholders; the caller runs it.

use crate::storage::data::into_argument_uuid;
use crate::storage::data::spec_into_argument_uuid;
use crate::storage::data::NameHistoryElement;
use crate::storage::data::SystemTimeTransformationError;
use crate::storage::data::Update;
use crate::storage::data::CREATE_INDEX_NAMES;
use crate::storage::data::CREATE_INDEX_UPDATES;
use crate::storage::data::CREATE_TABLE_NAMES;
use crate::storage::data::CREATE_TABLE_UPDATES;
use crate::storage::data::INSERT_FIRST_NAME;
use crate::storage::data::INSERT_NAME;
use crate::storage::data::NEW_UPDATE;
use crate::storage::data::QUERY_NAME_HISTORY;
use crate::storage::data::QUERY_UPDATE;
use crate::storage::data::REFRESH_UPDATE;
use crate::utils::time::Timestamp;
use vstd::prelude::*;

pub mod config;
pub mod data;

verus! {

/// A value bound to a placeholder of a statement.
#[derive(Debug)]
pub enum Argument {
    Blob(Vec<u8>),
    Text(String),
    Integer(i64),
    Unsigned(u32),
    Boolean(bool),
}

/// An `Argument` by its view.
pub enum ArgumentView {
    Blob(Seq<u8>),
    Text(Seq<char>),
    Integer(i64),
    Unsigned(u32),
    Boolean(bool),
}

impl View for Argument {
    type V = ArgumentView;

    open spec fn view(&self) -> ArgumentView {
        match self {
            Argument::Blob(b) => ArgumentView::Blob(b@),
            Argument::Text(t) => ArgumentView::Text(t@),
            Argument::Integer(i) => ArgumentView::Integer(*i),
            Argument::Unsigned(u) => ArgumentView::Unsigned(*u),
            Argument::Boolean(b) => ArgumentView::Boolean(*b),
        }
    }
}

/// A statement for the store to run, with its arguments in the order of
/// its placeholders.
#[derive(Debug)]
pub struct Statement {
    pub sql: &'static str,
    pub arguments: Vec<Argument>,
}

/// A `Statement` by its view.
pub struct StatementView {
    pub sql: Seq<char>,
    pub arguments: Seq<ArgumentView>,
}

impl View for Statement {
    type V = StatementView;

    open spec fn view(&self) -> StatementView {
        StatementView {
            sql: self.sql@,
            arguments: self.arguments@.map_values(|a: Argument| a@),
        }
    }
}

/// A statement without placeholders.
fn plain(sql: &'static str) -> (statement: Statement)
    ensures
        statement@ == (StatementView { sql: sql@, arguments: Seq::empty() }),
{
    let statement = Statement { sql, arguments: Vec::new() };
    assert(statement@.arguments =~= Seq::empty());
    statement
}

/// The statements that make sure that both tables and their indexes
/// exist, in the order in which they are run. Each creates only what is
/// missing, so that running them again changes nothing.
pub fn init() -> (statements: Vec<Statement>)
    ensures
        statements@.map_values(|s: Statement| s@) == seq![
            StatementView { sql: CREATE_TABLE_NAMES@, arguments: Seq::empty() },
            StatementView { sql: CREATE_INDEX_NAMES@, arguments: Seq::empty() },
            StatementView { sql: CREATE_TABLE_UPDATES@, arguments: Seq::empty() },
            StatementView { sql: CREATE_INDEX_UPDATES@, arguments: Seq::empty() },
        ],
{
    let mut statements: Vec<Statement> = Vec::new();
    statements.push(plain(CREATE_TABLE_NAMES));
    statements.push(plain(CREATE_INDEX_NAMES));
    statements.push(plain(CREATE_TABLE_UPDATES));
    statements.push(plain(CREATE_INDEX_UPDATES));
    assert(statements@.map_values(|s: Statement| s@) =~= seq![
        StatementView { sql: CREATE_TABLE_NAMES@, arguments: Seq::empty() },
        StatementView { sql: CREATE_INDEX_NAMES@, arguments: Seq::empty() },
        StatementView { sql: CREATE_TABLE_UPDATES@, arguments: Seq::empty() },
        StatementView { sql: CREATE_INDEX_UPDATES@, arguments: Seq::empty() },
    ]);
    statements
}

/// The query for the history of the account `uuid`. Its rows hold a name
/// and, where the name has one, the count of its time of change.
pub fn get_name_history(uuid: u128) -> (statement: Statement)
    ensures
        statement@ == (StatementView {
            sql: QUERY_NAME_HISTORY@,
            arguments: seq![ArgumentView::Blob(spec_into_argument_uuid(uuid))],
        }),
{
    let mut arguments: Vec<Argument> = Vec::new();
    arguments.push(Argument::Blob(into_argument_uuid(uuid)));
    let statement = Statement { sql: QUERY_NAME_HISTORY, arguments };
    assert(statement@.arguments =~= seq![ArgumentView::Blob(spec_into_argument_uuid(uuid))]);
    statement
}

/// What `add_name_history` hands to the store: an entry with a time of
/// change is written with the count of that time, one without is written
/// with no value in that column. `None` where the time has no count.
pub open spec fn spec_add_name_history(
    uuid: u128,
    name: Seq<char>,
    changed_to_at: Option<Timestamp>,
    source: u32,
) -> Option<StatementView> {
    match changed_to_at {
        Some(t) => match NameHistoryElement::spec_into_argument_systemtime(t) {
            Some(raw) => Some(
                StatementView {
                    sql: INSERT_NAME@,
                    arguments: seq![
                        ArgumentView::Blob(spec_into_argument_uuid(uuid)),
                        ArgumentView::Text(name),
                        ArgumentView::Integer(raw),
                        ArgumentView::Unsigned(source),
                    ],
                },
            ),
            None => None,
        },
        None => Some(
            StatementView {
                sql: INSERT_FIRST_NAME@,
                arguments: seq![
                    ArgumentView::Blob(spec_into_argument_uuid(uuid)),
                    ArgumentView::Text(name),
                    ArgumentView::Unsigned(source),
                ],
            },
        ),
    }
}

/// The statement that appends `record` to the history of the account
/// `uuid`, tagged `source`. Nothing is compared with what is stored. A time
/// of change that no column can hold is refused, with its milliseconds.
pub fn add_name_history(uuid: u128, record: &NameHistoryElement, source: u32) -> (statement:
    Result<Statement, SystemTimeTransformationError<u128>>)
    ensures
        match statement {
            Ok(s) => spec_add_name_history(uuid, record.name@, record.changed_to_at, source)
                == Some(s@),
            Err(e) => {
                &&& spec_add_name_history(uuid, record.name@, record.changed_to_at, source)
                    .is_none()
                &&& record.changed_to_at matches Some(t)
                &&& e.0 == t.millis
            },
        },
{
    let mut arguments: Vec<Argument> = Vec::new();
    arguments.push(Argument::Blob(into_argument_uuid(uuid)));
    arguments.push(Argument::Text(record.name.clone()));
    match &record.changed_to_at {
        Some(changed_to_at) => {
            match NameHistoryElement::into_argument_systemtime(changed_to_at) {
                Ok(raw) => {
                    arguments.push(Argument::Integer(raw));
                    arguments.push(Argument::Unsigned(source));
                    let statement = Statement { sql: INSERT_NAME, arguments };
                    assert(statement@.arguments =~= seq![
                        ArgumentView::Blob(spec_into_argument_uuid(uuid)),
                        ArgumentView::Text(record.name@),
                        ArgumentView::Integer(raw),
                        ArgumentView::Unsigned(source),
                    ]);
                    Ok(statement)
                },
                Err(e) => Err(e),
            }
        },
        None => {
            arguments.push(Argument::Unsigned(source));
            let statement = Statement { sql: INSERT_FIRST_NAME, arguments };
            assert(statement@.arguments =~= seq![
                ArgumentView::Blob(spec_into_argument_uuid(uuid)),
                ArgumentView::Text(record.name@),
                ArgumentView::Unsigned(source),
            ]);
            Ok(statement)
        },
    }
}

/// The query for the record of the last check of the account `uuid`. Its
/// row, where there is one, holds the count of the time of the check and
/// whether the check found a change.
pub fn get_update(uuid: u128) -> (statement: Statement)
    ensures
        statement@ == (StatementView {
            sql: QUERY_UPDATE@,
            arguments: seq![ArgumentView::Blob(spec_into_argument_uuid(uuid))],
        }),
{
    let mut arguments: Vec<Argument> = Vec::new();
    arguments.push(Argument::Blob(into_argument_uuid(uuid)));
    let statement = Statement { sql: QUERY_UPDATE, arguments };
    assert(statement@.arguments =~= seq![ArgumentView::Blob(spec_into_argument_uuid(uuid))]);
    statement
}

/// What `refresh_update` hands to the store. `None` where the time of the
/// check has no count.
pub open spec fn spec_refresh_update(uuid: u128, record: Update) -> Option<StatementView> {
    match Update::spec_into_argument_systemtime(record.update) {
        Some(raw) => Some(
            StatementView {
                sql: REFRESH_UPDATE@,
                arguments: seq![
                    ArgumentView::Integer(raw),
                    ArgumentView::Boolean(record.changed),
                    ArgumentView::Blob(spec_into_argument_uuid(uuid)),
                ],
            },
        ),
        None => None,
    }
}

/// What `insert_update` hands to the store. `None` where the time of the
/// check has no count.
pub open spec fn spec_insert_update(uuid: u128, record: Update) -> Option<StatementView> {
    match Update::spec_into_argument_systemtime(record.update) {
        Some(raw) => Some(
            StatementView {
                sql: NEW_UPDATE@,
                arguments: seq![
                    ArgumentView::Blob(spec_into_argument_uuid(uuid)),
                    ArgumentView::Integer(raw),
                    ArgumentView::Boolean(record.changed),
                ],
            },
        ),
        None => None,
    }
}

/// The statement that overwrites the record of the last check of the
/// account `uuid` with `record`. It affects no row where the account has no
/// record. A time that no column can hold is refused, with its
/// milliseconds.
pub fn refresh_update(uuid: u128, record: &Update) -> (statement: Result<
    Statement,
    SystemTimeTransformationError<u128>,
>)
    ensures
        match statement {
            Ok(s) => spec_refresh_update(uuid, *record) == Some(s@),
            Err(e) => spec_refresh_update(uuid, *record).is_none() && e.0 == record.update.millis,
        },
{
    match Update::into_argument_systemtime(&record.update) {
        Ok(raw) => {
            let mut arguments: Vec<Argument> = Vec::new();
            arguments.push(Argument::Integer(raw));
            arguments.push(Argument::Boolean(record.changed));
            arguments.push(Argument::Blob(into_argument_uuid(uuid)));
            let statement = Statement { sql: REFRESH_UPDATE, arguments };
            assert(statement@.arguments =~= seq![
                ArgumentView::Integer(raw),
                ArgumentView::Boolean(record.changed),
                ArgumentView::Blob(spec_into_argument_uuid(uuid)),
            ]);
            Ok(statement)
        },
        Err(e) => Err(e),
    }
}

/// The statement that stores `record` as the first record of a check of
/// the account `uuid`. The store refuses it where the account has a record.
/// A time that no column can hold is refused, with its milliseconds.
pub fn insert_update(uuid: u128, record: &Update) -> (statement: Result<
    Statement,
    SystemTimeTransformationError<u128>,
>)
    ensures
        match statement {
            Ok(s) => spec_insert_update(uuid, *record) == Some(s@),
            Err(e) => spec_insert_update(uuid, *record).is_none() && e.0 == record.update.millis,
        },
{
    match Update::into_argument_systemtime(&record.update) {
        Ok(raw) => {
            let mut arguments: Vec<Argument> = Vec::new();
            arguments.push(Argument::Blob(into_argument_uuid(uuid)));
            arguments.push(Argument::Integer(raw));
            arguments.push(Argument::Boolean(record.changed));
            let statement = Statement { sql: NEW_UPDATE, arguments };
            assert(statement@.arguments =~= seq![
                ArgumentView::Blob(spec_into_argument_uuid(uuid)),
                ArgumentView::Integer(raw),
                ArgumentView::Boolean(record.changed),
            ]);
            Ok(statement)
        },
        Err(e) => Err(e),
    }
}

} // verus!
