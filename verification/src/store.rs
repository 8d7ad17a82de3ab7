//! The account-info file: an SQLite database that the B2 command-line tool
//! writes, with one row per account in its `account` table.

use vstd::prelude::*;

use crate::credentials::{Credentials, CredentialsView};

verus! {

/// `rusqlite::Connection`: an open handle on a database file, closed when it
/// is dropped.
#[verifier::external_type_specification]
#[verifier::external_body]
pub struct ExConnection(rusqlite::Connection);

/// `rusqlite::Statement`: a compiled query, bound to the connection that
/// compiled it.
#[verifier::external_type_specification]
#[verifier::external_body]
pub struct ExStatement<'conn>(rusqlite::Statement<'conn>);

/// `rusqlite::Row`: the row that a running query currently stands on.
#[verifier::external_type_specification]
#[verifier::external_body]
pub struct ExRow<'stmt>(rusqlite::Row<'stmt>);

/// Every account, in the order in which the table stores them.
pub const ALL_ACCOUNTS_QUERY: &'static str =
    "SELECT account_id, application_key, account_id_or_app_key_id FROM account";

/// The accounts whose identifier equals the one bound parameter.
pub const ONE_ACCOUNT_QUERY: &'static str =
    "SELECT account_id, application_key, account_id_or_app_key_id FROM account WHERE account_id = ?1";

/// Where the application key stands among the selected columns.
pub const APPLICATION_KEY_COLUMN: usize = 1;

/// Where the application key id stands among the selected columns.
pub const APPLICATION_KEY_ID_COLUMN: usize = 2;

/// What one column of a row holds, as far as a reader of text can tell.
pub enum Cell {
    /// SQL NULL.
    Null,
    /// Text that is valid UTF-8.
    Text(Seq<char>),
    /// Anything else: a number, a blob, text that is not valid UTF-8.
    Other,
}

/// What one step of the account query gave: the record of the row it reached,
/// `None` for a row that stands for no record, or the error that kept it from
/// reaching a row.
pub type RowRead = Result<Option<Credentials>, rusqlite::Error>;

/// What was found where an account-info file was looked for.
#[derive(Debug)]
pub enum StoreRead {
    /// Nothing exists at the path.
    Missing,
    /// Whether anything exists at the path could not be found out.
    Unreachable(std::io::Error),
    /// Something exists there, but SQLite could not open or query it.
    Failed(rusqlite::Error),
    /// The steps of the query, in the order in which it made them.
    Accounts(Vec<RowRead>),
}

/// The columns of `row`, in the order of the query's result.
pub uninterp spec fn row_cells(row: &rusqlite::Row<'_>) -> Seq<Cell>;

/// The record that a row with the columns `cells` stands for. Its second
/// column is the application key and must hold text. Its third is the key id,
/// which the schema allows to be NULL: the record then has an empty key id.
/// A row that is too short, or holds anything else in one of the two, stands
/// for no record. The first column, the account identifier, is not looked at.
pub open spec fn record_of(cells: Seq<Cell>) -> Option<CredentialsView> {
    if APPLICATION_KEY_ID_COLUMN < cells.len() {
        match (cells[APPLICATION_KEY_COLUMN as int], cells[APPLICATION_KEY_ID_COLUMN as int]) {
            (Cell::Text(key), Cell::Text(key_id)) => Some(
                CredentialsView { application_key_id: key_id, application_key: key },
            ),
            (Cell::Text(key), Cell::Null) => Some(
                CredentialsView { application_key_id: Seq::empty(), application_key: key },
            ),
            _ => None,
        }
    } else {
        None
    }
}

/// The account identifier never reaches the record: rows that differ only in
/// their first column stand for the same record.
pub proof fn lemma_account_id_is_not_copied(cells: Seq<Cell>, account_id: Cell)
    requires
        0 < cells.len(),
    ensures
        record_of(cells.update(0, account_id)) == record_of(cells),
{
}

/// The SQL text and the bound parameters that select the rows of
/// `account_id`, or of every account where it is `None`. The identifier only
/// ever travels as a bound parameter: the text is one of two constants.
pub fn account_query(account_id: Option<&str>) -> (query: (&'static str, Vec<String>))
    ensures
        match account_id {
            None => query.0@ == ALL_ACCOUNTS_QUERY@ && query.1@.len() == 0,
            Some(id) => query.0@ == ONE_ACCOUNT_QUERY@ && query.1@.len() == 1 && query.1@[0]@
                == id@,
        },
{
    let mut params: Vec<String> = Vec::new();
    match account_id {
        None => (ALL_ACCOUNTS_QUERY, params),
        Some(id) => {
            params.push(id.to_owned());
            (ONE_ACCOUNT_QUERY, params)
        },
    }
}

/// Calls `rusqlite::Row::get_ref` at a column index and
/// `rusqlite::types::ValueRef::as_str_or_null` on what it gives; neither
/// looks at the name of the column. The contract claims what the two show:
/// the call gives `None` exactly for a NULL, the text exactly for text that
/// is valid UTF-8, and fails for an index past the last column and for a
/// column that holds anything else.
#[verifier::external_body]
fn column_text(row: &rusqlite::Row<'_>, index: usize) -> (text: Result<
    Option<String>,
    rusqlite::Error,
>)
    ensures
        match text {
            Ok(Some(value)) => index < row_cells(row).len() && row_cells(row)[index as int]
                == Cell::Text(value@),
            Ok(None) => index < row_cells(row).len() && row_cells(row)[index as int] == Cell::Null,
            Err(_) => index >= row_cells(row).len() || row_cells(row)[index as int] == Cell::Other,
        },
{
    Ok(row.get_ref(index)?.as_str_or_null()?.map(|text| text.to_owned()))
}

/// Reads the record of one row of the account query, or `None` where the row
/// stands for no record.
pub fn record_from_row(row: &rusqlite::Row<'_>) -> (record: Option<Credentials>)
    ensures
        match record {
            Some(credentials) => record_of(row_cells(row)) == Some(credentials@),
            None => record_of(row_cells(row)) is None,
        },
{
    let application_key_id = match column_text(row, APPLICATION_KEY_ID_COLUMN) {
        Ok(Some(text)) => text,
        Ok(None) => String::new(),
        Err(_) => return None,
    };
    match column_text(row, APPLICATION_KEY_COLUMN) {
        Ok(Some(application_key)) => Some(Credentials { application_key_id, application_key }),
        _ => None,
    }
}

/// Calls `std::path::Path::try_exists`. Nothing is claimed of the answer: it
/// is the state of the file system at the moment of the call.
#[verifier::external_body]
fn path_exists(path: &str) -> (answer: Result<bool, std::io::Error>) {
    std::path::Path::new(path).try_exists()
}

/// Calls `rusqlite::Connection::open_with_flags` with the one flag
/// `SQLITE_OPEN_READ_ONLY`. Nothing is claimed of the result: whether the
/// file opens depends on what is on disk.
#[verifier::external_body]
fn open_read_only(path: &str) -> (opened: Result<rusqlite::Connection, rusqlite::Error>) {
    rusqlite::Connection::open_with_flags(path, rusqlite::OpenFlags::SQLITE_OPEN_READ_ONLY)
}

/// Calls `rusqlite::Connection::prepare`. Nothing is claimed of the result:
/// whether the text compiles depends on the schema of the database.
#[verifier::external_body]
fn prepare_statement<'conn>(connection: &'conn rusqlite::Connection, sql: &str) -> (prepared:
    Result<rusqlite::Statement<'conn>, rusqlite::Error>) {
    connection.prepare(sql)
}

/// Calls `rusqlite::Statement::query_map` with `params` bound in order and
/// [`record_from_row`] as the function applied to each row, and hands out
/// what the iterator yields, in its order. Nothing is claimed of the result:
/// the rows are what the database holds.
#[verifier::external_body]
fn query_records(statement: &mut rusqlite::Statement<'_>, params: &Vec<String>) -> (steps: Result<
    Vec<RowRead>,
    rusqlite::Error,
>) {
    let rows = statement.query_map(
        rusqlite::params_from_iter(params.iter()),
        |row| Ok(record_from_row(row)),
    )?;
    Ok(rows.collect())
}

impl StoreRead {
    /// What the answer to "does anything exist at the path?" settles. Where
    /// something exists nothing is settled yet, and the file is to be opened;
    /// where nothing does, the file is missing; where the question could not
    /// be answered, its error is kept.
    pub fn of_existence(answer: Result<bool, std::io::Error>) -> (read: Option<StoreRead>)
        ensures
            match answer {
                Ok(true) => read is None,
                Ok(false) => read == Some(StoreRead::Missing),
                Err(error) => read == Some(StoreRead::Unreachable(error)),
            },
    {
        match answer {
            Ok(true) => None,
            Ok(false) => Some(StoreRead::Missing),
            Err(error) => Some(StoreRead::Unreachable(error)),
        }
    }

    /// Hands on what SQLite gave, or says that it failed, with its error.
    pub fn unless_failed<T>(given: Result<T, rusqlite::Error>) -> (handed: Result<T, StoreRead>)
        ensures
            match given {
                Ok(value) => handed == Ok::<T, StoreRead>(value),
                Err(error) => handed == Err::<T, StoreRead>(StoreRead::Failed(error)),
            },
    {
        match given {
            Ok(value) => Ok(value),
            Err(error) => Err(StoreRead::Failed(error)),
        }
    }

    /// What running the account query comes to: its steps, or its failure.
    pub fn of_query(queried: Result<Vec<RowRead>, rusqlite::Error>) -> (read: StoreRead)
        ensures
            match queried {
                Ok(steps) => read == StoreRead::Accounts(steps),
                Err(error) => read == StoreRead::Failed(error),
            },
    {
        match queried {
            Ok(steps) => StoreRead::Accounts(steps),
            Err(error) => StoreRead::Failed(error),
        }
    }
}

/// Looks at `db_path` and, where a database is there, asks it for the rows of
/// `account_id`, or for those of every account where `account_id` is `None`.
/// The database is opened read-only, and closed again before this returns.
/// What each answer from outside comes to is decided by
/// [`StoreRead::of_existence`], [`StoreRead::unless_failed`] and
/// [`StoreRead::of_query`].
pub(crate) fn read_store(db_path: &str, account_id: Option<&str>) -> (read: StoreRead) {
    match StoreRead::of_existence(path_exists(db_path)) {
        Some(read) => return read,
        None => {},
    }
    let connection = match StoreRead::unless_failed(open_read_only(db_path)) {
        Ok(connection) => connection,
        Err(read) => return read,
    };
    let (sql, params) = account_query(account_id);
    let mut statement = match StoreRead::unless_failed(prepare_statement(&connection, sql)) {
        Ok(statement) => statement,
        Err(read) => return read,
    };
    StoreRead::of_query(query_records(&mut statement, &params))
}

} // verus!
