//! The trusted layer: every call into the SQLite binding and the one call
//! into the file system.
//!
//! Nothing here is proved.  Each function holds one call and the conversion
//! of its arguments and result; what the engine answers depends on the
//! store file, so no contract below says anything about an answer.
//!
//! The calls that change a store hand back a [`Receipt`] where the engine
//! has acknowledged them.  A receipt says what was acknowledged and can be
//! made nowhere but here, so that whoever holds one has reached the engine.

use vstd::prelude::*;
use crate::mutation::{values_of, SqlValue, SqlValueView};

verus! {

/// What the engine has acknowledged: a statement with the values bound to
/// it, or the begin, the commit or the rollback of a transaction.
enum Acknowledged<'a> {
    Statement(&'a str, &'a Vec<SqlValue>),
    Began,
    Committed,
    RolledBack,
}

/// The proof of one acknowledgement by the engine.
pub struct Receipt<'a> {
    what: Acknowledged<'a>,
    changed: usize,
}

/// What a [`Receipt`] is a receipt of.
pub enum ReceiptView {
    /// A statement of this text with these values, in the order in which
    /// they were bound.
    Statement { text: Seq<char>, params: Seq<SqlValueView> },
    /// The begin of a transaction.
    Began,
    /// The commit of the open transaction.
    Committed,
    /// The rollback of the open transaction.
    RolledBack,
}

impl<'a> View for Receipt<'a> {
    type V = ReceiptView;

    closed spec fn view(&self) -> ReceiptView {
        match self.what {
            Acknowledged::Statement(text, params) => ReceiptView::Statement {
                text: text@,
                params: values_of(params@),
            },
            Acknowledged::Began => ReceiptView::Began,
            Acknowledged::Committed => ReceiptView::Committed,
            Acknowledged::RolledBack => ReceiptView::RolledBack,
        }
    }
}

impl<'a> Receipt<'a> {
    /// The engine's count of the rows that the acknowledged statement
    /// changed.
    pub fn changed(&self) -> usize {
        self.changed
    }
}

#[verifier::external_type_specification]
#[verifier::external_body]
pub struct ExPathBuf(std::path::PathBuf);

#[verifier::external_type_specification]
#[verifier::external_body]
pub struct ExConnection(rusqlite::Connection);

#[verifier::external_type_specification]
#[verifier::external_body]
pub struct ExError(rusqlite::Error);

#[verifier::external_type_specification]
#[verifier::external_body]
pub struct ExTransaction<'conn>(rusqlite::Transaction<'conn>);

#[verifier::external_type_specification]
#[verifier::external_body]
pub struct ExPrepared<'conn>(rusqlite::Statement<'conn>);

#[verifier::external_type_specification]
#[verifier::external_body]
pub struct ExRows<'stmt>(rusqlite::Rows<'stmt>);

#[verifier::external_type_specification]
#[verifier::external_body]
pub struct ExRow<'stmt>(rusqlite::Row<'stmt>);

/// `std::path::Path::exists`: whether something is at `path` right now.
/// Nothing is claimed of the answer.
#[verifier::external_body]
pub(crate) fn store_file_exists(path: &std::path::PathBuf) -> (exists: bool) {
    path.exists()
}

/// `std::path::Path::extension`: the extension of the file that `filename`
/// names, where it has one that is text.  What counts as the file's name
/// differs between platforms, so nothing is claimed of the answer.
#[verifier::external_body]
pub(crate) fn file_extension(filename: &str) -> (extension: Option<String>) {
    std::path::Path::new(filename).extension().and_then(|e| e.to_str()).map(|e| e.to_owned())
}

/// `rusqlite::Connection::open`: opens the store file at `path` for reading
/// and writing, creating it if it is missing.  Nothing is claimed of the
/// outcome.
#[verifier::external_body]
pub(crate) fn open_connection(path: &std::path::PathBuf) -> (opened: Result<
    rusqlite::Connection,
    rusqlite::Error,
>) {
    rusqlite::Connection::open(path)
}

/// `rusqlite::Connection::execute`: prepares `sql`, binds `params` to `?1`,
/// `?2`, ... in order and runs the statement once.  Nothing is claimed of
/// the outcome.  Where the engine acknowledges the statement, the receipt
/// is made here of the very text and values that were handed to it, and
/// carries the engine's count of changed rows.
#[verifier::external_body]
pub(crate) fn execute<'a>(
    conn: &rusqlite::Connection,
    sql: &'a str,
    params: &'a Vec<SqlValue>,
) -> (done: Result<Receipt<'a>, rusqlite::Error>)
    ensures
        done matches Ok(receipt) ==> receipt@ == (ReceiptView::Statement {
            text: sql@,
            params: values_of(params@),
        }),
{
    let values = params.iter().map(
        |p|
            match p {
                SqlValue::Integer(i) => rusqlite::types::Value::Integer(*i),
                SqlValue::Text(s) => rusqlite::types::Value::Text(s.clone()),
            },
    );
    let changed = conn.execute(sql, rusqlite::params_from_iter(values))?;
    Ok(Receipt { what: Acknowledged::Statement(sql, params), changed })
}

/// `rusqlite::Connection::prepare`: compiles `sql` for this connection.
/// Nothing is claimed of the outcome.
#[verifier::external_body]
pub(crate) fn prepare<'c>(conn: &'c rusqlite::Connection, sql: &str) -> (prepared: Result<
    rusqlite::Statement<'c>,
    rusqlite::Error,
>) {
    conn.prepare(sql)
}

/// `rusqlite::Statement::query`: binds `params` in order and hands back the
/// cursor over the rows; no row is fetched yet.  Nothing is claimed of the
/// outcome.
#[verifier::external_body]
pub(crate) fn query<'s, 'c>(
    prepared: &'s mut rusqlite::Statement<'c>,
    params: &Vec<SqlValue>,
) -> (rows: Result<rusqlite::Rows<'s>, rusqlite::Error>) {
    prepared.query(
        rusqlite::params_from_iter(
            params.iter().map(
                |p|
                    match p {
                        SqlValue::Integer(i) => rusqlite::types::Value::Integer(*i),
                        SqlValue::Text(s) => rusqlite::types::Value::Text(s.clone()),
                    },
            ),
        ),
    )
}

/// `rusqlite::Rows::next`: steps the cursor; `Ok(None)` after the last row.
/// Nothing is claimed of the outcome.
#[verifier::external_body]
pub(crate) fn next_row<'a, 's>(rows: &'a mut rusqlite::Rows<'s>) -> (row: Result<
    Option<&'a rusqlite::Row<'s>>,
    rusqlite::Error,
>) {
    rows.next()
}

/// `rusqlite::Row::get` at type `String`: the column's text; an error for an
/// index past the last column and for a column that holds no text.  Nothing
/// is claimed of the text.
#[verifier::external_body]
pub(crate) fn column_text(row: &rusqlite::Row<'_>, index: usize) -> (text: Result<
    String,
    rusqlite::Error,
>) {
    row.get(index)
}

/// `rusqlite::Row::get` at type `Option<String>`: `None` for a column that
/// holds no value, else as [`column_text`].  Nothing is claimed of the text.
#[verifier::external_body]
pub(crate) fn column_optional_text(row: &rusqlite::Row<'_>, index: usize) -> (text: Result<
    Option<String>,
    rusqlite::Error,
>) {
    row.get(index)
}

/// `rusqlite::Row::get` at type `i32`: the column's integer; an error for an
/// index past the last column, for a column that holds no integer and for an
/// integer outside `i32`.  Nothing is claimed of the number.
#[verifier::external_body]
pub(crate) fn column_integer(row: &rusqlite::Row<'_>, index: usize) -> (number: Result<
    i32,
    rusqlite::Error,
>) {
    row.get(index)
}

/// `rusqlite::Connection::unchecked_transaction`: begins a deferred
/// transaction on the connection.  Nothing is claimed of the outcome.
/// Where the engine acknowledges the begin, the receipt of a begin is made
/// here.
#[verifier::external_body]
pub(crate) fn begin<'c>(conn: &'c rusqlite::Connection) -> (begun: Result<
    (rusqlite::Transaction<'c>, Receipt<'c>),
    rusqlite::Error,
>)
    ensures
        begun matches Ok(pair) ==> pair.1@ == ReceiptView::Began,
{
    let transaction = conn.unchecked_transaction()?;
    Ok((transaction, Receipt { what: Acknowledged::Began, changed: 0 }))
}

/// `rusqlite::Transaction::commit`: asks the engine to commit.  Nothing is
/// claimed of the outcome.  Where the engine acknowledges the commit, the
/// receipt of a commit is made here.
#[verifier::external_body]
pub(crate) fn commit<'c>(transaction: rusqlite::Transaction<'c>) -> (done: Result<
    Receipt<'c>,
    rusqlite::Error,
>)
    ensures
        done matches Ok(receipt) ==> receipt@ == ReceiptView::Committed,
{
    transaction.commit()?;
    Ok(Receipt { what: Acknowledged::Committed, changed: 0 })
}

/// `rusqlite::Transaction::rollback`: asks the engine to roll back.  Nothing
/// is claimed of the outcome.  Where the engine acknowledges the rollback,
/// the receipt of a rollback is made here.
#[verifier::external_body]
pub(crate) fn rollback<'c>(transaction: rusqlite::Transaction<'c>) -> (done: Result<
    Receipt<'c>,
    rusqlite::Error,
>)
    ensures
        done matches Ok(receipt) ==> receipt@ == ReceiptView::RolledBack,
{
    transaction.rollback()?;
    Ok(Receipt { what: Acknowledged::RolledBack, changed: 0 })
}

/// `rusqlite::Error`'s `Display`: the engine's description of an error.
/// Nothing is claimed of the text.
#[verifier::external_body]
pub(crate) fn describe(error: &rusqlite::Error) -> (description: String) {
    error.to_string()
}

} // verus!
