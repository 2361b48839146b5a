//! The storage engine's types, declared for the verifier. Values of these
//! types are opaque: the library carries them through and reads rows only
//! via the trusted query runner.

use rusqlite::types::Value as SqlValue;
use vstd::prelude::*;

verus! {

#[verifier::external_type_specification]
#[verifier::external_body]
pub struct ExConnection(rusqlite::Connection);

#[verifier::external_type_specification]
#[verifier::external_body]
pub struct ExSqlError(rusqlite::Error);

#[verifier::external_type_specification]
#[verifier::external_body]
pub struct ExSqlValue(SqlValue);

/// One column of one result row, as a plain value the verifier can read:
/// an SQL NULL, an integer, a piece of text, or something the catalog's
/// queries never produce (a float or a blob).
#[derive(Debug)]
pub enum Field {
    Null,
    Int(i64),
    Text(String),
    Other,
}

/// A fully fetched result set: the column names, in statement order, and
/// every row's fields, one per column.
pub struct Table {
    pub names: Vec<String>,
    pub rows: Vec<Vec<Field>>,
}

impl Table {
    /// Well-formedness: every row has exactly one field per column name.
    pub open spec fn wf(&self) -> bool {
        forall|i: int|
            #![trigger self.rows@[i]]
            0 <= i < self.rows@.len() ==> self.rows@[i]@.len() == self.names@.len()
    }
}


#[verifier::external_type_specification]
#[verifier::external_body]
pub struct ExRow<'a>(rusqlite::Row<'a>);

pub assume_specification[ <SqlValue as From<u32>>::from ](x: u32) -> (r: SqlValue);

pub assume_specification[ <SqlValue as From<String>>::from ](s: String) -> (r: SqlValue);

/// Relies on rusqlite::Connection::open: opens the store named by `path`
/// (the path's URI flags decide read-only-ness).
#[verifier::external_body]
pub(crate) fn open_connection(path: &str) -> (r: Result<rusqlite::Connection, rusqlite::Error>) {
    rusqlite::Connection::open(path)
}

/// Relies on rusqlite::Connection::create_collation: registers the
/// library's collation under the fixed name the query texts request; the
/// handed closure only converts the verified comparison's outcome to
/// std's ordering, one variant each.
#[verifier::external_body]
pub(crate) fn register_collation(conn: &rusqlite::Connection) -> (r: Result<(), rusqlite::Error>) {
    conn.create_collation(
        "opds",
        |a, b| match crate::collation::collation(a, b) {
            crate::collation::Rank::Less => std::cmp::Ordering::Less,
            crate::collation::Rank::Equal => std::cmp::Ordering::Equal,
            crate::collation::Rank::Greater => std::cmp::Ordering::Greater,
        },
    )
}

/// Relies on rusqlite::Connection::create_scalar_function: overrides the
/// store's case folding with str::to_lowercase, so that the prefix
/// queries fold beyond ASCII.
#[verifier::external_body]
pub(crate) fn register_lower(conn: &rusqlite::Connection) -> (r: Result<(), rusqlite::Error>) {
    conn.create_scalar_function(
        "LOWER",
        1,
        rusqlite::functions::FunctionFlags::SQLITE_DETERMINISTIC,
        |ctx| ctx.get::<String>(0).map(|s| s.to_lowercase()),
    )
}

/// Relies on rusqlite::vtab::array::load_module: registers the rarray
/// table-valued function that the id-set queries bind their lists
/// through.
#[verifier::external_body]
pub(crate) fn load_array_module(conn: &rusqlite::Connection) -> (r: Result<(), rusqlite::Error>) {
    rusqlite::vtab::array::load_module(conn)
}

/// Relies on rusqlite::Connection::is_readonly, asked of the main
/// database.
#[verifier::external_body]
pub(crate) fn connection_is_readonly(conn: &rusqlite::Connection) -> (r: Result<
    bool,
    rusqlite::Error,
>) {
    conn.is_readonly(rusqlite::MAIN_DB)
}

/// Relies on rusqlite::Row::get with a dynamically typed SQL value:
/// converts one result row into one plain field per column, one variant
/// each.
#[verifier::external_body]
fn row_fields(row: &rusqlite::Row, n: usize) -> (r: Result<Vec<Field>, rusqlite::Error>)
    ensures
        r matches Ok(v) ==> v@.len() == n,
{
    let mut rec: Vec<Field> = Vec::new();
    for i in 0..n {
        rec.push(match row.get::<usize, SqlValue>(i)? {
            SqlValue::Null => Field::Null,
            SqlValue::Integer(x) => Field::Int(x),
            SqlValue::Text(s) => Field::Text(s),
            _ => Field::Other,
        });
    }
    Ok(rec)
}

/// Relies on rusqlite's prepare_cached, query and row streaming: runs
/// `sql` with the given positional parameters and collects every result
/// row; each returned row holds exactly one field per column name.
#[verifier::external_body]
pub(crate) fn run_query(conn: &rusqlite::Connection, sql: &str, ps: Vec<SqlValue>) -> (r: Result<
    Table,
    rusqlite::Error,
>)
    ensures
        r matches Ok(t) ==> t.wf(),
{
    let mut st = conn.prepare_cached(sql)?;
    let names: Vec<String> = st.column_names().iter().map(|s| s.to_string()).collect();
    let mut rows = st.query(rusqlite::params_from_iter(ps))?;
    let mut data: Vec<Vec<Field>> = Vec::new();
    while let Some(row) = rows.next()? {
        data.push(row_fields(row, names.len())?);
    }
    Ok(Table { names, rows: data })
}

/// Relies on the rarray table-valued function: runs `sql` binding the id
/// list as its single array-valued parameter, and collects every result
/// row as `run_query` does.
#[verifier::external_body]
pub(crate) fn run_query_ids(conn: &rusqlite::Connection, sql: &str, ids: &Vec<u32>) -> (r: Result<
    Table,
    rusqlite::Error,
>)
    ensures
        r matches Ok(t) ==> t.wf(),
{
    let arr = std::rc::Rc::new(ids.iter().map(|x| SqlValue::from(*x)).collect::<Vec<SqlValue>>());
    let mut st = conn.prepare_cached(sql)?;
    let names: Vec<String> = st.column_names().iter().map(|s| s.to_string()).collect();
    let mut rows = st.query([arr])?;
    let mut data: Vec<Vec<Field>> = Vec::new();
    while let Some(row) = rows.next()? {
        data.push(row_fields(row, names.len())?);
    }
    Ok(Table { names, rows: data })
}

} // verus!
