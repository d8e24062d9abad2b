//! The trusted boundary around the embedded SQLite store. Everything the
//! layer knows of the engine is stated here: two names for what a connection
//! holds — the stored rows and whether the catalog table exists — and one
//! wrapper per statement, whose contract says over those names what the
//! statement does. Verus believes these contracts; everything else in the
//! crate is proved from them.
//!
//! The two names treat the stored rows as a function of the connection
//! value: the model assumes the single shared connection of the layer's
//! design, and a second connection to the same store file steps outside it.

use vstd::prelude::*;
use rusqlite::OptionalExtension;
use crate::error::DbError;
use crate::model::has_uid;
use crate::order::allowed_column;
use crate::photo::{Photo, PhotoView, new_row};

verus! {

#[verifier::external_type_specification]
#[verifier::external_body]
pub struct ExConnection(rusqlite::Connection);

#[verifier::external_type_specification]
#[verifier::external_body]
pub struct ExRow<'a>(rusqlite::Row<'a>);

#[verifier::external_type_specification]
#[verifier::external_body]
pub struct ExSqliteError(rusqlite::Error);

/// The catalog rows behind a connection, in storage (rowid) order.
pub uninterp spec fn stored_rows(conn: rusqlite::Connection) -> Seq<PhotoView>;

/// Whether the catalog table — a table named `photo` carrying the catalog
/// schema — stands behind a connection.
pub uninterp spec fn has_photo_table(conn: rusqlite::Connection) -> bool;

/// The text of the catalog schema: the photo table in the fixed column
/// order of the row mapper, a uniqueness constraint on `uid`, the two
/// boolean columns constrained to 0 and 1, and a type-appropriate default
/// for every column that an insert does not write. A single statement, which
/// the engine applies atomically; the engine also keeps this text verbatim
/// in its table registry, which is what the bootstrap check compares. The
/// schema lives here, in the library, rather than in an external resource
/// file read at startup: deliberately, so that the uniqueness constraint
/// the contracts rest on is itself part of the reviewed, verified text.
pub open spec fn catalog_schema_text() -> Seq<char> {
    "CREATE TABLE photo (\
     id INTEGER PRIMARY KEY, \
     filename TEXT NOT NULL DEFAULT '', \
     path TEXT NOT NULL DEFAULT '', \
     uid TEXT NOT NULL UNIQUE DEFAULT '', \
     md5 TEXT NOT NULL DEFAULT '', \
     sort_order INTEGER NOT NULL DEFAULT 0, \
     hidden INTEGER NOT NULL DEFAULT 0 CHECK (hidden IN (0, 1)), \
     metadata_parsed INTEGER NOT NULL DEFAULT 0 CHECK (metadata_parsed IN (0, 1)), \
     width INTEGER NOT NULL DEFAULT 0, \
     height INTEGER NOT NULL DEFAULT 0, \
     color TEXT NOT NULL DEFAULT '', \
     title TEXT NOT NULL DEFAULT '', \
     place TEXT NOT NULL DEFAULT '', \
     date_taken TEXT NOT NULL DEFAULT '', \
     camera_model TEXT NOT NULL DEFAULT '', \
     lens_mode TEXT NOT NULL DEFAULT '', \
     focal_length TEXT NOT NULL DEFAULT '', \
     aperture TEXT NOT NULL DEFAULT '', \
     exposure_time TEXT NOT NULL DEFAULT '', \
     sensitivity INTEGER NOT NULL DEFAULT 0)"@
}

/// The catalog schema as an executable string: exactly `catalog_schema_text`.
pub fn catalog_schema() -> (r: &'static str)
    ensures
        r@ == catalog_schema_text(),
{
    "CREATE TABLE photo (\
     id INTEGER PRIMARY KEY, \
     filename TEXT NOT NULL DEFAULT '', \
     path TEXT NOT NULL DEFAULT '', \
     uid TEXT NOT NULL UNIQUE DEFAULT '', \
     md5 TEXT NOT NULL DEFAULT '', \
     sort_order INTEGER NOT NULL DEFAULT 0, \
     hidden INTEGER NOT NULL DEFAULT 0 CHECK (hidden IN (0, 1)), \
     metadata_parsed INTEGER NOT NULL DEFAULT 0 CHECK (metadata_parsed IN (0, 1)), \
     width INTEGER NOT NULL DEFAULT 0, \
     height INTEGER NOT NULL DEFAULT 0, \
     color TEXT NOT NULL DEFAULT '', \
     title TEXT NOT NULL DEFAULT '', \
     place TEXT NOT NULL DEFAULT '', \
     date_taken TEXT NOT NULL DEFAULT '', \
     camera_model TEXT NOT NULL DEFAULT '', \
     lens_mode TEXT NOT NULL DEFAULT '', \
     focal_length TEXT NOT NULL DEFAULT '', \
     aperture TEXT NOT NULL DEFAULT '', \
     exposure_time TEXT NOT NULL DEFAULT '', \
     sensitivity INTEGER NOT NULL DEFAULT 0)"
}

/// Relies on rusqlite's `Error::sqlite_error_code` and the `Error` variants:
/// sorts an engine failure into the library's kinds — a `uid` uniqueness
/// violation, a per-row decode failure, or any other failure with its
/// message. Pure conversion; nothing is claimed of the result.
#[verifier::external_body]
fn db_err(e: rusqlite::Error) -> DbError {
    match &e {
        rusqlite::Error::InvalidColumnType(..)
        | rusqlite::Error::FromSqlConversionFailure(..)
        | rusqlite::Error::IntegralValueOutOfRange(..)
        | rusqlite::Error::Utf8Error(..)
        | rusqlite::Error::InvalidColumnIndex(..) => DbError::Decode(e.to_string()),
        _ => match e.sqlite_error_code() {
            Some(rusqlite::ffi::ErrorCode::ConstraintViolation) => DbError::Constraint,
            _ => DbError::Sqlite(e.to_string()),
        },
    }
}

/// Relies on rusqlite's `Row::get`: decodes one storage row in the fixed
/// schema column order into a photo record; a coercion failure surfaces as
/// that row's decode error. Only the row-returning statement wrappers call
/// this; what those statements return is stated on the wrappers themselves.
#[verifier::external_body]
fn photo_from_row(row: &rusqlite::Row<'_>) -> Result<Photo, rusqlite::Error> {
    Ok(Photo::from_columns(
        row.get(0)?, row.get(1)?, row.get(2)?, row.get(3)?, row.get(4)?,
        row.get(5)?, row.get(6)?, row.get(7)?, row.get(8)?, row.get(9)?,
        row.get(10)?, row.get(11)?, row.get(12)?, row.get(13)?, row.get(14)?,
        row.get(15)?, row.get(16)?, row.get(17)?, row.get(18)?, row.get(19)?,
    ))
}

/// Relies on rusqlite's `Connection::open`: opens the store at `store_path`,
/// creating an empty store file if none exists. What the store already holds
/// depends on the file, so nothing is claimed of the rows or the table
/// behind a fresh connection.
#[verifier::external_body]
pub(crate) fn open_connection(store_path: &str) -> Result<rusqlite::Connection, DbError> {
    rusqlite::Connection::open(store_path).map_err(db_err)
}

/// Relies on rusqlite's `Connection::query_row` over `sqlite_master` with
/// `optional`: returns the stored CREATE text of the table named `photo`,
/// or `None` when the store holds no such table; a read alone. The engine
/// keeps the creating statement's text verbatim and holds one table per
/// name, so a returned text equal to the catalog schema witnesses that the
/// catalog table stands behind the connection — and while it stands there,
/// a successful lookup returns exactly that text. A `photo` table of any
/// other shape comes back as its own text, which the bootstrap refuses; the
/// refusal is the caller's, so this read never fails with it.
#[verifier::external_body]
pub(crate) fn photo_table_sql(conn: &rusqlite::Connection) -> (r: Result<Option<String>, DbError>)
    ensures
        r is Ok && r->Ok_0 is Some && r->Ok_0->Some_0@ == catalog_schema_text()
            ==> has_photo_table(*conn),
        has_photo_table(*conn) && r is Ok ==> r->Ok_0 is Some && r->Ok_0->Some_0@
            == catalog_schema_text(),
        r is Err ==> !(r->Err_0 is SchemaMismatch),
{
    conn.query_row(
        "SELECT sql FROM sqlite_master WHERE type='table' AND name='photo';",
        [],
        |row| row.get::<_, String>(0),
    ).optional().map_err(db_err)
}

/// Relies on rusqlite's `Connection::execute_batch` applying the catalog
/// schema: on success the table exists and holds no rows; the schema is a
/// single statement, which the engine applies atomically, so on failure the
/// store is as it was.
#[verifier::external_body]
pub(crate) fn apply_schema(conn: &mut rusqlite::Connection) -> (r: Result<(), DbError>)
    ensures
        r is Ok ==> has_photo_table(*final(conn)) && stored_rows(*final(conn)) == Seq::<PhotoView>::empty(),
        r is Err ==> has_photo_table(*final(conn)) == has_photo_table(*old(conn))
            && stored_rows(*final(conn)) == stored_rows(*old(conn)),
{
    conn.execute_batch(catalog_schema()).map_err(db_err)
}

/// Relies on rusqlite's `Statement::execute` running the four-column INSERT
/// (statement reuse through `prepare_cached`). A single statement is atomic:
/// on success exactly one row is appended — the four caller fields, a
/// storage-assigned id, the schema defaults elsewhere — and on any failure
/// the rows are unchanged. The UNIQUE constraint on `uid` makes the
/// statement fail, changing nothing, whenever the uid is already present;
/// the contract states it as: success witnesses a fresh uid. Conversely,
/// the uid uniqueness constraint is the only constraint this statement can
/// violate — the id is engine-assigned, the bound fields are non-null, and
/// the checked columns keep their defaults — so a constraint-kind failure
/// witnesses a duplicate uid. Two points the
/// engine's documentation leaves open are assumed, not stated: on a
/// duplicate the reported kind is the constraint error unless another
/// failure intervenes first (the tests observe the constraint kind); and
/// appending at the end assumes the table's largest rowid is below its
/// maximum — true of every store this layer creates, where ids rise by one
/// from one, while at the maximum the engine would pick an arbitrary free
/// rowid instead.
#[verifier::external_body]
pub(crate) fn exec_insert(
    conn: &mut rusqlite::Connection,
    filename: &str,
    path: &str,
    uid: &str,
    md5: &str,
) -> (r: Result<(), DbError>)
    requires
        has_photo_table(*old(conn)),
    ensures
        has_photo_table(*final(conn)),
        r is Ok ==> !has_uid(stored_rows(*old(conn)), uid@) && (exists|i: int|
            stored_rows(*final(conn)) == stored_rows(*old(conn)).push(new_row(filename@, path@, uid@, md5@, i))),
        r is Err ==> stored_rows(*final(conn)) == stored_rows(*old(conn)),
        r is Err && r->Err_0 == DbError::Constraint ==> has_uid(stored_rows(*old(conn)), uid@),
{
    let mut stmt = conn.prepare_cached(
        "INSERT INTO photo(filename, path, uid, md5) VALUES(?, ?, ?, ?);",
    ).map_err(db_err)?;
    stmt.execute((filename, path, uid, md5)).map_err(db_err)?;
    Ok(())
}

/// Relies on rusqlite's `Statement::execute` running the DELETE keyed by
/// `uid` (statement reuse through `prepare_cached`). On success every row
/// carrying the uid — none, if it is absent: a zero-row delete is a silent
/// no-op — is gone and the rest stand as they were; a single statement is
/// atomic, so on failure the rows are unchanged.
#[verifier::external_body]
pub(crate) fn exec_delete(conn: &mut rusqlite::Connection, uid: &str) -> (r: Result<(), DbError>)
    requires
        has_photo_table(*old(conn)),
    ensures
        has_photo_table(*final(conn)),
        r is Ok ==> stored_rows(*final(conn)) == crate::model::remove_uid(
            stored_rows(*old(conn)),
            uid@,
        ),
        r is Err ==> stored_rows(*final(conn)) == stored_rows(*old(conn)),
{
    let mut stmt = conn.prepare_cached("DELETE FROM photo WHERE uid=?;").map_err(db_err)?;
    stmt.execute([uid]).map_err(db_err)?;
    Ok(())
}

/// Relies on rusqlite's `Statement::execute` running the UPDATE keyed by
/// `uid` (statement reuse through `prepare_cached`). On success every row
/// carrying the uid — none, if it is absent: a zero-row update is a silent
/// no-op — takes the new filename and path and the rest stand as they were;
/// a single statement is atomic, so on failure the rows are unchanged.
#[verifier::external_body]
pub(crate) fn exec_move(
    conn: &mut rusqlite::Connection,
    filename: &str,
    path: &str,
    uid: &str,
) -> (r: Result<(), DbError>)
    requires
        has_photo_table(*old(conn)),
    ensures
        has_photo_table(*final(conn)),
        r is Ok ==> stored_rows(*final(conn)) == crate::model::move_uid(
            stored_rows(*old(conn)),
            uid@,
            filename@,
            path@,
        ),
        r is Err ==> stored_rows(*final(conn)) == stored_rows(*old(conn)),
{
    let mut stmt = conn.prepare_cached(
        "UPDATE photo SET filename=?, path=? WHERE uid=?;",
    ).map_err(db_err)?;
    stmt.execute((filename, path, uid)).map_err(db_err)?;
    Ok(())
}

/// Relies on rusqlite's `Statement::query_map` running "SELECT uid FROM
/// photo;": every stored uid is returned exactly once per row carrying it;
/// without an ORDER BY the engine's order is unspecified, so only the
/// multiset is stated.
#[verifier::external_body]
pub(crate) fn select_uids(conn: &rusqlite::Connection) -> (r: Result<Vec<String>, DbError>)
    requires
        has_photo_table(*conn),
    ensures
        r is Ok ==> r->Ok_0@.map_values(|s: String| s@).to_multiset() == stored_rows(
            *conn,
        ).map_values(|v: PhotoView| v.uid).to_multiset(),
{
    let mut stmt = conn.prepare_cached("SELECT uid FROM photo;").map_err(db_err)?;
    let rows = stmt.query_map([], |row| row.get::<usize, String>(0)).map_err(db_err)?;
    let mut out: Vec<String> = Vec::new();
    for row in rows {
        out.push(row.map_err(db_err)?);
    }
    Ok(out)
}

/// Relies on rusqlite's `Statement::query_map` running "SELECT path FROM
/// photo GROUP BY path;": the distinct stored paths, each exactly once;
/// the grouping's order is not relied on, so only the set is stated.
#[verifier::external_body]
pub(crate) fn select_distinct_paths(conn: &rusqlite::Connection) -> (r: Result<
    Vec<String>,
    DbError,
>)
    requires
        has_photo_table(*conn),
    ensures
        r is Ok ==> r->Ok_0@.map_values(|s: String| s@).no_duplicates() && r->Ok_0@.map_values(
            |s: String| s@,
        ).to_set() == stored_rows(*conn).map_values(|v: PhotoView| v.path).to_set(),
{
    let mut stmt = conn.prepare_cached("SELECT path FROM photo GROUP BY path;").map_err(db_err)?;
    let rows = stmt.query_map([], |row| row.get::<usize, String>(0)).map_err(db_err)?;
    let mut out: Vec<String> = Vec::new();
    for row in rows {
        out.push(row.map_err(db_err)?);
    }
    Ok(out)
}

/// Relies on rusqlite's `Statement::query_map` running "SELECT * FROM
/// photo;", each row decoded by the row mapper: every stored row is returned
/// exactly once; without an ORDER BY the engine's order is unspecified, so
/// only the multiset is stated. A decode failure aborts the query with that
/// row's error.
#[verifier::external_body]
pub(crate) fn select_all_photos(conn: &rusqlite::Connection) -> (r: Result<Vec<Photo>, DbError>)
    requires
        has_photo_table(*conn),
    ensures
        r is Ok ==> r->Ok_0@.map_values(|p: Photo| p@).to_multiset() == stored_rows(
            *conn,
        ).to_multiset(),
        r is Err ==> !(r->Err_0 is InvalidSortColumn),
{
    let mut stmt = conn.prepare_cached("SELECT * FROM photo;").map_err(db_err)?;
    let rows = stmt.query_map([], |row| photo_from_row(row)).map_err(db_err)?;
    let mut out: Vec<Photo> = Vec::new();
    for row in rows {
        out.push(row.map_err(db_err)?);
    }
    Ok(out)
}

/// Relies on rusqlite's `Statement::query_map` running "SELECT * FROM photo
/// WHERE path=? ORDER BY ...;", each row decoded by the row mapper. The
/// ORDER BY text is built by the verified `order_clause` from allow-listed
/// column names alone — the `requires` ties `order_by` to the columns and
/// keeps any other caller content out of the statement text — with one
/// direction applied to all of them. Text columns compare in SQLite's byte
/// order, which on UTF-8 is code-point order; the two boolean columns are
/// held to 0 and 1 by the schema's CHECK constraints, so their stored order
/// is their decoded order. Exactly the rows in the path are returned, sorted
/// as stated.
#[verifier::external_body]
pub(crate) fn select_photos_in_path_ordered(
    conn: &rusqlite::Connection,
    path: &str,
    sort_columns: &Vec<String>,
    order_by: &str,
    reverse: bool,
) -> (r: Result<Vec<Photo>, DbError>)
    requires
        has_photo_table(*conn),
        sort_columns@.len() > 0,
        forall|i: int| 0 <= i < sort_columns@.len() ==> allowed_column(sort_columns@[i]@),
        order_by@ == crate::order::spec_order_clause(
            sort_columns@.map_values(|s: String| s@),
            reverse,
        ),
    ensures
        r is Ok ==> r->Ok_0@.map_values(|p: Photo| p@).to_multiset() == crate::model::rows_in_path(
            stored_rows(*conn),
            path@,
        ).to_multiset() && crate::order::sorted_rows(
            r->Ok_0@.map_values(|p: Photo| p@),
            sort_columns@.map_values(|s: String| s@),
            reverse,
        ),
        r is Err ==> !(r->Err_0 is InvalidSortColumn),
{
    let sql = format!("SELECT * FROM photo WHERE path=? ORDER BY {order_by};");
    let mut stmt = conn.prepare(&sql).map_err(db_err)?;
    let rows = stmt.query_map([path], |row| photo_from_row(row)).map_err(db_err)?;
    let mut out: Vec<Photo> = Vec::new();
    for row in rows {
        out.push(row.map_err(db_err)?);
    }
    Ok(out)
}

} // verus!
