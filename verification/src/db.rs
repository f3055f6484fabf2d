use vstd::prelude::*;

use crate::model::{add_row, can_assign, db_wf, has_id, has_nul, remove_row};

verus! {

// The store's trusted boundary: the only place where the sqlite crate is
// touched. Each wrapper runs one SQL statement on the `game` table, with
// every value passed through parameter binding, never spliced into the
// statement text.

#[verifier::external_type_specification]
#[verifier::external_body]
pub struct ExConnection(sqlite::Connection);

#[verifier::external_type_specification]
#[verifier::external_body]
pub struct ExStatement<'l>(sqlite::Statement<'l>);

#[verifier::external_type_specification]
#[verifier::external_body]
pub struct ExSqliteError(sqlite::Error);

/// The rows of the connection's `game` table, in rowid order, and the
/// empty sequence while the table does not exist. Each row reads as the
/// sqlite crate would hand it out: the `id` column as the engine's 64-bit
/// integer read, the two text columns as the crate's string read yields
/// them (decoded as UTF-8, up to the first NUL byte).
pub uninterp spec fn db_games(conn: sqlite::Connection) -> Seq<(int, Seq<char>, Seq<char>)>;

/// The `game` rows that a prepared listing statement has not yet yielded,
/// read as in `db_games`.
pub uninterp spec fn cursor_rows(st: sqlite::Statement) -> Seq<(int, Seq<char>, Seq<char>)>;

/// The connection's database holds a `game` table with the library's own
/// shape: `id INTEGER PRIMARY KEY` (an alias of the table's rowid), and
/// `name` and `exe_path` as text columns. Established by reading the
/// stored schema back, never assumed of a file as found.
pub uninterp spec fn table_ready(conn: sqlite::Connection) -> bool;

/// Relies on sqlite::Connection::open: a read-write connection to a new or
/// existing database file. Nothing is promised of what the file holds.
#[verifier::external_body]
pub(crate) fn open_db(path: &String) -> (r: Result<sqlite::Connection, sqlite::Error>) {
    sqlite::Connection::open(path.as_str())
}

/// Relies on sqlite::Connection::execute running `CREATE TABLE IF NOT
/// EXISTS`: it creates the empty `game` table or leaves an existing one —
/// whatever its shape — exactly as it is, so the table's rows and an
/// already established shape survive; a failed statement changes nothing.
#[verifier::external_body]
pub(crate) fn create_game_table(conn: &mut sqlite::Connection) -> (r: Result<(), sqlite::Error>)
    ensures
        db_games(*final(conn)) == db_games(*old(conn)),
        table_ready(*old(conn)) ==> table_ready(*final(conn)),
{
    conn.execute("create table if not exists game (id integer primary key, name text, exe_path text)")
}

/// Relies on sqlite::Connection::prepare and sqlite::Statement::{next,
/// read} over `sqlite_master`: the engine keeps each table's `CREATE`
/// statement there, as `CREATE TABLE ` followed by the statement text as
/// given, with `IF NOT EXISTS` dropped. A `game` table stored exactly as
/// the library's own DDL has `id INTEGER PRIMARY KEY`, a rowid alias, so
/// its rows stand in strictly increasing 64-bit id order; and with no
/// stored `game` table there are no rows.
#[verifier::external_body]
pub(crate) fn read_game_table_sql(conn: &sqlite::Connection) -> (r: Result<
    Option<String>,
    sqlite::Error,
>)
    ensures
        r matches Ok(Some(sql)) && sql@ == "CREATE TABLE game (id integer primary key, name text, exe_path text)"@
            ==> table_ready(*conn) && db_wf(db_games(*conn)),
        r matches Ok(None) ==> db_games(*conn) == Seq::<(int, Seq<char>, Seq<char>)>::empty(),
{
    let mut st = conn.prepare("select sql from sqlite_master where type = 'table' and name = 'game'")?;
    match st.next()? {
        sqlite::State::Row => Ok(Some(st.read::<String, _>(0)?)),
        sqlite::State::Done => Ok(None),
    }
}

/// Relies on sqlite::Statement::{bind, next} running a bound `INSERT` on a
/// table of the library's shape: on success SQLite appends one row whose
/// rowid is one more than the largest in use (one on an empty table), and
/// picks some unused id instead when that would overflow; a failed
/// statement leaves the table unchanged, and no statement changes the
/// table's shape. Texts with an interior NUL are left out by `requires`:
/// the crate binds them whole but reads them back only up to the NUL.
#[verifier::external_body]
pub(crate) fn insert_game(conn: &mut sqlite::Connection, name: &str, exe_path: &str) -> (r: Result<
    (),
    sqlite::Error,
>)
    requires
        table_ready(*old(conn)),
        !has_nul(name@),
        !has_nul(exe_path@),
    ensures
        table_ready(*final(conn)),
        r matches Err(_) ==> db_games(*final(conn)) == db_games(*old(conn)),
        (r matches Ok(_) && can_assign(db_games(*old(conn)))) ==> db_games(*final(conn)) == add_row(
            db_games(*old(conn)),
            name@,
            exe_path@,
        ),
        r matches Ok(_) ==> exists|k: int|
            #![auto]
            {
                &&& db_games(*final(conn)).to_multiset() == db_games(*old(conn)).to_multiset().insert(
                    (k, name@, exe_path@),
                )
                &&& !has_id(db_games(*old(conn)), k)
            },
        db_wf(db_games(*old(conn))) ==> db_wf(db_games(*final(conn))),
{
    let mut st = conn.prepare("insert into game (name, exe_path) values (?, ?)")?;
    st.bind((1, name))?;
    st.bind((2, exe_path))?;
    st.next()?;
    Ok(())
}

/// Relies on sqlite::Statement::{bind, next} running a bound `DELETE` on a
/// table of the library's shape, where the `id` column is the integer
/// rowid the bound value compares against directly: on success every row
/// carrying the given id is gone and the others keep their order; a failed
/// statement leaves the table unchanged, and no statement changes the
/// table's shape.
#[verifier::external_body]
pub(crate) fn delete_game_row(conn: &mut sqlite::Connection, id: i64) -> (r: Result<
    (),
    sqlite::Error,
>)
    requires
        table_ready(*old(conn)),
    ensures
        table_ready(*final(conn)),
        r matches Err(_) ==> db_games(*final(conn)) == db_games(*old(conn)),
        r matches Ok(_) ==> db_games(*final(conn)) == remove_row(db_games(*old(conn)), id as int),
{
    let mut st = conn.prepare("delete from game where id = ?")?;
    st.bind((1, id))?;
    st.next()?;
    Ok(())
}

/// Relies on sqlite::Connection::prepare with a fixed `SELECT` over the
/// `game` table: the statement will yield every row of the table exactly
/// once, in an order the engine does not promise.
#[verifier::external_body]
pub(crate) fn prepare_list(conn: &sqlite::Connection) -> (r: Result<
    sqlite::Statement<'_>,
    sqlite::Error,
>)
    ensures
        r matches Ok(st) ==> cursor_rows(st).to_multiset() == db_games(*conn).to_multiset(),
{
    conn.prepare("select id, name, exe_path from game")
}

/// Relies on sqlite::Statement::{next, read}: stepping a listing statement
/// either yields the columns of its next pending row or reports that none
/// are left.
#[verifier::external_body]
pub(crate) fn next_listed_row(st: &mut sqlite::Statement<'_>) -> (r: Result<
    Option<(i64, String, String)>,
    sqlite::Error,
>)
    ensures
        r matches Ok(Some(row)) ==> {
            &&& cursor_rows(*old(st)).len() > 0
            &&& (row.0 as int, row.1@, row.2@) == cursor_rows(*old(st))[0]
            &&& cursor_rows(*final(st)) == cursor_rows(*old(st)).drop_first()
        },
        r matches Ok(None) ==> cursor_rows(*old(st)).len() == 0,
{
    match st.next()? {
        sqlite::State::Done => Ok(None),
        sqlite::State::Row => {
            let id = st.read::<i64, _>("id")?;
            let name = st.read::<String, _>("name")?;
            let exe_path = st.read::<String, _>("exe_path")?;
            Ok(Some((id, name, exe_path)))
        },
    }
}

} // verus!
