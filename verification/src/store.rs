use vstd::prelude::*;

use crate::db::{
    create_game_table, cursor_rows, db_games, delete_game_row, insert_game, next_listed_row,
    open_db, prepare_list, read_game_table_sql, table_ready,
};
use crate::game::{listed_row, rows_of, Game};
use crate::model::{
    add_row, can_assign, db_wf, has_id, has_nul, lemma_delete_keeps_wf, remove_row,
};
use vstd::string::{StrSliceExecFns, StringExecFns};

verus! {

/// How a store operation fails, surfaced to the immediate caller.
#[derive(Clone, Copy, Debug, PartialEq, Eq, Structural)]
pub enum StoreError {
    /// The database file could not be opened or created.
    ConnectionError,
    /// Setting up the table failed.
    SchemaError,
    /// An insert, delete or read failed on the storage side.
    WriteError,
}

/// The store of game records: a connection to a local database file holding
/// one `game` table. Its abstract state is the table's rows in id order,
/// `self.games()`.
pub struct Integration {
    conn: sqlite::Connection,
}

/// Whether the text holds an interior NUL character.
fn contains_nul(s: &str) -> (r: bool)
    ensures
        r == has_nul(s@),
{
    let len = s.unicode_len();
    let mut i: usize = 0;
    while i < len
        invariant
            len as nat == s@.len(),
            0 <= i <= len,
            forall|j: int| 0 <= j < i ==> s@[j] != '\0',
        decreases len - i,
    {
        if s.get_char(i) == '\0' {
            return true;
        }
        i += 1;
    }
    false
}

impl Integration {
    /// The rows of the store's `game` table, in id order.
    pub closed spec fn games(&self) -> Seq<(int, Seq<char>, Seq<char>)> {
        db_games(self.conn)
    }

    /// The store's table has the library's own schema, so the wrappers'
    /// accounts of the statements they run apply to it. Established by
    /// `create_table` and preserved by every operation.
    pub closed spec fn ready(&self) -> bool {
        table_ready(self.conn)
    }

    /// The store's invariant: ids strictly increasing and within the
    /// 64-bit id column. Established by `create_table` and preserved by
    /// every operation.
    pub open spec fn wf(&self) -> bool {
        db_wf(self.games())
    }

    /// Opens or creates the database file at `db_name`; the connection
    /// error comes back when it cannot be. Nothing is assumed of what the
    /// file holds: `create_table` checks the schema and establishes the
    /// store's invariants.
    pub fn new(db_name: String) -> (r: Result<Integration, StoreError>)
        ensures
            r matches Err(e) ==> e == StoreError::ConnectionError,
    {
        match open_db(&db_name) {
            Ok(conn) => Ok(Integration { conn }),
            Err(_) => Err(StoreError::ConnectionError),
        }
    }

    /// Inserts `game` as a new row; the store assigns the id, and an id
    /// the caller put into `game` is ignored. On success, while the
    /// assigned id fits the id column, the table afterward is the old one
    /// with the new row appended under the next id; if it no longer fits,
    /// some unused id is assigned instead. On failure the write error
    /// comes back and the table is unchanged; a name or path with an
    /// interior NUL, which the table cannot hold readably, is refused that
    /// way without touching the store. The store stays ready and well
    /// formed.
    pub fn add_game(&mut self, game: Game) -> (r: Result<(), StoreError>)
        requires
            old(self).wf(),
            old(self).ready(),
        ensures
            final(self).wf(),
            final(self).ready(),
            (has_nul(game.name@) || has_nul(game.exe_path@)) ==> r is Err,
            (r matches Ok(_) && can_assign(old(self).games())) ==> final(self).games() == add_row(
                old(self).games(),
                game.name@,
                game.exe_path@,
            ),
            r matches Ok(_) ==> exists|k: int|
                #![auto]
                {
                    &&& final(self).games().to_multiset() == old(
                        self,
                    ).games().to_multiset().insert((k, game.name@, game.exe_path@))
                    &&& !has_id(old(self).games(), k)
                },
            r matches Err(e) ==> final(self).games() == old(self).games() && e
                == StoreError::WriteError,
    {
        if contains_nul(game.name.as_str()) || contains_nul(game.exe_path.as_str()) {
            return Err(StoreError::WriteError);
        }
        match insert_game(&mut self.conn, game.name.as_str(), game.exe_path.as_str()) {
            Ok(()) => Ok(()),
            Err(_) => Err(StoreError::WriteError),
        }
    }

    /// Removes the row carrying `id`; a no-op, not an error, when no row
    /// does. On success the table afterward is the old one with every row
    /// carrying `id` taken out, the others kept in order; on failure the
    /// write error comes back and the table is unchanged. The store stays
    /// ready and well formed.
    pub fn delete_game(&mut self, id: i64) -> (r: Result<(), StoreError>)
        requires
            old(self).wf(),
            old(self).ready(),
        ensures
            final(self).wf(),
            final(self).ready(),
            r matches Ok(_) ==> final(self).games() == remove_row(old(self).games(), id as int),
            r matches Err(e) ==> final(self).games() == old(self).games() && e
                == StoreError::WriteError,
    {
        let r = delete_game_row(&mut self.conn, id);
        proof {
            lemma_delete_keeps_wf(old(self).games(), id as int);
        }
        match r {
            Ok(()) => Ok(()),
            Err(_) => Err(StoreError::WriteError),
        }
    }

    /// Ensures the `game` table exists with the library's schema, a no-op
    /// when it already does: the table's rows are untouched either way.
    /// On success the store is ready and well formed — the stored schema
    /// was read back and matched. A DDL failure, and a pre-existing
    /// `game` table of some other shape, come back as the schema error.
    pub fn create_table(&mut self) -> (r: Result<(), StoreError>)
        ensures
            final(self).games() == old(self).games(),
            r matches Ok(_) ==> final(self).ready() && final(self).wf(),
            r matches Err(e) ==> e == StoreError::SchemaError,
    {
        if create_game_table(&mut self.conn).is_err() {
            return Err(StoreError::SchemaError);
        }
        match read_game_table_sql(&self.conn) {
            Ok(Some(sql)) => {
                let expected = String::from_str(
                    "CREATE TABLE game (id integer primary key, name text, exe_path text)",
                );
                if sql == expected {
                    Ok(())
                } else {
                    Err(StoreError::SchemaError)
                }
            },
            Ok(None) => Err(StoreError::SchemaError),
            Err(_) => Err(StoreError::SchemaError),
        }
    }

    /// Returns all stored games, in an order the store does not promise:
    /// on success the returned games stand for exactly the rows of the
    /// table, each under its assigned id. An empty table yields the empty
    /// vector; only a storage failure yields the write error.
    pub fn list_all(&self) -> (r: Result<Vec<Game>, StoreError>)
        ensures
            r matches Ok(v) ==> {
                &&& rows_of(v@).to_multiset() == self.games().to_multiset()
                &&& forall|i: int| 0 <= i < v@.len() ==> (#[trigger] v@[i]).id is Some
            },
            r matches Err(e) ==> e == StoreError::WriteError,
    {
        broadcast use vstd::seq_lib::group_to_multiset_ensures;
        broadcast use vstd::multiset::group_multiset_axioms;

        let ghost all = self.games().to_multiset();
        let mut st = match prepare_list(&self.conn) {
            Ok(st) => st,
            Err(_) => return Err(StoreError::WriteError),
        };
        let mut out: Vec<Game> = Vec::new();
        proof {
            assert(rows_of(out@) =~= Seq::<(int, Seq<char>, Seq<char>)>::empty());
            assert(rows_of(out@).to_multiset().add(cursor_rows(st).to_multiset()) =~= all);
        }
        loop
            invariant
                rows_of(out@).to_multiset().add(cursor_rows(st).to_multiset()) == all,
                all == self.games().to_multiset(),
                forall|i: int| 0 <= i < out@.len() ==> (#[trigger] out@[i]).id is Some,
            decreases cursor_rows(st).len(),
        {
            let ghost pending = cursor_rows(st);
            let ghost listed = rows_of(out@);
            match next_listed_row(&mut st) {
                Ok(Some(row)) => {
                    let (id, name, exe_path) = row;
                    let g = Game { id: Some(id), name, exe_path };
                    proof {
                        let head = pending[0];
                        assert(listed_row(g) == head);
                        assert(pending.contains(head));
                        vstd::seq_lib::to_multiset_contains(pending, head);
                        assert(pending.to_multiset().count(head) > 0);
                        assert(cursor_rows(st) =~= pending.remove(0));
                        vstd::seq_lib::to_multiset_remove(pending, 0);
                        assert(cursor_rows(st).to_multiset() =~= pending.to_multiset().remove(
                            head,
                        ));
                        assert(rows_of(out@.push(g)) =~= listed.push(head));
                        vstd::seq_lib::to_multiset_build(listed, head);
                        assert(rows_of(out@.push(g)).to_multiset() =~= listed.to_multiset().insert(
                            head,
                        ));
                        assert(listed.to_multiset().insert(head).add(
                            pending.to_multiset().remove(head),
                        ) =~= listed.to_multiset().add(pending.to_multiset()));
                    }
                    out.push(g);
                },
                Ok(None) => {
                    proof {
                        assert(pending =~= Seq::<(int, Seq<char>, Seq<char>)>::empty());
                        vstd::seq_lib::to_multiset_len(pending);
                        assert(pending.to_multiset().len() == 0);
                        vstd::multiset::lemma_multiset_empty_len(pending.to_multiset());
                        assert(listed.to_multiset().add(pending.to_multiset()) =~= listed
                            .to_multiset());
                    }
                    return Ok(out);
                },
                Err(_) => {
                    return Err(StoreError::WriteError);
                },
            }
        }
    }
}

} // verus!
