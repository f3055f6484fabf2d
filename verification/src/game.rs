use vstd::prelude::*;

verus! {

/// A game record: a display name and the path of its executable.
///
/// The store assigns `id` when a game is inserted; a game built by the
/// caller and not yet persisted carries `id == None`.
#[derive(Debug)]
pub struct Game {
    pub id: Option<i64>,
    pub name: String,
    pub exe_path: String,
}

/// The table row that a persisted game stands for: its assigned id and
/// the two text columns. Meaningful only for games whose `id` is present,
/// as every game returned by the store is.
pub open spec fn listed_row(g: Game) -> (int, Seq<char>, Seq<char>) {
    (
        match g.id {
            Some(k) => k as int,
            None => 0,
        },
        g.name@,
        g.exe_path@,
    )
}

/// The rows that a sequence of listed games stands for.
pub open spec fn rows_of(games: Seq<Game>) -> Seq<(int, Seq<char>, Seq<char>)> {
    games.map_values(|g: Game| listed_row(g))
}

} // verus!
