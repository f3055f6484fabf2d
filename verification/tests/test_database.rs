use game_launcher::game::Game;
use game_launcher::store::{Integration, StoreError};

// An in-memory database keeps each test independent of the others and of
// leftover files.
fn integration() -> Integration {
    let db_path = String::from(":memory:");
    let mut integration = Integration::new(db_path).unwrap();

    integration.create_table().unwrap();
    integration
}

fn dummy() -> Game {
    Game {
        id: None,
        name: String::from("dummy"),
        exe_path: String::from("dummy.exe"),
    }
}

#[test]
fn test_add_game() {
    let mut integration = integration();
    let game = dummy();

    integration.add_game(game).unwrap();

    let games = integration.list_all().unwrap();
    assert_eq!(games.len(), 1);
}

#[test]
fn test_delete_game() {
    let mut integration = integration();
    let id = 1;

    integration.delete_game(id).unwrap();

    let games = integration.list_all().unwrap();
    assert_eq!(games.len(), 0);
}

#[test]
fn added_game_is_listed_once_with_its_id() {
    let mut integration = integration();
    integration.add_game(dummy()).unwrap();
    integration
        .add_game(Game {
            id: None,
            name: String::from("other"),
            exe_path: String::from("other.exe"),
        })
        .unwrap();

    let games = integration.list_all().unwrap();
    assert_eq!(games.len(), 2);
    let matching: Vec<&Game> = games
        .iter()
        .filter(|g| g.name == "dummy" && g.exe_path == "dummy.exe")
        .collect();
    assert_eq!(matching.len(), 1);
    assert_eq!(matching[0].id, Some(1));
}

#[test]
fn caller_supplied_id_is_ignored_on_insert() {
    let mut integration = integration();
    integration
        .add_game(Game {
            id: Some(77),
            name: String::from("dummy"),
            exe_path: String::from("dummy.exe"),
        })
        .unwrap();

    let games = integration.list_all().unwrap();
    assert_eq!(games.len(), 1);
    assert_eq!(games[0].id, Some(1));
}

#[test]
fn delete_existing_removes_exactly_that_record() {
    let mut integration = integration();
    integration.add_game(dummy()).unwrap();
    integration
        .add_game(Game {
            id: None,
            name: String::from("other"),
            exe_path: String::from("other.exe"),
        })
        .unwrap();

    integration.delete_game(1).unwrap();

    let games = integration.list_all().unwrap();
    assert_eq!(games.len(), 1);
    assert_eq!(games[0].id, Some(2));
    assert_eq!(games[0].name, "other");
    assert_eq!(games[0].exe_path, "other.exe");
}

#[test]
fn delete_missing_id_changes_nothing_and_does_not_fail() {
    let mut integration = integration();
    integration.add_game(dummy()).unwrap();

    integration.delete_game(42).unwrap();

    let games = integration.list_all().unwrap();
    assert_eq!(games.len(), 1);
    assert_eq!(games[0].id, Some(1));
    assert_eq!(games[0].name, "dummy");
}

#[test]
fn duplicate_names_are_kept_apart_by_id() {
    let mut integration = integration();
    integration.add_game(dummy()).unwrap();
    integration.add_game(dummy()).unwrap();

    let mut games = integration.list_all().unwrap();
    games.sort_by_key(|g| g.id);
    assert_eq!(games.len(), 2);
    assert_eq!(games[0].id, Some(1));
    assert_eq!(games[1].id, Some(2));
    assert!(games.iter().all(|g| g.name == "dummy" && g.exe_path == "dummy.exe"));
}

#[test]
fn add_list_delete_round_trip() {
    let mut integration = integration();

    integration
        .add_game(Game {
            id: None,
            name: String::from("dummy"),
            exe_path: String::from("dummy.exe"),
        })
        .unwrap();
    assert_eq!(integration.list_all().unwrap().len(), 1);

    integration.delete_game(1).unwrap();
    assert_eq!(integration.list_all().unwrap().len(), 0);
}

#[test]
fn listing_an_empty_table_yields_nothing() {
    let integration = integration();
    assert_eq!(integration.list_all().unwrap().len(), 0);
}

#[test]
fn opening_an_impossible_path_is_a_connection_error() {
    let err = Integration::new(String::from("no_such_directory/nested/game.db"));
    assert!(matches!(err.err().unwrap(), StoreError::ConnectionError));
}

#[test]
fn writing_without_a_table_is_a_write_error() {
    let mut integration = Integration::new(String::from(":memory:")).unwrap();
    let err = integration.add_game(dummy());
    assert!(matches!(err.err().unwrap(), StoreError::WriteError));
}

#[test]
fn listing_without_a_table_is_a_write_error() {
    let integration = Integration::new(String::from(":memory:")).unwrap();
    let err = integration.list_all();
    assert!(matches!(err.err().unwrap(), StoreError::WriteError));
}

#[test]
fn names_with_an_interior_nul_are_refused() {
    let mut integration = integration();
    let err = integration.add_game(Game {
        id: None,
        name: String::from("du\0mmy"),
        exe_path: String::from("dummy.exe"),
    });
    assert!(matches!(err.err().unwrap(), StoreError::WriteError));
    assert_eq!(integration.list_all().unwrap().len(), 0);

    let err = integration.add_game(Game {
        id: None,
        name: String::from("dummy"),
        exe_path: String::from("dummy\0.exe"),
    });
    assert!(matches!(err.err().unwrap(), StoreError::WriteError));
    assert_eq!(integration.list_all().unwrap().len(), 0);
}

#[test]
fn create_table_is_idempotent_and_keeps_rows() {
    let mut integration = integration();
    integration.add_game(dummy()).unwrap();

    integration.create_table().unwrap();

    let games = integration.list_all().unwrap();
    assert_eq!(games.len(), 1);
    assert_eq!(games[0].id, Some(1));
}

#[test]
fn stored_schema_text_has_the_expected_form() {
    // The store's schema check compares against the exact text SQLite
    // keeps in sqlite_master for the library's DDL.
    let conn = sqlite::Connection::open(":memory:").unwrap();
    conn.execute("create table if not exists game (id integer primary key, name text, exe_path text)")
        .unwrap();
    let mut st = conn
        .prepare("select sql from sqlite_master where type = 'table' and name = 'game'")
        .unwrap();
    assert!(matches!(st.next().unwrap(), sqlite::State::Row));
    let sql = st.read::<String, _>(0).unwrap();
    assert_eq!(
        sql,
        "CREATE TABLE game (id integer primary key, name text, exe_path text)"
    );
}

#[test]
fn a_file_that_is_no_database_is_a_connection_error() {
    // The package manifest exists in the test's working directory but holds
    // no database, so the file cannot be opened as one.
    let err = Integration::new(String::from("Cargo.toml"));
    assert!(matches!(err.err().unwrap(), StoreError::ConnectionError));
}
