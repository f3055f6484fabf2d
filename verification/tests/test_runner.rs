use game_launcher::runner::ExeRunner;

#[test]
fn check_path_validation() {
    let invalid_path = String::from("exe.exe");
    let result = ExeRunner::check_for_valid_path(&invalid_path);

    assert_eq!(result, false);
}

#[test]
fn test_run_invalid_path() {
    let invalid_path = String::from("exe.exe");
    let err = ExeRunner::new(invalid_path);

    // after the path validation it's safe to unwrap
    // because the struct won't give a new instance if the path is invalid.
    assert_eq!(err.err().unwrap(), "Invalid Path");
}

#[test]
fn check_existing_path_is_valid() {
    // The current directory always exists.
    let path = String::from(".");
    assert_eq!(ExeRunner::check_for_valid_path(&path), true);
}

#[test]
fn runner_for_existing_path_holds_it() {
    let path = String::from(".");
    let runner = ExeRunner::new(path).unwrap();
    assert_eq!(runner.exe_path(), ".");
}

#[test]
fn from_validated_follows_the_validation() {
    let ok = ExeRunner::from_validated(String::from("game.exe"), true);
    assert_eq!(ok.unwrap().exe_path(), "game.exe");

    let err = ExeRunner::from_validated(String::from("game.exe"), false);
    assert_eq!(err.err().unwrap(), "Invalid Path");
}
