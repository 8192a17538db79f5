use runeweb::scripts::scripts_loaded;

#[test]
fn all_loaded_is_ok() {
    let outcomes: Vec<Option<Result<(), String>>> = vec![Some(Ok(())), Some(Ok(()))];
    assert_eq!(scripts_loaded(outcomes), Ok(()));
    let none: Vec<Option<Result<(), String>>> = Vec::new();
    assert_eq!(scripts_loaded(none), Ok(()));
}

#[test]
fn first_failure_is_reported() {
    let outcomes = vec![
        Some(Ok(())),
        Some(Err(String::from("first"))),
        None,
        Some(Err(String::from("second"))),
    ];
    assert_eq!(scripts_loaded(outcomes), Err(String::from("first")));
}

#[test]
fn tasks_without_outcome_are_passed_over() {
    let outcomes: Vec<Option<Result<(), String>>> = vec![None, None, Some(Ok(()))];
    assert_eq!(scripts_loaded(outcomes), Ok(()));
    let outcomes = vec![None, Some(Err(String::from("bad")))];
    assert_eq!(scripts_loaded(outcomes), Err(String::from("bad")));
}
