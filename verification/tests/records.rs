use log_relay::records::create;
use log_relay::records::detail;
use log_relay::records::list;
use log_relay::records::RecordNotFound;

#[test]
fn listing_returns_the_records_of_the_store() {
    let answer: Result<Vec<&str>, String> = Ok(vec!["first", "second"]);
    assert_eq!(list(answer), vec!["first", "second"]);
    let none: Result<Vec<&str>, String> = Ok(vec![]);
    assert!(list(none).is_empty());
}

#[test]
fn listing_is_empty_when_store_is_unreachable() {
    let answer: Result<Vec<u32>, String> = Err("connection refused".to_string());
    assert_eq!(list(answer), Vec::<u32>::new());
}

#[test]
fn lookup_returns_the_record_of_the_store() {
    let answer: Result<(u64, &str), String> = Ok((7, "seven"));
    assert_eq!(detail(answer), Ok((7, "seven")));
}

#[test]
fn failed_lookup_is_not_found() {
    let answer: Result<(u64, &str), String> = Err("no rows".to_string());
    assert_eq!(detail(answer), Err(RecordNotFound));
    assert_eq!(RecordNotFound.name(), "RecordNotFound");
}

#[test]
fn repeated_lookup_gives_identical_content() {
    let stored: Result<(u64, String), String> = Ok((3, "title".to_string()));
    let first = detail(stored.clone());
    let second = detail(stored.clone());
    assert_eq!(first, second);
    assert_eq!(first, Ok((3, "title".to_string())));
    let missing: Result<(u64, String), String> = Err("gone".to_string());
    assert_eq!(detail(missing.clone()), detail(missing));
}

#[test]
fn creation_is_acknowledged() {
    assert_eq!(create(), "OK");
}
