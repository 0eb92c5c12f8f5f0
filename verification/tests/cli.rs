use hermes::cli::{parse_args, Command, DEFAULT_TRACKING, SUCCESS, USAGE};
use hermes::zone::Zone;

fn args(words: &[&str]) -> Vec<String> {
    words.iter().map(|w| w.to_string()).collect()
}

#[test]
fn add_with_zone_and_code() {
    match parse_args(&args(&["hermes-cli", "add", "e3", "1Z-999"])) {
        Command::Add { zone, tracking } => {
            assert_eq!(zone, Zone::E3);
            assert_eq!(tracking, "1Z-999");
        }
        other => panic!("not add: {:?}", other),
    }
}

#[test]
fn add_without_code_takes_the_placeholder() {
    match parse_args(&args(&["hermes-cli", "add", "A"])) {
        Command::Add { zone, tracking } => {
            assert_eq!(zone, Zone::A);
            assert_eq!(tracking, "TEST123");
            assert_eq!(tracking, DEFAULT_TRACKING);
        }
        other => panic!("not add: {:?}", other),
    }
}

#[test]
fn further_arguments_are_ignored() {
    match parse_args(&args(&["hermes-cli", "add", "B", "X1", "extra", "more"])) {
        Command::Add { zone, tracking } => {
            assert_eq!(zone, Zone::B);
            assert_eq!(tracking, "X1");
        }
        other => panic!("not add: {:?}", other),
    }
}

#[test]
fn add_with_an_unknown_zone_is_refused() {
    match parse_args(&args(&["hermes-cli", "add", "Q7", "X1"])) {
        Command::BadZone { message } => assert_eq!(message, "unknown zone: Q7"),
        other => panic!("not refused: {:?}", other),
    }
}

#[test]
fn anything_else_asks_for_the_usage_line() {
    for words in [
        vec![],
        vec!["hermes-cli"],
        vec!["hermes-cli", "add"],
        vec!["hermes-cli", "ADD", "A", "X1"],
        vec!["hermes-cli", "remove", "A", "X1"],
        vec!["hermes-cli", "", "A"],
        vec!["add", "A", "X1"],
    ] {
        assert!(matches!(parse_args(&args(&words)), Command::Usage));
    }
}

#[test]
fn fixed_texts() {
    assert_eq!(SUCCESS, "OK");
    assert_eq!(USAGE, "usage: hermes-cli add <ZONE> <TRACKING>");
}
