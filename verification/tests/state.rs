use nixpr::state::{
    load_processed, mark_processed, reset, save_processed, StateError, Stored,
};
use std::collections::HashSet;

fn set_of(numbers: &[u64]) -> HashSet<u64> {
    numbers.iter().copied().collect()
}

fn load_text(text: &str) -> Result<HashSet<u64>, StateError> {
    load_processed(Stored::Text(text.to_string()))
}

#[test]
fn missing_state_is_the_empty_set() {
    assert_eq!(load_processed(Stored::Absent), Ok(HashSet::new()));
}

#[test]
fn unreadable_state_is_an_error() {
    assert_eq!(
        load_processed(Stored::Unreadable("denied".to_string())),
        Err(StateError::Unreadable("denied".to_string()))
    );
}

#[test]
fn documents_are_read_as_sets() {
    assert_eq!(load_text("[]"), Ok(HashSet::new()));
    assert_eq!(load_text("[1, 2, 3]"), Ok(set_of(&[1, 2, 3])));
    assert_eq!(load_text(" [\n  7,\n  7\n]\n"), Ok(set_of(&[7])));
    assert_eq!(load_text("[18446744073709551615]"), Ok(set_of(&[u64::MAX])));
}

#[test]
fn corrupt_state_is_an_error_and_no_empty_set() {
    for text in ["", "[", "{}", "[1,]", "[-1]", "[1.5]", "[\"1\"]", "[18446744073709551616]", "[] x"]
    {
        match load_text(text) {
            Err(StateError::Malformed(cause)) => assert!(!cause.is_empty()),
            other => panic!("{:?} was read as {:?}", text, other),
        }
    }
}

#[test]
fn saved_state_loads_again() {
    for numbers in [&[][..], &[5][..], &[3, 1, 2, u64::MAX, 0][..]] {
        let processed = set_of(numbers);
        let text = match save_processed(&processed) {
            Ok(text) => text,
            Err(_) => panic!("a document expected"),
        };
        assert_eq!(load_text(&text), Ok(processed));
    }
}

#[test]
fn saved_state_is_pretty_json() {
    assert_eq!(save_processed(&set_of(&[])), Ok("[]".to_string()));
    assert_eq!(save_processed(&set_of(&[42])), Ok("[\n  42\n]".to_string()));
}

#[test]
fn a_document_is_always_produced() {
    assert_eq!(reset(), Ok("[]".to_string()));
    assert!(save_processed(&set_of(&[])).is_ok());
    assert!(save_processed(&set_of(&[0, u64::MAX])).is_ok());
    let many: HashSet<u64> = (0..5000).collect();
    let text = save_processed(&many);
    assert!(text.is_ok());
    assert_eq!(load_text(&text.unwrap()), Ok(many));
}

#[test]
fn mark_processed_inserts() {
    let mut processed = HashSet::new();
    mark_processed(&mut processed, 3);
    mark_processed(&mut processed, 5);
    mark_processed(&mut processed, 3);
    assert_eq!(processed, set_of(&[3, 5]));
}

#[test]
fn reset_then_load_is_empty() {
    let mut processed = set_of(&[1, 2, 3]);
    mark_processed(&mut processed, 4);
    let before = save_processed(&processed);
    assert!(before.is_ok());
    let cleared = match reset() {
        Ok(text) => text,
        Err(_) => panic!("a document expected"),
    };
    assert_eq!(load_text(&cleared), Ok(HashSet::new()));
}

#[test]
fn state_error_messages() {
    assert_eq!(
        StateError::Unreadable("a".to_string()).message(),
        "Failed to read state: a"
    );
    assert_eq!(
        StateError::Malformed("b".to_string()).message(),
        "Failed to parse state: b"
    );
    assert_eq!(
        StateError::Unserializable("c".to_string()).message(),
        "Failed to serialize state: c"
    );
    assert_eq!(
        StateError::Unwritable("d".to_string()).message(),
        "Failed to write state: d"
    );
}
