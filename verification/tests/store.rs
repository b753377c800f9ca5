use litask_store::store::{
    apply_load, apply_save, complete_load, empty_document_text, FileState, ReadOutcome,
};

const EMPTY_DOCUMENT: &str = "{\"tasks\":[],\"projects\":[]}";

#[test]
fn empty_document_text_is_the_canonical_default() {
    assert_eq!(empty_document_text(), EMPTY_DOCUMENT.to_string());
}

#[test]
fn round_trip_returns_the_saved_text() {
    let mut state = FileState { dir_exists: true, contents: None };
    let text = "{\"tasks\":[{\"id\":7,\"name\":\"write tests\"}],\"projects\":[]}";
    apply_save(&mut state, text.to_string());
    assert_eq!(apply_load(&state), text.to_string());
}

#[test]
fn missing_file_load_returns_default_and_writes_nothing() {
    let state = FileState { dir_exists: true, contents: None };
    assert_eq!(apply_load(&state), EMPTY_DOCUMENT.to_string());
    assert!(state.contents.is_none());
}

#[test]
fn saving_twice_leaves_exactly_the_text() {
    let mut state = FileState { dir_exists: false, contents: None };
    let text = "{\"tasks\":[{\"id\":1}],\"projects\":[]}";
    apply_save(&mut state, text.to_string());
    apply_save(&mut state, text.to_string());
    assert_eq!(state.contents, Some(text.to_string()));
    assert_eq!(apply_load(&state), text.to_string());
}

#[test]
fn a_later_save_fully_replaces_an_earlier_one() {
    let mut state = FileState { dir_exists: true, contents: None };
    apply_save(&mut state, "{\"tasks\":[{\"id\":1}],\"projects\":[]}".to_string());
    apply_save(&mut state, "{\"tasks\":[],\"projects\":[{\"id\":2}]}".to_string());
    assert_eq!(
        apply_load(&state),
        "{\"tasks\":[],\"projects\":[{\"id\":2}]}".to_string()
    );
}

#[test]
fn save_creates_the_missing_directory() {
    let mut state = FileState { dir_exists: false, contents: None };
    apply_save(&mut state, "{\"tasks\":[],\"projects\":[]}".to_string());
    assert!(state.dir_exists);
    assert_eq!(apply_load(&state), EMPTY_DOCUMENT.to_string());
}

#[test]
fn fresh_environment_scenario() {
    let mut state = FileState { dir_exists: false, contents: None };
    assert_eq!(apply_load(&state), "{\"tasks\":[],\"projects\":[]}".to_string());
    apply_save(&mut state, "{\"tasks\":[{\"id\":1}],\"projects\":[]}".to_string());
    assert_eq!(
        apply_load(&state),
        "{\"tasks\":[{\"id\":1}],\"projects\":[]}".to_string()
    );
}

#[test]
fn complete_load_hands_back_the_text_that_was_read() {
    let r = complete_load(ReadOutcome::Found("{\"tasks\":[],\"projects\":[4]}".to_string()));
    assert_eq!(r, Ok("{\"tasks\":[],\"projects\":[4]}".to_string()));
}

#[test]
fn complete_load_of_a_missing_file_is_the_default() {
    let r = complete_load(ReadOutcome::Missing);
    assert_eq!(r, Ok(EMPTY_DOCUMENT.to_string()));
}

#[test]
fn complete_load_propagates_a_failed_read() {
    let r = complete_load(ReadOutcome::Failed("permission denied".to_string()));
    assert_eq!(r, Err("permission denied".to_string()));
}
