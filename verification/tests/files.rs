use avm_engine::file_reference::{
    browse, get_data, get_name, get_size, load, FileDialogResult, FileEvent, FileFilterCandidate,
    FileReference, FileReferenceError, FileReferenceObject,
};
use avm_engine::value::Value;

fn selected(name: Option<&str>, size: Option<u64>, contents: &[u8]) -> FileReferenceObject {
    FileReferenceObject {
        file_reference: FileReference::Selected(FileDialogResult {
            file_name: name.map(|n| n.to_string()),
            size,
            contents: contents.to_vec(),
        }),
        loaded: false,
    }
}

#[test]
fn getters_fail_before_selection() {
    let this = FileReferenceObject::new();
    assert_eq!(get_name(&this), Err(FileReferenceError::InvalidCallSequence));
    assert_eq!(get_size(&this), Err(FileReferenceError::InvalidCallSequence));
    assert_eq!(FileReferenceError::InvalidCallSequence.code(), 2037);
}

#[test]
fn data_is_absent_until_loaded() {
    let mut this = selected(Some("movie.swf"), Some(3), b"abc");
    assert_eq!(get_data(&this), None);
    let mut events: Vec<FileEvent> = Vec::new();
    load(&mut this, &mut events).unwrap();
    assert_eq!(get_data(&this), Some(b"abc".to_vec()));
}

#[test]
fn data_is_null_without_selection() {
    let this = FileReferenceObject::new();
    assert_eq!(get_data(&this), None);
}

#[test]
fn name_and_size_of_a_selection() {
    let this = selected(Some("movie.swf"), Some(1234), b"");
    assert_eq!(get_name(&this), Ok(Value::Str("movie.swf".to_string())));
    assert_eq!(get_size(&this), Ok(Value::Number(1234)));
}

#[test]
fn missing_name_and_size_default() {
    let this = selected(None, None, b"");
    assert_eq!(get_name(&this), Ok(Value::Str(String::new())));
    assert_eq!(get_size(&this), Ok(Value::Number(0)));
}

#[test]
fn load_dispatches_the_event_sequence() {
    let mut this = selected(Some("movie.swf"), Some(10), b"0123456789");
    let mut events: Vec<FileEvent> = Vec::new();
    let result = load(&mut this, &mut events);
    assert_eq!(result, Ok(Value::Undefined));
    assert!(this.loaded);
    assert_eq!(
        events,
        vec![
            FileEvent::Open,
            FileEvent::Progress { loaded: 0, total: 10 },
            FileEvent::Open,
            FileEvent::Progress { loaded: 10, total: 10 },
            FileEvent::Complete,
        ]
    );
}

#[test]
fn load_fails_without_selection() {
    let mut this = FileReferenceObject::new();
    let mut events: Vec<FileEvent> = Vec::new();
    assert_eq!(
        load(&mut this, &mut events),
        Err(FileReferenceError::InvalidCallSequence)
    );
    assert!(events.is_empty());
    assert!(!this.loaded);
}

fn candidate(description: Value, extension: Value, mac_type: Value) -> FileFilterCandidate {
    FileFilterCandidate { description, extension, mac_type }
}

#[test]
fn browse_accepts_valid_filters() {
    let candidates = vec![
        candidate(
            Value::Str("Movies".to_string()),
            Value::Str("*.swf".to_string()),
            Value::Str("SWFL".to_string()),
        ),
        candidate(
            Value::Str("Images".to_string()),
            Value::Str("*.png;*.jpg".to_string()),
            Value::Undefined,
        ),
    ];
    let filters = browse(&candidates).expect("both filters are valid");
    assert_eq!(filters.len(), 2);
    assert_eq!(filters[0].description, "Movies");
    assert_eq!(filters[0].extensions, "*.swf");
    assert_eq!(filters[0].mac_type, Some("SWFL".to_string()));
    assert_eq!(filters[1].description, "Images");
    assert_eq!(filters[1].mac_type, None);
}

#[test]
fn browse_drops_empty_mac_type() {
    let candidates = vec![candidate(
        Value::Str("Movies".to_string()),
        Value::Str("*.swf".to_string()),
        Value::Str(String::new()),
    )];
    let filters = browse(&candidates).unwrap();
    assert_eq!(filters[0].mac_type, None);
}

#[test]
fn browse_rejects_empty_description() {
    let candidates = vec![candidate(
        Value::Str(String::new()),
        Value::Str("*.swf".to_string()),
        Value::Undefined,
    )];
    assert!(matches!(
        browse(&candidates),
        Err(FileReferenceError::InvalidFileFilter)
    ));
    assert_eq!(FileReferenceError::InvalidFileFilter.code(), 2097);
}

#[test]
fn browse_rejects_non_string_extension() {
    let candidates = vec![candidate(
        Value::Str("Movies".to_string()),
        Value::Number(5),
        Value::Undefined,
    )];
    assert!(matches!(
        browse(&candidates),
        Err(FileReferenceError::InvalidFileFilter)
    ));
}

#[test]
fn browse_accepts_no_filters() {
    let candidates: Vec<FileFilterCandidate> = Vec::new();
    assert_eq!(browse(&candidates).unwrap().len(), 0);
}
