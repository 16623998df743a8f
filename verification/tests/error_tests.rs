use runekernel::Error;

#[test]
fn errors_in_words() {
    assert_eq!(Error::StorageError("disk".to_string()).to_string(), "Storage error: disk");
    assert_eq!(Error::JobNotFound("abc".to_string()).to_string(), "Job not found: abc");
    assert_eq!(
        Error::InvalidTransition("Job must be pending to run".to_string()).to_string(),
        "Invalid transition: Job must be pending to run"
    );
    assert_eq!(Error::SerializationError("eof".to_string()).to_string(), "Serialization error: eof");
    assert_eq!(Error::InternalError("".to_string()).to_string(), "Internal error: ");
}

#[test]
fn error_clone_is_equal() {
    let errors = vec![
        Error::StorageError("a".to_string()),
        Error::JobNotFound("b".to_string()),
        Error::InvalidTransition("c".to_string()),
        Error::SerializationError("d".to_string()),
        Error::InternalError("e".to_string()),
    ];
    for e in errors.iter() {
        assert_eq!(e.clone(), *e);
    }
    assert_ne!(Error::StorageError("a".to_string()), Error::InternalError("a".to_string()));
}

#[test]
fn codec_failure_becomes_serialization_error() {
    let failure = serde_json::from_str::<serde_json::Value>("{\"name\": ").unwrap_err();
    let expected = failure.to_string();
    assert!(!expected.is_empty());
    let failure = serde_json::from_str::<serde_json::Value>("{\"name\": ").unwrap_err();
    assert_eq!(Error::from(failure), Error::SerializationError(expected.clone()));
    let failure = serde_json::from_str::<serde_json::Value>("{\"name\": ").unwrap_err();
    let converted: Error = failure.into();
    assert_eq!(converted.to_string(), format!("Serialization error: {}", expected));
}
