use lunatic_log::level::Level;
use lunatic_log::metadata::Metadata;

#[test]
fn metadata_macro_api() {
    // This test should catch any inadvertent breaking changes
    // in how metadata is made.
    let fields = ["foo", "bar", "baz"];

    let _metadata = Metadata::new(
        Level::DEBUG,
        "test_target".to_string(),
        "test_metadata".to_string(),
        fields.len() as u32,
        0,
        0,
    );
    let _metadata = Metadata::new(
        Level::TRACE,
        "test_target".to_string(),
        "test_metadata".to_string(),
        0,
        0,
        0,
    );
    let _metadata = Metadata::new(
        Level::INFO,
        "test_target".to_string(),
        "test_metadata".to_string(),
        0,
        0,
        0,
    );
}

#[test]
fn metadata_keeps_what_it_was_given() {
    let metadata = Metadata::new(
        Level::WARN,
        "app::worker".to_string(),
        "src/worker.rs".to_string(),
        42,
        7,
        1001,
    );
    assert_eq!(metadata.level(), Level::WARN);
    assert_eq!(metadata.target(), "app::worker");
    assert_eq!(metadata.file(), "src/worker.rs");
    assert_eq!(metadata.line(), 42);
    assert_eq!(metadata.node_id(), 7);
    assert_eq!(metadata.process_id(), 1001);
    let copy = metadata.clone();
    assert!(copy.same(&metadata));
    let other = Metadata::new(
        Level::WARN,
        "app::worker".to_string(),
        "src/worker.rs".to_string(),
        43,
        7,
        1001,
    );
    assert!(!other.same(&metadata));
}
