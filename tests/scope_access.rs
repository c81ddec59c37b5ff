use correlation::{
    CorrelationId, CorrelationIdExtract, CorrelationIdGenerator, RequestScope,
    UuidCorrelationIdGenerator,
};

#[test]
fn extract_correlation_id_from_http_request_with_correlation_id() {
    let correlation_id = UuidCorrelationIdGenerator
        .generate_correlation_id()
        .unwrap();
    let mut scope = RequestScope::new();
    assert!(scope.get().is_none());
    scope.insert(correlation_id.clone());

    assert_eq!(scope.correlation_id(), correlation_id);
    assert_eq!(scope.get(), Some(&correlation_id));
}

#[test]
fn insert_replaces_the_stored_id() {
    let mut scope = RequestScope::new();
    scope.insert("first".parse::<CorrelationId>().unwrap());
    scope.insert("second".parse::<CorrelationId>().unwrap());

    assert_eq!(scope.correlation_id().to_string(), "second");
}
