use correlation::{Correlation, CorrelationId, CorrelationIdError, CorrelationIdGenerator};

struct FailingGenerator;

impl CorrelationIdGenerator for FailingGenerator {
    fn generate_correlation_id(&self) -> Result<CorrelationId, CorrelationIdError> {
        Err(CorrelationIdError::Empty)
    }
}

#[test]
fn test_default_correlation_config() {
    let correlation = Correlation::default();

    assert_eq!("x-correlation-id", correlation.get_request_header_name());
    assert!(!correlation.is_request_header_enforced());
    assert_eq!("x-correlation-id", correlation.get_response_header_name());
    assert!(correlation.is_included_in_response());
}

#[test]
fn test_set_request_header_name() {
    let header_name_str = "my-corr-id";
    let mut correlation = Correlation::default();
    correlation = correlation.request_header_name(header_name_str.to_string());

    assert_eq!(header_name_str, correlation.get_request_header_name());
}

#[test]
fn test_set_enforce_request_header_to_true() {
    let mut correlation = Correlation::default();
    correlation = correlation.enforce_request_header(true);

    assert!(correlation.is_request_header_enforced());
}

#[test]
fn test_set_response_header_name() {
    let header_name_str = "x-transaction-id";
    let mut correlation = Correlation::default();
    correlation = correlation.response_header_name(header_name_str.to_string());

    assert_eq!(header_name_str, correlation.get_response_header_name());
}

#[test]
fn test_set_include_in_response_to_false() {
    let mut correlation = Correlation::default();
    correlation = correlation.include_in_response(false);

    assert!(!correlation.is_included_in_response());
}

#[test]
fn setters_leave_other_fields_alone() {
    let correlation = Correlation::new()
        .request_header_name("x-request-id".to_string())
        .enforce_request_header(true)
        .include_in_response(false)
        .with_id_generator(FailingGenerator);

    assert_eq!("x-request-id", correlation.get_request_header_name());
    assert!(correlation.is_request_header_enforced());
    assert_eq!("x-correlation-id", correlation.get_response_header_name());
    assert!(!correlation.is_included_in_response());
    assert!(correlation.generator().generate_correlation_id().is_err());
}
