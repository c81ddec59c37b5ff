use correlation::{
    Correlation, CorrelationId, CorrelationIdError, CorrelationIdGenerator, Rejection, Status,
    response_header, try_generate_correlation_id, try_header_value_to_correlation_id,
    try_obtain_correlation_id,
};

struct StaticCorrelationidGenerator;

impl CorrelationIdGenerator for StaticCorrelationidGenerator {
    fn generate_correlation_id(&self) -> Result<CorrelationId, CorrelationIdError> {
        CorrelationId::try_from("YOLO!".to_string())
    }
}

struct FailingGenerator;

impl CorrelationIdGenerator for FailingGenerator {
    fn generate_correlation_id(&self) -> Result<CorrelationId, CorrelationIdError> {
        Err(CorrelationIdError::Empty)
    }
}

/// One request through the middleware's decisions: the resolved ID (what a
/// handler would see) and the header the response would carry.
fn handle<G: CorrelationIdGenerator>(
    config: &Correlation<G>,
    header: Option<&[u8]>,
) -> Result<(String, Option<(String, String)>), Rejection> {
    let id = try_obtain_correlation_id(config, header)?;
    let seen_by_handler = id.to_string();
    Ok((seen_by_handler, response_header(config, &id)))
}

#[test]
fn correlation_id_gets_extracted_from_request() {
    let config = Correlation::default();
    let (seen, _) = handle(&config, Some(b"abc123")).unwrap();

    assert_eq!(seen, "abc123");
}

#[test]
fn correlation_id_gets_inserted_into_response() {
    let config = Correlation::default();
    let (_, header) = handle(&config, Some(b"fajfkaefiaefaefag")).unwrap();

    assert_eq!(
        header,
        Some(("x-correlation-id".to_string(), "fajfkaefiaefaefag".to_string()))
    );
}

#[test]
fn generate_correlation_id_if_absent_in_request_headers() {
    let config = Correlation::default();
    let (seen, header) = handle(&config, None).unwrap();
    let (name, value) = header.expect("expected a correlation ID in response headers but got none");

    assert_eq!(name, "x-correlation-id");
    assert!(!value.is_empty());
    assert_eq!(value, seen);
}

#[test]
fn omit_correlation_id_from_response() {
    let config = Correlation::default().include_in_response(false);
    let (seen, header) = handle(&config, Some(b"fajfkaefiaefaefag")).unwrap();

    assert_eq!(seen, "fajfkaefiaefaefag");
    assert_eq!(header, None);
    let (_, generated_case) = handle(&config, None).unwrap();
    assert_eq!(generated_case, None);
}

#[test]
fn enforce_correlation_id_request_header() {
    let config = Correlation::default().enforce_request_header(true);
    let rejection = handle(&config, None).expect_err("expected an error but got a response");

    assert_eq!(rejection.status, Status::BadRequest);
    assert_eq!(rejection.status.code(), 400);
    assert_eq!(rejection.message, "header 'x-correlation-id' is required");
}

#[test]
fn use_custom_correlation_id_generator() {
    let config = Correlation::default().with_id_generator(StaticCorrelationidGenerator);
    let (_, header) = handle(&config, None).unwrap();
    let (_, value) = header.expect("expected a correlation ID in response headers but got none");

    assert_eq!(value, "YOLO!");
}

#[test]
fn send_invalid_correlation_id_in_request_header() {
    let config = Correlation::default();
    let rejection = handle(&config, Some("asdfjklö".as_bytes()))
        .expect_err("expected an error but got a response");

    assert_eq!(rejection.status, Status::BadRequest);
    assert_eq!(
        rejection.message,
        "value of header 'x-correlation-id' contains non-visible ASCII chars"
    );
}

#[test]
fn tab_in_header_is_text_but_not_an_id() {
    let rejection = try_header_value_to_correlation_id("x-request-id", b"ab\tc").unwrap_err();

    assert_eq!(rejection.status, Status::BadRequest);
    assert_eq!(rejection.message, "char at index 2 is non-visible ASCII");
}

#[test]
fn empty_header_value_is_rejected() {
    let rejection = try_header_value_to_correlation_id("x-request-id", b"").unwrap_err();

    assert_eq!(rejection.status, Status::BadRequest);
    assert_eq!(rejection.message, "correlation ID is empty");
}

#[test]
fn custom_request_header_name_appears_in_messages() {
    let config = Correlation::default()
        .request_header_name("x-request-id".to_string())
        .enforce_request_header(true);
    let rejection = handle(&config, None).unwrap_err();

    assert_eq!(rejection.message, "header 'x-request-id' is required");
    let rejection = handle(&config, Some(&[0x80])).unwrap_err();
    assert_eq!(
        rejection.message,
        "value of header 'x-request-id' contains non-visible ASCII chars"
    );
}

#[test]
fn response_header_uses_configured_name() {
    let config = Correlation::default().response_header_name("x-transaction-id".to_string());
    let (_, header) = handle(&config, Some(b"abc123")).unwrap();

    assert_eq!(
        header,
        Some(("x-transaction-id".to_string(), "abc123".to_string()))
    );
}

#[test]
fn generator_failure_is_a_server_error() {
    let config = Correlation::default().with_id_generator(FailingGenerator);
    let rejection = handle(&config, None).unwrap_err();

    assert_eq!(rejection.status, Status::InternalServerError);
    assert_eq!(rejection.status.code(), 500);
    assert_eq!(rejection.message, "correlation ID is empty");

    let direct = try_generate_correlation_id(Err(CorrelationIdError::InvisibleAscii(3))).unwrap_err();
    assert_eq!(direct.status, Status::InternalServerError);
    assert_eq!(direct.message, "char at index 3 is non-visible ASCII");
}

#[test]
fn header_takes_precedence_over_generator() {
    let config = Correlation::default().with_id_generator(FailingGenerator);
    let (seen, _) = handle(&config, Some(b"abc123")).unwrap();

    assert_eq!(seen, "abc123");
}

#[test]
fn missing_header_gets_a_version_4_uuid() {
    let config = Correlation::default();
    let (seen, _) = handle(&config, None).unwrap();

    assert_eq!(seen.len(), 32);
    assert!(seen.bytes().all(|b| b.is_ascii_digit() || (b'a'..=b'f').contains(&b)));
    assert_eq!(&seen[12..13], "4");
    assert!(["8", "9", "a", "b"].contains(&&seen[16..17]));
}
