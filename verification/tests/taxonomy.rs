use axis::error::{map_404_to_unsupported_feature, ApiError, Error, RawJsonApiError, UnparseableResponseError};

fn raw(code: u32, message: Option<&str>) -> RawJsonApiError {
    RawJsonApiError { code, message: message.map(|m| m.to_owned()) }
}

#[test]
fn classification_of_documented_codes() {
    assert_eq!(ApiError::from(raw(1000, None)), ApiError::InvalidParameter);
    assert_eq!(ApiError::from(raw(2001, None)), ApiError::AccessForbidden);
    assert_eq!(ApiError::from(raw(2002, None)), ApiError::UnsupportedHttpMethod);
    assert_eq!(ApiError::from(raw(2003, None)), ApiError::UnsupportedApiVersion);
    assert_eq!(ApiError::from(raw(2004, None)), ApiError::UnsupportedApiMethod);
    assert_eq!(ApiError::from(raw(4000, None)), ApiError::InvalidJsonFormat);
    assert_eq!(ApiError::from(raw(4002, None)), ApiError::RequiredParameterIsMissing);
    assert_eq!(ApiError::from(raw(8000, None)), ApiError::InternalError);
}

#[test]
fn classification_preserves_unknown_codes() {
    let e = raw(9999, Some("mystery"));
    match ApiError::from(e.clone()) {
        ApiError::OtherError(inner) => assert_eq!(*inner, e),
        other => panic!("expected OtherError, got {:?}", other),
    }
    // A code adjacent to a documented one still takes the escape variant.
    assert!(matches!(ApiError::from(raw(2005, None)), ApiError::OtherError(_)));
    assert!(matches!(ApiError::from(raw(0, None)), ApiError::OtherError(_)));
}

#[test]
fn map_404_rewrites_exactly_404() {
    let r: Result<(), Error<&str>> = Err(Error::BadStatusCodeError(404));
    assert!(matches!(map_404_to_unsupported_feature(r), Err(Error::UnsupportedFeature)));
}

#[test]
fn map_404_is_a_no_op_elsewhere() {
    for code in [100u16, 200, 400, 403, 405, 500, 503] {
        let r: Result<(), Error<&str>> = Err(Error::BadStatusCodeError(code));
        match map_404_to_unsupported_feature(r) {
            Err(Error::BadStatusCodeError(c)) => assert_eq!(c, code),
            other => panic!("expected the status to pass through, got {:?}", other),
        }
    }
    let ok: Result<u32, Error<&str>> = Ok(7);
    assert_eq!(map_404_to_unsupported_feature(ok).unwrap(), 7);
    let transport: Result<(), Error<&str>> = Err(Error::TransportError("socket closed"));
    assert!(matches!(
        map_404_to_unsupported_feature(transport),
        Err(Error::TransportError("socket closed"))
    ));
    let other: Result<(), Error<&str>> = Err(Error::Other("not yet itemized"));
    assert!(matches!(map_404_to_unsupported_feature(other), Err(Error::Other("not yet itemized"))));
}

#[test]
fn map_404_is_idempotent() {
    let r: Result<(), Error<&str>> = Err(Error::BadStatusCodeError(404));
    let once = map_404_to_unsupported_feature(r);
    assert!(matches!(once, Err(Error::UnsupportedFeature)));
    let twice = map_404_to_unsupported_feature(once);
    assert!(matches!(twice, Err(Error::UnsupportedFeature)));
}

#[test]
fn transport_404_with_empty_body_normalizes_to_unsupported_feature() {
    // The transport completed the exchange and reported HTTP 404, no body to
    // parse: classification carries the literal status code.
    let classified: Result<(), Error<&str>> = Err(Error::BadStatusCodeError(404));
    assert!(matches!(classified, Err(Error::BadStatusCodeError(404))));
    // The explicit normalization step reinterprets it.
    assert!(matches!(
        map_404_to_unsupported_feature(classified),
        Err(Error::UnsupportedFeature)
    ));
}

#[test]
fn invalid_json_body_classifies_as_json_decode_failure() {
    let bad = serde_json::from_str::<serde_json::Value>("{\"code\": 2001,");
    let e = bad.expect_err("the body is not valid JSON");
    let classified: Error<&str> = Error::from(e);
    assert!(matches!(
        classified,
        Error::UnparseableResponseError(UnparseableResponseError::JsonDeError(_))
    ));
}

#[test]
fn invalid_xml_body_classifies_as_xml_decode_failure() {
    let bad = quick_xml::de::from_str::<serde_json::Value>("<root><unclosed></root>");
    let e = bad.expect_err("the body is not valid XML");
    let classified: Error<&str> = Error::from(e);
    assert!(matches!(
        classified,
        Error::UnparseableResponseError(UnparseableResponseError::XmlDeError(_))
    ));
}

#[test]
fn bad_content_type_keeps_the_header_value() {
    let with_header: Error<&str> = Error::BadContentTypeError(Some("text/html".to_owned()));
    assert!(matches!(with_header, Error::BadContentTypeError(Some(v)) if v == "text/html"));
    let without_header: Error<&str> = Error::BadContentTypeError(None);
    assert!(matches!(without_header, Error::BadContentTypeError(None)));
}

fn decode_raw(body: &str) -> RawJsonApiError {
    // The JSON decoder collaborator sits outside the taxonomy; a test stands
    // in for it, reading the wire fields by their camelCase names.
    let v: serde_json::Value = serde_json::from_str(body).expect("well-formed JSON");
    let code = v.get("code").and_then(|c| c.as_u64()).expect("a numeric code") as u32;
    let message = v.get("message").and_then(|m| m.as_str()).map(|m| m.to_owned());
    RawJsonApiError { code, message }
}

#[test]
fn forbidden_body_decodes_and_classifies() {
    let decoded = decode_raw("{\"code\": 2001, \"message\": \"forbidden\"}");
    assert_eq!(decoded, raw(2001, Some("forbidden")));
    assert_eq!(ApiError::from(decoded.clone()), ApiError::AccessForbidden);
    let e: Error<&str> = Error::from(decoded);
    assert!(matches!(e, Error::ApiError(ApiError::AccessForbidden)));
}

#[test]
fn unknown_code_body_classifies_to_other_error() {
    let decoded = decode_raw("{\"code\": 9999}");
    assert_eq!(decoded, raw(9999, None));
    match ApiError::from(decoded) {
        ApiError::OtherError(inner) => {
            assert_eq!(inner.code, 9999);
            assert_eq!(inner.message, None);
        }
        other => panic!("expected OtherError, got {:?}", other),
    }
}

#[test]
fn api_error_converts_into_the_taxonomy() {
    let e: Error<&str> = Error::from(ApiError::InternalError);
    assert!(matches!(e, Error::ApiError(ApiError::InternalError)));
}
