use musicflow_server::format::ResponseFormat;
use musicflow_server::response::ApiResponse;

#[test]
fn test_format_from_str() {
    assert_eq!(ResponseFormat::from_str("json"), ResponseFormat::Json);
    assert_eq!(ResponseFormat::from_str("JSON"), ResponseFormat::Json);
    assert_eq!(ResponseFormat::from_str("xml"), ResponseFormat::Xml);
    assert_eq!(ResponseFormat::from_str("XML"), ResponseFormat::Xml);
    assert_eq!(ResponseFormat::from_str("unknown"), ResponseFormat::Json);
}

#[test]
fn test_content_type() {
    assert_eq!(
        ResponseFormat::Json.content_type(),
        "application/json; charset=utf-8"
    );
    assert_eq!(
        ResponseFormat::Xml.content_type(),
        "application/xml; charset=utf-8"
    );
}

#[test]
fn format_default_is_json() {
    assert_eq!(ResponseFormat::default(), ResponseFormat::Json);
    assert_eq!(ResponseFormat::from_str("Xml"), ResponseFormat::Xml);
}

#[test]
fn api_response_ok_keeps_format_and_envelope() {
    let json = ApiResponse::ok(Some(7i32), ResponseFormat::Json);
    let xml = ApiResponse::ok(Some(7i32), ResponseFormat::Xml);
    assert_eq!(json.format(), ResponseFormat::Json);
    assert_eq!(xml.format(), ResponseFormat::Xml);
    assert_eq!(json.data().response.status, "ok");
    assert_eq!(xml.data().response.status, "ok");
    assert_eq!(json.data().response.version, xml.data().response.version);
    assert_eq!(json.data().response.data, Some(7));
    assert!(json.data().response.error.is_none());
}

#[test]
fn api_response_error_carries_code_and_message() {
    let r = ApiResponse::<i32>::_error(40, "Wrong username or password".to_string(), ResponseFormat::Xml);
    assert_eq!(r.data().response.status, "failed");
    let e = r.data().response.error.as_ref().unwrap();
    assert_eq!(e.code, 40);
    assert_eq!(e.message, "Wrong username or password");
    assert!(r.data().response.data.is_none());
}
