use field_import::api::{FieldClient, FieldReply, REQUEST_DELAY_MS};
use field_import::config::Config;
use field_import::error::{ApiErrorKind, CustomError};
use field_import::field::Field;
use field_import::transformers::JsonTransformer;

fn client() -> FieldClient {
    let config =
        Config::new(true, Some("https://example.com/"), Some(""), Some("id"), Some("s"), Some("f"))
            .unwrap();
    FieldClient::new(config, "Bearer abc".to_string())
}

fn age() -> Field {
    Field::new("age".to_string(), "Age".to_string(), 0, 1, "".to_string())
}

#[test]
fn a_valid_field_becomes_a_payload_with_ids_as_text() {
    let payloads = JsonTransformer::transform_fields(&[age()]);
    assert_eq!(payloads.len(), 1);
    let payload = &payloads[0];
    assert_eq!(payload.usage(), 1);
    assert_eq!(payload.name(), "age");
    assert_eq!(payload.label(), "Age");
    assert_eq!(payload.type_id(), "0");
    assert_eq!(payload.inputtype(), "1");
    assert_eq!(payload.new_values(), "");
    assert!(payload.searchable());
    assert!(payload.user_searchable());
    assert!(payload.calendar_searchable());
    assert!(payload.copytochild());
    assert!(payload.copytochildonupdate());
}

#[test]
fn payloads_keep_the_order_of_the_fields() {
    let fields = vec![
        age(),
        Field::new("c".to_string(), "Colour".to_string(), 2, 2, "r,g".to_string()),
        Field::new("r".to_string(), "Rich".to_string(), 10, 0, "".to_string()),
    ];
    let payloads = JsonTransformer::transform_fields(&fields);
    assert_eq!(payloads.len(), 3);
    assert_eq!(payloads[1].name(), "c");
    assert_eq!(payloads[1].type_id(), "2");
    assert_eq!(payloads[1].inputtype(), "2");
    assert_eq!(payloads[1].new_values(), "r,g");
    assert_eq!(payloads[2].type_id(), "10");
    assert_eq!(payloads[2].inputtype(), "0");
    assert!(JsonTransformer::transform_fields(&[]).is_empty());
}

#[test]
fn the_request_holds_one_payload_the_wait_and_the_header() {
    let request = client().create_field(&age());
    assert_eq!(request.delay_ms, 500);
    assert_eq!(REQUEST_DELAY_MS, 500);
    assert_eq!(request.endpoint, "https://example.com/api/fieldinfo");
    assert_eq!(request.authorization, "Bearer abc");
    assert_eq!(request.content_type, "application/json");
    assert_eq!(request.payload.len(), 1);
    assert_eq!(request.payload[0].name(), "age");
    assert_eq!(request.payload[0].type_id(), "0");
    assert_eq!(request.payload[0].inputtype(), "1");
}

#[test]
fn a_renewed_token_goes_into_the_next_request() {
    let mut client = client();
    client.set_auth_token("Bearer new".to_string());
    let request = client.create_field(&age());
    assert_eq!(request.authorization, "Bearer new");
    assert_eq!(request.endpoint, "https://example.com/api/fieldinfo");
}

#[test]
fn every_status_from_200_to_299_is_success_whatever_the_body() {
    let client = client();
    for status in 0..=999u16 {
        let body = Some("{\"error\":\"ignored\"}".to_string());
        let outcome = client.field_created(&age(), FieldReply::Response(status, body));
        assert_eq!(outcome.is_ok(), (200..=299).contains(&status), "{}", status);
    }
    assert_eq!(client.field_created(&age(), FieldReply::Response(204, None)), Ok(()));
}

#[test]
fn any_other_status_is_a_failure_with_label_status_and_body() {
    let client = client();
    let error = client
        .field_created(&age(), FieldReply::Response(404, Some("no such thing".to_string())))
        .unwrap_err();
    assert_eq!(
        error,
        CustomError::ApiError(ApiErrorKind::FieldCreationFailed(
            "Age".to_string(),
            "Status: 404, Error: no such thing".to_string()
        ))
    );
    assert_eq!(
        error.message(),
        "Failed to create field 'Age': Status: 404, Error: no such thing"
    );
    assert!(!error.is_fatal());
}

#[test]
fn a_body_that_cannot_be_read_is_replaced_by_fixed_words() {
    let error = client().field_created(&age(), FieldReply::Response(500, None)).unwrap_err();
    assert_eq!(
        error,
        CustomError::ApiError(ApiErrorKind::FieldCreationFailed(
            "Age".to_string(),
            "Status: 500, Error: Failed to get error response".to_string()
        ))
    );
}

#[test]
fn no_response_is_a_network_error() {
    let error = client().field_created(&age(), FieldReply::Failed("dns".to_string())).unwrap_err();
    assert_eq!(error, CustomError::ApiError(ApiErrorKind::NetworkError("dns".to_string())));
    assert_eq!(error.message(), "Network error: dns");
}
