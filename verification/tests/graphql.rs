use async_graphql::http::{playground_source, GraphQLPlaygroundConfig};
use async_graphql::{Response, ServerError, Value};
use graphql_service::graphql::{
    attach_trace_id, graphql_playground, trace_id_text, GRAPHQL_ENDPOINT, SUBSCRIPTION_ENDPOINT,
    TRACE_ID_EXTENSION,
};

const SAMPLE: [u8; 16] = [95, 70, 127, 231, 191, 66, 103, 108, 5, 226, 11, 164, 169, 14, 68, 142];

#[test]
fn trace_id_text_of_zero_is_all_zeros() {
    assert_eq!(trace_id_text([0; 16]), "00000000000000000000000000000000");
}

#[test]
fn trace_id_text_is_lowercase_hex_first_byte_first() {
    let mut forty_two = [0u8; 16];
    forty_two[15] = 42;
    assert_eq!(trace_id_text(forty_two), "0000000000000000000000000000002a");
    assert_eq!(trace_id_text(SAMPLE), "5f467fe7bf42676c05e20ba4a90e448e");
    assert_eq!(trace_id_text([255; 16]), "ffffffffffffffffffffffffffffffff");
    let mut first = [0u8; 16];
    first[0] = 0xab;
    assert_eq!(trace_id_text(first), "ab000000000000000000000000000000");
}

#[test]
fn trace_id_text_has_32_hex_digits() {
    for seed in 0..=255u8 {
        let mut bytes = [0u8; 16];
        for (i, byte) in bytes.iter_mut().enumerate() {
            *byte = seed.wrapping_mul(31).wrapping_add(i as u8 * 17);
        }
        let text = trace_id_text(bytes);
        assert_eq!(text.len(), 32);
        assert!(text.chars().all(|c| matches!(c, '0'..='9' | 'a'..='f')));
        let expected: String = bytes.iter().map(|b| format!("{:02x}", b)).collect();
        assert_eq!(text, expected);
    }
}

#[test]
fn extension_name_is_trace_id() {
    assert_eq!(TRACE_ID_EXTENSION, "traceId");
}

#[test]
fn no_op_response_gets_a_trace_id_and_no_errors() {
    let response = attach_trace_id(Response::new(Value::Null), [0; 16]);
    assert!(response.is_ok());
    assert!(response.errors.is_empty());
    assert_eq!(response.extensions.len(), 1);
    assert_eq!(
        response.extensions.get("traceId"),
        Some(&Value::String("00000000000000000000000000000000".to_string()))
    );
    let envelope = serde_json::to_string(&response).unwrap();
    assert_eq!(
        envelope,
        "{\"data\":null,\"extensions\":{\"traceId\":\"00000000000000000000000000000000\"}}"
    );
}

#[test]
fn trace_id_of_the_span_is_attached() {
    let response = attach_trace_id(Response::new(Value::Boolean(true)), SAMPLE);
    assert_eq!(response.data, Value::Boolean(true));
    assert_eq!(
        response.extensions.get("traceId"),
        Some(&Value::String("5f467fe7bf42676c05e20ba4a90e448e".to_string()))
    );
}

#[test]
fn attaching_replaces_an_earlier_trace_id_and_keeps_other_extensions() {
    let before = Response::new(Value::Null)
        .extension("traceId", Value::String("stale".to_string()))
        .extension("cost", Value::String("low".to_string()));
    let after = attach_trace_id(before, SAMPLE);
    assert_eq!(after.extensions.len(), 2);
    assert_eq!(
        after.extensions.get("traceId"),
        Some(&Value::String("5f467fe7bf42676c05e20ba4a90e448e".to_string()))
    );
    assert_eq!(after.extensions.get("cost"), Some(&Value::String("low".to_string())));
}

#[test]
fn execution_errors_stay_inside_the_envelope() {
    let failed = Response::from_errors(vec![ServerError::new("unknown field", None)]);
    let response = attach_trace_id(failed, [0; 16]);
    assert!(response.is_err());
    assert_eq!(response.errors.len(), 1);
    assert_eq!(response.errors[0].message, "unknown field");
    assert!(response.extensions.contains_key("traceId"));
}

#[test]
fn playground_queries_the_root_path() {
    assert_eq!(GRAPHQL_ENDPOINT, "/");
    assert_eq!(SUBSCRIPTION_ENDPOINT, "ws");
    let page = graphql_playground();
    assert!(page.contains("<!DOCTYPE html>"));
    assert!(page.contains("GraphQLPlayground.init"));
    assert!(page.contains("\"endpoint\":\"/\""));
    assert!(page.contains("\"subscriptionEndpoint\":\"ws\""));
}

#[test]
fn playground_is_the_page_of_its_two_endpoints() {
    let expected = playground_source(GraphQLPlaygroundConfig::new("/").subscription_endpoint("ws"));
    assert_eq!(graphql_playground(), expected);
    let other = playground_source(GraphQLPlaygroundConfig::new("ws").subscription_endpoint("/"));
    assert_ne!(graphql_playground(), other);
    assert_eq!(graphql_playground(), graphql_playground());
}
