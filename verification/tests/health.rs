use graphql_service::health::{health, Health, HealthResponse};

fn payload_of(body: &str) -> Health {
    let value: serde_json::Value = serde_json::from_str(body).unwrap();
    let object = value.as_object().unwrap();
    assert_eq!(object.len(), 1);
    Health { healthy: object.get("healthy").unwrap().as_bool().unwrap() }
}

#[test]
fn health_check() {
    let expected = Health { healthy: true };

    let res = health();
    let health = payload_of(&res.body_json());

    assert_eq!(expected, health);
}

#[test]
fn health_status_is_ok() {
    let res = health();
    assert_eq!(res.status, 200);
    assert_eq!(res, HealthResponse { status: 200, body: Health { healthy: true } });
}

#[test]
fn health_body_is_compact_json() {
    assert_eq!(health().body_json(), "{\"healthy\":true}");
    assert_eq!(Health { healthy: true }.to_json(), "{\"healthy\":true}");
    assert_eq!(Health { healthy: false }.to_json(), "{\"healthy\":false}");
}

#[test]
fn health_body_is_what_a_json_encoder_writes() {
    for healthy in [true, false] {
        let mut object = serde_json::Map::new();
        object.insert("healthy".to_string(), serde_json::Value::Bool(healthy));
        let written = serde_json::to_string(&serde_json::Value::Object(object)).unwrap();
        assert_eq!(Health { healthy }.to_json(), written);
    }
}

#[test]
fn health_bodies_are_identical() {
    let first = health().body_json();
    for _ in 0..100 {
        let next = health().body_json();
        assert_eq!(first.as_bytes(), next.as_bytes());
    }
}

#[test]
fn health_json_round_trip() {
    for healthy in [true, false] {
        let payload = Health { healthy };
        assert_eq!(Health::from_json(&payload.to_json()), Some(payload));
    }
}

#[test]
fn health_from_json_reads_the_compact_form_only() {
    assert_eq!(Health::from_json("{\"healthy\":true}"), Some(Health { healthy: true }));
    assert_eq!(Health::from_json("{\"healthy\":false}"), Some(Health { healthy: false }));
    assert_eq!(Health::from_json(""), None);
    assert_eq!(Health::from_json("{}"), None);
    assert_eq!(Health::from_json("{\"healthy\":1}"), None);
    assert_eq!(Health::from_json("{\"healthy\": true}"), None);
    assert_eq!(Health::from_json("{\"healthy\":true}x"), None);
    assert_eq!(Health::from_json("true"), None);
}
