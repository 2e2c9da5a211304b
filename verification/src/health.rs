//! The liveness endpoint: a fixed payload and its JSON wire form.

use vstd::prelude::*;

verus! {

/// HTTP status of every liveness response.
pub const STATUS_OK: u16 = 200;

/// The liveness payload.
#[derive(Clone, Copy, Debug, PartialEq, Eq, Structural)]
pub struct Health {
    pub healthy: bool,
}

/// What the liveness endpoint answers: a status code and the payload that is
/// sent as the JSON body.
#[derive(Clone, Copy, Debug, PartialEq, Eq, Structural)]
pub struct HealthResponse {
    pub status: u16,
    pub body: Health,
}

/// The compact JSON text of a payload: one object with the single member
/// `healthy`.
pub open spec fn health_json(healthy: bool) -> Seq<char> {
    if healthy {
        "{\"healthy\":true}"@
    } else {
        "{\"healthy\":false}"@
    }
}

/// The payload that a JSON text stands for: the inverse of `health_json`.
/// Only the compact form is read; any other text stands for no payload.
pub open spec fn health_of_json(text: Seq<char>) -> Option<Health> {
    if text == health_json(true) {
        Some(Health { healthy: true })
    } else if text == health_json(false) {
        Some(Health { healthy: false })
    } else {
        None
    }
}

/// The one answer of the liveness endpoint.
pub open spec fn health_response() -> HealthResponse {
    HealthResponse { status: 200, body: Health { healthy: true } }
}

impl Health {
    /// Renders the payload as compact JSON.
    pub fn to_json(&self) -> (text: String)
        ensures
            text@ == health_json(self.healthy),
    {
        if self.healthy {
            String::from_str("{\"healthy\":true}")
        } else {
            String::from_str("{\"healthy\":false}")
        }
    }

    /// Reads a payload back from the compact JSON that `to_json` writes.
    pub fn from_json(text: &str) -> (payload: Option<Health>)
        ensures
            payload == health_of_json(text@),
    {
        let given = text.to_owned();
        if given == String::from_str("{\"healthy\":true}") {
            Some(Health { healthy: true })
        } else if given == String::from_str("{\"healthy\":false}") {
            Some(Health { healthy: false })
        } else {
            None
        }
    }
}

impl HealthResponse {
    /// The body of the response as it goes over the wire.
    pub fn body_json(&self) -> (text: String)
        ensures
            text@ == health_json(self.body.healthy),
    {
        self.body.to_json()
    }
}

/// Answers a liveness probe. Nothing is consulted: the answer is always
/// status 200 with a payload that reports the service as healthy.
pub fn health() -> (response: HealthResponse)
    ensures
        response == health_response(),
{
    HealthResponse { status: STATUS_OK, body: Health { healthy: true } }
}

/// The two wire forms, letter by letter.
pub proof fn lemma_health_json_letters()
    ensures
        health_json(true) == seq![
            '{', '"', 'h', 'e', 'a', 'l', 't', 'h', 'y', '"', ':', 't', 'r', 'u', 'e', '}',
        ],
        health_json(false) == seq![
            '{', '"', 'h', 'e', 'a', 'l', 't', 'h', 'y', '"', ':', 'f', 'a', 'l', 's', 'e', '}',
        ],
{
    reveal_strlit("{\"healthy\":true}");
    reveal_strlit("{\"healthy\":false}");
    assert(health_json(true) =~= seq![
        '{', '"', 'h', 'e', 'a', 'l', 't', 'h', 'y', '"', ':', 't', 'r', 'u', 'e', '}',
    ]);
    assert(health_json(false) =~= seq![
        '{', '"', 'h', 'e', 'a', 'l', 't', 'h', 'y', '"', ':', 'f', 'a', 'l', 's', 'e', '}',
    ]);
}

/// Writing a payload and reading it back gives the payload again.
pub proof fn lemma_json_round_trip(payload: Health)
    ensures
        health_of_json(health_json(payload.healthy)) == Some(payload),
{
    lemma_health_json_letters();
    assert(health_json(true).len() == 16);
    assert(health_json(false).len() == 17);
}

/// Every liveness response has status 200, and its body reads back as a
/// payload that reports the service as healthy.
pub proof fn lemma_health_always_healthy()
    ensures
        health_response().status == 200,
        health_of_json(health_json(health_response().body.healthy)) == Some(
            Health { healthy: true },
        ),
{
    lemma_json_round_trip(Health { healthy: true });
}

/// Any two liveness responses carry the same body, letter for letter: the
/// text `{"healthy":true}`.
pub proof fn lemma_health_bodies_identical(first: HealthResponse, second: HealthResponse)
    requires
        first == health_response(),
        second == health_response(),
    ensures
        health_json(first.body.healthy) == health_json(second.body.healthy),
        health_json(first.body.healthy) == "{\"healthy\":true}"@,
{
}

} // verus!
