//! The GraphQL endpoint: the playground page served on `GET /` and the trace
//! identifier that every execution response carries as an extension.

use vstd::prelude::*;

verus! {

/// Path on which the playground page sends its queries.
pub const GRAPHQL_ENDPOINT: &'static str = "/";

/// Subscription endpoint written into the playground page. Subscriptions are
/// disabled, so nothing ever listens there.
pub const SUBSCRIPTION_ENDPOINT: &'static str = "ws";

/// Name of the response extension that carries the trace identifier.
pub const TRACE_ID_EXTENSION: &'static str = "traceId";

#[verifier::external_type_specification]
#[verifier::external_body]
pub struct ExResponse(async_graphql::Response);

/// The extensions of a response whose value is a string, by name.
pub uninterp spec fn text_extensions(response: async_graphql::Response) -> Map<Seq<char>, Seq<char>>;

/// The number of errors that a response reports.
pub uninterp spec fn error_count(response: async_graphql::Response) -> nat;

/// The playground page that `async_graphql` generates for a query endpoint and
/// a subscription endpoint.
pub uninterp spec fn playground_page(endpoint: Seq<char>, subscription_endpoint: Seq<char>) -> Seq<char>;

/// The lowercase hexadecimal digit of a value below sixteen.
pub open spec fn hex_digit(nibble: int) -> char
    recommends
        0 <= nibble < 16,
{
    seq!['0', '1', '2', '3', '4', '5', '6', '7', '8', '9', 'a', 'b', 'c', 'd', 'e', 'f'][nibble]
}

/// Identifier bytes written out as lowercase hexadecimal, two digits per byte,
/// first byte first.
pub open spec fn trace_id_hex(bytes: Seq<u8>) -> Seq<char> {
    Seq::new(
        2 * bytes.len(),
        |i: int|
            if i % 2 == 0 {
                hex_digit(bytes[i / 2] as int / 16)
            } else {
                hex_digit(bytes[i / 2] as int % 16)
            },
    )
}

/// Whether a character is a lowercase hexadecimal digit.
pub open spec fn is_hex_digit(c: char) -> bool {
    ('0' <= c && c <= '9') || ('a' <= c && c <= 'f')
}

/// The text of an identifier has two letters per byte, and each of them is a
/// lowercase hexadecimal digit.
pub proof fn lemma_trace_id_hex_shape(bytes: Seq<u8>)
    ensures
        trace_id_hex(bytes).len() == 2 * bytes.len(),
        forall|i: int| 0 <= i < 2 * bytes.len() ==> is_hex_digit(#[trigger] trace_id_hex(bytes)[i]),
{
    assert forall|i: int| 0 <= i < 2 * bytes.len() implies is_hex_digit(
        #[trigger] trace_id_hex(bytes)[i],
    ) by {
        let byte = bytes[i / 2] as int;
        assert(forall|n: int| 0 <= n < 16 ==> is_hex_digit(#[trigger] hex_digit(n)));
        assert(0 <= byte / 16 < 16 && 0 <= byte % 16 < 16);
    }
}

/// With tracing disabled every byte of the identifier is zero, and its text
/// is made of the digit `0` alone.
pub proof fn lemma_zero_trace_id(bytes: Seq<u8>)
    requires
        forall|k: int| 0 <= k < bytes.len() ==> bytes[k] == 0,
    ensures
        forall|i: int| 0 <= i < 2 * bytes.len() ==> #[trigger] trace_id_hex(bytes)[i] == '0',
{
    assert forall|i: int| 0 <= i < 2 * bytes.len() implies #[trigger] trace_id_hex(bytes)[i]
        == '0' by {
        assert(bytes[i / 2] == 0);
    }
}

/// Two identifiers of the same length that differ have different texts.
pub proof fn lemma_trace_id_hex_injective(first: Seq<u8>, second: Seq<u8>)
    requires
        first.len() == second.len(),
        trace_id_hex(first) == trace_id_hex(second),
    ensures
        first == second,
{
    assert forall|k: int| 0 <= k < first.len() implies first[k] == second[k] by {
        let a = first[k] as int;
        let b = second[k] as int;
        assert(trace_id_hex(first)[2 * k] == hex_digit(a / 16));
        assert(trace_id_hex(second)[2 * k] == hex_digit(b / 16));
        assert(trace_id_hex(first)[2 * k + 1] == hex_digit(a % 16));
        assert(trace_id_hex(second)[2 * k + 1] == hex_digit(b % 16));
        assert(forall|m: int, n: int|
            0 <= m < 16 && 0 <= n < 16 && #[trigger] hex_digit(m) == #[trigger] hex_digit(n) ==> m
                == n);
        assert(0 <= a / 16 < 16 && 0 <= b / 16 < 16 && 0 <= a % 16 < 16 && 0 <= b % 16 < 16);
        assert(a / 16 == b / 16 && a % 16 == b % 16);
    }
    assert(first =~= second);
}

/// Calls `opentelemetry::trace::TraceId::from_bytes` and formats the result
/// with its `Display` impl. Trusted: the text is the identifier's 128 bits as
/// 32 lowercase hexadecimal digits, most significant byte first.
#[verifier::external_body]
fn format_trace_id(bytes: [u8; 16]) -> (text: String)
    ensures
        text@ == trace_id_hex(bytes@),
{
    format!("{}", opentelemetry::trace::TraceId::from_bytes(bytes))
}

/// Calls `async_graphql::Response::extension` with a string value. Trusted:
/// the entry is inserted under `name`, replacing any earlier entry of that
/// name, and the errors are left as they were.
#[verifier::external_body]
fn with_text_extension(response: async_graphql::Response, name: &str, text: String) -> (out:
    async_graphql::Response)
    ensures
        text_extensions(out) == text_extensions(response).insert(name@, text@),
        error_count(out) == error_count(response),
{
    response.extension(name, async_graphql::Value::String(text))
}

/// Calls `async_graphql::http::playground_source` on a configuration made by
/// `GraphQLPlaygroundConfig::new` and `subscription_endpoint`. Trusted: the
/// page depends on the two endpoints alone.
#[verifier::external_body]
fn render_playground(endpoint: &str, subscription_endpoint: &str) -> (page: String)
    ensures
        page@ == playground_page(endpoint@, subscription_endpoint@),
{
    async_graphql::http::playground_source(
        async_graphql::http::GraphQLPlaygroundConfig::new(endpoint).subscription_endpoint(
            subscription_endpoint,
        ),
    )
}

/// The HTML page served on `GET /`: the playground, set up to query the root
/// path.
pub fn graphql_playground() -> (page: String)
    ensures
        page@ == playground_page(GRAPHQL_ENDPOINT@, SUBSCRIPTION_ENDPOINT@),
{
    render_playground(GRAPHQL_ENDPOINT, SUBSCRIPTION_ENDPOINT)
}

/// The text under which a trace identifier is reported: 32 lowercase
/// hexadecimal digits. With tracing disabled the identifier is all zero and
/// so is the text.
pub fn trace_id_text(trace_id: [u8; 16]) -> (text: String)
    ensures
        text@ == trace_id_hex(trace_id@),
        text@.len() == 32,
{
    format_trace_id(trace_id)
}

/// Finishes an execution response: records the identifier of the trace in
/// which the request ran as the extension `traceId`. Errors of the execution
/// stay inside the response; none is added or removed.
pub fn attach_trace_id(response: async_graphql::Response, trace_id: [u8; 16]) -> (out:
    async_graphql::Response)
    ensures
        text_extensions(out) == text_extensions(response).insert(
            TRACE_ID_EXTENSION@,
            trace_id_hex(trace_id@),
        ),
        text_extensions(out).contains_key(TRACE_ID_EXTENSION@),
        text_extensions(out)[TRACE_ID_EXTENSION@] == trace_id_hex(trace_id@),
        error_count(out) == error_count(response),
{
    let text = trace_id_text(trace_id);
    with_text_extension(response, TRACE_ID_EXTENSION, text)
}

} // verus!
