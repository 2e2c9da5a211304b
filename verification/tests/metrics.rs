use graphql_service::health::health;
use graphql_service::metrics::{
    decimal_text, observe, CounterEntry, RequestCounters, RequestLabels, REQUESTS_TOTAL,
};
use graphql_service::routing::{Route, RouterConfig};
use metrics::{Key, Label, Recorder};
use metrics_exporter_prometheus::PrometheusBuilder;

const HEALTH_OK: RequestLabels = RequestLabels { route: Route::Health, status: 200 };
const EXECUTE_OK: RequestLabels = RequestLabels { route: Route::Execute, status: 200 };
const COUNT_ALL: RouterConfig = RouterConfig { track_metrics_route: true };
const SKIP_METRICS: RouterConfig = RouterConfig { track_metrics_route: false };

#[test]
fn new_counters_have_counted_nothing() {
    let counters = RequestCounters::new();
    assert_eq!(counters.len(), 0);
    assert_eq!(counters.count(HEALTH_OK), 0);
    assert_eq!(counters.entry(0), None);
    assert_eq!(counters.render(), "");
}

#[test]
fn record_raises_one_counter_by_one() {
    let mut counters = RequestCounters::new();
    counters.record(HEALTH_OK);
    assert_eq!(counters.count(HEALTH_OK), 1);
    assert_eq!(counters.count(EXECUTE_OK), 0);
    counters.record(EXECUTE_OK);
    counters.record(HEALTH_OK);
    assert_eq!(counters.count(HEALTH_OK), 2);
    assert_eq!(counters.count(EXECUTE_OK), 1);
    assert_eq!(counters.len(), 2);
    assert_eq!(counters.entry(0), Some(CounterEntry { labels: HEALTH_OK, count: 2 }));
    assert_eq!(counters.entry(1), Some(CounterEntry { labels: EXECUTE_OK, count: 1 }));
    assert_eq!(counters.entry(2), None);
}

#[test]
fn status_tells_counters_apart() {
    let mut counters = RequestCounters::new();
    counters.record(RequestLabels { route: Route::Execute, status: 200 });
    counters.record(RequestLabels { route: Route::Execute, status: 400 });
    assert_eq!(counters.count(RequestLabels { route: Route::Execute, status: 200 }), 1);
    assert_eq!(counters.count(RequestLabels { route: Route::Execute, status: 400 }), 1);
    assert_eq!(counters.count(RequestLabels { route: Route::Playground, status: 200 }), 0);
}

#[test]
fn counter_grows_by_the_number_of_requests() {
    let mut counters = RequestCounters::new();
    counters.record(HEALTH_OK);
    counters.record(EXECUTE_OK);
    let first_sample = counters.count(HEALTH_OK);
    let other_before = counters.count(EXECUTE_OK);
    let n: u64 = 250;
    let mut last = first_sample;
    for _ in 0..n {
        counters.record(HEALTH_OK);
        let now = counters.count(HEALTH_OK);
        assert!(now >= last);
        last = now;
    }
    let second_sample = counters.count(HEALTH_OK);
    assert_eq!(second_sample, first_sample + n);
    assert_eq!(counters.count(EXECUTE_OK), other_before);
}

#[test]
fn observe_skips_the_metrics_endpoint_where_asked() {
    let mut counters = RequestCounters::new();
    assert!(!observe(&mut counters, Route::Metrics, 200, SKIP_METRICS));
    assert_eq!(counters.len(), 0);
    assert_eq!(counters.count(RequestLabels { route: Route::Metrics, status: 200 }), 0);
    assert!(observe(&mut counters, Route::Metrics, 200, COUNT_ALL));
    assert_eq!(counters.count(RequestLabels { route: Route::Metrics, status: 200 }), 1);
}

#[test]
fn observe_counts_the_other_endpoints_always() {
    for config in [COUNT_ALL, SKIP_METRICS] {
        let mut counters = RequestCounters::new();
        for route in [Route::Health, Route::Playground, Route::Execute] {
            assert!(observe(&mut counters, route, 200, config));
            assert_eq!(counters.count(RequestLabels { route, status: 200 }), 1);
        }
        assert_eq!(counters.len(), 3);
    }
}

#[test]
fn decimal_text_writes_numbers_plainly() {
    assert_eq!(decimal_text(0), "0");
    assert_eq!(decimal_text(7), "7");
    assert_eq!(decimal_text(10), "10");
    assert_eq!(decimal_text(200), "200");
    assert_eq!(decimal_text(1234567890), "1234567890");
    assert_eq!(decimal_text(u64::MAX), "18446744073709551615");
}

#[test]
fn label_texts_are_method_path_and_status() {
    assert_eq!(
        HEALTH_OK.texts(),
        vec!["method=\"GET\"", "path=\"/health\"", "status=\"200\""]
    );
    assert_eq!(
        RequestLabels { route: Route::Execute, status: 500 }.texts(),
        vec!["method=\"POST\"", "path=\"/\"", "status=\"500\""]
    );
    assert_eq!(
        RequestLabels { route: Route::Playground, status: 200 }.texts(),
        vec!["method=\"GET\"", "path=\"/\"", "status=\"200\""]
    );
    assert_eq!(
        RequestLabels { route: Route::Metrics, status: 0 }.texts(),
        vec!["method=\"GET\"", "path=\"/metrics\"", "status=\"0\""]
    );
}

#[test]
fn render_writes_the_prometheus_text_format() {
    assert_eq!(REQUESTS_TOTAL, "http_requests_total");
    let mut counters = RequestCounters::new();
    for _ in 0..3 {
        counters.record(HEALTH_OK);
    }
    counters.record(EXECUTE_OK);
    assert_eq!(
        counters.render(),
        "# TYPE http_requests_total counter\n\
         http_requests_total{method=\"GET\",path=\"/health\",status=\"200\"} 3\n\
         http_requests_total{method=\"POST\",path=\"/\",status=\"200\"} 1\n\
         \n"
    );
}

#[test]
fn render_agrees_with_the_exporter() {
    let recorder = PrometheusBuilder::new().build_recorder();
    let key = Key::from_parts(
        "http_requests_total",
        vec![Label::new("method", "GET"), Label::new("path", "/health"), Label::new("status", "200")],
    );
    recorder.register_counter(&key).increment(12);
    let mut counters = RequestCounters::new();
    for _ in 0..12 {
        counters.record(HEALTH_OK);
    }
    assert_eq!(counters.render(), recorder.handle().render());
}

#[test]
fn health_request_shows_in_the_metrics() {
    let mut counters = RequestCounters::new();
    let response = health();
    assert_eq!(response.status, 200);
    assert_eq!(response.body_json(), "{\"healthy\":true}");
    observe(&mut counters, Route::Health, response.status, SKIP_METRICS);
    let text = counters.render();
    let line = text.lines().find(|l| l.starts_with("http_requests_total{") && l.contains("/health"));
    let value: u64 = line.unwrap().rsplit(' ').next().unwrap().parse().unwrap();
    assert!(value >= 1);
    assert_eq!(value, 1);
}
