use axum::body::Body;
use axum::extract::MatchedPath;
use axum::http::{header, HeaderMap, HeaderValue, Request};
use axum::middleware::Next;
use axum::response::Response;
use axum::routing::get;
use axum::Router;
use groupify::metrics::{
    content_length, http_metrics, AttributeValue, Instrument, Measurement, RequestAttributes,
};
use opentelemetry::metrics::{Meter, MeterProvider};
use opentelemetry::KeyValue;
use opentelemetry_sdk::metrics::data::{AggregatedMetrics, MetricData, ScopeMetrics};
use opentelemetry_sdk::metrics::{InMemoryMetricExporter, PeriodicReader, SdkMeterProvider};
use std::time::{Duration, Instant};
use tower::ServiceExt;

fn with_length(value: &[u8]) -> HeaderMap<HeaderValue> {
    let mut headers = HeaderMap::new();
    headers.insert(header::CONTENT_LENGTH, HeaderValue::from_bytes(value).unwrap());
    headers
}

#[test]
fn the_length_of_a_body_is_read() {
    assert_eq!(content_length(&HeaderMap::new()), None);
    assert_eq!(content_length(&with_length(b"0")), Some(0));
    assert_eq!(content_length(&with_length(b"1234")), Some(1234));
    assert_eq!(content_length(&with_length(b"+5")), Some(5));
    assert_eq!(content_length(&with_length(b"18446744073709551615")), Some(u64::MAX));
    for bad in [&b"18446744073709551616"[..], b"-1", b"12 ", b"", b"abc", b"1\xff"] {
        assert_eq!(content_length(&with_length(bad)), None);
    }
}

#[test]
fn the_first_length_counts() {
    let mut headers = with_length(b"1");
    headers.append(header::CONTENT_LENGTH, HeaderValue::from_static("2"));
    assert_eq!(content_length(&headers), Some(1));
}

#[test]
fn a_request_is_measured() {
    let (request, begun) =
        http_metrics("GET".to_string(), Some("/hello".to_string()), &with_length(b"1"));
    assert_eq!(begun, vec![Measurement::ActiveRequests(1)]);
    let (attributes, ended) = request.finish(200, &with_length(b"5"));
    assert_eq!(attributes.method, "GET");
    assert_eq!(attributes.status_code, 200);
    assert_eq!(attributes.route, "/hello");
    assert_eq!(
        ended,
        vec![
            Measurement::ActiveRequests(-1),
            Measurement::Requests(1),
            Measurement::Duration,
            Measurement::RequestBodySize(1),
            Measurement::ResponseBodySize(5),
        ]
    );
}

#[test]
fn unknown_sizes_are_not_measured() {
    let (request, _) = http_metrics("POST".to_string(), None, &HeaderMap::new());
    let (attributes, ended) = request.finish(404, &with_length(b"x"));
    assert_eq!(attributes.route, "unmatched");
    assert_eq!(attributes.status_code, 404);
    assert_eq!(
        ended,
        vec![Measurement::ActiveRequests(-1), Measurement::Requests(1), Measurement::Duration]
    );
    let (request, _) = http_metrics("PUT".to_string(), None, &HeaderMap::new());
    let (_, ended) = request.finish(200, &with_length(b"9"));
    assert_eq!(ended.last(), Some(&Measurement::ResponseBodySize(9)));
    assert_eq!(ended.len(), 4);
}

#[test]
fn overlapping_requests_balance() {
    let (first, mut log) = http_metrics("GET".to_string(), None, &HeaderMap::new());
    let (second, begun) = http_metrics("GET".to_string(), None, &with_length(b"3"));
    log.extend(begun);
    let active = |log: &Vec<Measurement>| -> i64 {
        log.iter()
            .map(|m| match m {
                Measurement::ActiveRequests(n) => *n,
                _ => 0,
            })
            .sum()
    };
    assert_eq!(active(&log), 2);
    log.extend(first.finish(200, &HeaderMap::new()).1);
    assert_eq!(active(&log), 1);
    log.extend(second.finish(500, &HeaderMap::new()).1);
    assert_eq!(active(&log), 0);
    assert_eq!(log.iter().filter(|m| **m == Measurement::Requests(1)).count(), 2);
    assert_eq!(log.iter().filter(|m| **m == Measurement::Duration).count(), 2);
}

#[test]
fn instruments_are_announced() {
    for (instrument, name, description, unit) in [
        (
            Instrument::Requests,
            "http.server.requests",
            "Total number of HTTP server requests",
            "{request}",
        ),
        (
            Instrument::Duration,
            "http.server.duration",
            "Duration of HTTP server requests",
            "s",
        ),
        (
            Instrument::RequestBodySize,
            "http.server.request.body.size",
            "Size of HTTP server request bodies",
            "By",
        ),
        (
            Instrument::ResponseBodySize,
            "http.server.response.body.size",
            "Size of HTTP server response bodies",
            "By",
        ),
        (
            Instrument::ActiveRequests,
            "http.server.active_requests",
            "Number of active HTTP server requests",
            "{request}",
        ),
    ] {
        let info = instrument.info();
        assert_eq!(info.name, name);
        assert_eq!(info.description, description);
        assert_eq!(info.unit, unit);
    }
}

fn record(
    meter: &Meter,
    attributes: &[KeyValue],
    elapsed: f64,
    measured: Vec<Measurement>,
) {
    for measurement in measured {
        match measurement {
            Measurement::Requests(n) => {
                meter.u64_counter(Instrument::Requests.info().name).build().add(n, attributes)
            }
            Measurement::Duration => meter
                .f64_histogram(Instrument::Duration.info().name)
                .build()
                .record(elapsed, attributes),
            Measurement::RequestBodySize(n) => meter
                .u64_histogram(Instrument::RequestBodySize.info().name)
                .build()
                .record(n, attributes),
            Measurement::ResponseBodySize(n) => meter
                .u64_histogram(Instrument::ResponseBodySize.info().name)
                .build()
                .record(n, attributes),
            Measurement::ActiveRequests(n) => meter
                .i64_up_down_counter(Instrument::ActiveRequests.info().name)
                .build()
                .add(n, &[]),
        }
    }
}

fn key_values(attributes: RequestAttributes) -> Vec<KeyValue> {
    attributes
        .entries()
        .into_iter()
        .map(|(name, value)| match value {
            AttributeValue::Text(text) => KeyValue::new(name, text),
            AttributeValue::Number(n) => KeyValue::new(name, n),
        })
        .collect()
}

#[test]
fn attributes_have_their_names() {
    let (request, _) = http_metrics("GET".to_string(), Some("/hello".to_string()), &HeaderMap::new());
    let (attributes, _) = request.finish(201, &HeaderMap::new());
    assert_eq!(
        key_values(attributes),
        vec![
            KeyValue::new("http.request.method", "GET"),
            KeyValue::new("http.response.status_code", 201i64),
            KeyValue::new("http.route", "/hello"),
        ]
    );
}

async fn measure(meter: Meter, request: Request<Body>, next: Next) -> Response {
    let start = Instant::now();
    let route = request.extensions().get::<MatchedPath>().map(|path| path.as_str().to_owned());
    let (metrics, begun) =
        http_metrics(request.method().to_string(), route, request.headers());
    record(&meter, &[], 0.0, begun);
    let response = next.run(request).await;
    let (attributes, ended) = metrics.finish(response.status().as_u16(), response.headers());
    record(&meter, &key_values(attributes), start.elapsed().as_secs_f64(), ended);
    response
}

fn metric_total(scope_metrics: &[&ScopeMetrics], name: &str) -> i64 {
    let mut total = 0;
    for scope in scope_metrics {
        for metric in scope.metrics() {
            if metric.name() != name {
                continue;
            }
            match metric.data() {
                AggregatedMetrics::U64(MetricData::Sum(sum)) => {
                    for point in sum.data_points() {
                        total += point.value() as i64;
                    }
                }
                AggregatedMetrics::I64(MetricData::Sum(sum)) => {
                    for point in sum.data_points() {
                        total += point.value();
                    }
                }
                _ => continue,
            }
        }
    }
    total
}

#[test]
fn records_http_server_metrics() {
    let exporter = InMemoryMetricExporter::default();
    let reader = PeriodicReader::builder(exporter.clone())
        .with_interval(Duration::from_secs(3600))
        .build();
    let provider = SdkMeterProvider::builder().with_reader(reader).build();
    let meter = provider.meter("groupify-http");

    let app = Router::new().route("/hello", get(|| async { "world" })).layer(
        axum::middleware::from_fn(move |request: Request<Body>, next: Next| {
            measure(meter.clone(), request, next)
        }),
    );

    let runtime = tokio::runtime::Builder::new_current_thread().build().unwrap();
    let response = runtime
        .block_on(
            app.oneshot(
                Request::builder()
                    .uri("/hello")
                    .header(header::CONTENT_LENGTH, 1)
                    .body(Body::empty())
                    .unwrap(),
            ),
        )
        .unwrap();
    assert_eq!(response.status(), 200);

    provider.force_flush().unwrap();

    let finished = exporter.get_finished_metrics().unwrap();
    let scope_metrics: Vec<_> = finished.iter().flat_map(|rm| rm.scope_metrics()).collect();

    assert_eq!(metric_total(&scope_metrics, "http.server.requests"), 1);
    assert!(scope_metrics
        .iter()
        .any(|scope| scope.metrics().any(|m| m.name() == "http.server.duration")));
    assert_eq!(metric_total(&scope_metrics, "http.server.active_requests"), 0);
}
