use groupify::telemetry::{
    otlp_env_var, span_transport, traces_endpoint_from_env, traces_protocol_from_env, OtlpEnv,
    SpanTransport,
};

fn unset() -> OtlpEnv {
    OtlpEnv {
        traces_endpoint: None,
        endpoint: None,
        metrics_endpoint: None,
        logs_endpoint: None,
        traces_protocol: None,
        protocol: None,
        metrics_protocol: None,
        logs_protocol: None,
    }
}

fn some(text: &str) -> Option<String> {
    Some(text.to_string())
}

#[test]
fn blank_variables_do_not_count() {
    assert_eq!(otlp_env_var(&None), None);
    assert_eq!(otlp_env_var(&some("")), None);
    assert_eq!(otlp_env_var(&some(" \t\n\u{a0}\u{2003}")), None);
    assert_eq!(otlp_env_var(&some(" x ")), some(" x "));
}

#[test]
fn no_endpoint_without_variables() {
    assert_eq!(traces_endpoint_from_env(&unset()), None);
}

#[test]
fn the_traces_endpoint_comes_first_and_unchanged() {
    let mut env = unset();
    env.traces_endpoint = some("http://a/v1/metrics");
    env.endpoint = some("http://b");
    env.metrics_endpoint = some("http://c/v1/metrics");
    assert_eq!(traces_endpoint_from_env(&env), some("http://a/v1/metrics"));
}

#[test]
fn the_general_endpoint_comes_second() {
    let mut env = unset();
    env.traces_endpoint = some("   ");
    env.endpoint = some("http://b");
    env.logs_endpoint = some("http://d/v1/logs");
    assert_eq!(traces_endpoint_from_env(&env), some("http://b"));
}

#[test]
fn the_metrics_endpoint_gives_its_sibling() {
    let mut env = unset();
    env.metrics_endpoint = some("http://c:4318/v1/metrics");
    env.logs_endpoint = some("http://d/v1/logs");
    assert_eq!(traces_endpoint_from_env(&env), some("http://c:4318/v1/traces"));
}

#[test]
fn the_logs_endpoint_comes_last() {
    let mut env = unset();
    env.logs_endpoint = some("http://d/v1/logs");
    assert_eq!(traces_endpoint_from_env(&env), some("http://d/v1/traces"));
}

#[test]
fn only_the_last_mark_counts() {
    let mut env = unset();
    env.metrics_endpoint = some("http://c/v1/x/v1/metrics");
    assert_eq!(traces_endpoint_from_env(&env), some("http://c/v1/x/v1/traces"));
    env.metrics_endpoint = some("/v1//v1/");
    assert_eq!(traces_endpoint_from_env(&env), some("/v1//v1/traces"));
    env.metrics_endpoint = some("/v1/v1/");
    assert_eq!(traces_endpoint_from_env(&env), some("/v1/v1/traces"));
}

#[test]
fn an_endpoint_without_the_mark_stays() {
    let mut env = unset();
    env.metrics_endpoint = some("http://c:4317");
    assert_eq!(traces_endpoint_from_env(&env), some("http://c:4317"));
}

#[test]
fn the_sibling_of_a_traces_endpoint_is_itself() {
    let mut env = unset();
    env.metrics_endpoint = some("http://ü/v1/metrics");
    let once = traces_endpoint_from_env(&env);
    env.metrics_endpoint = once.clone();
    assert_eq!(traces_endpoint_from_env(&env), once);
    assert_eq!(once, some("http://ü/v1/traces"));
}

#[test]
fn the_protocol_defaults_to_grpc() {
    assert_eq!(traces_protocol_from_env(&unset()), "grpc");
}

#[test]
fn the_protocol_is_trimmed_and_in_small_letters() {
    let mut env = unset();
    env.traces_protocol = some("  HTTP/Protobuf\n");
    env.protocol = some("grpc");
    assert_eq!(traces_protocol_from_env(&env), "http/protobuf");
}

#[test]
fn protocols_are_taken_in_order() {
    let mut env = unset();
    env.logs_protocol = some("four");
    assert_eq!(traces_protocol_from_env(&env), "four");
    env.metrics_protocol = some("three");
    assert_eq!(traces_protocol_from_env(&env), "three");
    env.protocol = some("two");
    assert_eq!(traces_protocol_from_env(&env), "two");
    env.traces_protocol = some(" ");
    assert_eq!(traces_protocol_from_env(&env), "two");
    env.traces_protocol = some("one");
    assert_eq!(traces_protocol_from_env(&env), "one");
}

#[test]
fn letters_beyond_ascii_keep_their_case() {
    let mut env = unset();
    env.protocol = some("\u{2003}GRÜN");
    assert_eq!(traces_protocol_from_env(&env), "grÜn");
}

#[test]
fn http_protocols_use_http() {
    assert_eq!(span_transport("http/protobuf"), SpanTransport::HttpBinary);
    assert_eq!(span_transport("http/json"), SpanTransport::HttpBinary);
    assert_eq!(span_transport("https"), SpanTransport::HttpBinary);
    assert_eq!(span_transport("grpc"), SpanTransport::Grpc);
    assert_eq!(span_transport("htt"), SpanTransport::Grpc);
    assert_eq!(span_transport(""), SpanTransport::Grpc);
}
