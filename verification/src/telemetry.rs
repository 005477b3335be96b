//! Where traces are sent, and by which protocol.

use vstd::prelude::*;
use vstd::string::*;

use crate::text::{is_blank, rfind, starts_with, trim};

verus! {

/// The environment variables `OTEL_EXPORTER_OTLP_*`, as far as they are set.
#[derive(Debug)]
pub struct OtlpEnv<S = String> {
    /// `OTEL_EXPORTER_OTLP_TRACES_ENDPOINT`
    pub traces_endpoint: Option<S>,
    /// `OTEL_EXPORTER_OTLP_ENDPOINT`
    pub endpoint: Option<S>,
    /// `OTEL_EXPORTER_OTLP_METRICS_ENDPOINT`
    pub metrics_endpoint: Option<S>,
    /// `OTEL_EXPORTER_OTLP_LOGS_ENDPOINT`
    pub logs_endpoint: Option<S>,
    /// `OTEL_EXPORTER_OTLP_TRACES_PROTOCOL`
    pub traces_protocol: Option<S>,
    /// `OTEL_EXPORTER_OTLP_PROTOCOL`
    pub protocol: Option<S>,
    /// `OTEL_EXPORTER_OTLP_METRICS_PROTOCOL`
    pub metrics_protocol: Option<S>,
    /// `OTEL_EXPORTER_OTLP_LOGS_PROTOCOL`
    pub logs_protocol: Option<S>,
}

impl View for OtlpEnv {
    type V = OtlpEnv<Seq<char>>;

    open spec fn view(&self) -> OtlpEnv<Seq<char>> {
        OtlpEnv {
            traces_endpoint: self.traces_endpoint.deep_view(),
            endpoint: self.endpoint.deep_view(),
            metrics_endpoint: self.metrics_endpoint.deep_view(),
            logs_endpoint: self.logs_endpoint.deep_view(),
            traces_protocol: self.traces_protocol.deep_view(),
            protocol: self.protocol.deep_view(),
            metrics_protocol: self.metrics_protocol.deep_view(),
            logs_protocol: self.logs_protocol.deep_view(),
        }
    }
}

/// A variable counts as set only if it holds more than white space.
pub open spec fn given(value: Option<Seq<char>>) -> Option<Seq<char>> {
    match value {
        Some(v) if !crate::text::blank(v) => Some(v),
        _ => None,
    }
}

/// The first of two values that is there.
pub open spec fn first_of(a: Option<Seq<char>>, b: Option<Seq<char>>) -> Option<Seq<char>> {
    match a {
        Some(v) => Some(v),
        None => b,
    }
}

/// The traces endpoint of the collector that `endpoint` belongs to: what follows the
/// last `/v1/` names the kind of signal and gives way to `traces`.
pub open spec fn traces_sibling(endpoint: Seq<char>) -> Seq<char> {
    if crate::text::has_text(endpoint, "/v1/"@) {
        endpoint.take(choose|i: int| crate::text::last_occurrence(endpoint, "/v1/"@, i))
            + "/v1/traces"@
    } else {
        endpoint
    }
}

/// The endpoint for traces: the one set for traces or for all signals as it stands, else
/// the sibling of the one set for metrics or for logs.
pub open spec fn traces_endpoint(env: OtlpEnv<Seq<char>>) -> Option<Seq<char>> {
    match first_of(given(env.traces_endpoint), given(env.endpoint)) {
        Some(endpoint) => Some(endpoint),
        None => match first_of(given(env.metrics_endpoint), given(env.logs_endpoint)) {
            Some(endpoint) => Some(traces_sibling(endpoint)),
            None => None,
        },
    }
}

/// The protocol as it is set, before it is brought into its normal form.
pub open spec fn chosen_protocol(env: OtlpEnv<Seq<char>>) -> Seq<char> {
    match first_of(
        first_of(given(env.traces_protocol), given(env.protocol)),
        first_of(given(env.metrics_protocol), given(env.logs_protocol)),
    ) {
        Some(protocol) => protocol,
        None => "grpc"@,
    }
}

/// The protocol for traces, trimmed and in small letters.
pub open spec fn traces_protocol(env: OtlpEnv<Seq<char>>) -> Seq<char> {
    crate::text::ascii_lowercase(crate::text::trimmed(chosen_protocol(env)))
}

/// The value of a variable that counts as set.
pub fn otlp_env_var(value: &Option<String>) -> (v: Option<String>)
    ensures
        v.deep_view() == given(value.deep_view()),
{
    match value {
        Some(v) => if is_blank(v.as_str()) {
            None
        } else {
            Some(v.clone())
        },
        None => None,
    }
}

/// The first of two values that is there.
fn or_other(a: Option<String>, b: Option<String>) -> (v: Option<String>)
    ensures
        v.deep_view() == first_of(a.deep_view(), b.deep_view()),
{
    match a {
        Some(v) => Some(v),
        None => b,
    }
}

/// The endpoint that traces are sent to, where the environment gives one.
pub fn traces_endpoint_from_env(env: &OtlpEnv) -> (endpoint: Option<String>)
    ensures
        endpoint.deep_view() == traces_endpoint(env@),
{
    let own: Option<String> = or_other(
        otlp_env_var(&env.traces_endpoint),
        otlp_env_var(&env.endpoint),
    );
    if own.is_some() {
        return own;
    }
    match or_other(otlp_env_var(&env.metrics_endpoint), otlp_env_var(&env.logs_endpoint)) {
        Some(endpoint) => match rfind(endpoint.as_str(), "/v1/") {
            Some(at) => {
                proof {
                    let other = choose|i: int|
                        crate::text::last_occurrence(endpoint@, "/v1/"@, i);
                    assert(crate::text::last_occurrence(endpoint@, "/v1/"@, at as int));
                    assert(crate::text::last_occurrence(endpoint@, "/v1/"@, other));
                    assert(other == at);
                    assert(crate::text::occurs_at(endpoint@, "/v1/"@, at as int));
                    assert(endpoint@.subrange(0, at as int) =~= endpoint@.take(at as int));
                }
                let base: String = endpoint.as_str().substring_char(0, at).to_owned();
                Some(base.concat("/v1/traces"))
            },
            None => Some(endpoint),
        },
        None => None,
    }
}

/// The protocol by which traces are sent, in its normal form.
pub fn traces_protocol_from_env(env: &OtlpEnv) -> (protocol: String)
    ensures
        protocol@ == traces_protocol(env@),
{
    let own: Option<String> = or_other(
        otlp_env_var(&env.traces_protocol),
        otlp_env_var(&env.protocol),
    );
    let other: Option<String> = or_other(
        otlp_env_var(&env.metrics_protocol),
        otlp_env_var(&env.logs_protocol),
    );
    let chosen: String = match or_other(own, other) {
        Some(protocol) => protocol,
        None => "grpc".to_owned(),
    };
    trim(chosen.as_str()).to_ascii_lowercase()
}

/// How spans leave the process.
#[derive(Debug, Clone, Copy, PartialEq, Eq, Structural)]
pub enum SpanTransport {
    /// Protobuf messages over HTTP.
    HttpBinary,
    /// gRPC.
    Grpc,
}

/// The transport that a protocol asks for.
pub open spec fn transport_of(protocol: Seq<char>) -> SpanTransport {
    if crate::text::begins_with(protocol, "http"@) {
        SpanTransport::HttpBinary
    } else {
        SpanTransport::Grpc
    }
}

/// The transport that a protocol asks for: HTTP for every protocol whose name begins
/// with `http`, gRPC for any other.
pub fn span_transport(protocol: &str) -> (transport: SpanTransport)
    ensures
        transport == transport_of(protocol@),
        transport == (if crate::text::begins_with(protocol@, "http"@) {
            SpanTransport::HttpBinary
        } else {
            SpanTransport::Grpc
        }),
{
    if starts_with(protocol, "http") {
        SpanTransport::HttpBinary
    } else {
        SpanTransport::Grpc
    }
}

/// An endpoint for traces is its own sibling: deriving it once more changes nothing.
pub proof fn law_traces_sibling_is_stable(endpoint: Seq<char>)
    ensures
        traces_sibling(traces_sibling(endpoint)) == traces_sibling(endpoint),
{
    let mark = "/v1/"@;
    let tail = "/v1/traces"@;
    reveal_strlit("/v1/");
    reveal_strlit("/v1/traces");
    if crate::text::has_text(endpoint, mark) {
        let at = choose|i: int| crate::text::last_occurrence(endpoint, mark, i);
        lemma_last_occurrence_exists(endpoint, mark);
        let base = endpoint.take(at);
        let sibling = base + tail;
        assert(sibling == traces_sibling(endpoint));
        assert(sibling.subrange(at, at + 4) =~= mark);
        assert(crate::text::occurs_at(sibling, mark, base.len() as int));
        assert forall|j: int| base.len() < j implies !crate::text::occurs_at(sibling, mark, j) by {
            if crate::text::occurs_at(sibling, mark, j) {
                let found = sibling.subrange(j, j + 4);
                assert(found[0] == tail[j - base.len()]);
                assert(found[1] == tail[j - base.len() + 1]);
                assert(found[0] == '/' && found[1] == 'v');
            }
        }
        assert(crate::text::last_occurrence(sibling, mark, base.len() as int));
        let again = choose|i: int| crate::text::last_occurrence(sibling, mark, i);
        assert(again == base.len());
        assert(sibling.take(again) =~= base);
    }
}

/// Where a text occurs at all, it has a last occurrence.
proof fn lemma_last_occurrence_exists(s: Seq<char>, p: Seq<char>)
    requires
        crate::text::has_text(s, p),
    ensures
        exists|i: int| crate::text::last_occurrence(s, p, i),
{
    let first = choose|i: int| crate::text::occurs_at(s, p, i);
    lemma_last_occurrence_from(s, p, first);
}

/// From any occurrence on, there is a last one.
proof fn lemma_last_occurrence_from(s: Seq<char>, p: Seq<char>, i: int)
    requires
        crate::text::occurs_at(s, p, i),
    ensures
        exists|j: int| crate::text::last_occurrence(s, p, j),
    decreases s.len() - i,
{
    if exists|j: int| i < j && crate::text::occurs_at(s, p, j) {
        let next = choose|j: int| i < j && crate::text::occurs_at(s, p, j);
        lemma_last_occurrence_from(s, p, next);
    } else {
        assert(crate::text::last_occurrence(s, p, i));
    }
}

/// The protocol is never empty, has no white space at its ends, and has no ASCII
/// capitals: it is in its normal form whatever the environment holds.
pub proof fn law_traces_protocol_is_normal(env: OtlpEnv<Seq<char>>)
    ensures
        traces_protocol(env).len() > 0,
        crate::text::trimmed(traces_protocol(env)) == traces_protocol(env),
        crate::text::ascii_lowercase(traces_protocol(env)) == traces_protocol(env),
{
    let chosen = chosen_protocol(env);
    reveal_strlit("grpc");
    assert(!crate::text::blank("grpc"@)) by {
        assert(!crate::text::white_space("grpc"@[0]));
    }
    crate::text::lemma_trimmed(chosen);
    let core = crate::text::trimmed(chosen);
    let normal = crate::text::ascii_lowercase(core);
    assert(normal[0] == crate::text::ascii_lower(core[0]));
    assert(normal.last() == crate::text::ascii_lower(core.last()));
    assert(crate::text::trim_start(normal) == normal);
    assert(crate::text::trim_end(normal) == normal);
    assert(crate::text::ascii_lowercase(normal) =~= normal);
}

/// A variable that holds only white space counts for nothing: environments that agree on
/// the variables that hold more give the same endpoint and the same protocol.
pub proof fn law_blank_variables_count_for_nothing(
    a: OtlpEnv<Seq<char>>,
    b: OtlpEnv<Seq<char>>,
)
    requires
        given(a.traces_endpoint) == given(b.traces_endpoint),
        given(a.endpoint) == given(b.endpoint),
        given(a.metrics_endpoint) == given(b.metrics_endpoint),
        given(a.logs_endpoint) == given(b.logs_endpoint),
        given(a.traces_protocol) == given(b.traces_protocol),
        given(a.protocol) == given(b.protocol),
        given(a.metrics_protocol) == given(b.metrics_protocol),
        given(a.logs_protocol) == given(b.logs_protocol),
    ensures
        traces_endpoint(a) == traces_endpoint(b),
        traces_protocol(a) == traces_protocol(b),
{
}

/// The variable holds a character that is no white space.
pub open spec fn holds_text(value: Option<Seq<char>>) -> bool {
    value matches Some(v) && exists|i: int|
        0 <= i < v.len() && !crate::text::white_space(#[trigger] v[i])
}

/// The endpoint set for traces comes first and the one set for all signals second, each as
/// it stands, whatever the other variables hold. The endpoints for metrics and then for
/// logs matter only where neither of these two holds text, and give their siblings.
pub proof fn law_endpoints_come_in_order(env: OtlpEnv<Seq<char>>)
    ensures
        holds_text(env.traces_endpoint) ==> traces_endpoint(env) == env.traces_endpoint,
        !holds_text(env.traces_endpoint) && holds_text(env.endpoint) ==> traces_endpoint(env)
            == env.endpoint,
        !holds_text(env.traces_endpoint) && !holds_text(env.endpoint) && holds_text(
            env.metrics_endpoint,
        ) ==> traces_endpoint(env) == Some(traces_sibling(env.metrics_endpoint->0)),
        !holds_text(env.traces_endpoint) && !holds_text(env.endpoint) && !holds_text(
            env.metrics_endpoint,
        ) && holds_text(env.logs_endpoint) ==> traces_endpoint(env) == Some(
            traces_sibling(env.logs_endpoint->0),
        ),
        !holds_text(env.traces_endpoint) && !holds_text(env.endpoint) && !holds_text(
            env.metrics_endpoint,
        ) && !holds_text(env.logs_endpoint) ==> traces_endpoint(env) is None,
{
    lemma_given_holds_text(env.traces_endpoint);
    lemma_given_holds_text(env.endpoint);
    lemma_given_holds_text(env.metrics_endpoint);
    lemma_given_holds_text(env.logs_endpoint);
}

/// A variable that counts as set holds text, and the other way round.
proof fn lemma_given_holds_text(value: Option<Seq<char>>)
    ensures
        holds_text(value) ==> given(value) == value,
        !holds_text(value) ==> given(value) is None,
{
    if let Some(v) = value {
        if crate::text::blank(v) {
            assert(!holds_text(value));
        } else {
            let i = choose|i: int|
                0 <= i < v.len() && !crate::text::white_space(#[trigger] v[i]);
            assert(0 <= i < v.len() && !crate::text::white_space(v[i]));
        }
    }
}

/// What stands behind the last `/v1/` of an endpoint gives way to `traces`, and all before
/// it stays. `signal` is the shortest text that stands behind a `/v1/`.
pub proof fn law_sibling_replaces_the_signal(base: Seq<char>, signal: Seq<char>)
    requires
        forall|before: Seq<char>, after: Seq<char>|
            #[trigger] (before + "/v1/"@ + after) == base + "/v1/"@ + signal ==> after.len()
                >= signal.len(),
    ensures
        traces_sibling(base + "/v1/"@ + signal) == base + "/v1/traces"@,
{
    let mark = "/v1/"@;
    let endpoint = base + mark + signal;
    reveal_strlit("/v1/");
    assert(endpoint.subrange(base.len() as int, (base.len() + mark.len()) as int) =~= mark);
    assert(crate::text::occurs_at(endpoint, mark, base.len() as int));
    assert forall|j: int| base.len() < j implies !crate::text::occurs_at(endpoint, mark, j) by {
        if crate::text::occurs_at(endpoint, mark, j) {
            let before = endpoint.take(j);
            let after = endpoint.skip(j + mark.len());
            assert(before + mark + after =~= endpoint);
            assert(after.len() < signal.len());
        }
    }
    assert(crate::text::last_occurrence(endpoint, mark, base.len() as int));
    let found = choose|i: int| crate::text::last_occurrence(endpoint, mark, i);
    assert(found == base.len());
    assert(endpoint.take(found) =~= base);
}

/// An endpoint without `/v1/` is its own sibling.
pub proof fn law_sibling_without_a_signal(endpoint: Seq<char>)
    requires
        forall|before: Seq<char>, after: Seq<char>|
            #[trigger] (before + "/v1/"@ + after) != endpoint,
    ensures
        traces_sibling(endpoint) == endpoint,
{
    crate::text::law_parts_are_found(endpoint, "/v1/"@);
}

/// The protocol set for traces comes first, then those for all signals, for metrics and
/// for logs, each trimmed and in small letters. Where none holds text it is `grpc`.
pub proof fn law_protocols_come_in_order(env: OtlpEnv<Seq<char>>)
    ensures
        holds_text(env.traces_protocol) ==> traces_protocol(env) == crate::text::ascii_lowercase(
            crate::text::trimmed(env.traces_protocol->0),
        ),
        !holds_text(env.traces_protocol) && holds_text(env.protocol) ==> traces_protocol(env)
            == crate::text::ascii_lowercase(crate::text::trimmed(env.protocol->0)),
        !holds_text(env.traces_protocol) && !holds_text(env.protocol) && holds_text(
            env.metrics_protocol,
        ) ==> traces_protocol(env) == crate::text::ascii_lowercase(
            crate::text::trimmed(env.metrics_protocol->0),
        ),
        !holds_text(env.traces_protocol) && !holds_text(env.protocol) && !holds_text(
            env.metrics_protocol,
        ) && holds_text(env.logs_protocol) ==> traces_protocol(env)
            == crate::text::ascii_lowercase(crate::text::trimmed(env.logs_protocol->0)),
        !holds_text(env.traces_protocol) && !holds_text(env.protocol) && !holds_text(
            env.metrics_protocol,
        ) && !holds_text(env.logs_protocol) ==> traces_protocol(env) == "grpc"@,
{
    lemma_given_holds_text(env.traces_protocol);
    lemma_given_holds_text(env.protocol);
    lemma_given_holds_text(env.metrics_protocol);
    lemma_given_holds_text(env.logs_protocol);
    reveal_strlit("grpc");
    let none = Seq::<char>::empty();
    assert(none + "grpc"@ + none =~= "grpc"@);
    crate::text::law_trimming_takes_the_ends(none, "grpc"@, none);
    assert(crate::text::ascii_lowercase("grpc"@) =~= "grpc"@);
}

/// A protocol is spoken over HTTP exactly where its name is `http` and something more, or
/// nothing more.
pub proof fn law_http_protocols_go_over_http(protocol: Seq<char>)
    ensures
        transport_of(protocol) == SpanTransport::HttpBinary <==> exists|rest: Seq<char>|
            protocol == #[trigger] ("http"@ + rest),
        transport_of(protocol) == SpanTransport::Grpc <==> forall|rest: Seq<char>|
            protocol != #[trigger] ("http"@ + rest),
{
    crate::text::law_beginnings_are_found(protocol, "http"@);
}

/// The model of the environment holds each variable in its place.
pub proof fn law_variables_keep_their_places(env: OtlpEnv)
    ensures
        env@.traces_endpoint == env.traces_endpoint.deep_view(),
        env@.endpoint == env.endpoint.deep_view(),
        env@.metrics_endpoint == env.metrics_endpoint.deep_view(),
        env@.logs_endpoint == env.logs_endpoint.deep_view(),
        env@.traces_protocol == env.traces_protocol.deep_view(),
        env@.protocol == env.protocol.deep_view(),
        env@.metrics_protocol == env.metrics_protocol.deep_view(),
        env@.logs_protocol == env.logs_protocol.deep_view(),
{
}

} // verus!
