//! What is measured of each HTTP request: that it is being served, that it was served,
//! how long that took, and how large the two bodies are.

use axum::http::{HeaderMap, HeaderValue};
use vstd::prelude::*;
use vstd::string::*;

use crate::outside::{first_field, visible_text};
use crate::text::parse_u64;

verus! {

/// The instruments that measure.
#[derive(Debug, Clone, Copy, PartialEq, Eq, Structural)]
pub enum Instrument {
    Requests,
    Duration,
    RequestBodySize,
    ResponseBodySize,
    ActiveRequests,
}

/// How an instrument is announced.
#[derive(Debug)]
pub struct InstrumentInfo<S = &'static str> {
    pub name: S,
    pub description: S,
    pub unit: S,
}

impl View for InstrumentInfo {
    type V = InstrumentInfo<Seq<char>>;

    open spec fn view(&self) -> InstrumentInfo<Seq<char>> {
        InstrumentInfo { name: self.name@, description: self.description@, unit: self.unit@ }
    }
}

/// How each instrument is announced.
pub open spec fn announced(instrument: Instrument) -> InstrumentInfo<Seq<char>> {
    match instrument {
        Instrument::Requests => InstrumentInfo {
            name: "http.server.requests"@,
            description: "Total number of HTTP server requests"@,
            unit: "{request}"@,
        },
        Instrument::Duration => InstrumentInfo {
            name: "http.server.duration"@,
            description: "Duration of HTTP server requests"@,
            unit: "s"@,
        },
        Instrument::RequestBodySize => InstrumentInfo {
            name: "http.server.request.body.size"@,
            description: "Size of HTTP server request bodies"@,
            unit: "By"@,
        },
        Instrument::ResponseBodySize => InstrumentInfo {
            name: "http.server.response.body.size"@,
            description: "Size of HTTP server response bodies"@,
            unit: "By"@,
        },
        Instrument::ActiveRequests => InstrumentInfo {
            name: "http.server.active_requests"@,
            description: "Number of active HTTP server requests"@,
            unit: "{request}"@,
        },
    }
}

impl Instrument {
    /// How the instrument is announced.
    pub fn info(&self) -> (info: InstrumentInfo)
        ensures
            info@ == announced(*self),
    {
        match self {
            Instrument::Requests => InstrumentInfo {
                name: "http.server.requests",
                description: "Total number of HTTP server requests",
                unit: "{request}",
            },
            Instrument::Duration => InstrumentInfo {
                name: "http.server.duration",
                description: "Duration of HTTP server requests",
                unit: "s",
            },
            Instrument::RequestBodySize => InstrumentInfo {
                name: "http.server.request.body.size",
                description: "Size of HTTP server request bodies",
                unit: "By",
            },
            Instrument::ResponseBodySize => InstrumentInfo {
                name: "http.server.response.body.size",
                description: "Size of HTTP server response bodies",
                unit: "By",
            },
            Instrument::ActiveRequests => InstrumentInfo {
                name: "http.server.active_requests",
                description: "Number of active HTTP server requests",
                unit: "{request}",
            },
        }
    }
}

/// What one instrument is told. All but `ActiveRequests` carry the attributes of the
/// request.
#[derive(Debug, Clone, Copy, PartialEq, Eq, Structural)]
pub enum Measurement {
    /// So many more requests were served.
    Requests(u64),
    /// The request took the time since it began.
    Duration,
    /// The body of the request has so many bytes.
    RequestBodySize(u64),
    /// The body of the response has so many bytes.
    ResponseBodySize(u64),
    /// So many more requests are being served.
    ActiveRequests(i64),
}

/// What tells one served request from another.
#[derive(Debug)]
pub struct RequestAttributes<S = String> {
    pub method: S,
    pub status_code: i64,
    pub route: S,
}

impl View for RequestAttributes {
    type V = RequestAttributes<Seq<char>>;

    open spec fn view(&self) -> RequestAttributes<Seq<char>> {
        RequestAttributes {
            method: self.method@,
            status_code: self.status_code,
            route: self.route@,
        }
    }
}

/// The value of an attribute.
#[derive(Debug)]
pub enum AttributeValue<S = String> {
    Text(S),
    Number(i64),
}

impl View for AttributeValue {
    type V = AttributeValue<Seq<char>>;

    open spec fn view(&self) -> AttributeValue<Seq<char>> {
        match self {
            AttributeValue::Text(text) => AttributeValue::Text(text@),
            AttributeValue::Number(n) => AttributeValue::Number(*n),
        }
    }
}

impl RequestAttributes {
    /// The attributes under the names by which they are exported.
    pub fn entries(self) -> (entries: Vec<(&'static str, AttributeValue)>)
        ensures
            entries.len() == 3,
            entries[0].0@ == "http.request.method"@,
            entries[0].1@ == AttributeValue::Text(self@.method),
            entries[1].0@ == "http.response.status_code"@,
            entries[1].1@ == AttributeValue::<Seq<char>>::Number(self@.status_code),
            entries[2].0@ == "http.route"@,
            entries[2].1@ == AttributeValue::Text(self@.route),
    {
        let mut entries: Vec<(&'static str, AttributeValue)> = Vec::new();
        entries.push(("http.request.method", AttributeValue::Text(self.method)));
        entries.push(("http.response.status_code", AttributeValue::Number(self.status_code)));
        entries.push(("http.route", AttributeValue::Text(self.route)));
        entries
    }
}

/// A request that is being served.
#[derive(Debug)]
pub struct RequestMetrics<S = String> {
    pub method: S,
    pub route: S,
    pub request_body_size: Option<u64>,
}

impl View for RequestMetrics {
    type V = RequestMetrics<Seq<char>>;

    open spec fn view(&self) -> RequestMetrics<Seq<char>> {
        RequestMetrics {
            method: self.method@,
            route: self.route@,
            request_body_size: self.request_body_size,
        }
    }
}

/// The length of the body that the header states: the value of `content-length`, where it
/// is an unsigned decimal number.
pub open spec fn stated_length(headers: HeaderMap<HeaderValue>) -> Option<u64> {
    let fields = crate::outside::header_fields(headers);
    if fields.contains_key("content-length"@) {
        match crate::outside::field_text(fields["content-length"@]) {
            Some(text) => crate::text::unsigned_number(text),
            None => None,
        }
    } else {
        None
    }
}

/// The length of the body that the header states.
pub fn content_length(headers: &HeaderMap<HeaderValue>) -> (length: Option<u64>)
    ensures
        length == stated_length(*headers),
{
    proof {
        reveal_strlit("content-length");
    }
    match first_field(headers, "content-length") {
        Some(value) => match visible_text(value.as_slice()) {
            Some(text) => parse_u64(text.as_str()),
            None => None,
        },
        None => None,
    }
}

/// A request as it begins: the route is that of the handler, or `unmatched` where there is
/// none.
pub open spec fn request_begun(
    method: Seq<char>,
    matched_path: Option<Seq<char>>,
    request_body_size: Option<u64>,
) -> RequestMetrics<Seq<char>> {
    RequestMetrics {
        method,
        route: match matched_path {
            Some(path) => path,
            None => "unmatched"@,
        },
        request_body_size,
    }
}

/// What is measured when a request begins.
pub open spec fn measured_at_begin() -> Seq<Measurement> {
    seq![Measurement::ActiveRequests(1)]
}

/// The attributes of a request that was served with this status.
pub open spec fn attributes_of(
    request: RequestMetrics<Seq<char>>,
    status: u16,
) -> RequestAttributes<Seq<char>> {
    RequestAttributes { method: request.method, status_code: status as i64, route: request.route }
}

/// What is measured when a request was served. The size of a body is measured where it is
/// known.
pub open spec fn measured_at_end(
    request_body_size: Option<u64>,
    response_body_size: Option<u64>,
) -> Seq<Measurement> {
    seq![Measurement::ActiveRequests((-1) as i64), Measurement::Requests(1), Measurement::Duration] + (
    match request_body_size {
        Some(size) => seq![Measurement::RequestBodySize(size)],
        None => Seq::empty(),
    }) + (match response_body_size {
        Some(size) => seq![Measurement::ResponseBodySize(size)],
        None => Seq::empty(),
    })
}

/// Begins to measure a request: what is known of it, and what the instruments are told.
/// `matched_path` is the path of the route that serves it.
pub fn http_metrics(
    method: String,
    matched_path: Option<String>,
    headers: &HeaderMap<HeaderValue>,
) -> (r: (RequestMetrics, Vec<Measurement>))
    ensures
        r.0@ == request_begun(method@, matched_path.deep_view(), stated_length(*headers)),
        r.1@ == measured_at_begin(),
{
    let route: String = match matched_path {
        Some(path) => path,
        None => "unmatched".to_owned(),
    };
    let request_body_size: Option<u64> = content_length(headers);
    let mut measured: Vec<Measurement> = Vec::new();
    measured.push(Measurement::ActiveRequests(1));
    (RequestMetrics { method, route, request_body_size }, measured)
}

impl RequestMetrics {
    /// Ends the measuring of a request that was served with this status and these header
    /// fields: its attributes, and what the instruments are told.
    pub fn finish(self, status: u16, headers: &HeaderMap<HeaderValue>) -> (r: (
        RequestAttributes,
        Vec<Measurement>,
    ))
        ensures
            r.0@ == attributes_of(self@, status),
            r.1@ == measured_at_end(self@.request_body_size, stated_length(*headers)),
    {
        let mut measured: Vec<Measurement> = Vec::new();
        measured.push(Measurement::ActiveRequests(-1));
        measured.push(Measurement::Requests(1));
        measured.push(Measurement::Duration);
        if let Some(size) = self.request_body_size {
            measured.push(Measurement::RequestBodySize(size));
        }
        if let Some(size) = content_length(headers) {
            measured.push(Measurement::ResponseBodySize(size));
        }
        let attributes = RequestAttributes {
            method: self.method,
            status_code: status as i64,
            route: self.route,
        };
        assert(measured@ =~= measured_at_end(self@.request_body_size, stated_length(*headers)));
        (attributes, measured)
    }
}

/// What the measurements add up to for the number of requests being served.
pub open spec fn active_total(measured: Seq<Measurement>) -> int
    decreases measured.len(),
{
    if measured.len() == 0 {
        0
    } else {
        active_total(measured.drop_last()) + match measured.last() {
            Measurement::ActiveRequests(n) => n as int,
            _ => 0,
        }
    }
}

/// What the measurements add up to for the number of requests served.
pub open spec fn served_total(measured: Seq<Measurement>) -> int
    decreases measured.len(),
{
    if measured.len() == 0 {
        0
    } else {
        served_total(measured.drop_last()) + match measured.last() {
            Measurement::Requests(n) => n as int,
            _ => 0,
        }
    }
}

/// How often the time that a request took was measured.
pub open spec fn durations_measured(measured: Seq<Measurement>) -> int
    decreases measured.len(),
{
    if measured.len() == 0 {
        0
    } else {
        durations_measured(measured.drop_last()) + match measured.last() {
            Measurement::Duration => 1int,
            _ => 0,
        }
    }
}

/// Something that happens at a server: a request begins, or ends with bodies of these
/// sizes.
pub enum Happening {
    Begins,
    Ends { request_body_size: Option<u64>, response_body_size: Option<u64> },
}

/// All that is measured while this happens, in this order.
pub open spec fn measured_in(history: Seq<Happening>) -> Seq<Measurement>
    decreases history.len(),
{
    if history.len() == 0 {
        Seq::empty()
    } else {
        measured_in(history.drop_last()) + match history.last() {
            Happening::Begins => measured_at_begin(),
            Happening::Ends { request_body_size, response_body_size } => measured_at_end(
                request_body_size,
                response_body_size,
            ),
        }
    }
}

/// How many requests have begun.
pub open spec fn begun_in(history: Seq<Happening>) -> int
    decreases history.len(),
{
    if history.len() == 0 {
        0
    } else {
        begun_in(history.drop_last()) + if history.last() is Begins {
            1int
        } else {
            0
        }
    }
}

/// How many requests have ended.
pub open spec fn ended_in(history: Seq<Happening>) -> int {
    history.len() - begun_in(history)
}

/// The totals of two runs of measurements add up.
proof fn lemma_totals_add_up(first: Seq<Measurement>, second: Seq<Measurement>)
    ensures
        active_total(first + second) == active_total(first) + active_total(second),
        served_total(first + second) == served_total(first) + served_total(second),
        durations_measured(first + second) == durations_measured(first) + durations_measured(second),
    decreases second.len(),
{
    if second.len() == 0 {
        assert(first + second =~= first);
    } else {
        lemma_totals_add_up(first, second.drop_last());
        assert((first + second).drop_last() =~= first + second.drop_last());
        assert((first + second).last() == second.last());
    }
}

/// One request that begins and ends leaves the number of requests being served as it was,
/// counts once among those served, and its time is measured once, whatever the sizes of
/// the bodies.
pub proof fn law_one_request_counts_once(
    request_body_size: Option<u64>,
    response_body_size: Option<u64>,
)
    ensures
        ({
            let measured = measured_at_begin() + measured_at_end(
                request_body_size,
                response_body_size,
            );
            &&& active_total(measured) == 0
            &&& served_total(measured) == 1
            &&& durations_measured(measured) == 1
        }),
{
    lemma_begin_and_end(request_body_size, response_body_size);
    lemma_totals_add_up(
        measured_at_begin(),
        measured_at_end(request_body_size, response_body_size),
    );
}

/// What the beginning and the end of one request add to the totals.
proof fn lemma_begin_and_end(request_body_size: Option<u64>, response_body_size: Option<u64>)
    ensures
        active_total(measured_at_begin()) == 1,
        served_total(measured_at_begin()) == 0,
        durations_measured(measured_at_begin()) == 0,
        active_total(measured_at_end(request_body_size, response_body_size)) == -1,
        served_total(measured_at_end(request_body_size, response_body_size)) == 1,
        durations_measured(measured_at_end(request_body_size, response_body_size)) == 1,
{
    reveal_with_fuel(active_total, 6);
    reveal_with_fuel(served_total, 6);
    reveal_with_fuel(durations_measured, 6);
    let end = measured_at_end(request_body_size, response_body_size);
    let core = seq![
        Measurement::ActiveRequests((-1) as i64),
        Measurement::Requests(1),
        Measurement::Duration,
    ];
    assert(core.drop_last().drop_last() =~= seq![Measurement::ActiveRequests((-1) as i64)]);
    match (request_body_size, response_body_size) {
        (None, None) => {
            assert(end =~= core);
        },
        (Some(_), Some(_)) => {
            assert(end.drop_last().drop_last() =~= core);
        },
        _ => {
            assert(end.drop_last() =~= core);
        },
    }
}

/// However the requests overlap, the number of requests being served is that of those
/// that have begun less that of those that have ended, and each that has ended counts once
/// among those served, with its time.
pub proof fn law_totals_match_the_requests(history: Seq<Happening>)
    ensures
        active_total(measured_in(history)) == begun_in(history) - ended_in(history),
        served_total(measured_in(history)) == ended_in(history),
        durations_measured(measured_in(history)) == ended_in(history),
    decreases history.len(),
{
    if history.len() > 0 {
        law_totals_match_the_requests(history.drop_last());
        let before = measured_in(history.drop_last());
        match history.last() {
            Happening::Begins => {
                lemma_begin_and_end(None, None);
                lemma_totals_add_up(before, measured_at_begin());
            },
            Happening::Ends { request_body_size, response_body_size } => {
                lemma_begin_and_end(request_body_size, response_body_size);
                lemma_totals_add_up(
                    before,
                    measured_at_end(request_body_size, response_body_size),
                );
            },
        }
    }
}

/// At the end of a request the size of its body is measured exactly where the request
/// states it, and the size of the response's body exactly where the response states it,
/// each at most once and whatever the other is.
pub proof fn law_each_body_is_measured_as_its_own(
    request_body_size: Option<u64>,
    response_body_size: Option<u64>,
)
    ensures
        ({
            let measured = measured_at_end(request_body_size, response_body_size);
            &&& forall|n: u64|
                #[trigger] measured.contains(Measurement::RequestBodySize(n)) <==> request_body_size
                    == Some(n)
            &&& forall|n: u64|
                #[trigger] measured.contains(Measurement::ResponseBodySize(n))
                    <==> response_body_size == Some(n)
            &&& forall|i: int, j: int|
                0 <= i < measured.len() && 0 <= j < measured.len()
                    && #[trigger] measured[i] is RequestBodySize && #[trigger] measured[j] is RequestBodySize
                    ==> i == j
            &&& forall|i: int, j: int|
                0 <= i < measured.len() && 0 <= j < measured.len()
                    && #[trigger] measured[i] is ResponseBodySize && #[trigger] measured[j] is ResponseBodySize
                    ==> i == j
        }),
{
    let measured = measured_at_end(request_body_size, response_body_size);
    let core = seq![
        Measurement::ActiveRequests((-1) as i64),
        Measurement::Requests(1),
        Measurement::Duration,
    ];
    assert(measured[0] == core[0] && measured[1] == core[1] && measured[2] == core[2]);
    if let Some(n) = request_body_size {
        assert(measured[3] == Measurement::RequestBodySize(n));
    }
    if let Some(n) = response_body_size {
        assert(measured[measured.len() - 1] == Measurement::ResponseBodySize(n));
    }
}

/// The end of a request is told in one order: one request fewer is being served, one more
/// was served, and its time; then only the sizes of the bodies that are stated, the
/// request's first. The beginning tells of one more being served.
pub proof fn law_measurements_come_in_order(
    request_body_size: Option<u64>,
    response_body_size: Option<u64>,
)
    ensures
        ({
            let measured = measured_at_end(request_body_size, response_body_size);
            &&& measured.len() == 3 + (if request_body_size is Some {
                1int
            } else {
                0
            }) + (if response_body_size is Some {
                1int
            } else {
                0
            })
            &&& measured[0] matches Measurement::ActiveRequests(n) && n == -1
            &&& measured[1] == Measurement::Requests(1)
            &&& measured[2] == Measurement::Duration
            &&& request_body_size matches Some(n) ==> measured[3] == Measurement::RequestBodySize(n)
            &&& response_body_size matches Some(n) ==> measured.last()
                == Measurement::ResponseBodySize(n)
        }),
        measured_at_begin().len() == 1,
        measured_at_begin()[0] == Measurement::ActiveRequests(1),
{
}

/// The length of a body is the number in the field `content-length`; without the field, or
/// where its value is no visible text or no unsigned number, no length is stated.
pub proof fn law_lengths_are_those_stated(headers: HeaderMap<HeaderValue>)
    ensures
        ({
            let fields = crate::outside::header_fields(headers);
            &&& !fields.contains_key("content-length"@) ==> stated_length(headers) is None
            &&& fields.contains_key("content-length"@) && crate::outside::field_text(
                fields["content-length"@],
            ) is None ==> stated_length(headers) is None
            &&& fields.contains_key("content-length"@) && crate::outside::field_text(
                fields["content-length"@],
            ) is Some ==> stated_length(headers) == crate::text::unsigned_number(
                crate::outside::field_text(fields["content-length"@])->0,
            )
        }),
{
}

/// A request keeps its method, the path of its route, or `unmatched` where no route serves
/// it, and the length of its body; it is told from others by its method, the status of the
/// response and its route.
pub proof fn law_requests_are_told_apart(
    method: Seq<char>,
    path: Seq<char>,
    size: Option<u64>,
    status: u16,
)
    ensures
        request_begun(method, Some(path), size) == (RequestMetrics {
            method,
            route: path,
            request_body_size: size,
        }),
        request_begun(method, None, size) == (RequestMetrics {
            method,
            route: "unmatched"@,
            request_body_size: size,
        }),
        attributes_of(request_begun(method, Some(path), size), status).method == method,
        attributes_of(request_begun(method, Some(path), size), status).route == path,
        attributes_of(request_begun(method, Some(path), size), status).status_code == status,
        attributes_of(request_begun(method, None, size), status).route == "unmatched"@,
{
}

/// The name, the description and the unit under which each instrument is announced.
pub proof fn law_instruments_are_announced()
    ensures
        announced(Instrument::Requests) == (InstrumentInfo {
            name: "http.server.requests"@,
            description: "Total number of HTTP server requests"@,
            unit: "{request}"@,
        }),
        announced(Instrument::Duration) == (InstrumentInfo {
            name: "http.server.duration"@,
            description: "Duration of HTTP server requests"@,
            unit: "s"@,
        }),
        announced(Instrument::RequestBodySize) == (InstrumentInfo {
            name: "http.server.request.body.size"@,
            description: "Size of HTTP server request bodies"@,
            unit: "By"@,
        }),
        announced(Instrument::ResponseBodySize) == (InstrumentInfo {
            name: "http.server.response.body.size"@,
            description: "Size of HTTP server response bodies"@,
            unit: "By"@,
        }),
        announced(Instrument::ActiveRequests) == (InstrumentInfo {
            name: "http.server.active_requests"@,
            description: "Number of active HTTP server requests"@,
            unit: "{request}"@,
        }),
{
}

/// The models of requests, attributes and instruments hold each value in its place.
pub proof fn law_metrics_keep_their_values(
    request: RequestMetrics,
    attributes: RequestAttributes,
    info: InstrumentInfo,
    text: String,
    n: i64,
)
    ensures
        request@.method == request.method@,
        request@.route == request.route@,
        request@.request_body_size == request.request_body_size,
        attributes@.method == attributes.method@,
        attributes@.status_code == attributes.status_code,
        attributes@.route == attributes.route@,
        info@.name == info.name@,
        info@.description == info.description@,
        info@.unit == info.unit@,
        AttributeValue::Text(text)@ == AttributeValue::Text(text@),
        AttributeValue::<String>::Number(n)@ == AttributeValue::<Seq<char>>::Number(n),
{
}

} // verus!
