//! The invoices of a user, as the payment service Dodo lists them.
//!
//! The request runs in steps: each step says what to do next, and the server reports what
//! came of it.

use vstd::pervasive::unreached;
use vstd::prelude::*;
use vstd::string::*;

use crate::errors::AppError;
use crate::json::Json;
use crate::text::{given_or_empty, same_text};

verus! {

/// One payment.
#[derive(Debug)]
pub struct InvoiceItem<S = String> {
    pub payment_id: S,
    pub total_amount: i32,
    pub currency: S,
    pub status: Option<S>,
    pub created_at: S,
    pub customer_name: S,
    pub customer_email: S,
    pub subscription_id: Option<S>,
    pub invoice_url: Option<S>,
    pub refund_status: Option<S>,
}

impl View for InvoiceItem {
    type V = InvoiceItem<Seq<char>>;

    open spec fn view(&self) -> InvoiceItem<Seq<char>> {
        InvoiceItem {
            payment_id: self.payment_id@,
            total_amount: self.total_amount,
            currency: self.currency@,
            status: self.status.deep_view(),
            created_at: self.created_at@,
            customer_name: self.customer_name@,
            customer_email: self.customer_email@,
            subscription_id: self.subscription_id.deep_view(),
            invoice_url: self.invoice_url.deep_view(),
            refund_status: self.refund_status.deep_view(),
        }
    }
}

/// The payments of a user.
#[derive(Debug)]
pub struct InvoicesResponse<L = Vec<InvoiceItem>> {
    pub items: L,
}

impl View for InvoicesResponse {
    type V = InvoicesResponse<Seq<InvoiceItem<Seq<char>>>>;

    open spec fn view(&self) -> InvoicesResponse<Seq<InvoiceItem<Seq<char>>>> {
        InvoicesResponse { items: self.items@.map_values(|item: InvoiceItem| item@) }
    }
}

/// The `i32` with the same low 32 bits.
pub open spec fn low_bits(n: i64) -> i32 {
    let rest = n as int % 0x1_0000_0000;
    if rest < 0x8000_0000 {
        rest as i32
    } else {
        (rest - 0x1_0000_0000) as i32
    }
}

/// The characters of a member of the customer, where it is a text.
pub open spec fn customer_field(payment: Json, name: Seq<char>) -> Option<Seq<char>> {
    match payment.field("customer"@) {
        Some(customer) => customer.text_field(name),
        None => None,
    }
}

/// One payment as the payment service writes it. What is missing, or is not a text, is
/// left empty; a missing amount is zero.
pub open spec fn invoice_of(payment: Json) -> InvoiceItem<Seq<char>> {
    InvoiceItem {
        payment_id: crate::text::or_empty(payment.text_field("payment_id"@)),
        total_amount: low_bits(
            match payment.int_field("total_amount"@) {
                Some(n) => n,
                None => 0,
            },
        ),
        currency: crate::text::or_empty(payment.text_field("currency"@)),
        status: payment.text_field("status"@),
        created_at: crate::text::or_empty(payment.text_field("created_at"@)),
        customer_name: crate::text::or_empty(customer_field(payment, "name"@)),
        customer_email: crate::text::or_empty(customer_field(payment, "email"@)),
        subscription_id: payment.text_field("subscription_id"@),
        invoice_url: payment.text_field("invoice_url"@),
        refund_status: payment.text_field("refund_status"@),
    }
}

/// The payments in an answer of the payment service, in the order of the answer. An answer
/// without a list of them has none.
pub open spec fn payments_in(answer: Json) -> Seq<Json> {
    match answer.field("items"@) {
        Some(items) => match items.elements() {
            Some(payments) => payments,
            None => Seq::empty(),
        },
        None => Seq::empty(),
    }
}

/// The invoices in an answer of the payment service.
pub open spec fn invoices_in(answer: Json) -> Seq<InvoiceItem<Seq<char>>> {
    payments_in(answer).map_values(|payment: Json| invoice_of(payment))
}

/// A number cut down to its low 32 bits.
fn cut_down(n: i64) -> (r: i32)
    ensures
        r == low_bits(n),
{
    let r: i32 = n as i32;
    assert((r - n) % 0x1_0000_0000 == 0) by (bit_vector)
        requires
            r == n as i32,
    ;
    r
}

/// The characters of a member of the customer, where it is a text.
fn customer_text(payment: &Json, name: &str) -> (t: Option<String>)
    ensures
        t.deep_view() == customer_field(*payment, name@),
{
    match payment.get("customer") {
        Some(customer) => customer.text_at(name),
        None => None,
    }
}

/// Reads one payment.
pub fn invoice_from_payment(payment: &Json) -> (item: InvoiceItem)
    ensures
        item@ == invoice_of(*payment),
{
    let amount: i64 = match payment.int_at("total_amount") {
        Some(n) => n,
        None => 0,
    };
    InvoiceItem {
        payment_id: given_or_empty(payment.text_at("payment_id")),
        total_amount: cut_down(amount),
        currency: given_or_empty(payment.text_at("currency")),
        status: payment.text_at("status"),
        created_at: given_or_empty(payment.text_at("created_at")),
        customer_name: given_or_empty(customer_text(payment, "name")),
        customer_email: given_or_empty(customer_text(payment, "email")),
        subscription_id: payment.text_at("subscription_id"),
        invoice_url: payment.text_at("invoice_url"),
        refund_status: payment.text_at("refund_status"),
    }
}

/// Reads the answer of the payment service.
pub fn invoices_from_answer(answer: &Json) -> (response: InvoicesResponse)
    ensures
        response@.items == invoices_in(*answer),
{
    let mut items: Vec<InvoiceItem> = Vec::new();
    if let Some(value) = answer.get("items") {
        if let Some(payments) = value.as_array() {
            let mut i: usize = 0;
            while i < payments.len()
                invariant
                    i <= payments.len(),
                    items.len() == i,
                    forall|j: int| 0 <= j < i ==> (#[trigger] items[j])@ == invoice_of(payments[j]),
                decreases payments.len() - i,
            {
                items.push(invoice_from_payment(&payments[i]));
                i += 1;
            }
        }
    }
    let response = InvoicesResponse { items };
    assert(response@.items =~= invoices_in(*answer));
    response
}

/// What the environment says of the payment service: `DODO_API_KEY` and
/// `DODO_ENVIRONMENT`.
#[derive(Debug)]
pub struct DodoEnv<S = String> {
    pub api_key: Option<S>,
    pub environment: Option<S>,
}

impl View for DodoEnv {
    type V = DodoEnv<Seq<char>>;

    open spec fn view(&self) -> DodoEnv<Seq<char>> {
        DodoEnv {
            api_key: self.api_key.deep_view(),
            environment: self.environment.deep_view(),
        }
    }
}

/// The current subscription of a user.
#[derive(Debug)]
pub struct Subscription<S = String> {
    /// What the payment service calls the user.
    pub external_customer_id: Option<S>,
}

impl View for Subscription {
    type V = Subscription<Seq<char>>;

    open spec fn view(&self) -> Subscription<Seq<char>> {
        Subscription { external_customer_id: self.external_customer_id.deep_view() }
    }
}

/// A request for the payments of a customer.
#[derive(Debug)]
pub struct PaymentsRequest<S = String> {
    pub url: S,
    /// The value of the `Authorization` header.
    pub authorization: S,
    /// The value of the `Content-Type` header.
    pub content_type: S,
    /// The value of the `Dodo-Environment` header.
    pub environment: S,
    /// The value of `customer_id` in the query.
    pub customer_id: S,
}

impl View for PaymentsRequest {
    type V = PaymentsRequest<Seq<char>>;

    open spec fn view(&self) -> PaymentsRequest<Seq<char>> {
        PaymentsRequest {
            url: self.url@,
            authorization: self.authorization@,
            content_type: self.content_type@,
            environment: self.environment@,
            customer_id: self.customer_id@,
        }
    }
}

/// How far a request for invoices has come.
#[derive(Debug)]
pub enum InvoiceQuery<E = DodoEnv, S = String> {
    /// The user is being identified.
    ResolvingUser(E),
    /// The user's subscription is being looked up.
    FindingSubscription { api_key: S, environment: S },
    /// The payment service is being asked.
    Fetching,
    /// The payment service has answered.
    Reading,
    /// The payment service has refused to answer.
    ReadingRefusal,
    /// Nothing is left to do.
    Finished,
}

impl View for InvoiceQuery {
    type V = InvoiceQuery<DodoEnv<Seq<char>>, Seq<char>>;

    open spec fn view(&self) -> InvoiceQuery<DodoEnv<Seq<char>>, Seq<char>> {
        match self {
            InvoiceQuery::ResolvingUser(env) => InvoiceQuery::ResolvingUser(env@),
            InvoiceQuery::FindingSubscription { api_key, environment } => {
                InvoiceQuery::FindingSubscription { api_key: api_key@, environment: environment@ }
            },
            InvoiceQuery::Fetching => InvoiceQuery::Fetching,
            InvoiceQuery::Reading => InvoiceQuery::Reading,
            InvoiceQuery::ReadingRefusal => InvoiceQuery::ReadingRefusal,
            InvoiceQuery::Finished => InvoiceQuery::Finished,
        }
    }
}

/// What to do next.
#[derive(Debug)]
pub enum InvoiceAction<S = String, L = Vec<InvoiceItem>> {
    /// Find out the identifier of the user who holds this token.
    ResolveUser { auth_token: S },
    /// Look up the user's subscription that has not ended.
    FindSubscription { user_id: S },
    /// Ask the payment service.
    Fetch(PaymentsRequest<S>),
    /// Read the answer as JSON.
    ReadAnswer,
    /// Read the answer as text.
    ReadRefusal,
    /// The invoices are known.
    Done(InvoicesResponse<L>),
    /// The request failed.
    Fail(AppError<S>),
}

/// What to do next, in terms of the models.
pub type InvoiceActionModel = InvoiceAction<Seq<char>, Seq<InvoiceItem<Seq<char>>>>;

impl View for InvoiceAction {
    type V = InvoiceAction<Seq<char>, Seq<InvoiceItem<Seq<char>>>>;

    open spec fn view(&self) -> InvoiceAction<Seq<char>, Seq<InvoiceItem<Seq<char>>>> {
        match self {
            InvoiceAction::ResolveUser { auth_token } => InvoiceAction::ResolveUser {
                auth_token: auth_token@,
            },
            InvoiceAction::FindSubscription { user_id } => InvoiceAction::FindSubscription {
                user_id: user_id@,
            },
            InvoiceAction::Fetch(request) => InvoiceAction::Fetch(request@),
            InvoiceAction::ReadAnswer => InvoiceAction::ReadAnswer,
            InvoiceAction::ReadRefusal => InvoiceAction::ReadRefusal,
            InvoiceAction::Done(response) => InvoiceAction::Done(response@),
            InvoiceAction::Fail(e) => InvoiceAction::Fail(e@),
        }
    }
}

/// What came of an action. A failure carries its error, or the report of one.
#[derive(Debug)]
pub enum InvoiceEvent<S = String> {
    UserResolved(Result<S, AppError<S>>),
    SubscriptionFound(Result<Option<Subscription<S>>, S>),
    /// The payment service answered with this HTTP status, or could not be reached.
    Answered(Result<u16, S>),
    AnswerRead(Result<Json, S>),
    RefusalRead(Result<S, S>),
}

impl View for InvoiceEvent {
    type V = InvoiceEvent<Seq<char>>;

    open spec fn view(&self) -> InvoiceEvent<Seq<char>> {
        match self {
            InvoiceEvent::UserResolved(r) => InvoiceEvent::UserResolved(
                crate::errors::result_view(*r),
            ),
            InvoiceEvent::SubscriptionFound(Ok(Some(subscription))) => {
                InvoiceEvent::SubscriptionFound(Ok(Some(subscription@)))
            },
            InvoiceEvent::SubscriptionFound(Ok(None)) => InvoiceEvent::SubscriptionFound(Ok(None)),
            InvoiceEvent::SubscriptionFound(Err(e)) => InvoiceEvent::SubscriptionFound(Err(e@)),
            InvoiceEvent::Answered(Ok(code)) => InvoiceEvent::Answered(Ok(*code)),
            InvoiceEvent::Answered(Err(e)) => InvoiceEvent::Answered(Err(e@)),
            InvoiceEvent::AnswerRead(Ok(answer)) => InvoiceEvent::AnswerRead(Ok(*answer)),
            InvoiceEvent::AnswerRead(Err(e)) => InvoiceEvent::AnswerRead(Err(e@)),
            InvoiceEvent::RefusalRead(r) => InvoiceEvent::RefusalRead(
                crate::errors::result_view(*r),
            ),
        }
    }
}

/// Where a request for invoices stands, and what to do next.
pub type InvoiceStep = (InvoiceQuery<DodoEnv<Seq<char>>, Seq<char>>, InvoiceActionModel);

/// The environment of the payment service, `test_mode` where none is set.
pub open spec fn environment_of(env: DodoEnv<Seq<char>>) -> Seq<char> {
    match env.environment {
        Some(environment) => environment,
        None => "test_mode"@,
    }
}

/// What the payment service calls the user, where there is a subscription that says so.
pub open spec fn customer_of(subscription: Option<Subscription<Seq<char>>>) -> Option<Seq<char>> {
    match subscription {
        Some(s) => s.external_customer_id,
        None => None,
    }
}

/// The address of the payment service: the real one in `live_mode`, and else the one for
/// trials.
pub open spec fn service_url(environment: Seq<char>) -> Seq<char> {
    if environment == "live_mode"@ {
        "https://live.dodopayments.com"@
    } else {
        "https://test.dodopayments.com"@
    }
}

/// The request for the payments of a customer.
pub open spec fn payments_request(
    api_key: Seq<char>,
    environment: Seq<char>,
    customer_id: Seq<char>,
) -> PaymentsRequest<Seq<char>> {
    PaymentsRequest {
        url: service_url(environment) + "/payments"@,
        authorization: "Bearer "@ + api_key,
        content_type: "application/json"@,
        environment,
        customer_id,
    }
}

/// A request for invoices that failed.
pub open spec fn refused(e: AppError<Seq<char>>) -> InvoiceStep {
    (InvoiceQuery::Finished, InvoiceAction::Fail(e))
}

/// How a request for invoices begins; `auth_token` is what the cookie of that name holds.
pub open spec fn invoices_begin(
    auth_token: Option<Seq<char>>,
    env: DodoEnv<Seq<char>>,
) -> InvoiceStep {
    let token = crate::text::or_empty(auth_token);
    if token.len() == 0 {
        refused(AppError::Authentication("Missing token"@))
    } else {
        (InvoiceQuery::ResolvingUser(env), InvoiceAction::ResolveUser { auth_token: token })
    }
}

/// An event is accepted in the state that waits for it.
pub open spec fn invoices_accept(
    state: InvoiceQuery<DodoEnv<Seq<char>>, Seq<char>>,
    event: InvoiceEvent<Seq<char>>,
) -> bool {
    match event {
        InvoiceEvent::UserResolved(_) => state is ResolvingUser,
        InvoiceEvent::SubscriptionFound(_) => state is FindingSubscription,
        InvoiceEvent::Answered(_) => state is Fetching,
        InvoiceEvent::AnswerRead(_) => state is Reading,
        InvoiceEvent::RefusalRead(_) => state is ReadingRefusal,
    }
}

/// How a request for invoices goes on.
pub open spec fn invoices_go_on(
    state: InvoiceQuery<DodoEnv<Seq<char>>, Seq<char>>,
    event: InvoiceEvent<Seq<char>>,
) -> InvoiceStep {
    match event {
        InvoiceEvent::UserResolved(Err(e)) => refused(e),
        InvoiceEvent::UserResolved(Ok(user_id)) => match state->ResolvingUser_0.api_key {
            None => refused(AppError::BadRequest("DODO_API_KEY not set"@)),
            Some(api_key) => (
                InvoiceQuery::FindingSubscription {
                    api_key,
                    environment: environment_of(state->ResolvingUser_0),
                },
                InvoiceAction::FindSubscription { user_id },
            ),
        },
        InvoiceEvent::SubscriptionFound(Err(e)) => refused(AppError::SeaOrm(e)),
        InvoiceEvent::SubscriptionFound(Ok(found)) => match customer_of(found) {
            None => (
                InvoiceQuery::Finished,
                InvoiceAction::Done(InvoicesResponse { items: Seq::empty() }),
            ),
            Some(customer_id) => (
                InvoiceQuery::Fetching,
                InvoiceAction::Fetch(
                    payments_request(
                        state->FindingSubscription_api_key,
                        state->FindingSubscription_environment,
                        customer_id,
                    ),
                ),
            ),
        },
        InvoiceEvent::Answered(Err(_)) => refused(
            AppError::ExternalService("Failed to fetch invoices from Dodo"@),
        ),
        InvoiceEvent::Answered(Ok(code)) => if crate::profile::successful(code) {
            (InvoiceQuery::Reading, InvoiceAction::ReadAnswer)
        } else {
            (InvoiceQuery::ReadingRefusal, InvoiceAction::ReadRefusal)
        },
        InvoiceEvent::AnswerRead(Err(_)) => refused(
            AppError::BadRequest("Failed to parse Dodo response"@),
        ),
        InvoiceEvent::AnswerRead(Ok(answer)) => (
            InvoiceQuery::Finished,
            InvoiceAction::Done(InvoicesResponse { items: invoices_in(answer) }),
        ),
        InvoiceEvent::RefusalRead(read) => refused(
            AppError::ExternalService(
                "Dodo API error: "@ + match read {
                    Ok(text) => text,
                    Err(_) => Seq::<char>::empty(),
                },
            ),
        ),
    }
}

/// Ends a request for invoices that failed.
fn refuse(e: AppError) -> (r: (InvoiceQuery, InvoiceAction))
    ensures
        (r.0@, r.1@) == refused(e@),
{
    (InvoiceQuery::Finished, InvoiceAction::Fail(e))
}

/// Begins a request for the invoices of a user; `auth_token` is what the cookie of that
/// name holds.
pub fn get_invoice_history(auth_token: Option<String>, env: DodoEnv) -> (r: (
    InvoiceQuery,
    InvoiceAction,
))
    ensures
        (r.0@, r.1@) == invoices_begin(auth_token.deep_view(), env@),
{
    let token: String = given_or_empty(auth_token);
    if token.as_str().unicode_len() == 0 {
        return refuse(AppError::Authentication("Missing token".to_owned()));
    }
    (InvoiceQuery::ResolvingUser(env), InvoiceAction::ResolveUser { auth_token: token })
}

/// Goes on once the user is known.
fn find_subscription(env: DodoEnv, user_id: String) -> (r: (InvoiceQuery, InvoiceAction))
    ensures
        (r.0@, r.1@) == invoices_go_on(
            InvoiceQuery::ResolvingUser(env@),
            InvoiceEvent::UserResolved(Ok(user_id@)),
        ),
{
    let api_key: String = match env.api_key {
        Some(api_key) => api_key,
        None => {
            return refuse(AppError::BadRequest("DODO_API_KEY not set".to_owned()));
        },
    };
    let environment: String = match env.environment {
        Some(environment) => environment,
        None => "test_mode".to_owned(),
    };
    (
        InvoiceQuery::FindingSubscription { api_key, environment },
        InvoiceAction::FindSubscription { user_id },
    )
}

/// The request for the payments of a customer.
fn request_payments(api_key: String, environment: String, customer_id: String) -> (request:
    PaymentsRequest)
    ensures
        request@ == payments_request(api_key@, environment@, customer_id@),
{
    let base_url: &'static str = if same_text(environment.as_str(), "live_mode") {
        "https://live.dodopayments.com"
    } else {
        "https://test.dodopayments.com"
    };
    PaymentsRequest {
        url: base_url.to_owned().concat("/payments"),
        authorization: "Bearer ".to_owned().concat(api_key.as_str()),
        content_type: "application/json".to_owned(),
        environment,
        customer_id,
    }
}

impl InvoiceQuery {
    /// Whether the event is one that the request waits for.
    pub fn accepts(&self, event: &InvoiceEvent) -> (accepted: bool)
        ensures
            accepted == invoices_accept(self@, event@),
    {
        match (self, event) {
            (InvoiceQuery::ResolvingUser(_), InvoiceEvent::UserResolved(_)) => true,
            (
                InvoiceQuery::FindingSubscription { .. },
                InvoiceEvent::SubscriptionFound(_),
            ) => true,
            (InvoiceQuery::Fetching, InvoiceEvent::Answered(_)) => true,
            (InvoiceQuery::Reading, InvoiceEvent::AnswerRead(_)) => true,
            (InvoiceQuery::ReadingRefusal, InvoiceEvent::RefusalRead(_)) => true,
            _ => false,
        }
    }

    /// Goes on after an event.
    pub fn step(self, event: InvoiceEvent) -> (r: (InvoiceQuery, InvoiceAction))
        requires
            invoices_accept(self@, event@),
        ensures
            (r.0@, r.1@) == invoices_go_on(self@, event@),
    {
        match (self, event) {
            (InvoiceQuery::ResolvingUser(env), InvoiceEvent::UserResolved(resolved)) => {
                match resolved {
                    Ok(user_id) => find_subscription(env, user_id),
                    Err(e) => refuse(e),
                }
            },
            (
                InvoiceQuery::FindingSubscription { api_key, environment },
                InvoiceEvent::SubscriptionFound(found),
            ) => {
                let customer_id: Option<String> = match found {
                    Ok(Some(subscription)) => subscription.external_customer_id,
                    Ok(None) => None,
                    Err(e) => {
                        return refuse(AppError::SeaOrm(e));
                    },
                };
                match customer_id {
                    Some(id) => (
                        InvoiceQuery::Fetching,
                        InvoiceAction::Fetch(request_payments(api_key, environment, id)),
                    ),
                    None => {
                        let response = InvoicesResponse { items: Vec::new() };
                        assert(response@.items =~= Seq::empty());
                        (InvoiceQuery::Finished, InvoiceAction::Done(response))
                    },
                }
            },
            (InvoiceQuery::Fetching, InvoiceEvent::Answered(answered)) => match answered {
                Err(_) => refuse(
                    AppError::ExternalService("Failed to fetch invoices from Dodo".to_owned()),
                ),
                Ok(code) => if 200 <= code && code < 300 {
                    (InvoiceQuery::Reading, InvoiceAction::ReadAnswer)
                } else {
                    (InvoiceQuery::ReadingRefusal, InvoiceAction::ReadRefusal)
                },
            },
            (InvoiceQuery::Reading, InvoiceEvent::AnswerRead(read)) => match read {
                Err(_) => refuse(
                    AppError::BadRequest("Failed to parse Dodo response".to_owned()),
                ),
                Ok(answer) => (
                    InvoiceQuery::Finished,
                    InvoiceAction::Done(invoices_from_answer(&answer)),
                ),
            },
            (InvoiceQuery::ReadingRefusal, InvoiceEvent::RefusalRead(read)) => {
                let text: String = match read {
                    Ok(text) => text,
                    Err(_) => String::new(),
                };
                refuse(
                    AppError::ExternalService(
                        "Dodo API error: ".to_owned().concat(text.as_str()),
                    ),
                )
            },
            _ => unreached(),
        }
    }
}

/// Where a request for invoices stands after these events.
pub open spec fn invoices_after(
    begun: InvoiceStep,
    events: Seq<InvoiceEvent<Seq<char>>>,
) -> InvoiceStep
    decreases events.len(),
{
    if events.len() == 0 {
        begun
    } else {
        invoices_go_on(invoices_after(begun, events.drop_last()).0, events.last())
    }
}

/// Each of these events came when the request waited for it.
pub open spec fn invoice_events_accepted(
    begun: InvoiceStep,
    events: Seq<InvoiceEvent<Seq<char>>>,
) -> bool
    decreases events.len(),
{
    events.len() == 0 || (invoice_events_accepted(begun, events.drop_last()) && invoices_accept(
        invoices_after(begun, events.drop_last()).0,
        events.last(),
    ))
}

/// What each state of a request says of the events before it.
proof fn lemma_invoice_states(
    auth_token: Option<Seq<char>>,
    env: DodoEnv<Seq<char>>,
    events: Seq<InvoiceEvent<Seq<char>>>,
)
    requires
        invoice_events_accepted(invoices_begin(auth_token, env), events),
    ensures
        ({
            let step = invoices_after(invoices_begin(auth_token, env), events);
            match step.0 {
                InvoiceQuery::ResolvingUser(held) => events.len() == 0 && held == env
                    && auth_token == Some(step.1->ResolveUser_auth_token) && step.1 is ResolveUser,
                InvoiceQuery::FindingSubscription { api_key, environment } => {
                    &&& events.len() == 1
                    &&& env.api_key == Some(api_key)
                    &&& environment == environment_of(env)
                    &&& step.1 matches InvoiceAction::FindSubscription { user_id } && events[0]
                        == InvoiceEvent::UserResolved(Ok::<_, AppError<Seq<char>>>(user_id))
                },
                InvoiceQuery::Fetching => events.len() == 2 && step.1 is Fetch,
                InvoiceQuery::Reading => events.len() == 3 && step.1 is ReadAnswer,
                InvoiceQuery::ReadingRefusal => events.len() == 3 && step.1 is ReadRefusal,
                InvoiceQuery::Finished => events.len() <= 4 && (step.1 is Done || step.1 is Fail),
            }
        }),
    decreases events.len(),
{
    if events.len() > 0 {
        lemma_invoice_states(auth_token, env, events.drop_last());
    }
}

/// The payment service is asked only for the customer that the subscription of the
/// identified user names, with the key and in the environment that are set.
pub proof fn law_payments_are_asked_for_the_right_customer(
    auth_token: Option<Seq<char>>,
    env: DodoEnv<Seq<char>>,
    events: Seq<InvoiceEvent<Seq<char>>>,
)
    requires
        invoice_events_accepted(invoices_begin(auth_token, env), events),
    ensures
        invoices_after(invoices_begin(auth_token, env), events).1 matches InvoiceAction::Fetch(
            request,
        ) ==> {
            &&& events.len() == 2
            &&& events[0] matches InvoiceEvent::UserResolved(Ok(user_id)) && invoices_after(
                invoices_begin(auth_token, env),
                events.take(1),
            ).1 == (InvoiceActionModel::FindSubscription { user_id })
            &&& events[1] matches InvoiceEvent::SubscriptionFound(Ok(found)) && customer_of(found)
                == Some(request.customer_id)
            &&& env.api_key matches Some(api_key) && request == payments_request(
                api_key,
                environment_of(env),
                request.customer_id,
            )
        },
{
    lemma_invoice_states(auth_token, env, events);
    if events.len() > 0 {
        lemma_invoice_states(auth_token, env, events.drop_last());
        if events.len() == 2 {
            assert(events.take(1) =~= events.drop_last());
        }
    }
}

/// A request for invoices comes to an end after at most four events. Without a token
/// nothing is asked at all.
pub proof fn law_invoice_request_ends(
    auth_token: Option<Seq<char>>,
    env: DodoEnv<Seq<char>>,
    events: Seq<InvoiceEvent<Seq<char>>>,
)
    requires
        invoice_events_accepted(invoices_begin(auth_token, env), events),
    ensures
        events.len() <= 4,
        ({
            let step = invoices_after(invoices_begin(auth_token, env), events);
            step.0 is Finished <==> (step.1 is Done || step.1 is Fail)
        }),
        crate::text::or_empty(auth_token).len() == 0 ==> events.len() == 0 && invoices_begin(
            auth_token,
            env,
        ) == refused(AppError::Authentication("Missing token"@)),
    decreases events.len(),
{
    lemma_invoice_states(auth_token, env, events);
    if events.len() > 0 {
        law_invoice_request_ends(auth_token, env, events.drop_last());
    }
}

/// A user whose subscription names no customer, or who has none, has no invoices, and the
/// payment service is not asked.
pub proof fn law_no_customer_no_invoices(
    api_key: Seq<char>,
    environment: Seq<char>,
    found: Option<Subscription<Seq<char>>>,
)
    requires
        customer_of(found) is None,
    ensures
        ({
            let step = invoices_go_on(
                InvoiceQuery::FindingSubscription { api_key, environment },
                InvoiceEvent::SubscriptionFound(Ok(found)),
            );
            step.0 is Finished && step.1 == (InvoiceActionModel::Done(
                InvoicesResponse { items: Seq::empty() },
            ))
        }),
{
}

/// Each payment in the answer becomes one invoice, in the same order.
pub proof fn law_each_payment_becomes_one_invoice(answer: Json)
    ensures
        invoices_in(answer).len() == payments_in(answer).len(),
        forall|i: int|
            0 <= i < payments_in(answer).len() ==> #[trigger] invoices_in(answer)[i] == invoice_of(
                payments_in(answer)[i],
            ),
{
}

/// An amount that an `i32` holds is kept as it is; any other loses a multiple of 2 to the
/// power of 32.
pub proof fn law_amounts_are_kept(payment: Json, amount: i64)
    requires
        payment.int_field("total_amount"@) == Some(amount),
    ensures
        i32::MIN <= amount <= i32::MAX ==> invoice_of(payment).total_amount == amount,
        (invoice_of(payment).total_amount - amount) % 0x1_0000_0000 == 0,
{
}

/// What is not an object describes an invoice in which all is empty.
pub proof fn law_unreadable_payments_are_empty(payment: Json)
    requires
        !(payment is Object),
    ensures
        invoice_of(payment) == (InvoiceItem::<Seq<char>> {
            payment_id: Seq::empty(),
            total_amount: 0,
            currency: Seq::empty(),
            status: None,
            created_at: Seq::empty(),
            customer_name: Seq::empty(),
            customer_email: Seq::empty(),
            subscription_id: None,
            invoice_url: None,
            refund_status: None,
        }),
{
}

/// Each text of an invoice is that of the payment's first member with its name. What is
/// missing in the payment, or is no text, is missing in the invoice or empty.
pub proof fn law_invoice_texts(payment: Json, i: int)
    ensures
        crate::json::first_named(payment, "status"@, i) ==> match payment->Object_0@[i].1 {
            Json::Text(t) => invoice_of(payment).status == Some(t@),
            _ => invoice_of(payment).status is None,
        },
        crate::json::none_named(payment, "status"@) ==> invoice_of(payment).status is None,
        crate::json::first_named(payment, "subscription_id"@, i) ==> match payment->Object_0@[i].1 {
            Json::Text(t) => invoice_of(payment).subscription_id == Some(t@),
            _ => invoice_of(payment).subscription_id is None,
        },
        crate::json::none_named(payment, "subscription_id"@) ==> invoice_of(payment).subscription_id is None,
        crate::json::first_named(payment, "invoice_url"@, i) ==> match payment->Object_0@[i].1 {
            Json::Text(t) => invoice_of(payment).invoice_url == Some(t@),
            _ => invoice_of(payment).invoice_url is None,
        },
        crate::json::none_named(payment, "invoice_url"@) ==> invoice_of(payment).invoice_url is None,
        crate::json::first_named(payment, "refund_status"@, i) ==> match payment->Object_0@[i].1 {
            Json::Text(t) => invoice_of(payment).refund_status == Some(t@),
            _ => invoice_of(payment).refund_status is None,
        },
        crate::json::none_named(payment, "refund_status"@) ==> invoice_of(payment).refund_status is None,
        crate::json::first_named(payment, "payment_id"@, i) ==> match payment->Object_0@[i].1 {
            Json::Text(t) => invoice_of(payment).payment_id == t@,
            _ => invoice_of(payment).payment_id.len() == 0,
        },
        crate::json::none_named(payment, "payment_id"@) ==> invoice_of(payment).payment_id.len() == 0,
        crate::json::first_named(payment, "currency"@, i) ==> match payment->Object_0@[i].1 {
            Json::Text(t) => invoice_of(payment).currency == t@,
            _ => invoice_of(payment).currency.len() == 0,
        },
        crate::json::none_named(payment, "currency"@) ==> invoice_of(payment).currency.len() == 0,
        crate::json::first_named(payment, "created_at"@, i) ==> match payment->Object_0@[i].1 {
            Json::Text(t) => invoice_of(payment).created_at == t@,
            _ => invoice_of(payment).created_at.len() == 0,
        },
        crate::json::none_named(payment, "created_at"@) ==> invoice_of(payment).created_at.len() == 0,
{
    crate::json::law_the_first_member_counts(payment, "status"@, i);
    crate::json::law_the_first_member_counts(payment, "subscription_id"@, i);
    crate::json::law_the_first_member_counts(payment, "invoice_url"@, i);
    crate::json::law_the_first_member_counts(payment, "refund_status"@, i);
    crate::json::law_the_first_member_counts(payment, "payment_id"@, i);
    crate::json::law_the_first_member_counts(payment, "currency"@, i);
    crate::json::law_the_first_member_counts(payment, "created_at"@, i);
}

/// The name and the address of the customer are those in the payment's member `customer`,
/// and empty where there is none or it does not hold them as texts.
pub proof fn law_invoice_customers(payment: Json, i: int, j: int)
    ensures
        crate::json::first_named(payment, "customer"@, i) && crate::json::first_named(
            payment->Object_0@[i].1,
            "name"@,
            j,
        ) ==> match payment->Object_0@[i].1->Object_0@[j].1 {
            Json::Text(t) => invoice_of(payment).customer_name == t@,
            _ => invoice_of(payment).customer_name.len() == 0,
        },
        crate::json::none_named(payment, "customer"@) || (crate::json::first_named(
            payment,
            "customer"@,
            i,
        ) && crate::json::none_named(payment->Object_0@[i].1, "name"@)) ==> invoice_of(
            payment,
        ).customer_name.len() == 0,
        crate::json::first_named(payment, "customer"@, i) && crate::json::first_named(
            payment->Object_0@[i].1,
            "email"@,
            j,
        ) ==> match payment->Object_0@[i].1->Object_0@[j].1 {
            Json::Text(t) => invoice_of(payment).customer_email == t@,
            _ => invoice_of(payment).customer_email.len() == 0,
        },
        crate::json::none_named(payment, "customer"@) || (crate::json::first_named(
            payment,
            "customer"@,
            i,
        ) && crate::json::none_named(payment->Object_0@[i].1, "email"@)) ==> invoice_of(
            payment,
        ).customer_email.len() == 0,
{
    crate::json::law_the_first_member_counts(payment, "customer"@, i);
    if crate::json::first_named(payment, "customer"@, i) {
        let customer = payment->Object_0@[i].1;
        crate::json::law_the_first_member_counts(customer, "name"@, j);
        crate::json::law_the_first_member_counts(customer, "email"@, j);
    }
}

/// The amount of an invoice is the payment's first member `total_amount`, where that is a
/// whole number that an `i32` holds, and zero where it is missing or no whole number.
pub proof fn law_invoice_amounts(payment: Json, i: int)
    ensures
        crate::json::first_named(payment, "total_amount"@, i) ==> match payment->Object_0@[i].1 {
            Json::Int(n) => {
                &&& (-2_147_483_648 <= n <= 2_147_483_647 ==> invoice_of(payment).total_amount == n)
                &&& (invoice_of(payment).total_amount - n) % 0x1_0000_0000 == 0
            },
            _ => invoice_of(payment).total_amount == 0,
        },
        crate::json::none_named(payment, "total_amount"@) ==> invoice_of(payment).total_amount == 0,
{
    crate::json::law_the_first_member_counts(payment, "total_amount"@, i);
}

/// The invoices are those of the payments in the answer's first member `items`, one each
/// and in order; where that is missing or no list, there are none.
pub proof fn law_invoices_are_those_listed(answer: Json, i: int)
    ensures
        crate::json::first_named(answer, "items"@, i) ==> match answer->Object_0@[i].1 {
            Json::Array(payments) => {
                &&& invoices_in(answer).len() == payments@.len()
                &&& forall|k: int|
                    0 <= k < payments@.len() ==> #[trigger] invoices_in(answer)[k] == invoice_of(
                        payments@[k],
                    )
            },
            _ => invoices_in(answer).len() == 0,
        },
        crate::json::none_named(answer, "items"@) ==> invoices_in(answer).len() == 0,
{
    crate::json::law_the_first_member_counts(answer, "items"@, i);
}

/// Only in `live_mode` the real payment service is asked; the request names the key, the
/// environment and the customer.
pub proof fn law_payments_request(
    api_key: Seq<char>,
    environment: Seq<char>,
    customer_id: Seq<char>,
)
    ensures
        payments_request(api_key, "live_mode"@, customer_id) == (PaymentsRequest {
            url: "https://live.dodopayments.com"@ + "/payments"@,
            authorization: "Bearer "@ + api_key,
            content_type: "application/json"@,
            environment: "live_mode"@,
            customer_id,
        }),
        environment != "live_mode"@ ==> payments_request(api_key, environment, customer_id) == (
        PaymentsRequest {
            url: "https://test.dodopayments.com"@ + "/payments"@,
            authorization: "Bearer "@ + api_key,
            content_type: "application/json"@,
            environment,
            customer_id,
        }),
{
}

/// How a request for invoices begins and how it goes on where nothing fails.
pub proof fn law_invoice_steps(
    token: Seq<char>,
    user_id: Seq<char>,
    api_key: Seq<char>,
    environment: Seq<char>,
    customer_id: Seq<char>,
    code: u16,
    answer: Json,
)
    ensures
        token.len() > 0 ==> forall|env: DodoEnv<Seq<char>>| #[trigger]
            invoices_begin(Some(token), env) == (
                InvoiceQuery::<_, Seq<char>>::ResolvingUser(env),
                InvoiceActionModel::ResolveUser { auth_token: token },
            ),
        invoices_go_on(
            InvoiceQuery::ResolvingUser(
                DodoEnv { api_key: Some(api_key), environment: Some(environment) },
            ),
            InvoiceEvent::UserResolved(Ok(user_id)),
        ) == (
            InvoiceQuery::<DodoEnv<Seq<char>>, _>::FindingSubscription { api_key, environment },
            InvoiceActionModel::FindSubscription { user_id },
        ),
        invoices_go_on(
            InvoiceQuery::ResolvingUser(DodoEnv { api_key: Some(api_key), environment: None }),
            InvoiceEvent::UserResolved(Ok(user_id)),
        ) == (
            InvoiceQuery::<DodoEnv<Seq<char>>, _>::FindingSubscription {
                api_key,
                environment: "test_mode"@,
            },
            InvoiceActionModel::FindSubscription { user_id },
        ),
        invoices_go_on(
            InvoiceQuery::FindingSubscription { api_key, environment },
            InvoiceEvent::SubscriptionFound(
                Ok(Some(Subscription { external_customer_id: Some(customer_id) })),
            ),
        ) == (
            InvoiceQuery::<DodoEnv<Seq<char>>, Seq<char>>::Fetching,
            InvoiceActionModel::Fetch(payments_request(api_key, environment, customer_id)),
        ),
        200 <= code <= 299 ==> invoices_go_on(
            InvoiceQuery::Fetching,
            InvoiceEvent::Answered(Ok(code)),
        ) == (
            InvoiceQuery::<DodoEnv<Seq<char>>, Seq<char>>::Reading,
            InvoiceActionModel::ReadAnswer,
        ),
        code < 200 || code > 299 ==> invoices_go_on(
            InvoiceQuery::Fetching,
            InvoiceEvent::Answered(Ok(code)),
        ) == (
            InvoiceQuery::<DodoEnv<Seq<char>>, Seq<char>>::ReadingRefusal,
            InvoiceActionModel::ReadRefusal,
        ),
        invoices_go_on(InvoiceQuery::Reading, InvoiceEvent::AnswerRead(Ok(answer))) == (
            InvoiceQuery::<DodoEnv<Seq<char>>, Seq<char>>::Finished,
            InvoiceActionModel::Done(InvoicesResponse { items: invoices_in(answer) }),
        ),
{
}

/// What a user is told who has no subscription or none with a customer: there are no
/// invoices, and nothing failed.
pub proof fn law_users_without_a_customer(api_key: Seq<char>, environment: Seq<char>)
    ensures
        invoices_go_on(
            InvoiceQuery::FindingSubscription { api_key, environment },
            InvoiceEvent::SubscriptionFound(Ok(None)),
        ) == (
            InvoiceQuery::<DodoEnv<Seq<char>>, Seq<char>>::Finished,
            InvoiceActionModel::Done(InvoicesResponse { items: Seq::empty() }),
        ),
        invoices_go_on(
            InvoiceQuery::FindingSubscription { api_key, environment },
            InvoiceEvent::SubscriptionFound(Ok(Some(Subscription { external_customer_id: None }))),
        ) == (
            InvoiceQuery::<DodoEnv<Seq<char>>, Seq<char>>::Finished,
            InvoiceActionModel::Done(InvoicesResponse { items: Seq::empty() }),
        ),
{
}

/// How a request for invoices fails, each time with its own error.
pub proof fn law_invoice_failures(
    env: DodoEnv<Seq<char>>,
    user_id: Seq<char>,
    api_key: Seq<char>,
    environment: Seq<char>,
    error: AppError<Seq<char>>,
    e: Seq<char>,
    text: Seq<char>,
)
    ensures
        invoices_begin(None, env) == (
            InvoiceQuery::<DodoEnv<Seq<char>>, Seq<char>>::Finished,
            InvoiceActionModel::Fail(AppError::Authentication("Missing token"@)),
        ),
        invoices_begin(Some(Seq::empty()), env) == (
            InvoiceQuery::<DodoEnv<Seq<char>>, Seq<char>>::Finished,
            InvoiceActionModel::Fail(AppError::Authentication("Missing token"@)),
        ),
        invoices_go_on(InvoiceQuery::ResolvingUser(env), InvoiceEvent::UserResolved(Err(error)))
            == (
            InvoiceQuery::<DodoEnv<Seq<char>>, Seq<char>>::Finished,
            InvoiceActionModel::Fail(error),
        ),
        env.api_key is None ==> invoices_go_on(
            InvoiceQuery::ResolvingUser(env),
            InvoiceEvent::UserResolved(Ok(user_id)),
        ) == (
            InvoiceQuery::<DodoEnv<Seq<char>>, Seq<char>>::Finished,
            InvoiceActionModel::Fail(AppError::BadRequest("DODO_API_KEY not set"@)),
        ),
        invoices_go_on(
            InvoiceQuery::FindingSubscription { api_key, environment },
            InvoiceEvent::SubscriptionFound(Err(e)),
        ) == (
            InvoiceQuery::<DodoEnv<Seq<char>>, Seq<char>>::Finished,
            InvoiceActionModel::Fail(AppError::SeaOrm(e)),
        ),
        invoices_go_on(InvoiceQuery::Fetching, InvoiceEvent::Answered(Err(e))) == (
            InvoiceQuery::<DodoEnv<Seq<char>>, Seq<char>>::Finished,
            InvoiceActionModel::Fail(
                AppError::ExternalService("Failed to fetch invoices from Dodo"@),
            ),
        ),
        invoices_go_on(InvoiceQuery::Reading, InvoiceEvent::AnswerRead(Err(e))) == (
            InvoiceQuery::<DodoEnv<Seq<char>>, Seq<char>>::Finished,
            InvoiceActionModel::Fail(AppError::BadRequest("Failed to parse Dodo response"@)),
        ),
        invoices_go_on(InvoiceQuery::ReadingRefusal, InvoiceEvent::RefusalRead(Ok(text))) == (
            InvoiceQuery::<DodoEnv<Seq<char>>, Seq<char>>::Finished,
            InvoiceActionModel::Fail(AppError::ExternalService("Dodo API error: "@ + text)),
        ),
        invoices_go_on(InvoiceQuery::ReadingRefusal, InvoiceEvent::RefusalRead(Err(e))) == (
            InvoiceQuery::<DodoEnv<Seq<char>>, Seq<char>>::Finished,
            InvoiceActionModel::Fail(AppError::ExternalService("Dodo API error: "@)),
        ),
{
    assert("Dodo API error: "@ + Seq::<char>::empty() =~= "Dodo API error: "@);
}

/// Each state waits for its own event, whatever that brings, and for no other.
pub proof fn law_invoice_request_waits_for_one_event(
    env: DodoEnv<Seq<char>>,
    api_key: Seq<char>,
    environment: Seq<char>,
    event: InvoiceEvent<Seq<char>>,
)
    ensures
        invoices_accept(InvoiceQuery::ResolvingUser(env), event) <==> event is UserResolved,
        invoices_accept(InvoiceQuery::FindingSubscription { api_key, environment }, event)
            <==> event is SubscriptionFound,
        invoices_accept(InvoiceQuery::Fetching, event) <==> event is Answered,
        invoices_accept(InvoiceQuery::Reading, event) <==> event is AnswerRead,
        invoices_accept(InvoiceQuery::ReadingRefusal, event) <==> event is RefusalRead,
        !invoices_accept(InvoiceQuery::Finished, event),
{
}

/// The models of an invoice, of a request and of what they are made from hold each value
/// in its place.
pub proof fn law_invoices_keep_their_values(
    item: InvoiceItem,
    response: InvoicesResponse,
    request: PaymentsRequest,
    env: DodoEnv,
    subscription: Subscription,
)
    ensures
        item@.payment_id == item.payment_id@,
        item@.total_amount == item.total_amount,
        item@.currency == item.currency@,
        item@.status == item.status.deep_view(),
        item@.created_at == item.created_at@,
        item@.customer_name == item.customer_name@,
        item@.customer_email == item.customer_email@,
        item@.subscription_id == item.subscription_id.deep_view(),
        item@.invoice_url == item.invoice_url.deep_view(),
        item@.refund_status == item.refund_status.deep_view(),
        response@.items.len() == response.items@.len(),
        forall|k: int|
            0 <= k < response.items@.len() ==> #[trigger] response@.items[k] == response.items@[k]@,
        request@.url == request.url@,
        request@.authorization == request.authorization@,
        request@.content_type == request.content_type@,
        request@.environment == request.environment@,
        request@.customer_id == request.customer_id@,
        env@.api_key == env.api_key.deep_view(),
        env@.environment == env.environment.deep_view(),
        subscription@.external_customer_id == subscription.external_customer_id.deep_view(),
{
}

/// The models of states, actions and events hold what these hold.
pub proof fn law_invoice_models(
    env: DodoEnv,
    api_key: String,
    environment: String,
    request: PaymentsRequest,
    response: InvoicesResponse,
    subscription: Subscription,
    e: AppError,
    text: String,
    code: u16,
    answer: Json,
)
    ensures
        InvoiceQuery::<DodoEnv, String>::ResolvingUser(env)@ == InvoiceQuery::<
            _,
            Seq<char>,
        >::ResolvingUser(env@),
        (InvoiceQuery::<DodoEnv, String>::FindingSubscription { api_key, environment })@ == (
        InvoiceQuery::<DodoEnv<Seq<char>>, _>::FindingSubscription {
            api_key: api_key@,
            environment: environment@,
        }),
        InvoiceQuery::<DodoEnv, String>::Fetching@ is Fetching,
        InvoiceQuery::<DodoEnv, String>::Reading@ is Reading,
        InvoiceQuery::<DodoEnv, String>::ReadingRefusal@ is ReadingRefusal,
        InvoiceQuery::<DodoEnv, String>::Finished@ is Finished,
        (InvoiceAction::<String, Vec<InvoiceItem>>::ResolveUser { auth_token: text })@ == (
        InvoiceActionModel::ResolveUser { auth_token: text@ }),
        (InvoiceAction::<String, Vec<InvoiceItem>>::FindSubscription { user_id: text })@ == (
        InvoiceActionModel::FindSubscription { user_id: text@ }),
        InvoiceAction::<String, Vec<InvoiceItem>>::Fetch(request)@ == InvoiceActionModel::Fetch(
            request@,
        ),
        InvoiceAction::<String, Vec<InvoiceItem>>::ReadAnswer@ is ReadAnswer,
        InvoiceAction::<String, Vec<InvoiceItem>>::ReadRefusal@ is ReadRefusal,
        InvoiceAction::<String, Vec<InvoiceItem>>::Done(response)@ == InvoiceActionModel::Done(
            response@,
        ),
        InvoiceAction::<String, Vec<InvoiceItem>>::Fail(e)@ == InvoiceActionModel::Fail(e@),
        InvoiceEvent::<String>::UserResolved(Ok(text))@ == InvoiceEvent::<Seq<char>>::UserResolved(
            Ok(text@),
        ),
        InvoiceEvent::<String>::UserResolved(Err(e))@ == InvoiceEvent::<Seq<char>>::UserResolved(
            Err(e@),
        ),
        InvoiceEvent::<String>::SubscriptionFound(Ok(Some(subscription)))@ == InvoiceEvent::<
            Seq<char>,
        >::SubscriptionFound(Ok(Some(subscription@))),
        InvoiceEvent::<String>::SubscriptionFound(Ok(None))@ == InvoiceEvent::<
            Seq<char>,
        >::SubscriptionFound(Ok(None)),
        InvoiceEvent::<String>::SubscriptionFound(Err(text))@ == InvoiceEvent::<
            Seq<char>,
        >::SubscriptionFound(Err(text@)),
        InvoiceEvent::<String>::Answered(Ok(code))@ == InvoiceEvent::<Seq<char>>::Answered(Ok(code)),
        InvoiceEvent::<String>::Answered(Err(text))@ == InvoiceEvent::<Seq<char>>::Answered(
            Err(text@),
        ),
        InvoiceEvent::<String>::AnswerRead(Ok(answer))@ == InvoiceEvent::<Seq<char>>::AnswerRead(
            Ok(answer),
        ),
        InvoiceEvent::<String>::AnswerRead(Err(text))@ == InvoiceEvent::<Seq<char>>::AnswerRead(
            Err(text@),
        ),
        InvoiceEvent::<String>::RefusalRead(Ok(text))@ == InvoiceEvent::<Seq<char>>::RefusalRead(
            Ok(text@),
        ),
        InvoiceEvent::<String>::RefusalRead(Err(text))@ == InvoiceEvent::<Seq<char>>::RefusalRead(
            Err(text@),
        ),
{
}

} // verus!
