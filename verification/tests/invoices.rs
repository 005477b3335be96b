use groupify::errors::AppError;
use groupify::invoices::{
    get_invoice_history, invoice_from_payment, invoices_from_answer, DodoEnv, InvoiceAction,
    InvoiceEvent, InvoiceQuery, PaymentsRequest, Subscription,
};
use groupify::json::Json;

fn some(text: &str) -> Option<String> {
    Some(text.to_string())
}

fn text(s: &str) -> Json {
    Json::Text(s.to_string())
}

fn object(members: Vec<(&str, Json)>) -> Json {
    Json::Object(members.into_iter().map(|(name, value)| (name.to_string(), value)).collect())
}

fn env(environment: Option<String>) -> DodoEnv {
    DodoEnv { api_key: some("key"), environment }
}

fn go(state: InvoiceQuery, event: InvoiceEvent) -> (InvoiceQuery, InvoiceAction) {
    assert!(state.accepts(&event));
    state.step(event)
}

fn failure(action: InvoiceAction) -> AppError {
    match action {
        InvoiceAction::Fail(error) => error,
        other => panic!("unexpected {:?}", other),
    }
}

fn finding(environment: Option<String>) -> InvoiceQuery {
    let (state, _) = get_invoice_history(some("cookie"), env(environment));
    go(state, InvoiceEvent::UserResolved(Ok("u1".to_string()))).0
}

fn customer(id: Option<String>) -> InvoiceEvent {
    InvoiceEvent::SubscriptionFound(Ok(Some(Subscription { external_customer_id: id })))
}

fn fetching() -> InvoiceQuery {
    go(finding(None), customer(some("cus"))).0
}

fn request(environment: Option<String>) -> PaymentsRequest {
    match go(finding(environment), customer(some("cus"))).1 {
        InvoiceAction::Fetch(request) => request,
        other => panic!("unexpected {:?}", other),
    }
}

fn payment(amount: Json) -> Json {
    object(vec![
        ("payment_id", text("pay_1")),
        ("total_amount", amount),
        ("currency", text("EUR")),
        ("status", text("succeeded")),
        ("created_at", text("2025-01-01T00:00:00Z")),
        ("customer", object(vec![("name", text("Ann")), ("email", text("ann@example.com"))])),
        ("subscription_id", text("sub_1")),
        ("invoice_url", text("http://i")),
        ("refund_status", Json::Null),
    ])
}

#[test]
fn a_token_is_needed() {
    for token in [None, some("")] {
        let (state, action) = get_invoice_history(token, env(None));
        assert!(matches!(state, InvoiceQuery::Finished));
        match failure(action) {
            AppError::Authentication(message) => assert_eq!(message, "Missing token"),
            other => panic!("unexpected {:?}", other),
        }
    }
}

#[test]
fn the_user_is_identified_first() {
    let (state, action) = get_invoice_history(some("cookie"), env(None));
    match action {
        InvoiceAction::ResolveUser { auth_token } => assert_eq!(auth_token, "cookie"),
        other => panic!("unexpected {:?}", other),
    }
    let error = AppError::Authentication("expired".to_string());
    let (_, action) = go(state, InvoiceEvent::UserResolved(Err(error)));
    assert_eq!(failure(action).message(), "expired");
}

#[test]
fn a_key_is_needed() {
    let without = DodoEnv { api_key: None, environment: some("live_mode") };
    let (state, _) = get_invoice_history(some("cookie"), without);
    let (_, action) = go(state, InvoiceEvent::UserResolved(Ok("u".to_string())));
    match failure(action) {
        AppError::BadRequest(message) => assert_eq!(message, "DODO_API_KEY not set"),
        other => panic!("unexpected {:?}", other),
    }
}

#[test]
fn the_subscription_of_the_user_is_looked_up() {
    let (state, _) = get_invoice_history(some("cookie"), env(None));
    let (state, action) = go(state, InvoiceEvent::UserResolved(Ok("u1".to_string())));
    match action {
        InvoiceAction::FindSubscription { user_id } => assert_eq!(user_id, "u1"),
        other => panic!("unexpected {:?}", other),
    }
    let (_, action) = go(state, InvoiceEvent::SubscriptionFound(Err("down".to_string())));
    match failure(action) {
        AppError::SeaOrm(message) => assert_eq!(message, "down"),
        other => panic!("unexpected {:?}", other),
    }
}

#[test]
fn without_a_customer_there_are_no_invoices() {
    for event in [customer(None), InvoiceEvent::SubscriptionFound(Ok(None))] {
        let (state, action) = go(finding(None), event);
        assert!(matches!(state, InvoiceQuery::Finished));
        match action {
            InvoiceAction::Done(response) => assert!(response.items.is_empty()),
            other => panic!("unexpected {:?}", other),
        }
    }
}

#[test]
fn the_environment_chooses_the_service() {
    let live = request(some("live_mode"));
    assert_eq!(live.url, "https://live.dodopayments.com/payments");
    assert_eq!(live.environment, "live_mode");
    let trial = request(None);
    assert_eq!(trial.url, "https://test.dodopayments.com/payments");
    assert_eq!(trial.environment, "test_mode");
    let other = request(some("LIVE_MODE"));
    assert_eq!(other.url, "https://test.dodopayments.com/payments");
    assert_eq!(other.environment, "LIVE_MODE");
}

#[test]
fn the_request_names_key_and_customer() {
    let request = request(None);
    assert_eq!(request.authorization, "Bearer key");
    assert_eq!(request.content_type, "application/json");
    assert_eq!(request.customer_id, "cus");
}

#[test]
fn failures_of_the_service_are_reported() {
    let (_, action) = go(fetching(), InvoiceEvent::Answered(Err("dns".to_string())));
    match failure(action) {
        AppError::ExternalService(message) => {
            assert_eq!(message, "Failed to fetch invoices from Dodo")
        }
        other => panic!("unexpected {:?}", other),
    }
    let (state, action) = go(fetching(), InvoiceEvent::Answered(Ok(401)));
    assert!(matches!(action, InvoiceAction::ReadRefusal));
    let (_, action) = go(state, InvoiceEvent::RefusalRead(Ok("bad key".to_string())));
    assert_eq!(failure(action).message(), "Dodo API error: bad key");
    let (state, _) = go(fetching(), InvoiceEvent::Answered(Ok(500)));
    let (_, action) = go(state, InvoiceEvent::RefusalRead(Err("cut off".to_string())));
    match failure(action) {
        AppError::ExternalService(message) => assert_eq!(message, "Dodo API error: "),
        other => panic!("unexpected {:?}", other),
    }
    let (state, _) = go(fetching(), InvoiceEvent::Answered(Ok(200)));
    let (_, action) = go(state, InvoiceEvent::AnswerRead(Err("eof".to_string())));
    match failure(action) {
        AppError::BadRequest(message) => assert_eq!(message, "Failed to parse Dodo response"),
        other => panic!("unexpected {:?}", other),
    }
}

#[test]
fn the_invoices_of_an_answer_are_listed() {
    let (state, action) = go(fetching(), InvoiceEvent::Answered(Ok(200)));
    assert!(matches!(action, InvoiceAction::ReadAnswer));
    let answer = object(vec![(
        "items",
        Json::Array(vec![payment(Json::Int(1999)), payment(Json::Int(5)), Json::Null]),
    )]);
    let (state, action) = go(state, InvoiceEvent::AnswerRead(Ok(answer)));
    assert!(matches!(state, InvoiceQuery::Finished));
    match action {
        InvoiceAction::Done(response) => {
            let amounts: Vec<i32> = response.items.iter().map(|i| i.total_amount).collect();
            assert_eq!(amounts, vec![1999, 5, 0]);
        }
        other => panic!("unexpected {:?}", other),
    }
}

#[test]
fn a_payment_is_read_in_full() {
    let item = invoice_from_payment(&payment(Json::Int(1999)));
    assert_eq!(item.payment_id, "pay_1");
    assert_eq!(item.total_amount, 1999);
    assert_eq!(item.currency, "EUR");
    assert_eq!(item.status, some("succeeded"));
    assert_eq!(item.created_at, "2025-01-01T00:00:00Z");
    assert_eq!(item.customer_name, "Ann");
    assert_eq!(item.customer_email, "ann@example.com");
    assert_eq!(item.subscription_id, some("sub_1"));
    assert_eq!(item.invoice_url, some("http://i"));
    assert_eq!(item.refund_status, None);
}

#[test]
fn what_is_missing_is_empty() {
    for nothing in [object(vec![]), Json::Null, text("x"), Json::Array(vec![])] {
        let item = invoice_from_payment(&nothing);
        assert_eq!(item.payment_id, "");
        assert_eq!(item.total_amount, 0);
        assert_eq!(item.currency, "");
        assert_eq!(item.status, None);
        assert_eq!(item.created_at, "");
        assert_eq!(item.customer_name, "");
        assert_eq!(item.customer_email, "");
        assert_eq!(item.subscription_id, None);
        assert_eq!(item.invoice_url, None);
        assert_eq!(item.refund_status, None);
    }
    let wrong = object(vec![("payment_id", Json::Int(1)), ("customer", text("Ann"))]);
    let item = invoice_from_payment(&wrong);
    assert_eq!(item.payment_id, "");
    assert_eq!(item.customer_name, "");
}

#[test]
fn amounts_are_cut_down_to_32_bits() {
    for (amount, expected) in [
        (0i64, 0i32),
        (-1, -1),
        (2_147_483_647, 2_147_483_647),
        (-2_147_483_648, -2_147_483_648),
        (2_147_483_648, -2_147_483_648),
        (4_294_967_297, 1),
        (-4_294_967_299, -3),
        (i64::MAX, -1),
        (i64::MIN, 0),
    ] {
        assert_eq!(invoice_from_payment(&payment(Json::Int(amount))).total_amount, expected);
        assert_eq!(amount as i32, expected);
    }
    assert_eq!(invoice_from_payment(&payment(Json::OtherNumber)).total_amount, 0);
    assert_eq!(invoice_from_payment(&payment(text("5"))).total_amount, 0);
}

#[test]
fn an_answer_without_a_list_has_no_invoices() {
    for answer in [
        Json::Null,
        object(vec![]),
        object(vec![("items", Json::Null)]),
        object(vec![("items", object(vec![]))]),
        Json::Array(vec![payment(Json::Int(1))]),
    ] {
        assert!(invoices_from_answer(&answer).items.is_empty());
    }
}

#[test]
fn a_finished_request_waits_for_nothing() {
    for event in [
        InvoiceEvent::UserResolved(Ok(String::new())),
        InvoiceEvent::SubscriptionFound(Ok(None)),
        InvoiceEvent::Answered(Ok(200)),
        InvoiceEvent::AnswerRead(Ok(Json::Null)),
        InvoiceEvent::RefusalRead(Ok(String::new())),
    ] {
        assert!(!InvoiceQuery::Finished.accepts(&event));
    }
    assert!(!fetching().accepts(&InvoiceEvent::AnswerRead(Ok(Json::Null))));
}
