//! Where a sign-in with Apple begins and ends: what a browser or the mobile application
//! sends, where a browser is sent, and what an identity token carries.

use axum::http::{HeaderMap, HeaderValue};
use vstd::prelude::*;
use vstd::string::*;

use crate::oauth::{generate_auth_url, OAuthClients, OAuthProvider};
use crate::outside::{examine_token, first_field, visible_text};
use crate::text::{contains, same_text, tail_after_dash};

verus! {

/// What a browser sends to begin a sign-in.
#[derive(Debug)]
pub struct AuthQueryParams<S = String> {
    pub origin: Option<S>,
}

/// A name as Apple gives it to the mobile application.
#[derive(Debug)]
pub struct AppleFullName<S = String> {
    pub family_name: Option<S>,
    pub given_name: Option<S>,
    pub middle_name: Option<S>,
    pub name_prefix: Option<S>,
    pub name_suffix: Option<S>,
    pub nickname: Option<S>,
}

/// What the mobile application sends after Apple has identified the user.
#[derive(Debug)]
pub struct AppleMobileAuthRequest<S = String> {
    pub authorization_code: S,
    pub email: Option<S>,
    pub full_name: Option<AppleFullName<S>>,
    pub identity_token: S,
    pub real_user_status: i32,
    pub state: Option<S>,
    pub user: S,
}

/// What an identity token says of the user.
#[derive(Debug)]
pub struct AppleClaims<S = String> {
    pub sub: S,
    pub email: Option<S>,
}

impl View for AppleClaims {
    type V = AppleClaims<Seq<char>>;

    open spec fn view(&self) -> AppleClaims<Seq<char>> {
        AppleClaims { sub: self.sub@, email: self.email.deep_view() }
    }
}

/// The words in the name of a browser that runs on a mobile device.
pub open spec fn names_mobile_device(agent: Seq<char>) -> bool {
    ||| crate::text::has_text(agent, "mobile"@)
    ||| crate::text::has_text(agent, "android"@)
    ||| crate::text::has_text(agent, "iphone"@)
    ||| crate::text::has_text(agent, "ipad"@)
    ||| crate::text::has_text(agent, "ipod"@)
}

/// The request comes from a browser on a mobile device: the name that the browser gives
/// itself is plain text and holds one of the words, in whatever case.
pub open spec fn from_mobile_browser(headers: HeaderMap<HeaderValue>) -> bool {
    let fields = crate::outside::header_fields(headers);
    fields.contains_key("user-agent"@) && match crate::outside::field_text(fields["user-agent"@]) {
        Some(agent) => names_mobile_device(crate::text::ascii_lowercase(agent)),
        None => false,
    }
}

/// Whether a request comes from a browser on a mobile device.
pub fn is_mobile_browser(headers: &HeaderMap<HeaderValue>) -> (mobile: bool)
    ensures
        mobile == from_mobile_browser(*headers),
{
    proof {
        reveal_strlit("user-agent");
    }
    match first_field(headers, "user-agent") {
        Some(value) => match visible_text(value.as_slice()) {
            Some(agent) => {
                assert(crate::text::ascii_text(agent@)) by {
                    assert forall|i: int| 0 <= i < agent@.len() implies (#[trigger] agent@[i] as int)
                        < 128 by {
                        assert(crate::outside::visible_ascii(value@[i]));
                    }
                }
                let name: String = agent.as_str().to_lowercase();
                contains(name.as_str(), "mobile") || contains(name.as_str(), "android") || contains(
                    name.as_str(),
                    "iphone",
                ) || contains(name.as_str(), "ipad") || contains(name.as_str(), "ipod")
            },
            None => false,
        },
        None => false,
    }
}

/// Where a browser is sent after a sign-in. A mobile browser hands the token over to the
/// application; any other goes to the dashboard, with the place it came from.
pub open spec fn landing_url(
    development: bool,
    domain: Seq<char>,
    mobile: bool,
    token: Seq<char>,
    state: Option<Seq<char>>,
) -> Seq<char> {
    let site = (if development {
        "http"@
    } else {
        "https"@
    }) + "://"@ + domain;
    if mobile {
        site + "/oauth?token="@ + token
    } else {
        site + "/dashboard?auth=success&provider=apple"@ + (match crate::oauth::origin_in_state(
            state,
        ) {
            Some(origin) => "&origin="@ + origin,
            None => Seq::<char>::empty(),
        })
    }
}

/// The server runs in development: `ENVIRONMENT` says so, in whatever case.
pub open spec fn in_development(environment: Option<Seq<char>>) -> bool {
    match environment {
        Some(name) => if crate::text::ascii_text(name) {
            crate::text::ascii_lowercase(name) == "development"@
        } else {
            crate::text::unicode_lowercase(name) == "development"@
        },
        None => false,
    }
}

/// Whether the server runs in development; `environment` is what `ENVIRONMENT` holds.
pub fn is_development(environment: &Option<String>) -> (development: bool)
    ensures
        development == in_development(environment.deep_view()),
{
    let name: &str = match environment {
        Some(name) => name.as_str(),
        None => "production",
    };
    proof {
        reveal_strlit("production");
        reveal_strlit("development");
        assert(crate::text::ascii_text("production"@));
        assert(crate::text::ascii_lowercase("production"@).len() == 10);
    }
    same_text(name.to_lowercase().as_str(), "development")
}

/// Where a browser is sent after a sign-in.
pub fn redirect_after_sign_in(
    development: bool,
    domain: &str,
    mobile: bool,
    token: &str,
    state: &Option<String>,
) -> (url: String)
    ensures
        url@ == landing_url(development, domain@, mobile, token@, state.deep_view()),
{
    let protocol: &'static str = if development {
        "http"
    } else {
        "https"
    };
    let site: String = protocol.to_owned().concat("://").concat(domain);
    if mobile {
        return site.concat("/oauth?token=").concat(token);
    }
    let dashboard: String = site.concat("/dashboard?auth=success&provider=apple");
    let origin: Option<String> = match state {
        Some(s) => tail_after_dash(s.as_str()),
        None => None,
    };
    match origin {
        Some(o) => {
            let url: String = dashboard.concat("&origin=").concat(o.as_str());
            assert(url@ =~= landing_url(development, domain@, mobile, token@, state.deep_view()));
            url
        },
        None => {
            assert(dashboard@ + Seq::<char>::empty() =~= dashboard@);
            dashboard
        },
    }
}

/// Where a browser is sent to sign in with Apple.
pub fn apple_login(clients: &OAuthClients, params: AuthQueryParams) -> (url: String)
    ensures
        exists|csrf_token: Seq<char>| #[trigger]
            crate::outside::csrf_shaped(csrf_token) && url@ == crate::oauth::sign_in_url(
                clients.apple@,
                OAuthProvider::Apple,
                crate::oauth::sign_in_state(csrf_token, params.origin.deep_view()),
            ),
{
    generate_auth_url(&clients.apple, &OAuthProvider::Apple, params.origin)
}

/// What comes of decoding an identity token: its claims, or why it is refused. `read` is
/// what came of reading the claims; where they could not be read, that is the answer. What
/// is read counts only if the token is in order by `deadline`, before which no token may
/// expire.
pub open spec fn decoding_outcome(
    token: Seq<char>,
    audience: Option<Seq<char>>,
    read: Result<AppleClaims<Seq<char>>, Seq<char>>,
    deadline: u64,
) -> Result<AppleClaims<Seq<char>>, Seq<char>> {
    match (
        read,
        crate::outside::verdict_by(crate::outside::token_findings(token, audience), deadline),
    ) {
        (Err(e), _) => Err(e),
        (Ok(_), Err(e)) => Err(e),
        (Ok(claims), Ok(_)) => Ok(claims),
    }
}

/// Decodes an identity token whose claims have been read, or could not be. The signature
/// is not checked. With an audience, the token must not be meant for others alone. A token
/// is refused as expired a minute after the time that it names; whatever else comes of it
/// does not depend on when it is decoded.
pub fn decode_identity_token(
    token: &str,
    audience: Option<&str>,
    read: Result<AppleClaims, String>,
) -> (decoded: Result<AppleClaims, String>)
    ensures
        exists|deadline: u64|
            crate::errors::result_view(decoded) == #[trigger] decoding_outcome(
                token@,
                audience.deep_view(),
                crate::errors::result_view(read),
                deadline,
            ),
{
    let ghost model = crate::errors::result_view(read);
    match read {
        Err(e) => {
            assert(decoding_outcome(token@, audience.deep_view(), model, 0) == Err::<
                AppleClaims<Seq<char>>,
                Seq<char>,
            >(e@));
            Err(e)
        },
        Ok(claims) => {
            let verdict: Result<(), String> = examine_token(token, audience);
            let ghost deadline = choose|deadline: u64|
                crate::errors::result_view(verdict) == #[trigger] crate::outside::verdict_by(
                    crate::outside::token_findings(token@, audience.deep_view()),
                    deadline,
                );
            let decoded: Result<AppleClaims, String> = match verdict {
                Ok(_) => Ok(claims),
                Err(e) => Err(e),
            };
            assert(crate::errors::result_view(decoded) == decoding_outcome(
                token@,
                audience.deep_view(),
                model,
                deadline,
            ));
            decoded
        },
    }
}

/// Where a browser is sent at the end of its sign-in. `environment` is what `ENVIRONMENT`
/// holds, `headers` are those that came with the callback.
pub fn browser_redirect(
    environment: &Option<String>,
    domain: &str,
    headers: &HeaderMap<HeaderValue>,
    token: &str,
    state: &Option<String>,
) -> (url: String)
    ensures
        url@ == landing_url(
            in_development(environment.deep_view()),
            domain@,
            from_mobile_browser(*headers),
            token@,
            state.deep_view(),
        ),
{
    redirect_after_sign_in(
        is_development(environment),
        domain,
        is_mobile_browser(headers),
        token,
        state,
    )
}

/// Only a mobile browser is sent on with the token: for any other the URL is the same
/// whatever the token is.
pub proof fn law_only_mobile_browsers_get_the_token(
    development: bool,
    domain: Seq<char>,
    state: Option<Seq<char>>,
    token: Seq<char>,
    other: Seq<char>,
)
    ensures
        landing_url(development, domain, false, token, state) == landing_url(
            development,
            domain,
            false,
            other,
            state,
        ),
{
}

/// A browser that began its sign-in with an origin comes to the dashboard with that origin,
/// where the random token of the sign-in holds no hyphen, and one that began without comes
/// without.
pub proof fn law_browser_lands_with_its_origin(
    development: bool,
    domain: Seq<char>,
    token: Seq<char>,
    csrf_token: Seq<char>,
    origin: Option<Seq<char>>,
)
    requires
        !csrf_token.contains('-'),
    ensures
        ({
            let state = Some(crate::oauth::sign_in_state(csrf_token, origin));
            landing_url(development, domain, false, token, state) == landing_url(
                development,
                domain,
                false,
                token,
                None,
            ) + match origin {
                Some(o) => "&origin="@ + o,
                None => Seq::<char>::empty(),
            }
        }),
{
    crate::oauth::law_origin_comes_back(csrf_token, origin);
    let bare = landing_url(development, domain, false, token, None);
    let state = Some(crate::oauth::sign_in_state(csrf_token, origin));
    let tail = match origin {
        Some(o) => "&origin="@ + o,
        None => Seq::<char>::empty(),
    };
    assert(landing_url(development, domain, false, token, state) =~= bare + tail);
}

/// Every browser stays on the site: the URL begins with the protocol and the domain.
pub proof fn law_browser_stays_on_the_site(
    development: bool,
    domain: Seq<char>,
    mobile: bool,
    token: Seq<char>,
    state: Option<Seq<char>>,
)
    ensures
        ((if development {
            "http"@
        } else {
            "https"@
        }) + "://"@ + domain + "/"@).is_prefix_of(
            landing_url(development, domain, mobile, token, state),
        ),
{
    reveal_strlit("/");
    reveal_strlit("/oauth?token=");
    reveal_strlit("/dashboard?auth=success&provider=apple");
}

/// The word stands in the text, each ASCII capital of the text taken as its small letter.
pub open spec fn stands_in_any_case(text: Seq<char>, word: Seq<char>) -> bool {
    exists|i: int| #[trigger] stands_at_in_any_case(text, word, i)
}

/// The word stands at `i`, each ASCII capital of the text taken as its small letter.
pub open spec fn stands_at_in_any_case(text: Seq<char>, word: Seq<char>, i: int) -> bool {
    &&& 0 <= i
    &&& i + word.len() <= text.len()
    &&& forall|k: int|
        0 <= k < word.len() ==> (#[trigger] word[k]) as int == (if 65 <= text[i + k] as int
            && text[i + k] as int <= 90 {
            text[i + k] as int + 32
        } else {
            text[i + k] as int
        })
}

/// A browser is mobile exactly where one of the words `mobile`, `android`, `iphone`,
/// `ipad` and `ipod` stands in the name that it gives itself, in whatever case. One that
/// gives no name, or none of visible text, is not.
pub proof fn law_mobile_browsers_name_a_mobile_device(headers: HeaderMap<HeaderValue>)
    ensures
        ({
            let fields = crate::outside::header_fields(headers);
            let agent = crate::outside::field_text(fields["user-agent"@]);
            from_mobile_browser(headers) <==> {
                &&& fields.contains_key("user-agent"@)
                &&& agent is Some
                &&& {
                    ||| stands_in_any_case(agent->0, "mobile"@)
                    ||| stands_in_any_case(agent->0, "android"@)
                    ||| stands_in_any_case(agent->0, "iphone"@)
                    ||| stands_in_any_case(agent->0, "ipad"@)
                    ||| stands_in_any_case(agent->0, "ipod"@)
                }
            }
        }),
{
    let fields = crate::outside::header_fields(headers);
    if let Some(agent) = crate::outside::field_text(fields["user-agent"@]) {
        lemma_words_in_any_case(agent, "mobile"@);
        lemma_words_in_any_case(agent, "android"@);
        lemma_words_in_any_case(agent, "iphone"@);
        lemma_words_in_any_case(agent, "ipad"@);
        lemma_words_in_any_case(agent, "ipod"@);
    }
}

/// A word stands in a text in whatever case where it stands in the text in small letters.
proof fn lemma_words_in_any_case(text: Seq<char>, word: Seq<char>)
    ensures
        crate::text::has_text(crate::text::ascii_lowercase(text), word) <==> stands_in_any_case(
            text,
            word,
        ),
{
    let small = crate::text::ascii_lowercase(text);
    if crate::text::has_text(small, word) {
        let i = choose|i: int| crate::text::occurs_at(small, word, i);
        assert forall|k: int| 0 <= k < word.len() implies (#[trigger] word[k]) as int == (
        if 65 <= text[i + k] as int && text[i + k] as int <= 90 {
            text[i + k] as int + 32
        } else {
            text[i + k] as int
        }) by {
            assert(small.subrange(i, i + word.len())[k] == small[i + k]);
        }
        assert(stands_at_in_any_case(text, word, i));
    }
    if stands_in_any_case(text, word) {
        let i = choose|i: int| #[trigger] stands_at_in_any_case(text, word, i);
        let found = small.subrange(i, i + word.len());
        assert forall|k: int| 0 <= k < word.len() implies #[trigger] found[k] == word[k] by {
            assert(found[k] == small[i + k]);
        }
        assert(found =~= word);
        assert(crate::text::occurs_at(small, word, i));
    }
}

/// A text in which no `o` is followed by `b`, no `d` by `r` and no `i` by `p`, in whatever
/// case, holds none of the words of mobile devices.
proof fn lemma_no_mobile_word(text: Seq<char>)
    requires
        forall|i: int|
            0 <= i < text.len() - 1 ==> !(((#[trigger] text[i]) == 'o' || text[i] == 'O') && (
            text[i + 1] == 'b' || text[i + 1] == 'B')),
        forall|i: int|
            0 <= i < text.len() - 1 ==> !(((#[trigger] text[i]) == 'd' || text[i] == 'D') && (
            text[i + 1] == 'r' || text[i + 1] == 'R')),
        forall|i: int|
            0 <= i < text.len() - 1 ==> !(((#[trigger] text[i]) == 'i' || text[i] == 'I') && (
            text[i + 1] == 'p' || text[i + 1] == 'P')),
    ensures
        !stands_in_any_case(text, "mobile"@),
        !stands_in_any_case(text, "android"@),
        !stands_in_any_case(text, "iphone"@),
        !stands_in_any_case(text, "ipad"@),
        !stands_in_any_case(text, "ipod"@),
{
    reveal_strlit("mobile");
    reveal_strlit("android");
    reveal_strlit("iphone");
    reveal_strlit("ipad");
    reveal_strlit("ipod");
    assert forall|i: int| !#[trigger] stands_at_in_any_case(text, "mobile"@, i) by {
        if stands_at_in_any_case(text, "mobile"@, i) {
            assert("mobile"@[1] == 'o' && "mobile"@[2] == 'b');
            assert(text[i + 1] == 'o' || text[i + 1] == 'O');
            assert(text[i + 1 + 1] == 'b' || text[i + 1 + 1] == 'B');
        }
    }
    assert forall|i: int| !#[trigger] stands_at_in_any_case(text, "android"@, i) by {
        if stands_at_in_any_case(text, "android"@, i) {
            assert("android"@[2] == 'd' && "android"@[3] == 'r');
            assert(text[i + 2] == 'd' || text[i + 2] == 'D');
            assert(text[i + 2 + 1] == 'r' || text[i + 2 + 1] == 'R');
        }
    }
    assert forall|i: int| !#[trigger] stands_at_in_any_case(text, "iphone"@, i) by {
        if stands_at_in_any_case(text, "iphone"@, i) {
            assert("iphone"@[0] == 'i' && "iphone"@[1] == 'p');
            assert(text[i + 0] == 'i' || text[i + 0] == 'I');
            assert(text[i + 1] == 'p' || text[i + 1] == 'P');
        }
    }
    assert forall|i: int| !#[trigger] stands_at_in_any_case(text, "ipad"@, i) by {
        if stands_at_in_any_case(text, "ipad"@, i) {
            assert("ipad"@[0] == 'i' && "ipad"@[1] == 'p');
            assert(text[i + 0] == 'i' || text[i + 0] == 'I');
            assert(text[i + 1] == 'p' || text[i + 1] == 'P');
        }
    }
    assert forall|i: int| !#[trigger] stands_at_in_any_case(text, "ipod"@, i) by {
        if stands_at_in_any_case(text, "ipod"@, i) {
            assert("ipod"@[0] == 'i' && "ipod"@[1] == 'p');
            assert(text[i + 0] == 'i' || text[i + 0] == 'I');
            assert(text[i + 1] == 'p' || text[i + 1] == 'P');
        }
    }
}

/// Where a browser ends up, spelled out: the protocol is `http` in development and `https`
/// else; a mobile browser goes to `/oauth` with the token; any other goes to the
/// dashboard, with the origin that follows the first hyphen of its state, if there is one.
pub proof fn law_landing_urls(
    domain: Seq<char>,
    token: Seq<char>,
    state: Option<Seq<char>>,
    head: Seq<char>,
    origin: Seq<char>,
)
    requires
        forall|i: int| 0 <= i < head.len() ==> #[trigger] head[i] != '-',
    ensures
        landing_url(true, domain, true, token, state) == "http://"@ + domain + "/oauth?token="@
            + token,
        landing_url(false, domain, true, token, state) == "https://"@ + domain + "/oauth?token="@
            + token,
        landing_url(true, domain, false, token, Some(head + seq!['-'] + origin)) == "http://"@
            + domain + "/dashboard?auth=success&provider=apple&origin="@ + origin,
        landing_url(false, domain, false, token, Some(head + seq!['-'] + origin)) == "https://"@
            + domain + "/dashboard?auth=success&provider=apple&origin="@ + origin,
        landing_url(true, domain, false, token, Some(head)) == "http://"@ + domain
            + "/dashboard?auth=success&provider=apple"@,
        landing_url(false, domain, false, token, Some(head)) == "https://"@ + domain
            + "/dashboard?auth=success&provider=apple"@,
        landing_url(true, domain, false, token, None) == "http://"@ + domain
            + "/dashboard?auth=success&provider=apple"@,
        landing_url(false, domain, false, token, None) == "https://"@ + domain
            + "/dashboard?auth=success&provider=apple"@,
{
    reveal_strlit("http");
    reveal_strlit("https");
    reveal_strlit("://");
    reveal_strlit("http://");
    reveal_strlit("https://");
    reveal_strlit("/dashboard?auth=success&provider=apple");
    reveal_strlit("&origin=");
    reveal_strlit("/dashboard?auth=success&provider=apple&origin=");
    crate::oauth::law_origin_follows_the_first_hyphen(head, origin);
    assert("http"@ + "://"@ =~= "http://"@);
    assert("https"@ + "://"@ =~= "https://"@);
    let page = "/dashboard?auth=success&provider=apple"@;
    assert(page + "&origin="@ =~= "/dashboard?auth=success&provider=apple&origin="@);
    let none = Seq::<char>::empty();
    let open = "http://"@ + domain + page;
    let safe = "https://"@ + domain + page;
    assert(open + none =~= open);
    assert(safe + none =~= safe);
    assert(open + ("&origin="@ + origin) =~= "http://"@ + domain + (page + "&origin="@) + origin);
    assert(safe + ("&origin="@ + origin) =~= "https://"@ + domain + (page + "&origin="@) + origin);
}

/// The server is in development exactly where the environment names `development`, in
/// whatever case; where nothing is set it is not.
pub proof fn law_development_is_named(name: Seq<char>)
    requires
        forall|i: int| 0 <= i < name.len() ==> (#[trigger] name[i] as int) < 128,
    ensures
        !in_development(None),
        in_development(Some(name)) <==> name.len() == 11 && stands_at_in_any_case(
            name,
            "development"@,
            0,
        ),
{
    reveal_strlit("development");
    let small = crate::text::ascii_lowercase(name);
    assert(small.len() == name.len());
    if small == "development"@ {
        assert forall|k: int| 0 <= k < 11 implies (#[trigger] "development"@[k]) as int == (
        if 65 <= name[0 + k] as int && name[0 + k] as int <= 90 {
            name[0 + k] as int + 32
        } else {
            name[0 + k] as int
        }) by {
            assert(small[k] == crate::text::ascii_lower(name[0 + k]));
            assert(small[k] == "development"@[k]);
        }
    }
    if name.len() == 11 && stands_at_in_any_case(name, "development"@, 0) {
        assert forall|k: int| 0 <= k < 11 implies #[trigger] small[k] == "development"@[k] by {
            assert("development"@[k] as int == (if 65 <= name[0 + k] as int && name[0 + k] as int
                <= 90 {
                name[0 + k] as int + 32
            } else {
                name[0 + k] as int
            }));
        }
        assert(small =~= "development"@);
    }
}

/// A name outside ASCII stands for development where its lower-case form does.
pub proof fn law_development_in_other_letters(name: Seq<char>)
    requires
        exists|i: int| 0 <= i < name.len() && (#[trigger] name[i] as int) >= 128,
    ensures
        in_development(Some(name)) <==> crate::text::unicode_lowercase(name) == "development"@,
{
}

/// Claims that could not be read are reported before all else. Claims that were read come
/// back unchanged where the token is in order. Else its fault is reported: that it has
/// expired, where it expires before the deadline, and any other fault only where it does
/// not.
pub proof fn law_decoding(
    token: Seq<char>,
    audience: Option<Seq<char>>,
    claims: AppleClaims<Seq<char>>,
    e: Seq<char>,
    deadline: u64,
)
    ensures
        decoding_outcome(token, audience, Err(e), deadline) == Err::<AppleClaims<Seq<char>>, _>(e),
        crate::outside::token_findings(token, audience).0 matches Some(expires) && expires
            < deadline ==> decoding_outcome(token, audience, Ok(claims), deadline) == Err::<
            AppleClaims<Seq<char>>,
            _,
        >("ExpiredSignature"@),
        !(crate::outside::token_findings(token, audience).0 matches Some(expires) && expires
            < deadline) ==> decoding_outcome(token, audience, Ok(claims), deadline) == (
        match crate::outside::token_findings(token, audience).1 {
            Ok(_) => Ok::<_, Seq<char>>(claims),
            Err(fault) => Err(fault),
        }),
{
}

/// The model of the claims holds each value in its place.
pub proof fn law_claims_keep_their_values(claims: AppleClaims)
    ensures
        claims@.sub == claims.sub@,
        claims@.email == claims.email.deep_view(),
{
}

/// A desktop browser on a Macintosh is sent to the dashboard, with its origin.
pub proof fn law_macintosh_goes_to_the_dashboard(
    headers: HeaderMap<HeaderValue>,
    domain: Seq<char>,
    token: Seq<char>,
    head: Seq<char>,
    origin: Seq<char>,
)
    requires
        forall|i: int| 0 <= i < head.len() ==> #[trigger] head[i] != '-',
        crate::outside::header_fields(headers).contains_key("user-agent"@),
        crate::outside::field_text(crate::outside::header_fields(headers)["user-agent"@]) == Some(
            "Mozilla/5.0 (Macintosh; Intel Mac OS X 10_15_7) AppleWebKit/605.1.15 (KHTML, like Gecko) Version/17.4 Safari/605.1.15"@,
        ),
    ensures
        !from_mobile_browser(headers),
        landing_url(
            false,
            domain,
            from_mobile_browser(headers),
            token,
            Some(head + seq!['-'] + origin),
        ) == "https://"@ + domain + "/dashboard?auth=success&provider=apple&origin="@ + origin,
{
    let agent =
        "Mozilla/5.0 (Macintosh; Intel Mac OS X 10_15_7) AppleWebKit/605.1.15 (KHTML, like Gecko) Version/17.4 Safari/605.1.15"@;
    reveal_strlit(
        "Mozilla/5.0 (Macintosh; Intel Mac OS X 10_15_7) AppleWebKit/605.1.15 (KHTML, like Gecko) Version/17.4 Safari/605.1.15",
    );
    assert forall|i: int| 0 <= i < agent.len() - 1 implies !(((#[trigger] agent[i]) == 'o' || agent[i]
        == 'O') && (agent[i + 1] == 'b' || agent[i + 1] == 'B')) by {
    }
    assert forall|i: int| 0 <= i < agent.len() - 1 implies !(((#[trigger] agent[i]) == 'd' || agent[i]
        == 'D') && (agent[i + 1] == 'r' || agent[i + 1] == 'R')) by {
    }
    assert forall|i: int| 0 <= i < agent.len() - 1 implies !(((#[trigger] agent[i]) == 'i' || agent[i]
        == 'I') && (agent[i + 1] == 'p' || agent[i + 1] == 'P')) by {
    }
    lemma_no_mobile_word(agent);
    law_mobile_browsers_name_a_mobile_device(headers);
    law_landing_urls(domain, token, None, head, origin);
}

/// A desktop browser on Windows is sent to the dashboard, with its origin.
pub proof fn law_windows_goes_to_the_dashboard(
    headers: HeaderMap<HeaderValue>,
    domain: Seq<char>,
    token: Seq<char>,
    head: Seq<char>,
    origin: Seq<char>,
)
    requires
        forall|i: int| 0 <= i < head.len() ==> #[trigger] head[i] != '-',
        crate::outside::header_fields(headers).contains_key("user-agent"@),
        crate::outside::field_text(crate::outside::header_fields(headers)["user-agent"@]) == Some(
            "Mozilla/5.0 (Windows NT 10.0; Win64; x64; rv:125.0) Gecko/20100101 Firefox/125.0"@,
        ),
    ensures
        !from_mobile_browser(headers),
        landing_url(
            false,
            domain,
            from_mobile_browser(headers),
            token,
            Some(head + seq!['-'] + origin),
        ) == "https://"@ + domain + "/dashboard?auth=success&provider=apple&origin="@ + origin,
{
    let agent =
        "Mozilla/5.0 (Windows NT 10.0; Win64; x64; rv:125.0) Gecko/20100101 Firefox/125.0"@;
    reveal_strlit(
        "Mozilla/5.0 (Windows NT 10.0; Win64; x64; rv:125.0) Gecko/20100101 Firefox/125.0",
    );
    assert forall|i: int| 0 <= i < agent.len() - 1 implies !(((#[trigger] agent[i]) == 'o' || agent[i]
        == 'O') && (agent[i + 1] == 'b' || agent[i + 1] == 'B')) by {
    }
    assert forall|i: int| 0 <= i < agent.len() - 1 implies !(((#[trigger] agent[i]) == 'd' || agent[i]
        == 'D') && (agent[i + 1] == 'r' || agent[i + 1] == 'R')) by {
    }
    assert forall|i: int| 0 <= i < agent.len() - 1 implies !(((#[trigger] agent[i]) == 'i' || agent[i]
        == 'I') && (agent[i + 1] == 'p' || agent[i + 1] == 'P')) by {
    }
    lemma_no_mobile_word(agent);
    law_mobile_browsers_name_a_mobile_device(headers);
    law_landing_urls(domain, token, None, head, origin);
}

/// A desktop browser on X11 is sent to the dashboard, with its origin.
pub proof fn law_x11_goes_to_the_dashboard(
    headers: HeaderMap<HeaderValue>,
    domain: Seq<char>,
    token: Seq<char>,
    head: Seq<char>,
    origin: Seq<char>,
)
    requires
        forall|i: int| 0 <= i < head.len() ==> #[trigger] head[i] != '-',
        crate::outside::header_fields(headers).contains_key("user-agent"@),
        crate::outside::field_text(crate::outside::header_fields(headers)["user-agent"@]) == Some(
            "Mozilla/5.0 (X11; Linux x86_64; rv:125.0) Gecko/20100101 Firefox/125.0"@,
        ),
    ensures
        !from_mobile_browser(headers),
        landing_url(
            false,
            domain,
            from_mobile_browser(headers),
            token,
            Some(head + seq!['-'] + origin),
        ) == "https://"@ + domain + "/dashboard?auth=success&provider=apple&origin="@ + origin,
{
    let agent =
        "Mozilla/5.0 (X11; Linux x86_64; rv:125.0) Gecko/20100101 Firefox/125.0"@;
    reveal_strlit(
        "Mozilla/5.0 (X11; Linux x86_64; rv:125.0) Gecko/20100101 Firefox/125.0",
    );
    assert forall|i: int| 0 <= i < agent.len() - 1 implies !(((#[trigger] agent[i]) == 'o' || agent[i]
        == 'O') && (agent[i + 1] == 'b' || agent[i + 1] == 'B')) by {
    }
    assert forall|i: int| 0 <= i < agent.len() - 1 implies !(((#[trigger] agent[i]) == 'd' || agent[i]
        == 'D') && (agent[i + 1] == 'r' || agent[i + 1] == 'R')) by {
    }
    assert forall|i: int| 0 <= i < agent.len() - 1 implies !(((#[trigger] agent[i]) == 'i' || agent[i]
        == 'I') && (agent[i + 1] == 'p' || agent[i + 1] == 'P')) by {
    }
    lemma_no_mobile_word(agent);
    law_mobile_browsers_name_a_mobile_device(headers);
    law_landing_urls(domain, token, None, head, origin);
}

} // verus!
