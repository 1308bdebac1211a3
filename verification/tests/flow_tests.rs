use rate_limited_api::auth::{
    sign_in_begin, sign_in_step, sign_up_begin, sign_up_step, ResponseBody, SignInAction,
    SignInEvent, SignInRequest, SignInState, SignUpAction, SignUpEvent, SignUpRequest,
    SignUpState, Validation, NEW_USER_ACCESS_LEVEL,
};
use rate_limited_api::clock::{now, Timestamp};
use rate_limited_api::ips::{Ip, IpAddress, IpNet};
use rate_limited_api::rate_limit::{
    access_decision, has_elapsed_enough_too_many_req, has_reqd_too_many, is_over_budget, is_within_window,
    rate_limit_begin, rate_limit_step, RateLimitAction, RateLimitEvent, RateLimitRequest,
    RateLimitState,
};
use rate_limited_api::rbac::{
    is_whitespace, rbac_begin, rbac_step, strip_whitespace, RbacAction, RbacEvent, RbacRequest,
    RbacState,
};
use rate_limited_api::reply::{DbReply, Rejection};
use rate_limited_api::tokens::{
    claims_with_expiry, gen_token_claims, is_token_too_old, token_expired, Claims, GenTokenError, Token,
    TOKEN_MAX_AGE_SECS,
};
use rate_limited_api::urls::Url;
use rate_limited_api::users::{User, UserDataSignIn, UserDataSignUp};

fn secs_ago(s: i64) -> Timestamp {
    let t = now();
    Timestamp { secs: t.secs - s, nanos: t.nanos }
}

fn url(limit_per: i32, limit_count: i32, access_level: i32) -> Url {
    Url { url_path: "/api/service/test".to_string(), limit_per, limit_count, access_level }
}

fn record(first_ago: i64, last_ago: i64, access_count: i32) -> Ip {
    Ip {
        id: 17,
        ip: IpNet { addr: IpAddress::V4([192, 168, 0, 7]), prefix: 32 },
        url_path: "/api/service/test".to_string(),
        first_access: secs_ago(first_ago),
        last_access: secs_ago(last_ago),
        access_count,
    }
}

#[test]
fn budget_check_exact_values() {
    // minute window, budget 10
    assert!(!is_over_budget(1, 10, 10, 60));
    assert!(is_over_budget(1, 10, 11, 0));
    assert!(is_over_budget(1, 10, 1, 61));
    // second window
    assert!(is_over_budget(0, 10, 1, 2));
    assert!(!is_over_budget(0, 10, 1, 1));
    assert!(is_within_window(2, 3600));
    assert!(!is_within_window(2, 3601));
    assert!(is_within_window(5, -4));
}

#[test]
fn budget_check_is_monotone() {
    for count in 0..15 {
        for elapsed in 0..80 {
            if is_over_budget(1, 10, count, elapsed) {
                assert!(is_over_budget(1, 10, count + 1, elapsed));
                assert!(is_over_budget(1, 10, count, elapsed + 1));
            }
        }
    }
}

#[test]
fn budget_against_the_clock() {
    // Last access 3 seconds ago on a one-second window: over budget.
    assert!(has_reqd_too_many(0, 10, 1, secs_ago(3)));
    // Last access 3 seconds ago on a minute window, within budget.
    assert!(!has_reqd_too_many(1, 10, 1, secs_ago(3)));
    // Too many accesses.
    assert!(has_reqd_too_many(1, 10, 11, secs_ago(3)));
    // Window started 10 seconds ago: still within a minute, not within a second.
    assert!(has_elapsed_enough_too_many_req(1, secs_ago(10)));
    assert!(!has_elapsed_enough_too_many_req(0, secs_ago(10)));
}

fn start(path: &str) -> (RateLimitRequest, RateLimitState) {
    let req = RateLimitRequest::new(path.to_string(), IpAddress::V4([192, 168, 0, 7]));
    let (state, action) = rate_limit_begin(&req);
    match action {
        RateLimitAction::SendGetUrl(g) => assert_eq!(g.url_path, path),
        _ => panic!("first step asks for the URL"),
    }
    (req, state)
}

#[test]
fn unknown_url_is_not_found() {
    let (req, state) = start("/nope");
    let (next, action) = rate_limit_step(&req, state, RateLimitEvent::UrlReply(DbReply::QueryFailed));
    assert!(matches!(next, RateLimitState::Finished));
    assert!(matches!(action, RateLimitAction::Reject(Rejection::NotFound)));
    let (req, state) = start("/nope");
    let (_, action) = rate_limit_step(&req, state, RateLimitEvent::UrlReply(DbReply::MailboxFailed));
    assert!(matches!(action, RateLimitAction::Reject(Rejection::InternalError)));
}

#[test]
fn first_visit_creates_record_then_forwards() {
    let (req, state) = start("/api/service/test");
    let (state, action) = rate_limit_step(&req, state, RateLimitEvent::UrlReply(DbReply::Done(url(1, 10, 1))));
    match action {
        RateLimitAction::SendGetIp(g) => {
            assert_eq!(g.url_path, "/api/service/test");
            assert_eq!(g.ip, IpNet { addr: IpAddress::V4([192, 168, 0, 7]), prefix: 32 });
        },
        _ => panic!("expected the record lookup"),
    }
    let (state, action) = rate_limit_step(&req, state, RateLimitEvent::IpReply(DbReply::QueryFailed, now()));
    match action {
        RateLimitAction::SendCreateIp(c) => {
            assert_eq!(c.access, req.arrival);
            assert_eq!(c.ip, req.peer);
            assert_eq!(c.url_path, "/api/service/test");
        },
        _ => panic!("expected a new record"),
    }
    let (state, action) = rate_limit_step(&req, state, RateLimitEvent::RecordReply(DbReply::Done(record(0, 0, 1))));
    assert!(matches!(state, RateLimitState::Finished));
    assert!(matches!(action, RateLimitAction::Forward));
}

fn after_url(limit_per: i32, limit_count: i32) -> (RateLimitRequest, RateLimitState) {
    let (req, state) = start("/api/service/test");
    let (state, _) = rate_limit_step(&req, state, RateLimitEvent::UrlReply(DbReply::Done(url(limit_per, limit_count, 1))));
    (req, state)
}

#[test]
fn within_budget_counts_access() {
    let (req, state) = after_url(1, 10);
    let (next, action) = rate_limit_step(&req, state, RateLimitEvent::IpReply(DbReply::Done(record(5, 2, 3)), now()));
    assert!(matches!(next, RateLimitState::AwaitingRecord));
    match action {
        RateLimitAction::SendNewAccess(a) => {
            assert_eq!(a.id, 17);
            assert!((now().secs - a.access.secs).abs() <= 5);
        },
        _ => panic!("expected the access to be counted"),
    }
}

#[test]
fn over_budget_in_window_is_refused() {
    let (req, state) = after_url(1, 10);
    let (next, action) = rate_limit_step(&req, state, RateLimitEvent::IpReply(DbReply::Done(record(5, 2, 11)), now()));
    assert!(matches!(next, RateLimitState::Finished));
    assert!(matches!(action, RateLimitAction::Reject(Rejection::TooManyRequests)));
}

#[test]
fn over_budget_after_window_starts_new_window() {
    let (req, state) = after_url(1, 10);
    let (next, action) = rate_limit_step(&req, state, RateLimitEvent::IpReply(DbReply::Done(record(120, 90, 4)), now()));
    assert!(matches!(next, RateLimitState::AwaitingRecord));
    match action {
        RateLimitAction::SendResetAccess(r) => assert_eq!(r.id, 17),
        _ => panic!("expected a new window"),
    }
}

#[test]
fn failed_recording_is_internal_error() {
    let (req, state) = after_url(1, 10);
    let (state, _) = rate_limit_step(&req, state, RateLimitEvent::IpReply(DbReply::Done(record(5, 2, 3)), now()));
    let (next, action) = rate_limit_step(&req, state, RateLimitEvent::RecordReply(DbReply::QueryFailed));
    assert!(matches!(next, RateLimitState::Finished));
    assert!(matches!(action, RateLimitAction::Reject(Rejection::InternalError)));
    let (req, state) = after_url(1, 10);
    let (_, action) = rate_limit_step(&req, state, RateLimitEvent::IpReply(DbReply::MailboxFailed, now()));
    assert!(matches!(action, RateLimitAction::Reject(Rejection::InternalError)));
}

#[test]
fn whitespace_matches_std() {
    for u in 0u32..=0x10FFFF {
        if let Some(c) = char::from_u32(u) {
            assert_eq!(is_whitespace(c), c.is_whitespace(), "U+{:04X}", u);
        }
    }
}

#[test]
fn token_whitespace_is_stripped() {
    assert_eq!(strip_whitespace(" ab c\t.d\ne\u{3000}"), "abc.de");
    assert_eq!(strip_whitespace(""), "");
    assert_eq!(strip_whitespace("xyz"), "xyz");
}

fn claims_with_exp(exp_secs: i64, level: i32) -> Claims {
    Claims { token_id: 5, user_id: 8, user_access_level: level, exp: exp_secs as usize }
}

#[test]
fn token_age_limit() {
    assert_eq!(TOKEN_MAX_AGE_SECS, 18000);
    assert!(is_token_too_old(18000));
    assert!(!is_token_too_old(17999));
    assert!(!is_token_too_old(-18000));
    assert!(!token_expired(&claims_with_exp(now().secs + 5 * 3600, 1)));
    assert!(!token_expired(&claims_with_exp(now().secs - 3600, 1)));
    assert!(token_expired(&claims_with_exp(now().secs - 6 * 3600, 1)));
}

#[test]
fn issued_claims_expire_five_hours_later() {
    let before = now().secs;
    let c = gen_token_claims(DbReply::Done(Token { id: 3, user_id: 8 }), 8, 2).unwrap();
    let after = now().secs;
    assert_eq!((c.token_id, c.user_id, c.user_access_level), (3, 8, 2));
    assert!(c.exp as i64 >= before + 18000 && c.exp as i64 <= after + 18000);
    assert!(!token_expired(&c));
    assert_eq!(gen_token_claims(DbReply::QueryFailed, 8, 2), Err(GenTokenError::NotCreated));
    assert_eq!(gen_token_claims(DbReply::MailboxFailed, 8, 2), Err(GenTokenError::NotCreated));
}

fn rbac_to_claims(token: &str) -> (RbacRequest, RbacState) {
    let req = RbacRequest { path: "/api/service/test_root".to_string() };
    let (state, action) = rbac_begin();
    assert!(matches!(action, RbacAction::ExtractBearer));
    let (state, action) = rbac_step(&req, state, RbacEvent::BearerReply(Some(token.to_string())));
    match action {
        RbacAction::Decode(t) => assert_eq!(t, token.replace(' ', "")),
        _ => panic!("expected decoding"),
    }
    (req, state)
}

#[test]
fn missing_or_bad_token_is_unauthorized() {
    let req = RbacRequest { path: "/p".to_string() };
    let (state, _) = rbac_begin();
    let (next, action) = rbac_step(&req, state, RbacEvent::BearerReply(None));
    assert!(matches!(next, RbacState::Finished));
    assert!(matches!(action, RbacAction::Reject(Rejection::Unauthorized)));
    let (req, state) = rbac_to_claims("abc def");
    let (_, action) = rbac_step(&req, state, RbacEvent::ClaimsReply(None, now()));
    assert!(matches!(action, RbacAction::Reject(Rejection::Unauthorized)));
    let (req, state) = rbac_to_claims("abc");
    let old = claims_with_exp(now().secs - 6 * 3600, 5);
    let (_, action) = rbac_step(&req, state, RbacEvent::ClaimsReply(Some(old), now()));
    assert!(matches!(action, RbacAction::Reject(Rejection::Unauthorized)));
}

fn rbac_to_url(level: i32, token_found: bool) -> (RbacRequest, RbacState, RbacAction) {
    let (req, state) = rbac_to_claims("tok");
    let fresh = claims_with_exp(now().secs + 5 * 3600, level);
    let (state, action) = rbac_step(&req, state, RbacEvent::ClaimsReply(Some(fresh), now()));
    match action {
        RbacAction::SendGetToken(g) => assert_eq!(g.id, 5),
        _ => panic!("expected the token lookup"),
    }
    let reply = if token_found { DbReply::Done(Token { id: 5, user_id: 8 }) } else { DbReply::QueryFailed };
    let (state, action) = rbac_step(&req, state, RbacEvent::TokenReply(reply));
    (req, state, action)
}

#[test]
fn revoked_token_is_unauthorized() {
    let (_, state, action) = rbac_to_url(2, false);
    assert!(matches!(state, RbacState::Finished));
    assert!(matches!(action, RbacAction::Reject(Rejection::Unauthorized)));
}

#[test]
fn access_level_decides() {
    let (req, state, action) = rbac_to_url(1, true);
    match action {
        RbacAction::SendGetUrl(g) => assert_eq!(g.url_path, "/api/service/test_root"),
        _ => panic!("expected the URL lookup"),
    }
    let (_, action) = rbac_step(&req, state, RbacEvent::UrlReply(DbReply::Done(url(1, 10, 2))));
    assert!(matches!(action, RbacAction::Reject(Rejection::Unauthorized)));

    let (req, state, _) = rbac_to_url(2, true);
    let (next, action) = rbac_step(&req, state, RbacEvent::UrlReply(DbReply::Done(url(1, 10, 2))));
    assert!(matches!(next, RbacState::Finished));
    assert!(matches!(action, RbacAction::Forward));

    let (req, state, _) = rbac_to_url(3, true);
    let (_, action) = rbac_step(&req, state, RbacEvent::UrlReply(DbReply::QueryFailed));
    assert!(matches!(action, RbacAction::Reject(Rejection::Unauthorized)));
}

fn single_issue(action: &SignInAction) -> (u16, String) {
    match action {
        SignInAction::Respond(r) => match &r.body {
            ResponseBody::Issues(v) if v.len() == 1 => (r.status, v[0].clone()),
            _ => panic!("expected one issue"),
        },
        _ => panic!("expected an answer"),
    }
}

fn login(email: &str, password: &str) -> SignInRequest {
    SignInRequest { user: UserDataSignIn { email: Some(email.to_string()), password: Some(password.to_string()) } }
}

fn stored_user() -> User {
    User {
        id: 4,
        first_name: "Ada".to_string(),
        last_name: "L".to_string(),
        email: "ada@x.org".to_string(),
        password: "HASH".to_string(),
        access_level: 2,
        is_deleted: false,
        created_at: Timestamp { secs: 1_600_000_000, nanos: 0 },
    }
}

#[test]
fn login_success_issues_token() {
    let req = login("ada@x.org", "pw");
    let (state, action) = sign_in_begin();
    assert!(matches!(action, SignInAction::Validate));
    let (state, action) = sign_in_step(&req, state, SignInEvent::Validated(Validation::Valid));
    match action {
        SignInAction::SendGetUser(g) => assert_eq!(g.email, "ada@x.org"),
        _ => panic!("expected the user lookup"),
    }
    let (state, action) = sign_in_step(&req, state, SignInEvent::UserReply(DbReply::Done(stored_user())));
    match action {
        SignInAction::VerifyPassword { stored, given } => {
            assert_eq!(stored, "HASH");
            assert_eq!(given, "pw");
        },
        _ => panic!("expected the password check"),
    }
    let (state, action) = sign_in_step(&req, state, SignInEvent::PasswordChecked(true));
    assert!(matches!(action, SignInAction::GenToken { user_id: 4, user_access_level: 2 }));
    let (state, action) = sign_in_step(&req, state, SignInEvent::TokenIssued(Some("jwt".to_string())));
    assert!(matches!(state, SignInState::Finished));
    match action {
        SignInAction::Respond(r) => {
            assert_eq!(r.status, 200);
            assert!(matches!(r.body, ResponseBody::Token(ref t) if t == "jwt"));
        },
        _ => panic!("expected an answer"),
    }
}

#[test]
fn login_failures() {
    let req = login("ada@x.org", "pw");
    // invalid body
    let (s, _) = sign_in_begin();
    let (_, action) = sign_in_step(&req, s, SignInEvent::Validated(Validation::Invalid(vec!["email".to_string()])));
    match action {
        SignInAction::Respond(r) => {
            assert_eq!(r.status, 400);
            assert!(matches!(r.body, ResponseBody::Issues(ref v) if v == &vec!["email".to_string()]));
        },
        _ => panic!("expected an answer"),
    }
    let (s, _) = sign_in_begin();
    let (_, action) = sign_in_step(&req, s, SignInEvent::Validated(Validation::NotSerializable));
    match action {
        SignInAction::Respond(r) => {
            assert_eq!(r.status, 500);
            assert!(matches!(r.body, ResponseBody::Text(ref t) if t == "Something went wrong"));
        },
        _ => panic!("expected an answer"),
    }
    // unknown user and wrong password answer alike
    let (_, action) = sign_in_step(&req, SignInState::AwaitingUser, SignInEvent::UserReply(DbReply::QueryFailed));
    assert_eq!(single_issue(&action), (401, "wrong password or email".to_string()));
    let s = SignInState::AwaitingPasswordCheck { user_id: 4, user_access_level: 2 };
    let (_, action) = sign_in_step(&req, s, SignInEvent::PasswordChecked(false));
    assert_eq!(single_issue(&action), (401, "wrong password or email".to_string()));
    let (_, action) = sign_in_step(&req, SignInState::AwaitingUser, SignInEvent::UserReply(DbReply::MailboxFailed));
    assert_eq!(single_issue(&action), (500, "something went wrong".to_string()));
    let (_, action) = sign_in_step(&req, SignInState::AwaitingToken, SignInEvent::TokenIssued(None));
    assert_eq!(single_issue(&action), (500, "something went wrong".to_string()));
}

fn signup() -> SignUpRequest {
    SignUpRequest {
        user: UserDataSignUp {
            first_name: Some("Ada".to_string()),
            last_name: Some("L".to_string()),
            email: Some("ada@x.org".to_string()),
            password: Some("pw".to_string()),
        },
    }
}

fn sign_up_issue(action: &SignUpAction) -> (u16, String) {
    match action {
        SignUpAction::Respond(r) => match &r.body {
            ResponseBody::Issues(v) if v.len() == 1 => (r.status, v[0].clone()),
            _ => panic!("expected one issue"),
        },
        _ => panic!("expected an answer"),
    }
}

#[test]
fn sign_up_success() {
    let req = signup();
    let (state, action) = sign_up_begin();
    assert!(matches!(action, SignUpAction::Validate));
    let (state, action) = sign_up_step(&req, state, SignUpEvent::Validated(Validation::Valid));
    assert!(matches!(action, SignUpAction::HashPassword(ref p) if p == "pw"));
    let (state, action) = sign_up_step(&req, state, SignUpEvent::Hashed(Some("HASH".to_string())));
    match action {
        SignUpAction::SendCreateUser(u) => {
            assert_eq!((u.first_name.as_str(), u.last_name.as_str(), u.email.as_str()), ("Ada", "L", "ada@x.org"));
            assert_eq!(u.password, "HASH");
            assert_eq!(u.access_level, NEW_USER_ACCESS_LEVEL);
            assert_eq!(u.access_level, 1);
            assert!((now().secs - u.created_at.secs).abs() <= 5);
        },
        _ => panic!("expected the user to be created"),
    }
    let (state, action) = sign_up_step(&req, state, SignUpEvent::UserReply(DbReply::Done(stored_user())));
    assert!(matches!(state, SignUpState::Finished));
    match action {
        SignUpAction::Respond(r) => {
            assert_eq!(r.status, 200);
            assert!(matches!(r.body, ResponseBody::Message(ref m)
                if m == "Your account created successfully, use login api to get auth token"));
        },
        _ => panic!("expected an answer"),
    }
}

#[test]
fn sign_up_failures() {
    let req = signup();
    let (_, action) = sign_up_step(&req, SignUpState::AwaitingHash, SignUpEvent::Hashed(None));
    assert_eq!(sign_up_issue(&action), (401, "wrong password or email".to_string()));
    let (_, action) = sign_up_step(&req, SignUpState::AwaitingCreate, SignUpEvent::UserReply(DbReply::QueryFailed));
    assert_eq!(sign_up_issue(&action), (401, "wrong password or email".to_string()));
    let (_, action) = sign_up_step(&req, SignUpState::AwaitingCreate, SignUpEvent::UserReply(DbReply::MailboxFailed));
    assert_eq!(sign_up_issue(&action), (500, "something went wrong".to_string()));
    let (_, action) = sign_up_step(&req, SignUpState::AwaitingValidation, SignUpEvent::Validated(Validation::Invalid(vec!["password".to_string()])));
    assert!(matches!(action, SignUpAction::Respond(ref r) if r.status == 400));
}

#[test]
fn window_holds_at_most_budget_plus_one() {
    let (req, state) = after_url(1, 10);
    let (_, action) = rate_limit_step(&req, state, RateLimitEvent::IpReply(DbReply::Done(record(5, 1, 10)), now()));
    assert!(matches!(action, RateLimitAction::SendNewAccess(_)));
    let (req, state) = after_url(1, 10);
    let (_, action) = rate_limit_step(&req, state, RateLimitEvent::IpReply(DbReply::Done(record(5, 1, 11)), now()));
    assert!(matches!(action, RateLimitAction::Reject(Rejection::TooManyRequests)));
}

#[test]
fn claims_take_the_whole_second_of_the_expiry() {
    let token = Token { id: 3, user_id: 8 };
    let c = claims_with_expiry(token, 8, 2, Some(Timestamp { secs: 1_700_018_000, nanos: 999 })).unwrap();
    assert_eq!(c, Claims { token_id: 3, user_id: 8, user_access_level: 2, exp: 1_700_018_000 });
    assert_eq!(claims_with_expiry(token, 8, 2, None), Err(GenTokenError::ExpiryOutOfRange));
}

#[test]
fn over_budget_after_window_restarts_at_the_reading() {
    // minute window, budget 5; six accesses, window opened 90 s ago, last 10 s ago
    let (req, state) = after_url(1, 5);
    let t = now();
    let mut rec = record(90, 10, 6);
    rec.first_access = Timestamp { secs: t.secs - 90, nanos: t.nanos };
    rec.last_access = Timestamp { secs: t.secs - 10, nanos: t.nanos };
    let (next, action) = rate_limit_step(&req, state, RateLimitEvent::IpReply(DbReply::Done(rec), t));
    assert!(matches!(next, RateLimitState::AwaitingRecord));
    match action {
        RateLimitAction::SendResetAccess(r) => {
            assert_eq!(r.id, 17);
            assert_eq!(r.access, t);
        },
        _ => panic!("expected a new window"),
    }
}

#[test]
fn access_decision_exact_values() {
    let u = url(1, 5, 1);
    let rec = record(0, 0, 6);
    let at = Timestamp { secs: 1_000, nanos: 0 };
    // over budget, window start 60 s ago: refused
    assert!(matches!(access_decision(&u, &rec, 10, 60, at).1, RateLimitAction::Reject(Rejection::TooManyRequests)));
    // over budget, window start 61 s ago: new window at `at`
    match access_decision(&u, &rec, 10, 61, at).1 {
        RateLimitAction::SendResetAccess(r) => assert_eq!((r.id, r.access), (17, at)),
        _ => panic!("expected a new window"),
    }
    // within budget: counted at `at`
    let rec5 = record(0, 0, 5);
    match access_decision(&u, &rec5, 60, 0, at).1 {
        RateLimitAction::SendNewAccess(a) => assert_eq!((a.id, a.access), (17, at)),
        _ => panic!("expected the access to be counted"),
    }
    // within budget but last access more than a window ago, window start far back: new window
    assert!(matches!(access_decision(&u, &rec5, 61, 61, at).1, RateLimitAction::SendResetAccess(_)));
}

/// Serves `k` requests one second apart through the step function, with the
/// database applying the recording requests as its handlers do.
fn serve_requests(limit_count: i32, k: usize) -> (Vec<bool>, i32) {
    let start = now();
    let mut stored: Option<Ip> = None;
    let mut passed = Vec::new();
    for i in 0..k {
        let t = Timestamp { secs: start.secs + i as i64, nanos: start.nanos };
        let req = RateLimitRequest { path: "/api/auth/login".to_string(), peer: IpNet { addr: IpAddress::V4([127, 0, 0, 1]), prefix: 32 }, arrival: t };
        let (state, _) = rate_limit_begin(&req);
        let (state, _) = rate_limit_step(&req, state, RateLimitEvent::UrlReply(DbReply::Done(url(2, limit_count, 0))));
        let reply = match &stored { Some(r) => DbReply::Done(r.clone()), None => DbReply::QueryFailed };
        let (state, action) = rate_limit_step(&req, state, RateLimitEvent::IpReply(reply, t));
        let recorded = match action {
            RateLimitAction::SendCreateIp(c) => Some(Ip {
                id: 1,
                ip: c.ip,
                url_path: c.url_path,
                first_access: c.access,
                last_access: c.access,
                access_count: 1,
            }),
            RateLimitAction::SendNewAccess(a) => stored.clone().map(|r| Ip { last_access: a.access, access_count: r.access_count + 1, ..r }),
            RateLimitAction::SendResetAccess(a) => stored.clone().map(|r| Ip { first_access: a.access, last_access: a.access, access_count: 1, ..r }),
            RateLimitAction::Reject(_) => {
                passed.push(false);
                continue;
            },
            _ => panic!("unexpected action"),
        };
        let (_, action) = rate_limit_step(&req, state, RateLimitEvent::RecordReply(DbReply::Done(recorded.clone().unwrap())));
        assert!(matches!(action, RateLimitAction::Forward));
        stored = recorded;
        passed.push(true);
    }
    (passed, stored.map(|r| r.access_count).unwrap_or(0))
}

#[test]
fn window_lets_budget_plus_one_through() {
    let (passed, count) = serve_requests(3, 8);
    assert_eq!(passed, vec![true, true, true, true, false, false, false, false]);
    assert_eq!(count, 4);
    let (passed, count) = serve_requests(0, 3);
    assert_eq!(passed, vec![true, false, false]);
    assert_eq!(count, 1);
}

#[test]
fn issued_token_is_accepted_and_revoked_token_refused() {
    let c = gen_token_claims(DbReply::Done(Token { id: 3, user_id: 8 }), 8, 2).unwrap();
    let req = RbacRequest { path: "/api/service/test".to_string() };
    let (_, state) = rbac_to_claims("tok");
    let later = Timestamp { secs: now().secs + 9 * 3600, nanos: 0 };
    let (state, action) = rbac_step(&req, state, RbacEvent::ClaimsReply(Some(c), later));
    assert!(matches!(state, RbacState::AwaitingToken { user_id: 8, user_access_level: 2 }));
    assert!(matches!(action, RbacAction::SendGetToken(ref g) if g.id == 3));
    let (_, action) = rbac_step(&req, state, RbacEvent::TokenReply(DbReply::QueryFailed));
    assert!(matches!(action, RbacAction::Reject(Rejection::Unauthorized)));
    let (_, state) = rbac_to_claims("tok");
    let too_late = Timestamp { secs: c.exp as i64 + 5 * 3600, nanos: 0 };
    let (_, action) = rbac_step(&req, state, RbacEvent::ClaimsReply(Some(c), too_late));
    assert!(matches!(action, RbacAction::Reject(Rejection::Unauthorized)));
}
