//! The role-based access middleware: a request for a protected URL needs a
//! valid bearer token whose user has at least the URL's access level.
//!
//! Each request runs an exchange: take the bearer token from the request,
//! decode and check its signature, check its age, check that the token row
//! still exists, fetch the URL, and compare access levels.
//! [`rbac_step`] takes the state of that exchange and the outcome of the
//! last piece of outside work and says what to do next.
use vstd::prelude::*;
use crate::clock::{seconds_between, whole_seconds_between, Timestamp};
use crate::rate_limit::is_clock_reading;
use crate::reply::{DbReply, Rejection};
use crate::tokens::{
    claims_issued, expiry_in_range, expiry_of, is_token_too_old, token_too_old, Claims, GetToken,
    Token, TOKEN_LIFETIME_HOURS,
};
use crate::urls::{GetUrl, Url};

verus! {

/// Whether `c` has the Unicode `White_Space` property.
pub open spec fn spec_is_whitespace(c: char) -> bool {
    let u: u32 = c as u32;
    ||| 0x09 <= u <= 0x0D
    ||| u == 0x20
    ||| u == 0x85
    ||| u == 0xA0
    ||| u == 0x1680
    ||| 0x2000 <= u <= 0x200A
    ||| u == 0x2028
    ||| u == 0x2029
    ||| u == 0x202F
    ||| u == 0x205F
    ||| u == 0x3000
}

/// Whether `c` has the Unicode `White_Space` property.
pub fn is_whitespace(c: char) -> (r: bool)
    ensures
        r == spec_is_whitespace(c),
{
    let u: u32 = c as u32;
    (0x09 <= u && u <= 0x0D) || u == 0x20 || u == 0x85 || u == 0xA0 || u == 0x1680 || (0x2000
        <= u && u <= 0x200A) || u == 0x2028 || u == 0x2029 || u == 0x202F || u == 0x205F || u
        == 0x3000
}

/// The characters of `s` that are not white space, in order.
pub open spec fn without_whitespace(s: Seq<char>) -> Seq<char>
    decreases s.len(),
{
    if s.len() == 0 {
        s
    } else {
        let rest = without_whitespace(s.drop_last());
        if spec_is_whitespace(s.last()) {
            rest
        } else {
            rest.push(s.last())
        }
    }
}

/// Appends `c` to `s`.
///
/// Calls `String::push`, which appends the character to the end of the
/// string.
#[verifier::external_body]
fn push_char(s: &mut String, c: char)
    ensures
        final(s)@ == old(s)@.push(c),
{
    s.push(c);
}

/// The token with every white-space character removed.
pub fn strip_whitespace(token: &str) -> (out: String)
    ensures
        out@ == without_whitespace(token@),
{
    broadcast use vstd::string::axiom_spec_iter;
    let mut out = String::new();
    for c in it: token.chars()
        invariant
            it.seq() == token@,
            out@ == without_whitespace(token@.take(it.index() as int)),
    {
        assert(token@.take(it.index() + 1).drop_last() == token@.take(it.index() as int));
        if !is_whitespace(c) {
            push_char(&mut out, c);
        }
    }
    assert(token@.take(token@.len() as int) == token@);
    out
}

/// What the middleware knows of the request it guards: the path asked for.
pub struct RbacRequest {
    pub path: String,
}

/// Where the exchange stands.
#[derive(Debug, Clone)]
pub enum RbacState {
    /// The bearer token is being taken from the request.
    AwaitingBearer,
    /// The token is being decoded and its signature checked.
    AwaitingClaims,
    /// The token row is being looked up; the token names a user with
    /// `user_access_level`.
    AwaitingToken { user_id: i32, user_access_level: i32 },
    /// The URL is being looked up.
    AwaitingUrl { user_id: i32, user_access_level: i32 },
    /// The request was passed on or refused.
    Finished,
}

/// The outcome of the last piece of outside work.
#[derive(Debug, Clone)]
pub enum RbacEvent {
    /// The bearer token of the request, if it has one.
    BearerReply(Option<String>),
    /// The claims of the token, if it decodes and its signature holds, and
    /// the clock reading against which the token's age is judged.
    ClaimsReply(Option<Claims>, Timestamp),
    TokenReply(DbReply<Token>),
    UrlReply(DbReply<Url>),
}

/// What the middleware does next.
pub enum RbacAction {
    /// Take the bearer token from the request.
    ExtractBearer,
    /// Decode this token and check its signature.
    Decode(String),
    SendGetToken(GetToken),
    SendGetUrl(GetUrl),
    /// Pass the request on to the service.
    Forward,
    /// Refuse the request.
    Reject(Rejection),
}

/// Whether the state expects this outcome, and decoded claims carry an
/// expiry that the clock represents and come with a well-formed reading.
pub open spec fn rbac_accepts(state: RbacState, event: RbacEvent) -> bool {
    match state {
        RbacState::AwaitingBearer => event is BearerReply,
        RbacState::AwaitingClaims => {
            &&& event is ClaimsReply
            &&& event matches RbacEvent::ClaimsReply(Some(c), now) ==> expiry_in_range(c) && now.wf()
        },
        RbacState::AwaitingToken { .. } => event is TokenReply,
        RbacState::AwaitingUrl { .. } => event is UrlReply,
        RbacState::Finished => false,
    }
}

/// The refusal every failure of the exchange ends in.
pub open spec fn rbac_refused(next: RbacState, action: RbacAction) -> bool {
    next == RbacState::Finished && action == RbacAction::Reject(Rejection::Unauthorized)
}

/// The next state and action after `event` in `state`.
pub open spec fn rbac_next(
    req: RbacRequest,
    state: RbacState,
    event: RbacEvent,
    next: RbacState,
    action: RbacAction,
) -> bool {
    match state {
        RbacState::AwaitingBearer => match event {
            RbacEvent::BearerReply(Some(token)) => {
                &&& next == RbacState::AwaitingClaims
                &&& action matches RbacAction::Decode(stripped)
                &&& stripped@ == without_whitespace(token@)
            },
            RbacEvent::BearerReply(None) => rbac_refused(next, action),
            _ => false,
        },
        RbacState::AwaitingClaims => match event {
            RbacEvent::ClaimsReply(Some(c), now) => if token_too_old(whole_seconds_between(now, expiry_of(c))) {
                rbac_refused(next, action)
            } else {
                &&& next == (RbacState::AwaitingToken {
                    user_id: c.user_id,
                    user_access_level: c.user_access_level,
                })
                &&& action == RbacAction::SendGetToken(GetToken { id: c.token_id })
            },
            RbacEvent::ClaimsReply(None, _) => rbac_refused(next, action),
            _ => false,
        },
        RbacState::AwaitingToken { user_id, user_access_level } => match event {
            RbacEvent::TokenReply(DbReply::Done(_)) => {
                &&& next == (RbacState::AwaitingUrl { user_id, user_access_level })
                &&& action == RbacAction::SendGetUrl(GetUrl { url_path: req.path })
            },
            RbacEvent::TokenReply(_) => rbac_refused(next, action),
            _ => false,
        },
        RbacState::AwaitingUrl { user_id, user_access_level } => match event {
            RbacEvent::UrlReply(DbReply::Done(url)) => if user_access_level < url.access_level {
                rbac_refused(next, action)
            } else {
                next == RbacState::Finished && action == RbacAction::Forward
            },
            RbacEvent::UrlReply(_) => rbac_refused(next, action),
            _ => false,
        },
        RbacState::Finished => false,
    }
}

/// The first step of the exchange: take the bearer token from the request.
pub fn rbac_begin() -> (res: (RbacState, RbacAction))
    ensures
        res.0 == RbacState::AwaitingBearer,
        res.1 == RbacAction::ExtractBearer,
{
    (RbacState::AwaitingBearer, RbacAction::ExtractBearer)
}

/// One step of the exchange: from `state` and the outcome of the last
/// piece of outside work, the next state and what to do.
pub fn rbac_step(req: &RbacRequest, state: RbacState, event: RbacEvent) -> (res: (RbacState, RbacAction))
    requires
        rbac_accepts(state, event),
    ensures
        rbac_next(*req, state, event, res.0, res.1),
{
    let refused = (RbacState::Finished, RbacAction::Reject(Rejection::Unauthorized));
    match state {
        RbacState::AwaitingBearer => match event {
            RbacEvent::BearerReply(Some(token)) => {
                let stripped = strip_whitespace(token.as_str());
                (RbacState::AwaitingClaims, RbacAction::Decode(stripped))
            },
            _ => refused,
        },
        RbacState::AwaitingClaims => match event {
            RbacEvent::ClaimsReply(Some(c), now) => {
                let expiry = Timestamp { secs: c.exp as i64, nanos: 0 };
                let age: i64 = seconds_between(now, expiry);
                if is_token_too_old(age) {
                    refused
                } else {
                    (
                        RbacState::AwaitingToken {
                            user_id: c.user_id,
                            user_access_level: c.user_access_level,
                        },
                        RbacAction::SendGetToken(GetToken { id: c.token_id }),
                    )
                }
            },
            _ => refused,
        },
        RbacState::AwaitingToken { user_id, user_access_level } => match event {
            RbacEvent::TokenReply(DbReply::Done(_)) => (
                RbacState::AwaitingUrl { user_id, user_access_level },
                RbacAction::SendGetUrl(GetUrl { url_path: req.path.clone() }),
            ),
            _ => refused,
        },
        RbacState::AwaitingUrl { user_id, user_access_level } => match event {
            RbacEvent::UrlReply(DbReply::Done(url)) => {
                if user_access_level < url.access_level {
                    refused
                } else {
                    (RbacState::Finished, RbacAction::Forward)
                }
            },
            _ => refused,
        },
        RbacState::Finished => refused,
    }
}

/// Position of a state in the exchange.
pub open spec fn rbac_rank(state: RbacState) -> int {
    match state {
        RbacState::AwaitingBearer => 0,
        RbacState::AwaitingClaims => 1,
        RbacState::AwaitingToken { .. } => 2,
        RbacState::AwaitingUrl { .. } => 3,
        RbacState::Finished => 4,
    }
}

/// Every step moves the exchange forward, and every refusal is the same
/// answer, "unauthorized", ending the exchange: a client is never told why
/// its request was refused.
pub proof fn lemma_rbac_progress_and_refusal(
    req: RbacRequest,
    state: RbacState,
    event: RbacEvent,
    next: RbacState,
    action: RbacAction,
)
    requires
        rbac_next(req, state, event, next, action),
    ensures
        rbac_rank(state) < rbac_rank(next) <= 4,
        action is Reject ==> rbac_refused(next, action),
        action is Forward ==> next is Finished,
        !rbac_accepts(RbacState::Finished, event),
{
}

/// A request gets through only with a token that decodes, is not too old
/// at the reading `now`, and still exists, and whose user's access level is
/// at least the URL's: along any run of the exchange from decoded claims
/// `c` to a forward, the token row was found, the URL was found, and
/// `c.user_access_level >= url.access_level`.
pub proof fn lemma_rbac_forward_needs_access_level(
    req: RbacRequest,
    c: Claims,
    now: Timestamp,
    s1: RbacState,
    a1: RbacAction,
    token_reply: DbReply<Token>,
    s2: RbacState,
    a2: RbacAction,
    url_reply: DbReply<Url>,
    s3: RbacState,
    a3: RbacAction,
)
    requires
        rbac_next(req, RbacState::AwaitingClaims, RbacEvent::ClaimsReply(Some(c), now), s1, a1),
        rbac_next(req, s1, RbacEvent::TokenReply(token_reply), s2, a2),
        rbac_next(req, s2, RbacEvent::UrlReply(url_reply), s3, a3),
        a3 is Forward,
    ensures
        !token_too_old(whole_seconds_between(now, expiry_of(c))),
        a1 == RbacAction::SendGetToken(GetToken { id: c.token_id }),
        token_reply is Done,
        a2 == RbacAction::SendGetUrl(GetUrl { url_path: req.path }),
        url_reply matches DbReply::Done(url) && c.user_access_level >= url.access_level,
{
}

/// A token whose row is gone is refused, however valid its signature and
/// age: once the lookup of the token row fails, the request is refused.
pub proof fn lemma_rbac_revoked_token_refused(
    req: RbacRequest,
    user_id: i32,
    user_access_level: i32,
    token_reply: DbReply<Token>,
    next: RbacState,
    action: RbacAction,
)
    requires
        rbac_next(
            req,
            RbacState::AwaitingToken { user_id, user_access_level },
            RbacEvent::TokenReply(token_reply),
            next,
            action,
        ),
        !(token_reply is Done),
    ensures
        rbac_refused(next, action),
{
}

/// The claims issued at clock reading `issued` for token `token_id` are
/// accepted by the age check at any reading `now` less than twice the
/// token lifetime after `issued` (their expiry lies one lifetime ahead, and
/// a token is refused one lifetime past its expiry): the token row is then
/// looked up, and once found, the URL, on behalf of the claimed user and
/// level.
pub proof fn lemma_rbac_accepts_issued_claims(
    req: RbacRequest,
    token_id: i32,
    user_id: i32,
    user_access_level: i32,
    issued: Timestamp,
    now: Timestamp,
    s1: RbacState,
    a1: RbacAction,
    token: Token,
    s2: RbacState,
    a2: RbacAction,
)
    requires
        is_clock_reading(issued),
        now.wf(),
        issued.secs + 3600 * TOKEN_LIFETIME_HOURS <= usize::MAX,
        claims_issued(token_id, user_id, user_access_level, issued) is Ok,
        now.secs < issued.secs + 2 * 3600 * TOKEN_LIFETIME_HOURS,
        rbac_next(
            req,
            RbacState::AwaitingClaims,
            RbacEvent::ClaimsReply(Some(claims_issued(token_id, user_id, user_access_level, issued)->Ok_0), now),
            s1,
            a1,
        ),
        rbac_next(req, s1, RbacEvent::TokenReply(DbReply::Done(token)), s2, a2),
    ensures
        s1 == (RbacState::AwaitingToken { user_id, user_access_level }),
        a1 == RbacAction::SendGetToken(GetToken { id: token_id }),
        s2 == (RbacState::AwaitingUrl { user_id, user_access_level }),
        a2 == RbacAction::SendGetUrl(GetUrl { url_path: req.path }),
{
    let c = claims_issued(token_id, user_id, user_access_level, issued)->Ok_0;
    let e: int = issued.secs + 3600 * TOKEN_LIFETIME_HOURS;
    assert(c.exp == e);
    assert((c.exp as i64) == e);
    let d: int = now.total_nanos() - expiry_of(c).total_nanos();
    assert(d < 18000 * 1_000_000_000int);
    if d >= 0 {
        assert(d / 1_000_000_000int < 18000);
    }
    assert(!token_too_old(whole_seconds_between(now, expiry_of(c))));
}

/// The age check of the exchange: claims whose expiry lies five hours
/// (18000 s) or more before the reading are refused, however long ago;
/// claims whose expiry lies less than that before the reading go on to the
/// lookup of their token row.
pub proof fn lemma_rbac_age_check(req: RbacRequest, c: Claims, now: Timestamp, next: RbacState, action: RbacAction)
    requires
        rbac_next(req, RbacState::AwaitingClaims, RbacEvent::ClaimsReply(Some(c), now), next, action),
    ensures
        whole_seconds_between(now, expiry_of(c)) >= 5 * 60 * 60 ==> rbac_refused(next, action),
        whole_seconds_between(now, expiry_of(c)) < 5 * 60 * 60 ==> action == RbacAction::SendGetToken(
            GetToken { id: c.token_id },
        ),
{
}

} // verus!
