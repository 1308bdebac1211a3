//! The rate-limiting middleware: per client and URL, a budget of
//! `limit_count` counted accesses per window of `limit_per` (so at most
//! `limit_count + 1` accesses, counting the one that opens the window).
//!
//! Each request runs an exchange with the database: fetch the URL, fetch
//! the client's access record for it, then record the access (count it,
//! start a new window, or create the record) before the request is passed
//! on. [`rate_limit_step`] takes the state of that exchange and the
//! database's reply and says what to do next.
use vstd::prelude::*;
use crate::clock::{now, seconds_between, whole_seconds_between, Timestamp};
use crate::ips::{
    socket_addr_to_ip_network, CreateIp, GetIp, Ip, IpAddress, IpNet, NewAccess, ResetAccess,
};
use crate::reply::{DbReply, Rejection};
use crate::urls::{is_limit_code, window_seconds, GetUrl, Url, UrlLimit};

verus! {

/// What every reading of the system clock satisfies (see [`now`]): a
/// well-formed instant not before the epoch.
pub open spec fn is_clock_reading(t: Timestamp) -> bool {
    t.wf() && t.secs >= 0
}

/// A client that has made `access_count` accesses in the current window,
/// the last one `elapsed` seconds ago, is over the budget of a URL with
/// window code `limit_per` and budget `limit_count` unless that last access
/// lies within one window and the count is within the budget.
pub open spec fn over_budget(limit_per: int, limit_count: int, access_count: int, elapsed: int) -> bool {
    !(elapsed <= window_seconds(limit_per) && access_count <= limit_count)
}

/// An instant `elapsed` seconds ago lies within one window of code
/// `limit_per`.
pub open spec fn within_window(limit_per: int, elapsed: int) -> bool {
    elapsed <= window_seconds(limit_per)
}

/// Whether a client is over budget, given how long ago its last access was.
pub fn is_over_budget(limit_per: i32, limit_count: i32, access_count: i32, elapsed: i64) -> (r: bool)
    requires
        is_limit_code(limit_per as int),
    ensures
        r == over_budget(limit_per as int, limit_count as int, access_count as int, elapsed as int),
{
    let window: i64 = UrlLimit::from_i32(limit_per).in_seconds().seconds();
    !(elapsed <= window && access_count <= limit_count)
}

/// Whether an instant `elapsed` seconds ago lies within one window.
pub fn is_within_window(limit_per: i32, elapsed: i64) -> (r: bool)
    requires
        is_limit_code(limit_per as int),
    ensures
        r == within_window(limit_per as int, elapsed as int),
{
    let window: i64 = UrlLimit::from_i32(limit_per).in_seconds().seconds();
    elapsed <= window
}

/// Whether a client whose last access was at `last_access` is, now, over
/// the budget of the URL. The clock is read once; the result is the budget
/// check for the time elapsed up to that reading.
pub fn has_reqd_too_many(
    limit_per: i32,
    limit_count: i32,
    access_count: i32,
    last_access: Timestamp,
) -> (r: bool)
    requires
        is_limit_code(limit_per as int),
        last_access.wf(),
    ensures
        exists|t: Timestamp|
            is_clock_reading(t) && r == over_budget(
                limit_per as int,
                limit_count as int,
                access_count as int,
                #[trigger] whole_seconds_between(t, last_access),
            ),
{
    let t = now();
    let elapsed: i64 = seconds_between(t, last_access);
    let r = is_over_budget(limit_per, limit_count, access_count, elapsed);
    assert(is_clock_reading(t) && r == over_budget(
        limit_per as int,
        limit_count as int,
        access_count as int,
        whole_seconds_between(t, last_access),
    ));
    r
}

/// Whether, now, `first_access` lies within one window, so that a client
/// over budget must still wait. The clock is read once.
pub fn has_elapsed_enough_too_many_req(limit_per: i32, first_access: Timestamp) -> (r: bool)
    requires
        is_limit_code(limit_per as int),
        first_access.wf(),
    ensures
        exists|t: Timestamp|
            is_clock_reading(t) && r == within_window(
                limit_per as int,
                #[trigger] whole_seconds_between(t, first_access),
            ),
{
    let t = now();
    let elapsed: i64 = seconds_between(t, first_access);
    let r = is_within_window(limit_per, elapsed);
    assert(is_clock_reading(t) && r == within_window(
        limit_per as int,
        whole_seconds_between(t, first_access),
    ));
    r
}

/// What the middleware knows of the request it is limiting: the path, the
/// single-host network of the peer, and when the request arrived.
pub struct RateLimitRequest {
    pub path: String,
    pub peer: IpNet,
    pub arrival: Timestamp,
}

impl RateLimitRequest {
    /// The request for `path` from `peer_addr`, arriving now.
    pub fn new(path: String, peer_addr: IpAddress) -> (req: RateLimitRequest)
        ensures
            req.path == path,
            req.peer.addr == peer_addr,
            req.peer.is_single_host(),
            is_clock_reading(req.arrival),
    {
        let peer = socket_addr_to_ip_network(&peer_addr);
        let arrival = now();
        RateLimitRequest { path, peer, arrival }
    }
}

/// Where the exchange with the database stands.
#[derive(Debug, Clone)]
pub enum RateLimitState {
    /// The URL was asked for.
    AwaitingUrl,
    /// The client's access record for `url` was asked for.
    AwaitingIp { url: Url },
    /// The access is being recorded.
    AwaitingRecord,
    /// The request was passed on or refused.
    Finished,
}

/// A reply of the database to the last request of the exchange. The reply
/// to the record lookup comes with the clock reading taken on its arrival,
/// against which the record is judged.
#[derive(Debug, Clone)]
pub enum RateLimitEvent {
    UrlReply(DbReply<Url>),
    IpReply(DbReply<Ip>, Timestamp),
    RecordReply(DbReply<Ip>),
}

/// What the middleware does next.
pub enum RateLimitAction {
    SendGetUrl(GetUrl),
    SendGetIp(GetIp),
    SendCreateIp(CreateIp),
    SendNewAccess(NewAccess),
    SendResetAccess(ResetAccess),
    /// Pass the request on to the service.
    Forward,
    /// Refuse the request.
    Reject(Rejection),
}

/// Whether the state expects this reply, and the reply carries what the
/// next step reads: a well-formed record and clock reading, checked against
/// a URL whose window code is known.
pub open spec fn rate_limit_accepts(state: RateLimitState, event: RateLimitEvent) -> bool {
    match state {
        RateLimitState::AwaitingUrl => event is UrlReply,
        RateLimitState::AwaitingIp { url } => {
            &&& event is IpReply
            &&& event matches RateLimitEvent::IpReply(DbReply::Done(rec), now) ==> {
                rec.wf() && now.wf() && is_limit_code(url.limit_per as int)
            }
        },
        RateLimitState::AwaitingRecord => event is RecordReply,
        RateLimitState::Finished => false,
    }
}

/// What happens to a client with record `rec` asking for `url`, given the
/// seconds since its last access and since the start of its window, and
/// the instant `at` to record: within budget the access is counted; over
/// budget it is refused while the window lasts, else a new window starts.
pub open spec fn access_outcome(
    url: Url,
    rec: Ip,
    since_last: int,
    since_first: int,
    at: Timestamp,
) -> (RateLimitState, RateLimitAction) {
    if over_budget(url.limit_per as int, url.limit_count as int, rec.access_count as int, since_last) {
        if within_window(url.limit_per as int, since_first) {
            (RateLimitState::Finished, RateLimitAction::Reject(Rejection::TooManyRequests))
        } else {
            (
                RateLimitState::AwaitingRecord,
                RateLimitAction::SendResetAccess(ResetAccess { id: rec.id, access: at }),
            )
        }
    } else {
        (
            RateLimitState::AwaitingRecord,
            RateLimitAction::SendNewAccess(NewAccess { id: rec.id, access: at }),
        )
    }
}

/// The decision for a client with record `rec` asking for `url`: count the
/// access, start a new window at `at`, or refuse as too many.
pub fn access_decision(
    url: &Url,
    rec: &Ip,
    since_last: i64,
    since_first: i64,
    at: Timestamp,
) -> (res: (RateLimitState, RateLimitAction))
    requires
        is_limit_code(url.limit_per as int),
    ensures
        res == access_outcome(*url, *rec, since_last as int, since_first as int, at),
{
    if is_over_budget(url.limit_per, url.limit_count, rec.access_count, since_last) {
        if is_within_window(url.limit_per, since_first) {
            (RateLimitState::Finished, RateLimitAction::Reject(Rejection::TooManyRequests))
        } else {
            (
                RateLimitState::AwaitingRecord,
                RateLimitAction::SendResetAccess(ResetAccess { id: rec.id, access: at }),
            )
        }
    } else {
        (
            RateLimitState::AwaitingRecord,
            RateLimitAction::SendNewAccess(NewAccess { id: rec.id, access: at }),
        )
    }
}

/// The decision for record `rec` of `url`, judged at clock reading `now`.
pub open spec fn judged_at(url: Url, rec: Ip, now: Timestamp) -> (RateLimitState, RateLimitAction) {
    access_outcome(
        url,
        rec,
        whole_seconds_between(now, rec.last_access),
        whole_seconds_between(now, rec.first_access),
        now,
    )
}

/// The next state and action after `event` in `state`.
pub open spec fn rate_limit_next(
    req: RateLimitRequest,
    state: RateLimitState,
    event: RateLimitEvent,
    next: RateLimitState,
    action: RateLimitAction,
) -> bool {
    match state {
        RateLimitState::AwaitingUrl => match event {
            RateLimitEvent::UrlReply(DbReply::Done(url)) => {
                &&& next == (RateLimitState::AwaitingIp { url })
                &&& action == RateLimitAction::SendGetIp(GetIp { ip: req.peer, url_path: req.path })
            },
            RateLimitEvent::UrlReply(DbReply::QueryFailed) => {
                next == RateLimitState::Finished && action == RateLimitAction::Reject(Rejection::NotFound)
            },
            RateLimitEvent::UrlReply(DbReply::MailboxFailed) => {
                next == RateLimitState::Finished && action == RateLimitAction::Reject(Rejection::InternalError)
            },
            _ => false,
        },
        RateLimitState::AwaitingIp { url } => match event {
            RateLimitEvent::IpReply(DbReply::Done(rec), now) => (next, action) == judged_at(url, rec, now),
            RateLimitEvent::IpReply(DbReply::QueryFailed, _) => {
                &&& next == RateLimitState::AwaitingRecord
                &&& action == RateLimitAction::SendCreateIp(
                    CreateIp { ip: req.peer, access: req.arrival, url_path: req.path },
                )
            },
            RateLimitEvent::IpReply(DbReply::MailboxFailed, _) => {
                next == RateLimitState::Finished && action == RateLimitAction::Reject(Rejection::InternalError)
            },
            _ => false,
        },
        RateLimitState::AwaitingRecord => match event {
            RateLimitEvent::RecordReply(DbReply::Done(_)) => {
                next == RateLimitState::Finished && action == RateLimitAction::Forward
            },
            RateLimitEvent::RecordReply(_) => {
                next == RateLimitState::Finished && action == RateLimitAction::Reject(Rejection::InternalError)
            },
            _ => false,
        },
        RateLimitState::Finished => false,
    }
}

/// The first step of the exchange: ask for the URL of the request's path.
pub fn rate_limit_begin(req: &RateLimitRequest) -> (res: (RateLimitState, RateLimitAction))
    ensures
        res.0 == RateLimitState::AwaitingUrl,
        res.1 == RateLimitAction::SendGetUrl(GetUrl { url_path: req.path }),
{
    (RateLimitState::AwaitingUrl, RateLimitAction::SendGetUrl(GetUrl { url_path: req.path.clone() }))
}

/// One step of the exchange: from `state` and the database's reply,
/// the next state and what to do.
pub fn rate_limit_step(
    req: &RateLimitRequest,
    state: RateLimitState,
    event: RateLimitEvent,
) -> (res: (RateLimitState, RateLimitAction))
    requires
        rate_limit_accepts(state, event),
    ensures
        rate_limit_next(*req, state, event, res.0, res.1),
{
    match state {
        RateLimitState::AwaitingUrl => match event {
            RateLimitEvent::UrlReply(DbReply::Done(url)) => {
                let get_ip = GetIp { ip: req.peer, url_path: req.path.clone() };
                (RateLimitState::AwaitingIp { url }, RateLimitAction::SendGetIp(get_ip))
            },
            RateLimitEvent::UrlReply(DbReply::QueryFailed) => {
                (RateLimitState::Finished, RateLimitAction::Reject(Rejection::NotFound))
            },
            _ => (RateLimitState::Finished, RateLimitAction::Reject(Rejection::InternalError)),
        },
        RateLimitState::AwaitingIp { url } => match event {
            RateLimitEvent::IpReply(DbReply::Done(rec), now) => {
                let since_last: i64 = seconds_between(now, rec.last_access);
                let since_first: i64 = seconds_between(now, rec.first_access);
                access_decision(&url, &rec, since_last, since_first, now)
            },
            RateLimitEvent::IpReply(DbReply::QueryFailed, _) => {
                let create_ip = CreateIp { ip: req.peer, access: req.arrival, url_path: req.path.clone() };
                (RateLimitState::AwaitingRecord, RateLimitAction::SendCreateIp(create_ip))
            },
            _ => (RateLimitState::Finished, RateLimitAction::Reject(Rejection::InternalError)),
        },
        RateLimitState::AwaitingRecord => match event {
            RateLimitEvent::RecordReply(DbReply::Done(_)) => {
                (RateLimitState::Finished, RateLimitAction::Forward)
            },
            _ => (RateLimitState::Finished, RateLimitAction::Reject(Rejection::InternalError)),
        },
        RateLimitState::Finished => (RateLimitState::Finished, RateLimitAction::Reject(Rejection::InternalError)),
    }
}

/// Position of a state in the exchange; every step moves strictly forward.
pub open spec fn rate_limit_rank(state: RateLimitState) -> int {
    match state {
        RateLimitState::AwaitingUrl => 0,
        RateLimitState::AwaitingIp { .. } => 1,
        RateLimitState::AwaitingRecord => 2,
        RateLimitState::Finished => 3,
    }
}

/// Every step moves the exchange forward, so a request takes at most three
/// replies of the database; once finished, no reply is expected.
pub proof fn lemma_rate_limit_progress(
    req: RateLimitRequest,
    state: RateLimitState,
    event: RateLimitEvent,
    next: RateLimitState,
    action: RateLimitAction,
)
    requires
        rate_limit_next(req, state, event, next, action),
    ensures
        rate_limit_rank(state) < rate_limit_rank(next) <= 3,
        !rate_limit_accepts(RateLimitState::Finished, event),
{
}

/// A request is passed on only once its access has been recorded: forward
/// happens only on a successful reply to the recording request. A refusal
/// ends the exchange, and a successful recording always passes the request
/// on.
pub proof fn lemma_forward_only_after_recording(
    req: RateLimitRequest,
    state: RateLimitState,
    event: RateLimitEvent,
    next: RateLimitState,
    action: RateLimitAction,
)
    requires
        rate_limit_next(req, state, event, next, action),
    ensures
        action is Forward ==> state is AwaitingRecord && event matches RateLimitEvent::RecordReply(
            DbReply::Done(_),
        ),
        action is Reject ==> next is Finished,
        (state is AwaitingRecord && event matches RateLimitEvent::RecordReply(DbReply::Done(_)))
            ==> action is Forward,
{
}

/// For a found record judged at clock reading `now`: the request is refused
/// as too many exactly when the client is over the URL's budget and the
/// start of its window is within one window of `now`; over budget with the
/// window passed, a new window starts at `now`; within budget, the access
/// is counted at `now`, on the client's own record.
pub proof fn lemma_budget_decisions(
    req: RateLimitRequest,
    url: Url,
    rec: Ip,
    now: Timestamp,
    next: RateLimitState,
    action: RateLimitAction,
)
    requires
        rate_limit_next(
            req,
            RateLimitState::AwaitingIp { url },
            RateLimitEvent::IpReply(DbReply::Done(rec), now),
            next,
            action,
        ),
    ensures
        ({
            let over = over_budget(
                url.limit_per as int,
                url.limit_count as int,
                rec.access_count as int,
                whole_seconds_between(now, rec.last_access),
            );
            let in_window = within_window(url.limit_per as int, whole_seconds_between(now, rec.first_access));
            &&& action == RateLimitAction::Reject(Rejection::TooManyRequests) <==> over && in_window
            &&& action == RateLimitAction::SendResetAccess(ResetAccess { id: rec.id, access: now }) <==> over
                && !in_window
            &&& action == RateLimitAction::SendNewAccess(NewAccess { id: rec.id, access: now }) <==> !over
        }),
{
}

/// Over budget stays over budget as more accesses are counted and more time
/// passes; within a window stays so for instants closer to now.
pub proof fn lemma_over_budget_monotone(
    limit_per: int,
    limit_count: int,
    count: int,
    more_count: int,
    elapsed: int,
    more_elapsed: int,
)
    requires
        count <= more_count,
        elapsed <= more_elapsed,
    ensures
        over_budget(limit_per, limit_count, count, elapsed) ==> over_budget(
            limit_per,
            limit_count,
            more_count,
            more_elapsed,
        ),
        within_window(limit_per, more_elapsed) ==> within_window(limit_per, elapsed),
{
}

/// The recording request the limiter sends for `req` to `url` judged at
/// clock reading `now`: from the found record `stored`, the decision; with
/// no record found, a new record at the request's arrival.
pub open spec fn limiter_action(req: RateLimitRequest, url: Url, stored: Option<Ip>, now: Timestamp) -> RateLimitAction {
    match stored {
        Some(rec) => judged_at(url, rec, now).1,
        None => RateLimitAction::SendCreateIp(
            CreateIp { ip: req.peer, access: req.arrival, url_path: req.path },
        ),
    }
}

/// The record lookup's reply for a stored record, or its failure for none.
pub open spec fn lookup_reply(stored: Option<Ip>) -> DbReply<Ip> {
    match stored {
        Some(rec) => DbReply::Done(rec),
        None => DbReply::QueryFailed,
    }
}

/// The step's answer to the record lookup is [`limiter_action`].
pub proof fn lemma_step_sends_limiter_action(
    req: RateLimitRequest,
    url: Url,
    stored: Option<Ip>,
    now: Timestamp,
    next: RateLimitState,
    action: RateLimitAction,
)
    requires
        rate_limit_next(
            req,
            RateLimitState::AwaitingIp { url },
            RateLimitEvent::IpReply(lookup_reply(stored), now),
            next,
            action,
        ),
    ensures
        action == limiter_action(req, url, stored, now),
{
}

/// The record the database keeps after the recording request `action`, as
/// its handlers define it: a new record holds one access at its instant;
/// counting an access adds one and moves the last access; a new window
/// holds one access at its instant. `stored` is the record before, and
/// `template` gives the columns of a new record that the request does not
/// set (its id).
pub open spec fn record_after(stored: Option<Ip>, action: RateLimitAction, template: Ip) -> Option<Ip> {
    match action {
        RateLimitAction::SendCreateIp(c) => Some(
            Ip {
                ip: c.ip,
                url_path: c.url_path,
                first_access: c.access,
                last_access: c.access,
                access_count: 1,
                ..template
            },
        ),
        RateLimitAction::SendNewAccess(a) => match stored {
            Some(r) => Some(Ip { last_access: a.access, access_count: (r.access_count + 1) as i32, ..r }),
            None => None,
        },
        RateLimitAction::SendResetAccess(a) => match stored {
            Some(r) => Some(Ip { first_access: a.access, last_access: a.access, access_count: 1, ..r }),
            None => None,
        },
        _ => stored,
    }
}

/// A request from `template`'s peer to `template`'s path arriving at `t`.
pub open spec fn request_at(template: Ip, t: Timestamp) -> RateLimitRequest {
    RateLimitRequest { path: template.url_path, peer: template.ip, arrival: t }
}

/// Serving requests from one peer to one URL at the clock readings
/// `times`, in order, each judged at its own arrival, with every database
/// request succeeding: for each request whether it was passed on, and the
/// record kept at the end.
pub open spec fn serve_all(url: Url, template: Ip, times: Seq<Timestamp>) -> (Seq<bool>, Option<Ip>)
    decreases times.len(),
{
    if times.len() == 0 {
        (Seq::empty(), None)
    } else {
        let (passed, stored) = serve_all(url, template, times.drop_last());
        let t = times.last();
        let action = limiter_action(request_at(template, t), url, stored, t);
        if action is Reject {
            (passed.push(false), stored)
        } else {
            (passed.push(true), record_after(stored, action, template))
        }
    }
}

/// The accesses a record holds after `k` requests within one window: one
/// per request passed on, that is at most `limit_count + 1`.
pub open spec fn budget_count(k: int, url: Url) -> int {
    if k <= url.limit_count + 1 {
        k
    } else {
        url.limit_count + 1
    }
}

/// Within one window of its first request, a client gets exactly
/// `limit_count + 1` requests through: for requests from one peer to one
/// URL, in time order and all within one window of the first, request `i`
/// (counting from zero) is passed on exactly when `i <= limit_count`, and
/// the record then holds `min(k, limit_count + 1)` accesses for `k`
/// requests, its window starting at the first.
pub proof fn lemma_window_budget(url: Url, template: Ip, times: Seq<Timestamp>)
    requires
        is_limit_code(url.limit_per as int),
        0 <= url.limit_count < i32::MAX,
        forall|i: int| 0 <= i < times.len() ==> (#[trigger] times[i]).wf(),
        forall|i: int, j: int|
            0 <= i <= j < times.len() ==> (#[trigger] times[i]).total_nanos() <= (#[trigger] times[j]).total_nanos(),
        forall|i: int|
            0 <= i < times.len() ==> whole_seconds_between(#[trigger] times[i], times[0]) <= window_seconds(
                url.limit_per as int,
            ),
    ensures
        serve_all(url, template, times).0.len() == times.len(),
        forall|i: int|
            0 <= i < times.len() ==> (#[trigger] serve_all(url, template, times).0[i] <==> i <= url.limit_count),
        times.len() > 0 ==> {
            &&& serve_all(url, template, times).1 is Some
            &&& serve_all(url, template, times).1->Some_0.first_access == times[0]
            &&& serve_all(url, template, times).1->Some_0.access_count == budget_count(times.len() as int, url)
        },
    decreases times.len(),
{
    if times.len() > 0 {
        let prefix = times.drop_last();
        assert forall|i: int| 0 <= i < prefix.len() implies (#[trigger] prefix[i]).wf() by {
            assert(prefix[i] == times[i]);
        }
        assert forall|i: int, j: int| 0 <= i <= j < prefix.len() implies (#[trigger] prefix[i]).total_nanos()
            <= (#[trigger] prefix[j]).total_nanos() by {
            assert(prefix[i] == times[i] && prefix[j] == times[j]);
        }
        assert forall|i: int| 0 <= i < prefix.len() implies whole_seconds_between(
            #[trigger] prefix[i],
            prefix[0],
        ) <= window_seconds(url.limit_per as int) by {
            assert(prefix[i] == times[i] && prefix[0] == times[0]);
        }
        lemma_window_budget(url, template, prefix);
        lemma_record_window(url, template, times);
        let passed = serve_all(url, template, times).0;
        let last = times.len() - 1;
        assert forall|i: int| 0 <= i < times.len() implies (#[trigger] passed[i] <==> i <= url.limit_count) by {
            if i < last {
                assert(passed[i] == serve_all(url, template, prefix).0[i]);
            }
        }
    }
}

/// The record while serving [`serve_all`] within one window: its window
/// starts at the first request, its last access lies between the first and
/// the latest request, and it counts the requests passed on.
proof fn lemma_record_window(url: Url, template: Ip, times: Seq<Timestamp>)
    requires
        is_limit_code(url.limit_per as int),
        0 <= url.limit_count < i32::MAX,
        forall|i: int| 0 <= i < times.len() ==> (#[trigger] times[i]).wf(),
        forall|i: int, j: int|
            0 <= i <= j < times.len() ==> (#[trigger] times[i]).total_nanos() <= (#[trigger] times[j]).total_nanos(),
        forall|i: int|
            0 <= i < times.len() ==> whole_seconds_between(#[trigger] times[i], times[0]) <= window_seconds(
                url.limit_per as int,
            ),
    ensures
        serve_all(url, template, times).0.len() == times.len(),
        times.len() > 0 ==> {
            let rec = serve_all(url, template, times).1->Some_0;
            &&& serve_all(url, template, times).1 is Some
            &&& rec.first_access == times[0]
            &&& rec.last_access.wf()
            &&& times[0].total_nanos() <= rec.last_access.total_nanos() <= times.last().total_nanos()
            &&& rec.access_count == budget_count(times.len() as int, url)
            &&& (serve_all(url, template, times).0.last() <==> times.len() - 1 <= url.limit_count)
        },
    decreases times.len(),
{
    if times.len() > 1 {
        let prefix = times.drop_last();
        assert forall|i: int| 0 <= i < prefix.len() implies (#[trigger] prefix[i]).wf() by {
            assert(prefix[i] == times[i]);
        }
        assert forall|i: int, j: int| 0 <= i <= j < prefix.len() implies (#[trigger] prefix[i]).total_nanos()
            <= (#[trigger] prefix[j]).total_nanos() by {
            assert(prefix[i] == times[i] && prefix[j] == times[j]);
        }
        assert forall|i: int| 0 <= i < prefix.len() implies whole_seconds_between(
            #[trigger] prefix[i],
            prefix[0],
        ) <= window_seconds(url.limit_per as int) by {
            assert(prefix[i] == times[i] && prefix[0] == times[0]);
        }
        lemma_record_window(url, template, prefix);
        let rec = serve_all(url, template, prefix).1->Some_0;
        let t = times.last();
        let first = times[0];
        assert(prefix[0] == first);
        assert(prefix.last() == times[times.len() - 2]);
        assert(first.total_nanos() <= rec.last_access.total_nanos() <= t.total_nanos());
        let w = window_seconds(url.limit_per as int);
        assert(whole_seconds_between(times[times.len() - 1], times[0]) <= w);
        let d_first: int = t.total_nanos() - first.total_nanos();
        let d_last: int = t.total_nanos() - rec.last_access.total_nanos();
        assert(0 <= d_last <= d_first);
        vstd::arithmetic::div_mod::lemma_div_is_ordered(d_last, d_first, 1_000_000_000int);
        assert(whole_seconds_between(t, rec.last_access) <= whole_seconds_between(t, first));
        assert(whole_seconds_between(t, first) <= w);
        let action = limiter_action(request_at(template, t), url, Some(rec), t);
        assert(action == judged_at(url, rec, t).1);
        if rec.access_count <= url.limit_count {
            assert(action == RateLimitAction::SendNewAccess(NewAccess { id: rec.id, access: t }));
        } else {
            assert(action == RateLimitAction::Reject(Rejection::TooManyRequests));
        }
    } else if times.len() == 1 {
        assert(times.drop_last().len() == 0);
        assert(serve_all(url, template, times.drop_last()) == (Seq::<bool>::empty(), None::<Ip>));
    }
}

/// The window check compares the time since the window opened with the
/// window length of the URL's code, and nothing else: an instant is within
/// the window exactly when it lies at most 1 s, 60 s, 3600 s, 75600 s,
/// 2268000 s or 27216000 s ago, for codes 0 to 5; in particular one second
/// past its window length no instant is within it.
pub proof fn lemma_window_check_by_code(code: int, elapsed: int)
    ensures
        within_window(0, elapsed) <==> elapsed <= 1,
        within_window(1, elapsed) <==> elapsed <= 60,
        within_window(2, elapsed) <==> elapsed <= 3600,
        within_window(3, elapsed) <==> elapsed <= 75600,
        within_window(4, elapsed) <==> elapsed <= 2268000,
        within_window(5, elapsed) <==> elapsed <= 27216000,
        is_limit_code(code) ==> (within_window(code, elapsed) <==> elapsed <= UrlLimit::spec_from_code(
            code,
        ).spec_in_seconds().spec_seconds()),
        is_limit_code(code) ==> !within_window(code, window_seconds(code) + 1),
{
}

/// A client is over budget exactly when its last access lies more than the
/// window length of the URL's code ago (1 s, 60 s, 3600 s, 75600 s,
/// 2268000 s or 27216000 s for codes 0 to 5), or it has made more accesses
/// than the budget; so a client whose last access lies one second past the
/// window length is over budget whatever its count.
pub proof fn lemma_budget_check_by_code(code: int, limit_count: int, access_count: int, elapsed: int)
    ensures
        over_budget(0, limit_count, access_count, elapsed) <==> (elapsed > 1 || access_count > limit_count),
        over_budget(1, limit_count, access_count, elapsed) <==> (elapsed > 60 || access_count > limit_count),
        over_budget(2, limit_count, access_count, elapsed) <==> (elapsed > 3600 || access_count > limit_count),
        over_budget(3, limit_count, access_count, elapsed) <==> (elapsed > 75600 || access_count > limit_count),
        over_budget(4, limit_count, access_count, elapsed) <==> (elapsed > 2268000 || access_count
            > limit_count),
        over_budget(5, limit_count, access_count, elapsed) <==> (elapsed > 27216000 || access_count
            > limit_count),
        is_limit_code(code) ==> over_budget(code, limit_count, access_count, window_seconds(code) + 1),
        access_count > limit_count ==> over_budget(code, limit_count, access_count, elapsed),
{
}

/// A client whose window opened more than one window length before the
/// reading is never refused as too many: within budget its access is
/// counted, over budget a new window starts at the reading.
pub proof fn lemma_expired_window_never_refused(
    req: RateLimitRequest,
    url: Url,
    rec: Ip,
    now: Timestamp,
    next: RateLimitState,
    action: RateLimitAction,
)
    requires
        is_limit_code(url.limit_per as int),
        whole_seconds_between(now, rec.first_access) > window_seconds(url.limit_per as int),
        rate_limit_next(
            req,
            RateLimitState::AwaitingIp { url },
            RateLimitEvent::IpReply(DbReply::Done(rec), now),
            next,
            action,
        ),
    ensures
        action == RateLimitAction::SendNewAccess(NewAccess { id: rec.id, access: now })
            || action == RateLimitAction::SendResetAccess(ResetAccess { id: rec.id, access: now }),
        next == RateLimitState::AwaitingRecord,
{
}

} // verus!
