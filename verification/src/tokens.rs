//! Login tokens: their database rows and the claims they carry.
use vstd::prelude::*;
use crate::clock::{
    checked_add_hours, now, seconds_between, whole_seconds_between, Timestamp, MAX_TIMESTAMP,
    MIN_TIMESTAMP,
};
use crate::rate_limit::is_clock_reading;
use crate::reply::DbReply;

verus! {

/// A token issued to a user (one row of the `tokens` table).
#[derive(Copy, Clone, Debug, PartialEq, Eq)]
pub struct Token {
    pub id: i32,
    pub user_id: i32,
}

/// A token row as inserted into the `tokens` table.
#[derive(Copy, Clone, Debug, PartialEq, Eq)]
pub struct NewToken {
    pub user_id: i32,
}

/// A token as exchanged with clients.
#[derive(Copy, Clone, Debug, PartialEq, Eq)]
pub struct TokenData {
    pub user_id: i32,
}

/// Request to issue a token to `user_id`.
#[derive(Copy, Clone, Debug, PartialEq, Eq)]
pub struct CreateToken {
    pub user_id: i32,
}

/// Request to revoke token `id`.
#[derive(Copy, Clone, Debug, PartialEq, Eq)]
pub struct DeleteToken {
    pub id: i32,
}

/// Request for token `id`.
#[derive(Copy, Clone, Debug, PartialEq, Eq)]
pub struct GetToken {
    pub id: i32,
}

impl CreateToken {
    /// The row stored for the request.
    pub fn into_new_token(self) -> (row: NewToken)
        ensures
            row.user_id == self.user_id,
    {
        NewToken { user_id: self.user_id }
    }
}

/// Hours from issue to the expiry written into a token.
pub const TOKEN_LIFETIME_HOURS: i64 = 5;

/// Seconds after its expiry from which a token is refused.
pub const TOKEN_MAX_AGE_SECS: i64 = 5 * 60 * 60;

/// What a signed login token carries: the token row, the user, the user's
/// access level, and the expiry in seconds since the Unix epoch.
#[derive(Copy, Clone, Debug, PartialEq, Eq)]
pub struct Claims {
    pub token_id: i32,
    pub user_id: i32,
    pub user_access_level: i32,
    pub exp: usize,
}

/// Why no claims could be made for a new token.
#[derive(Copy, Clone, Debug, PartialEq, Eq)]
pub enum GenTokenError {
    /// The token row was not stored.
    NotCreated,
    /// The expiry lies beyond the last instant the clock represents.
    ExpiryOutOfRange,
}

/// The claims of a token issued at clock reading `issued`: the expiry is
/// the whole second `TOKEN_LIFETIME_HOURS` hours later.
pub open spec fn claims_issued_at(token_id: i32, user_id: i32, user_access_level: i32, issued: Timestamp) -> Claims {
    Claims {
        token_id,
        user_id,
        user_access_level,
        exp: ((issued.secs + 3600 * TOKEN_LIFETIME_HOURS) as i64) as usize,
    }
}

/// What issuing claims at clock reading `issued` gives: the claims expiring
/// `TOKEN_LIFETIME_HOURS` hours later, or an error when that instant is out
/// of the clock's range.
pub open spec fn claims_issued(token_id: i32, user_id: i32, user_access_level: i32, issued: Timestamp) -> Result<Claims, GenTokenError> {
    if issued.secs + 3600 * TOKEN_LIFETIME_HOURS <= MAX_TIMESTAMP {
        Ok(claims_issued_at(token_id, user_id, user_access_level, issued))
    } else {
        Err(GenTokenError::ExpiryOutOfRange)
    }
}

/// The claims to sign for a user once the token row has been stored
/// (`created`): the token's id, the user, the level, and an expiry five
/// hours after a reading of the clock. Fails when the row was not stored,
/// or when that expiry is out of the clock's range.
pub fn gen_token_claims(created: DbReply<Token>, user_id: i32, user_access_level: i32) -> (r: Result<Claims, GenTokenError>)
    ensures
        !(created is Done) ==> r == Err::<Claims, GenTokenError>(GenTokenError::NotCreated),
        created matches DbReply::Done(token) ==> exists|issued: Timestamp|
            is_clock_reading(issued) && r == #[trigger] claims_issued(token.id, user_id, user_access_level, issued),
{
    match created {
        DbReply::Done(token) => {
            let issued = now();
            let expiry = checked_add_hours(issued, TOKEN_LIFETIME_HOURS);
            let r = claims_with_expiry(token, user_id, user_access_level, expiry);
            assert(r == claims_issued(token.id, user_id, user_access_level, issued));
            r
        },
        _ => Err(GenTokenError::NotCreated),
    }
}

/// The claims of `token` for the user, expiring at the whole second of
/// `expiry`; `None` stands for an expiry beyond the clock's range.
pub fn claims_with_expiry(token: Token, user_id: i32, user_access_level: i32, expiry: Option<Timestamp>) -> (r: Result<Claims, GenTokenError>)
    ensures
        r == match expiry {
            Some(t) => Ok::<Claims, GenTokenError>(
                Claims { token_id: token.id, user_id, user_access_level, exp: t.secs as usize },
            ),
            None => Err::<Claims, GenTokenError>(GenTokenError::ExpiryOutOfRange),
        },
{
    match expiry {
        Some(t) => Ok(Claims {
            token_id: token.id,
            user_id,
            user_access_level,
            exp: #[verifier::truncate] (t.secs as usize),
        }),
        None => Err(GenTokenError::ExpiryOutOfRange),
    }
}

/// The expiry of `claims` as an instant, when the clock represents it.
pub open spec fn expiry_in_range(claims: Claims) -> bool {
    MIN_TIMESTAMP <= (claims.exp as i64) <= MAX_TIMESTAMP
}

/// The instant of the expiry of `claims`.
pub open spec fn expiry_of(claims: Claims) -> Timestamp {
    Timestamp { secs: claims.exp as i64, nanos: 0 }
}

/// A token whose expiry lies `elapsed` seconds in the past is too old.
pub open spec fn token_too_old(elapsed: int) -> bool {
    elapsed >= TOKEN_MAX_AGE_SECS
}

/// Whether a token whose expiry lies `elapsed` seconds in the past is too
/// old.
pub fn is_token_too_old(elapsed: i64) -> (r: bool)
    ensures
        r == token_too_old(elapsed as int),
{
    elapsed >= TOKEN_MAX_AGE_SECS
}

/// Whether the token with `claims` is, now, too old: its expiry lies
/// `TOKEN_MAX_AGE_SECS` seconds or more in the past. The clock is read once.
pub fn token_expired(claims: &Claims) -> (r: bool)
    requires
        expiry_in_range(*claims),
    ensures
        exists|t: Timestamp|
            is_clock_reading(t) && r == token_too_old(#[trigger] whole_seconds_between(t, expiry_of(*claims))),
{
    let t = now();
    let exp = Timestamp { secs: claims.exp as i64, nanos: 0 };
    let elapsed: i64 = seconds_between(t, exp);
    let r = is_token_too_old(elapsed);
    assert(is_clock_reading(t) && r == token_too_old(whole_seconds_between(t, expiry_of(*claims))));
    r
}

/// A token is not too old at the moment it is issued: its expiry lies five
/// hours ahead, so the time since the expiry is negative. (Where the
/// expiry exceeds what `usize` holds, it does not survive the conversion to
/// `usize`; such instants are left out.)
pub proof fn lemma_fresh_token_not_too_old(token_id: i32, user_id: i32, user_access_level: i32, issued: Timestamp)
    requires
        is_clock_reading(issued),
        issued.secs + 3600 * TOKEN_LIFETIME_HOURS <= usize::MAX,
        claims_issued(token_id, user_id, user_access_level, issued) is Ok,
    ensures
        ({
            let c = claims_issued(token_id, user_id, user_access_level, issued)->Ok_0;
            &&& expiry_in_range(c)
            &&& !token_too_old(whole_seconds_between(issued, expiry_of(c)))
        }),
{
    let c = claims_issued_at(token_id, user_id, user_access_level, issued);
    let e: int = issued.secs + 3600 * TOKEN_LIFETIME_HOURS;
    assert(c.exp == e);
    assert((c.exp as i64) == e);
    let d: int = issued.total_nanos() - expiry_of(c).total_nanos();
    assert(d == issued.nanos - 18000 * 1_000_000_000);
    assert(d < 0);
    assert((-d) / 1_000_000_000int >= 17999);
}

/// A token is too old exactly from five hours (18000 s) past its expiry
/// on, and stays too old as time passes.
pub proof fn lemma_token_age_threshold(elapsed: int, later: int)
    ensures
        token_too_old(elapsed) <==> elapsed >= 5 * 60 * 60,
        token_too_old(elapsed) && elapsed <= later ==> token_too_old(later),
        token_too_old(18000),
        !token_too_old(17999),
{
}

} // verus!
