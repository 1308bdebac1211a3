use rate_limited_api::bootstrap::{add_urls_step, bootstrap_urls, AddUrlsAction, SEED_COUNT};
use rate_limited_api::clock::{
    checked_add_hours, now, seconds_between, Timestamp, MAX_TIMESTAMP, MIN_TIMESTAMP,
};
use rate_limited_api::ips::{
    single_host_prefix, socket_addr_to_ip_network, CreateIp, IpAddress, IpNet,
};
use rate_limited_api::reply::Rejection;
use rate_limited_api::tokens::CreateToken;
use rate_limited_api::urls::{CreateOrUpdateUrl, UrlLimit, UrlLimitInSec};

#[test]
fn from_i32_decodes_every_code() {
    let expected = [
        UrlLimit::Second,
        UrlLimit::Minute,
        UrlLimit::Hour,
        UrlLimit::Day,
        UrlLimit::Month,
        UrlLimit::Year,
    ];
    for (code, limit) in expected.iter().enumerate() {
        assert_eq!(UrlLimit::from_i32(code as i32), *limit);
    }
}

#[test]
fn window_lengths_in_seconds() {
    assert_eq!(UrlLimit::Second.in_seconds(), UrlLimitInSec::Second);
    assert_eq!(UrlLimit::Year.in_seconds(), UrlLimitInSec::Year);
    let secs: Vec<i64> = (0..6).map(|c| UrlLimit::from_i32(c).in_seconds().seconds()).collect();
    assert_eq!(secs, vec![1, 60, 3600, 75600, 2268000, 27216000]);
    for w in secs.windows(2) {
        assert!(w[0] < w[1]);
    }
}

#[test]
fn rejection_status_and_text() {
    assert_eq!(Rejection::NotFound.status(), 404);
    assert_eq!(Rejection::TooManyRequests.status(), 429);
    assert_eq!(Rejection::InternalError.status(), 500);
    assert_eq!(Rejection::Unauthorized.status(), 401);
    assert_eq!(Rejection::NotFound.message(), "This resource does not exist");
    assert_eq!(Rejection::TooManyRequests.message(), "Slow down buddy :))");
    assert_eq!(Rejection::InternalError.message(), "Something went wrong");
    assert_eq!(Rejection::Unauthorized.message(), "You don't have access to this resource");
}

#[test]
fn timestamp_range_matches_chrono() {
    assert!(chrono::DateTime::from_timestamp(MAX_TIMESTAMP, 999_999_999).is_some());
    assert!(chrono::DateTime::from_timestamp(MAX_TIMESTAMP + 1, 0).is_none());
    assert!(chrono::DateTime::from_timestamp(MIN_TIMESTAMP, 0).is_some());
    assert!(chrono::DateTime::from_timestamp(MIN_TIMESTAMP - 1, 999_999_999).is_none());
    assert!(Timestamp::new(MAX_TIMESTAMP, 999_999_999).is_some());
    assert!(Timestamp::new(MAX_TIMESTAMP + 1, 0).is_none());
    assert!(Timestamp::new(MIN_TIMESTAMP, 0).is_some());
    assert!(Timestamp::new(MIN_TIMESTAMP - 1, 0).is_none());
    assert!(Timestamp::new(0, 1_000_000_000).is_none());
    assert_eq!(Timestamp::from_secs(7), Some(Timestamp { secs: 7, nanos: 0 }));
}

#[test]
fn seconds_between_truncates_toward_zero() {
    let a = Timestamp { secs: 10, nanos: 0 };
    let b = Timestamp { secs: 5, nanos: 500_000_000 };
    assert_eq!(seconds_between(a, b), 4);
    assert_eq!(seconds_between(b, a), -4);
    let c = Timestamp { secs: 5, nanos: 0 };
    let d = Timestamp { secs: 10, nanos: 500_000_000 };
    assert_eq!(seconds_between(c, d), -5);
    assert_eq!(seconds_between(d, c), 5);
    assert_eq!(seconds_between(a, a), 0);
}

#[test]
fn checked_add_hours_moves_whole_seconds() {
    let t = Timestamp { secs: 100, nanos: 42 };
    assert_eq!(checked_add_hours(t, 5), Some(Timestamp { secs: 100 + 5 * 3600, nanos: 42 }));
    let last = Timestamp { secs: MAX_TIMESTAMP - 3600, nanos: 0 };
    assert_eq!(checked_add_hours(last, 1), Some(Timestamp { secs: MAX_TIMESTAMP, nanos: 0 }));
    assert_eq!(checked_add_hours(last, 2), None);
}

#[test]
fn clock_reading_is_recent() {
    let t = now();
    let reference = chrono::Utc::now().timestamp();
    assert!(t.secs >= 0);
    assert!((reference - t.secs).abs() <= 5);
    assert!(t.nanos < 1_000_000_000);
}

#[test]
fn single_host_prefixes() {
    assert_eq!(single_host_prefix(&IpAddress::V4([127, 0, 0, 1])), 32);
    assert_eq!(single_host_prefix(&IpAddress::V6([0; 16])), 128);
    let net = socket_addr_to_ip_network(&IpAddress::V4([10, 1, 2, 3]));
    assert_eq!(net, IpNet { addr: IpAddress::V4([10, 1, 2, 3]), prefix: 32 });
}

#[test]
fn first_access_row_counts_one() {
    let at = Timestamp { secs: 1_700_000_000, nanos: 5 };
    let net = IpNet { addr: IpAddress::V4([1, 2, 3, 4]), prefix: 32 };
    let row = CreateIp { ip: net, access: at, url_path: "/api/auth/login".to_string() }.into_new_ip();
    assert_eq!(row.access_count, 1);
    assert_eq!(row.first_access, at);
    assert_eq!(row.last_access, at);
    assert_eq!(row.url_path, "/api/auth/login");
    assert_eq!(row.ip, net);
    assert_eq!(CreateToken { user_id: 9 }.into_new_token().user_id, 9);
}

#[test]
fn url_row_from_upsert_request() {
    let req = CreateOrUpdateUrl {
        url_path: "/x".to_string(),
        access_level: 3,
        limit_per: 2,
        limit_count: 7,
    };
    let row = req.to_new_url();
    assert_eq!(row.url_path, "/x");
    assert_eq!((row.access_level, row.limit_per, row.limit_count), (3, 2, 7));
}

#[test]
fn start_up_urls() {
    let urls = bootstrap_urls();
    let got: Vec<(String, i32, i32, i32)> = urls
        .iter()
        .map(|u| (u.url_path.clone(), u.access_level, u.limit_per, u.limit_count))
        .collect();
    assert_eq!(
        got,
        vec![
            ("/api/service/test".to_string(), 1, 1, 10),
            ("/api/service/test_root".to_string(), 2, 1, 10),
            ("/api/auth/test".to_string(), 0, 1, 5),
            ("/api/auth/login".to_string(), 0, 1, 5),
            ("/api/auth/signup".to_string(), 0, 1, 5),
        ]
    );
}

#[test]
fn start_up_registration_runs_in_order() {
    let mut action = add_urls_step(0, true);
    let mut registered = Vec::new();
    while let AddUrlsAction::Register(i) = action {
        registered.push(i);
        action = add_urls_step(i + 1, true);
    }
    assert_eq!(registered, vec![0, 1, 2, 3, 4]);
    assert_eq!(action, AddUrlsAction::Done);
    assert_eq!(registered.len(), SEED_COUNT);
}

#[test]
fn start_up_registration_stops_at_first_failure() {
    assert_eq!(add_urls_step(0, true), AddUrlsAction::Register(0));
    assert_eq!(add_urls_step(3, false), AddUrlsAction::Failed);
    assert_eq!(add_urls_step(5, false), AddUrlsAction::Failed);
    assert_eq!(add_urls_step(5, true), AddUrlsAction::Done);
}
