//! The URLs registered when the service starts, and the order in which
//! they are registered.
use vstd::prelude::*;
use crate::urls::{is_limit_code, CreateOrUpdateUrl};

verus! {

/// Number of URLs registered at start-up.
pub const SEED_COUNT: usize = 5;

/// The `i`-th URL registered at start-up: path, access level, window code
/// and budget.
pub open spec fn seed(i: int) -> (Seq<char>, i32, i32, i32) {
    if i == 0 {
        ("/api/service/test"@, 1, 1, 10)
    } else if i == 1 {
        ("/api/service/test_root"@, 2, 1, 10)
    } else if i == 2 {
        ("/api/auth/test"@, 0, 1, 5)
    } else if i == 3 {
        ("/api/auth/login"@, 0, 1, 5)
    } else {
        ("/api/auth/signup"@, 0, 1, 5)
    }
}

/// The request registering `url` matches `s` (path, level, window, budget).
pub open spec fn registers(url: CreateOrUpdateUrl, s: (Seq<char>, i32, i32, i32)) -> bool {
    &&& url.url_path@ == s.0
    &&& url.access_level == s.1
    &&& url.limit_per == s.2
    &&& url.limit_count == s.3
}

/// The requests registering the start-up URLs, in order. Every one of them
/// has a valid window code.
pub fn bootstrap_urls() -> (urls: Vec<CreateOrUpdateUrl>)
    ensures
        urls.len() == SEED_COUNT,
        forall|i: int| 0 <= i < SEED_COUNT ==> registers(#[trigger] urls[i], seed(i)),
        forall|i: int| 0 <= i < SEED_COUNT ==> is_limit_code(#[trigger] urls[i].limit_per as int),
{
    let mut urls: Vec<CreateOrUpdateUrl> = Vec::new();
    urls.push(CreateOrUpdateUrl {
        url_path: "/api/service/test".to_string(),
        access_level: 1,
        limit_per: 1,
        limit_count: 10,
    });
    urls.push(CreateOrUpdateUrl {
        url_path: "/api/service/test_root".to_string(),
        access_level: 2,
        limit_per: 1,
        limit_count: 10,
    });
    urls.push(CreateOrUpdateUrl {
        url_path: "/api/auth/test".to_string(),
        access_level: 0,
        limit_per: 1,
        limit_count: 5,
    });
    urls.push(CreateOrUpdateUrl {
        url_path: "/api/auth/login".to_string(),
        access_level: 0,
        limit_per: 1,
        limit_count: 5,
    });
    urls.push(CreateOrUpdateUrl {
        url_path: "/api/auth/signup".to_string(),
        access_level: 0,
        limit_per: 1,
        limit_count: 5,
    });
    urls
}

/// What the start-up registration does next.
#[derive(Copy, Clone, Debug, PartialEq, Eq)]
pub enum AddUrlsAction {
    /// Register the start-up URL with this index.
    Register(usize),
    /// Every start-up URL was registered.
    Done,
    /// A registration failed; the rest are not attempted.
    Failed,
}

/// The next action once `registered` URLs have been registered, the last
/// attempt having succeeded or not (`true` before the first).
pub open spec fn add_urls_next(registered: int, last_succeeded: bool) -> AddUrlsAction {
    if !last_succeeded {
        AddUrlsAction::Failed
    } else if registered < SEED_COUNT {
        AddUrlsAction::Register(registered as usize)
    } else {
        AddUrlsAction::Done
    }
}

/// One step of the start-up registration: URLs are registered one by one,
/// in order; the first failure ends it.
pub fn add_urls_step(registered: usize, last_succeeded: bool) -> (action: AddUrlsAction)
    requires
        registered <= SEED_COUNT,
    ensures
        action == add_urls_next(registered as int, last_succeeded),
{
    if !last_succeeded {
        AddUrlsAction::Failed
    } else if registered < SEED_COUNT {
        AddUrlsAction::Register(registered)
    } else {
        AddUrlsAction::Done
    }
}

/// The action after running the registration on `replies`, the outcome of
/// each attempt in turn, starting from nothing registered.
pub open spec fn add_urls_after(replies: Seq<bool>) -> AddUrlsAction
    decreases replies.len(),
{
    if replies.len() == 0 {
        add_urls_next(0, true)
    } else {
        match add_urls_after(replies.drop_last()) {
            AddUrlsAction::Register(i) => add_urls_next(i + 1, replies.last()),
            other => other,
        }
    }
}

/// The registration registers the URLs in order, one attempt each, and
/// ends in `Done` exactly when all of them succeeded; otherwise it stops at
/// the first failure.
pub proof fn lemma_add_urls_all_or_first_failure(replies: Seq<bool>)
    requires
        replies.len() <= SEED_COUNT,
    ensures
        (forall|i: int| 0 <= i < replies.len() ==> #[trigger] replies[i]) ==> add_urls_after(replies) == (
        if replies.len() < SEED_COUNT {
            AddUrlsAction::Register(replies.len() as usize)
        } else {
            AddUrlsAction::Done
        }),
        (exists|i: int| 0 <= i < replies.len() && !#[trigger] replies[i]) ==> add_urls_after(replies)
            == AddUrlsAction::Failed,
    decreases replies.len(),
{
    if replies.len() > 0 {
        let prefix = replies.drop_last();
        lemma_add_urls_all_or_first_failure(prefix);
        if !(forall|i: int| 0 <= i < prefix.len() ==> #[trigger] prefix[i]) {
            let j = choose|j: int| 0 <= j < prefix.len() && !#[trigger] prefix[j];
            assert(!replies[j]);
        }
        if exists|i: int| 0 <= i < replies.len() && !#[trigger] replies[i] {
            let k = choose|k: int| 0 <= k < replies.len() && !#[trigger] replies[k];
            if k < prefix.len() {
                assert(!prefix[k]);
            }
        }
        if forall|i: int| 0 <= i < replies.len() ==> #[trigger] replies[i] {
            assert forall|i: int| 0 <= i < prefix.len() implies #[trigger] prefix[i] by {
                assert(replies[i]);
            }
            assert(replies[replies.len() - 1]);
        }
    }
}

/// The `urls` table as a map from path to (access level, window code,
/// budget) after the upsert `url`, as its handler defines it: the row of
/// that path is inserted or replaced, every other row is kept.
pub open spec fn upserted(
    table: Map<Seq<char>, (i32, i32, i32)>,
    url: CreateOrUpdateUrl,
) -> Map<Seq<char>, (i32, i32, i32)> {
    table.insert(url.url_path@, (url.access_level, url.limit_per, url.limit_count))
}

/// The table after the upserts `urls`, in order.
pub open spec fn upserted_all(
    table: Map<Seq<char>, (i32, i32, i32)>,
    urls: Seq<CreateOrUpdateUrl>,
) -> Map<Seq<char>, (i32, i32, i32)>
    decreases urls.len(),
{
    if urls.len() == 0 {
        table
    } else {
        upserted(upserted_all(table, urls.drop_last()), urls.last())
    }
}

/// The upserts overwrite the table with the rows they write, whatever the
/// table held.
proof fn lemma_upserted_all_overrides(table: Map<Seq<char>, (i32, i32, i32)>, urls: Seq<CreateOrUpdateUrl>)
    ensures
        upserted_all(table, urls) == table.union_prefer_right(upserted_all(Map::empty(), urls)),
    decreases urls.len(),
{
    if urls.len() == 0 {
        assert(table.union_prefer_right(Map::empty()) =~= table);
    } else {
        lemma_upserted_all_overrides(table, urls.drop_last());
        lemma_upserted_all_overrides(Map::empty(), urls.drop_last());
        assert(Map::<Seq<char>, (i32, i32, i32)>::empty().union_prefer_right(upserted_all(Map::empty(), urls.drop_last()))
            =~= upserted_all(Map::empty(), urls.drop_last()));
        assert(upserted_all(table, urls) =~= table.union_prefer_right(upserted_all(Map::empty(), urls)));
    }
}

/// Registering the same URLs again changes nothing: after the upserts
/// `urls` (such as the start-up URLs), running them once more leaves the
/// `urls` table as it was.
pub proof fn lemma_registration_idempotent(table: Map<Seq<char>, (i32, i32, i32)>, urls: Seq<CreateOrUpdateUrl>)
    ensures
        upserted_all(upserted_all(table, urls), urls) == upserted_all(table, urls),
{
    let rows = upserted_all(Map::empty(), urls);
    lemma_upserted_all_overrides(table, urls);
    lemma_upserted_all_overrides(upserted_all(table, urls), urls);
    assert(table.union_prefer_right(rows).union_prefer_right(rows) =~= table.union_prefer_right(rows));
}

} // verus!
