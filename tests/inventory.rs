use sophos_dashboard::auth::{token_form, token_outcome, AuthError, BearerToken, TOKEN_URL};
use sophos_dashboard::cache::{
    clear_cache, is_cache_valid, is_fresh, load_cached_data, make_snapshot, select_cached,
    snapshot_now, CacheSnapshot, ClearOutcome, Removal,
};
use sophos_dashboard::credentials::{load_credentials, CredentialError, SecretsFile};
use sophos_dashboard::fetch::{
    begin_fetch, contains_id, merge_page, FetchError, FetchStart, NextKey, Pagination,
};
use sophos_dashboard::http::is_success;
use sophos_dashboard::model::{Credentials, Endpoint};
use sophos_dashboard::paths::{get_cache_path, get_secrets_path};

fn records(ids: &[&str]) -> Vec<Endpoint> {
    ids.iter().map(|id| Endpoint::with_id(id.to_string())).collect()
}

fn ids_of(records: &[Endpoint]) -> Vec<String> {
    records.iter().map(|e| e.id.clone()).collect()
}

fn credentials(tenant: &str, region: &str) -> Credentials {
    Credentials {
        client_id: "client-a".to_string(),
        client_secret: "SECRET-REDACTED".to_string(),
        tenant_id: tenant.to_string(),
        region: region.to_string(),
    }
}

fn snapshot(ids: &[&str], timestamp: u64, tenant: &str) -> CacheSnapshot {
    CacheSnapshot { endpoints: records(ids), timestamp, tenant_id: tenant.to_string() }
}

fn clock_now() -> u64 {
    std::time::SystemTime::now()
        .duration_since(std::time::UNIX_EPOCH)
        .unwrap()
        .as_secs()
}

#[test]
fn freshness_boundary_is_one_whole_hour() {
    let now: u64 = 1_700_000_000;
    assert!(is_fresh(now - 3599, now));
    assert!(!is_fresh(now - 3600, now));
    assert!(!is_fresh(now - 7200, now));
    assert!(is_fresh(now, now));
    assert!(is_fresh(now + 10, now));
    assert!(is_fresh(0, 3599));
    assert!(!is_fresh(0, u64::MAX));
}

#[test]
fn cache_hit_needs_matching_tenant_and_freshness() {
    let now: u64 = 1_700_000_000;
    let tenant = "tenant-a".to_string();
    let hit = select_cached(Some(snapshot(&["1", "2"], now - 3599, "tenant-a")), &tenant, now);
    assert_eq!(ids_of(&hit.unwrap()), vec!["1", "2"]);
    assert!(select_cached(Some(snapshot(&["1"], now - 3600, "tenant-a")), &tenant, now).is_none());
    assert!(select_cached(None, &tenant, now).is_none());
}

#[test]
fn cache_of_other_tenant_is_never_returned() {
    let now: u64 = 1_700_000_000;
    let tenant_b = "tenant-b".to_string();
    assert!(select_cached(Some(snapshot(&["1"], now, "tenant-a")), &tenant_b, now).is_none());
    assert!(select_cached(Some(snapshot(&["1"], now - 10, "tenant-a")), &tenant_b, now).is_none());
    let fresh_now = clock_now();
    assert!(load_cached_data(Some(snapshot(&["1"], fresh_now, "tenant-a")), &tenant_b).is_none());
}

#[test]
fn load_cached_data_reads_the_clock() {
    let tenant = "tenant-a".to_string();
    let fresh_now = clock_now();
    let hit = load_cached_data(Some(snapshot(&["7", "8"], fresh_now, "tenant-a")), &tenant);
    assert_eq!(ids_of(&hit.unwrap()), vec!["7", "8"]);
    assert!(load_cached_data(Some(snapshot(&["7"], fresh_now - 3600 * 5, "tenant-a")), &tenant)
        .is_none());
    assert!(load_cached_data(None, &tenant).is_none());
    assert!(is_cache_valid(fresh_now));
    assert!(!is_cache_valid(0));
}

#[test]
fn snapshots_carry_records_tenant_and_time() {
    let tenant = "tenant-a".to_string();
    let s = make_snapshot(records(&["1", "2"]), &tenant, 42);
    assert_eq!(s.timestamp, 42);
    assert_eq!(s.tenant_id, "tenant-a");
    assert_eq!(ids_of(&s.endpoints), vec!["1", "2"]);
    let before = clock_now();
    let s = snapshot_now(records(&["3"]), &tenant).unwrap();
    assert!(s.timestamp >= before);
    assert_eq!(s.tenant_id, "tenant-a");
    assert_eq!(ids_of(&s.endpoints), vec!["3"]);
}

#[test]
fn clearing_an_absent_cache_succeeds() {
    let r = clear_cache(Removal::NotFound);
    assert_eq!(r, Ok(ClearOutcome::NothingToClear));
    assert_eq!(r.unwrap().message(), "No cache file to clear");
    let r = clear_cache(Removal::Removed);
    assert_eq!(r, Ok(ClearOutcome::Cleared));
    assert_eq!(r.unwrap().message(), "Cache cleared successfully");
    assert_eq!(clear_cache(Removal::Failed("denied".to_string())), Err("denied".to_string()));
}

#[test]
fn two_overlapping_pages_give_four_records() {
    let region = "eu02".to_string();
    let mut walk = Pagination::new(&region);
    let first = walk.next_request().unwrap();
    assert_eq!(first.page, 1);
    assert_eq!(
        first.url,
        "https://api-eu02.central.sophos.com/endpoint/v1/endpoints?pageSize=100"
    );
    walk.accept_page(records(&["1", "2", "3"]), NextKey::Text("k1".to_string()));
    assert!(!walk.is_finished());
    let second = walk.next_request().unwrap();
    assert_eq!(second.page, 2);
    assert_eq!(
        second.url,
        "https://api-eu02.central.sophos.com/endpoint/v1/endpoints?pageSize=100&pageFromKey=k1"
    );
    walk.accept_page(records(&["3", "4"]), NextKey::Missing);
    assert!(walk.is_finished());
    assert!(walk.next_request().is_none());
    assert_eq!(walk.pages_fetched(), 2);
    let all = walk.into_endpoints();
    assert_eq!(all.len(), 4);
    assert_eq!(ids_of(&all), vec!["1", "2", "3", "4"]);
}

#[test]
fn pagination_stops_on_empty_page() {
    let mut walk = Pagination::new(&"us01".to_string());
    walk.accept_page(records(&["a"]), NextKey::Text("k1".to_string()));
    walk.accept_page(Vec::new(), NextKey::Text("k2".to_string()));
    assert!(walk.is_finished());
    assert_eq!(walk.pages_fetched(), 2);
    assert_eq!(ids_of(walk.endpoints()), vec!["a"]);
}

#[test]
fn pagination_stops_on_non_text_next_key() {
    let mut walk = Pagination::new(&"us01".to_string());
    walk.accept_page(records(&["a", "b"]), NextKey::NotText);
    assert!(walk.is_finished());
    assert_eq!(ids_of(walk.endpoints()), vec!["a", "b"]);
}

#[test]
fn repeats_within_one_page_are_dropped() {
    let mut acc = records(&["x"]);
    let added = merge_page(&mut acc, records(&["y", "x", "y", "z"]));
    assert_eq!(added, 2);
    assert_eq!(ids_of(&acc), vec!["x", "y", "z"]);
    let added = merge_page(&mut acc, records(&["z", "y"]));
    assert_eq!(added, 0);
    assert_eq!(ids_of(&acc), vec!["x", "y", "z"]);
    assert!(contains_id(&acc, &"y".to_string()));
    assert!(!contains_id(&acc, &"w".to_string()));
}

#[test]
fn merged_records_keep_their_fields() {
    let mut first = Endpoint::with_id("1".to_string());
    first.hostname = Some("host-one".to_string());
    first.os = Some(serde_json::Value::String("linux".to_string()));
    first.online = Some(true);
    let mut repeat = Endpoint::with_id("1".to_string());
    repeat.hostname = Some("other".to_string());
    let mut acc = Vec::new();
    merge_page(&mut acc, vec![first, repeat]);
    assert_eq!(acc.len(), 1);
    assert_eq!(acc[0].hostname.as_deref(), Some("host-one"));
    assert_eq!(acc[0].os, Some(serde_json::Value::String("linux".to_string())));
    assert_eq!(acc[0].online, Some(true));
}

#[test]
fn page_errors_carry_the_page_number() {
    let mut walk = Pagination::new(&"us01".to_string());
    walk.accept_page(records(&["a"]), NextKey::Text("k".to_string()));
    match walk.check_response(500, Ok("boom".to_string())) {
        Err(FetchError::Status { page, status, body }) => {
            assert_eq!((page, status, body.as_str()), (2, 500, "boom"));
        }
        other => panic!("unexpected {:?}", other),
    }
    match walk.check_response(404, Err("unreadable".to_string())) {
        Err(FetchError::Status { page, status, body }) => {
            assert_eq!((page, status, body.as_str()), (2, 404, ""));
        }
        other => panic!("unexpected {:?}", other),
    }
    match walk.check_response(200, Err("cut".to_string())) {
        Err(FetchError::Read { page, detail }) => assert_eq!((page, detail.as_str()), (2, "cut")),
        other => panic!("unexpected {:?}", other),
    }
    assert_eq!(walk.check_response(204, Ok("{}".to_string())).unwrap(), "{}");
    match walk.request_failed("timeout".to_string()) {
        FetchError::Request { page, detail } => assert_eq!((page, detail.as_str()), (2, "timeout")),
        other => panic!("unexpected {:?}", other),
    }
    match walk.parse_failed("bad json".to_string()) {
        FetchError::Parse { page, detail } => assert_eq!((page, detail.as_str()), (2, "bad json")),
        other => panic!("unexpected {:?}", other),
    }
}

#[test]
fn fetch_starts_from_cache_only_for_same_tenant() {
    let creds = credentials("tenant-a", "us03");
    let now = clock_now();
    match begin_fetch(Some(snapshot(&["1", "2"], now, "tenant-a")), &creds) {
        FetchStart::Cached(found) => assert_eq!(ids_of(&found), vec!["1", "2"]),
        FetchStart::Paginate(_) => panic!("expected a cache hit"),
    }
    match begin_fetch(Some(snapshot(&["1"], now, "tenant-b")), &creds) {
        FetchStart::Paginate(walk) => {
            let req = walk.next_request().unwrap();
            assert_eq!(req.page, 1);
            assert_eq!(
                req.url,
                "https://api-us03.central.sophos.com/endpoint/v1/endpoints?pageSize=100"
            );
        }
        FetchStart::Cached(_) => panic!("expected a miss"),
    }
    assert!(matches!(begin_fetch(None, &creds), FetchStart::Paginate(_)));
}

#[test]
fn status_success_class() {
    assert!(is_success(200));
    assert!(is_success(299));
    assert!(!is_success(199));
    assert!(!is_success(300));
    assert!(!is_success(401));
}

#[test]
fn token_request_form_fields() {
    let creds = credentials("tenant-a", "us01");
    let form = token_form(&creds);
    let expected: Vec<(String, String)> = vec![
        ("grant_type".to_string(), "client_credentials".to_string()),
        ("client_id".to_string(), "client-a".to_string()),
        ("client_secret".to_string(), "SECRET-REDACTED".to_string()),
        ("scope".to_string(), "token".to_string()),
    ];
    assert_eq!(form, expected);
    assert_eq!(TOKEN_URL, "https://id.sophos.com/api/v2/oauth2/token");
}

#[test]
fn token_outcomes() {
    let token = || BearerToken {
        access_token: "abc".to_string(),
        token_type: "bearer".to_string(),
        expires_in: 3600,
    };
    assert_eq!(token_outcome(200, Ok(token())).unwrap(), "abc");
    assert!(matches!(token_outcome(401, Ok(token())), Err(AuthError::Status(401))));
    assert!(matches!(token_outcome(500, Err("x".to_string())), Err(AuthError::Status(500))));
    match token_outcome(200, Err("missing field".to_string())) {
        Err(AuthError::Parse(d)) => assert_eq!(d, "missing field"),
        other => panic!("unexpected {:?}", other),
    }
}

#[test]
fn credentials_absence_is_not_malformation() {
    assert!(matches!(load_credentials(SecretsFile::Missing), Err(CredentialError::Absent)));
    match load_credentials(SecretsFile::Malformed("line 1".to_string())) {
        Err(CredentialError::Malformed(e)) => assert_eq!(e, "line 1"),
        other => panic!("unexpected {:?}", other),
    }
    match load_credentials(SecretsFile::Unreadable("denied".to_string())) {
        Err(CredentialError::Unreadable(e)) => assert_eq!(e, "denied"),
        other => panic!("unexpected {:?}", other),
    }
    let c = load_credentials(SecretsFile::Parsed(credentials("t", "eu01"))).unwrap();
    assert_eq!(c.tenant_id, "t");
    assert_eq!(c.region, "eu01");
    assert_eq!(c.client_id, "client-a");
}

#[test]
fn store_paths() {
    let p = get_cache_path(Some("/home/u/.local/share".to_string()));
    assert_eq!(p.root, "/home/u/.local/share");
    assert_eq!(p.app_dir, "sophos-dashboard");
    assert_eq!(p.file, "sophos_cache.json");
    let p = get_secrets_path(None);
    assert_eq!(p.root, ".");
    assert_eq!(p.app_dir, "sophos-dashboard");
    assert_eq!(p.file, "sophos_secrets.json");
}
