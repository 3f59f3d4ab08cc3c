use omega_gate::assets::{asset_key, route_static, StaticRoute};
use omega_gate::error::AuthError;
use omega_gate::icons::{contains_text, search_icons, IconEntry, MAX_RESULTS};
use omega_gate::keys::{KeyCache, RawKey, RsaKey, SigningKeySet};
use omega_gate::links::link_updates;
use omega_gate::models::UpdateLinkRequest;
use omega_gate::pipeline::{bearer_token, screen, without_verification, Decision, Gate, RequestHeaders};
use omega_gate::rate_limiter::RateLimiter;
use omega_gate::session::{maybe_renew, RenewalDecision, SessionClaims};

fn request(path: &str, auth: Option<&str>, id: Option<&str>, email: Option<&str>) -> RequestHeaders {
    RequestHeaders {
        path: path.to_string(),
        authorization: auth.map(|s| s.to_string()),
        user_id: id.map(|s| s.to_string()),
        email: email.map(|s| s.to_string()),
        session: None,
    }
}

#[test]
fn bypass_path_without_headers_is_forwarded_without_identity() {
    let g = screen(&request("/staging_login", None, None, None));
    assert!(matches!(g, Gate::Bypass));
    let d = without_verification(g).unwrap();
    assert!(matches!(d, Decision::Forward(None)));
    assert_eq!(d.status(), None);
}

#[test]
fn bypass_path_ignores_invalid_bearer() {
    let g = screen(&request("/staging_login", Some("Basic xyz"), Some("u"), None));
    assert!(matches!(g, Gate::Bypass));
}

#[test]
fn bypass_is_exact_not_prefix() {
    let g = screen(&request("/staging_login/extra", None, Some("u"), Some("e")));
    assert!(matches!(g, Gate::Reject(AuthError::AuthMissing)));
}

#[test]
fn missing_authorization_is_rejected_before_handler() {
    let g = screen(&request("/link", None, Some("u"), Some("e@x")));
    assert!(matches!(g, Gate::Reject(AuthError::AuthMissing)));
    let d = without_verification(g).unwrap();
    assert_eq!(d.status(), Some(401));
}

#[test]
fn non_bearer_authorization_is_rejected() {
    let g = screen(&request("/link", Some("Token abc"), Some("u"), Some("e@x")));
    assert!(matches!(g, Gate::Reject(AuthError::AuthMissing)));
}

#[test]
fn missing_identity_headers_are_rejected() {
    let g = screen(&request("/link", Some("Bearer abc"), None, Some("e@x")));
    assert!(matches!(g, Gate::Reject(AuthError::IdentityHeadersMissing)));
    let g = screen(&request("/link", Some("Bearer abc"), Some("u"), None));
    assert!(matches!(g, Gate::Reject(AuthError::IdentityHeadersMissing)));
}

#[test]
fn complete_request_goes_to_verification() {
    let g = screen(&request("/link", Some("Bearer abc.def.ghi"), Some("u1"), Some("e@x")));
    match g {
        Gate::Verify { user, token } => {
            assert_eq!(user.user_id, "u1");
            assert_eq!(user.email, "e@x");
            assert_eq!(token, "abc.def.ghi");
        }
        _ => panic!("expected verification"),
    }
    assert!(without_verification(screen(&request("/x", Some("Bearer t"), Some("u"), Some("e")))).is_none());
}

#[test]
fn bearer_prefix_is_stripped_once() {
    assert_eq!(bearer_token("Bearer Bearer x"), Some("Bearer x".to_string()));
    assert_eq!(bearer_token("Bearer "), Some(String::new()));
    assert_eq!(bearer_token("bearer x"), None);
}

fn session(exp: u64) -> SessionClaims {
    SessionClaims { user_id: "user_7".to_string(), plan: "pro".to_string(), exp }
}

#[test]
fn session_near_expiry_is_renewed_with_same_identity() {
    let now = 1_000_000;
    let s = session(now + 30);
    match maybe_renew(Some(&s), now, 300, 3600) {
        RenewalDecision::Renew(n) => {
            assert_eq!(n.user_id, "user_7");
            assert_eq!(n.plan, "pro");
            assert_eq!(n.exp, now + 3600);
        }
        RenewalDecision::NoAction => panic!("expected renewal"),
    }
}

#[test]
fn session_well_within_lifetime_is_not_renewed() {
    let now = 1_000_000;
    assert!(matches!(maybe_renew(Some(&session(now + 3000)), now, 300, 3600), RenewalDecision::NoAction));
    assert!(matches!(maybe_renew(Some(&session(now + 300)), now, 300, 3600), RenewalDecision::NoAction));
}

#[test]
fn expired_session_is_renewed_and_absent_is_not() {
    let now = 1_000_000;
    match maybe_renew(Some(&session(now - 50)), now, 300, 3600) {
        RenewalDecision::Renew(n) => {
            assert_eq!((n.user_id.as_str(), n.plan.as_str(), n.exp), ("user_7", "pro", now + 3600));
        }
        RenewalDecision::NoAction => panic!("expected renewal"),
    }
    assert!(matches!(maybe_renew(Some(&session(now)), now, 300, 3600), RenewalDecision::Renew(_)));
    assert!(matches!(maybe_renew(None, now, 300, 3600), RenewalDecision::NoAction));
}

#[test]
fn renewed_expiry_saturates() {
    match maybe_renew(Some(&session(u64::MAX)), u64::MAX - 10, 300, 3600) {
        RenewalDecision::Renew(n) => assert_eq!(n.exp, u64::MAX),
        RenewalDecision::NoAction => panic!("expected renewal"),
    }
}

fn raw(kid: Option<&str>, n: Option<&str>, e: Option<&str>) -> RawKey {
    RawKey { kid: kid.map(|s| s.to_string()), n: n.map(|s| s.to_string()), e: e.map(|s| s.to_string()) }
}

#[test]
fn incomplete_entries_are_left_out() {
    let set = SigningKeySet::from_entries(Some(vec![
        raw(Some("a"), Some("n1"), Some("e1")),
        raw(None, Some("n2"), Some("e2")),
        raw(Some("c"), None, Some("e3")),
        raw(Some("d"), Some("n4"), Some("e4")),
    ]))
    .ok()
    .unwrap();
    assert_eq!(set.len(), 2);
    assert_eq!(set.find(&"d".to_string()).map(|k| k.n.clone()), Some("n4".to_string()));
    assert!(set.find(&"c".to_string()).is_none());
}

#[test]
fn first_key_with_a_kid_wins() {
    let mut set = SigningKeySet::empty();
    set.push(RsaKey { kid: "a".to_string(), n: "first".to_string(), e: "e".to_string() });
    set.push(RsaKey { kid: "a".to_string(), n: "second".to_string(), e: "e".to_string() });
    assert_eq!(set.find(&"a".to_string()).unwrap().n, "first");
}

#[test]
fn cache_refreshes_when_empty_stale_or_missing_kid() {
    let kid = "k1".to_string();
    let mut cache = KeyCache::new(60_000);
    assert_eq!(cache.last_fetch(), None);
    assert!(cache.needs_refresh(&kid, 0));
    let set = SigningKeySet::from_entries(Some(vec![raw(Some("k1"), Some("n"), Some("e"))])).ok().unwrap();
    cache.install(set, 1_000);
    assert_eq!(cache.last_fetch(), Some(1_000));
    assert!(!cache.needs_refresh(&kid, 30_000));
    assert!(cache.needs_refresh(&kid, 61_000));
    assert!(cache.needs_refresh(&"k2".to_string(), 2_000));
    assert_eq!(cache.resolve(&kid).map(|k| k.n.clone()).ok(), Some("n".to_string()));
    assert_eq!(cache.resolve(&"k2".to_string()).err(), Some(AuthError::KeyNotFound));
    assert_eq!(cache.keys().len(), 1);
}

#[test]
fn fetch_outcome_decides_between_server_and_credential_errors() {
    assert!(AuthError::KeyFetchError.is_infrastructure());
    assert_eq!(AuthError::KeyFetchError.status(), 500);
    assert_eq!(AuthError::ConfigMissing.status(), 500);
    assert_eq!(AuthError::KeyNotFound.status(), 401);
}

#[test]
fn limiter_admits_up_to_its_maximum_per_window() {
    let mut l = RateLimiter::new(2, 1);
    assert!(l.can_make_request(0));
    assert!(l.can_make_request(100));
    assert!(!l.can_make_request(200));
    assert_eq!(l.time_until_next_slot(200), 800);
    assert!(l.can_make_request(1_000));
    assert_eq!(l.time_until_next_slot(1_000), 100);
    assert!(!l.try_acquire(1_050));
    assert!(l.try_acquire(1_100));
}

#[test]
fn limiter_with_free_slot_has_no_wait() {
    let l = RateLimiter::new(1, 1);
    assert_eq!(l.time_until_next_slot(5), 0);
    let mut z = RateLimiter::new(0, 1);
    assert!(!z.try_acquire(5));
}

fn icon(name: &str, aliases: &[&str], categories: &[&str]) -> IconEntry {
    IconEntry {
        name: name.to_string(),
        aliases: aliases.iter().map(|s| s.to_string()).collect(),
        categories: categories.iter().map(|s| s.to_string()).collect(),
    }
}

#[test]
fn search_matches_name_alias_and_category_ignoring_case() {
    let entries = vec![
        icon("GitHub", &[], &[]),
        icon("gitea", &["forge"], &[]),
        icon("plex", &[], &["Media"]),
        icon("nginx", &[], &[]),
    ];
    let r = search_icons(&entries, "GIT");
    let names: Vec<String> = r.icons.iter().map(|i| i.name.clone()).collect();
    assert_eq!(names, vec!["GitHub".to_string(), "gitea".to_string()]);
    assert_eq!(
        r.icons[1].png_url,
        "https://cdn.jsdelivr.net/gh/homarr-labs/dashboard-icons/png/gitea.png"
    );
    assert_eq!(search_icons(&entries, "FORGE").icons.len(), 1);
    assert_eq!(search_icons(&entries, "media").icons[0].name, "plex");
    assert_eq!(search_icons(&entries, "zzz").icons.len(), 0);
}

#[test]
fn search_stops_at_the_result_limit() {
    let entries: Vec<IconEntry> = (0..30).map(|i| icon(&format!("app{}", i), &[], &[])).collect();
    let r = search_icons(&entries, "app");
    assert_eq!(r.icons.len(), MAX_RESULTS);
    assert_eq!(r.icons[19].name, "app19");
}

#[test]
fn substring_search() {
    assert!(contains_text("dashboard", "shb"));
    assert!(contains_text("abc", ""));
    assert!(!contains_text("ab", "abc"));
    assert!(!contains_text("abc", "ac"));
}

#[test]
fn link_updates_follow_the_present_fields() {
    let req = UpdateLinkRequest {
        id: "l1".to_string(),
        url: Some("https://x".to_string()),
        description: None,
        title: Some("X".to_string()),
        icon: None,
        column_type: Some("left".to_string()),
    };
    let u = link_updates(&req);
    assert_eq!(
        u,
        vec![
            ("url".to_string(), "https://x".to_string()),
            ("title".to_string(), "X".to_string()),
            ("column_type".to_string(), "left".to_string()),
        ]
    );
}

#[test]
fn static_routes() {
    assert_eq!(asset_key("//assets/app.js"), "assets/app.js");
    assert_eq!(asset_key(""), "");
    assert!(matches!(route_static("assets/app.js", true), StaticRoute::File(ref f) if f == "assets/app.js"));
    assert!(matches!(route_static("assets/missing.js", false), StaticRoute::NotFound));
    assert!(matches!(route_static("dashboard", false), StaticRoute::Index));
}
