use memo_api::auth::{admit_user, extract_bearer_token, register_status, screen_request,
    AuthDecision, UserInfo};
use memo_api::config::Config;
use memo_api::paths::is_auth_ignored;
use memo_api::urls::{base_host_url, build_api_url, get_github_signin_url};

fn info(id: Option<&str>, email: Option<&str>, error: Option<&str>) -> UserInfo {
    UserInfo {
        id: id.map(|s| s.to_string()),
        email: email.map(|s| s.to_string()),
        error: error.map(|s| s.to_string()),
    }
}

#[test]
fn allow_list_accepts_public_paths() {
    assert!(is_auth_ignored("/"));
    assert!(is_auth_ignored("/favicon.ico"));
    assert!(is_auth_ignored("/api/auth/login"));
    assert!(is_auth_ignored("/api/auth/"));
    assert!(is_auth_ignored("/index.html"));
    assert!(is_auth_ignored("/deep/dir/page.html"));
    assert!(is_auth_ignored("/style.css"));
    assert!(is_auth_ignored("/app.js"));
}

#[test]
fn allow_list_rejects_private_paths() {
    assert!(!is_auth_ignored("/api/memos"));
    assert!(!is_auth_ignored("/api/auth"));
    assert!(!is_auth_ignored("/favicon.icox"));
    assert!(!is_auth_ignored("/a.htmlx"));
    assert!(!is_auth_ignored(""));
    assert!(!is_auth_ignored("//"));
    assert!(!is_auth_ignored("/api/memos/1"));
}

#[test]
fn public_path_forwards_with_any_header() {
    assert!(matches!(screen_request("/", ""), AuthDecision::Forward));
    assert!(matches!(screen_request("/index.html", "Bearer tok"), AuthDecision::Forward));
    assert!(matches!(screen_request("/api/auth/login", "garbage"), AuthDecision::Forward));
}

#[test]
fn private_path_without_bearer_is_rejected() {
    assert!(matches!(screen_request("/api/memos", ""), AuthDecision::Unauthorized));
    assert!(matches!(screen_request("/api/memos", "Basic abc"), AuthDecision::Unauthorized));
    assert!(matches!(screen_request("/api/memos", "bearer abc"), AuthDecision::Unauthorized));
    assert!(matches!(screen_request("/api/memos", "Bearer"), AuthDecision::Unauthorized));
}

#[test]
fn private_path_with_bearer_resolves_the_token() {
    match screen_request("/api/memos", "Bearer abc123") {
        AuthDecision::Resolve(t) => assert_eq!(t, "abc123"),
        _ => panic!("expected a token resolution"),
    }
    match screen_request("/api/memos/7", "Bearer ") {
        AuthDecision::Resolve(t) => assert_eq!(t, ""),
        _ => panic!("expected a token resolution"),
    }
}

#[test]
fn bearer_extraction_edge_cases() {
    assert_eq!(extract_bearer_token("Bearer x"), Some("x".to_string()));
    assert_eq!(extract_bearer_token("Bearer "), Some("".to_string()));
    assert_eq!(extract_bearer_token("Bearer"), None);
    assert_eq!(extract_bearer_token(""), None);
    assert_eq!(extract_bearer_token("xBearer y"), None);
}

#[test]
fn provider_answer_without_id_is_rejected() {
    assert_eq!(admit_user(info(None, Some("a@b.c"), Some("bad token"))), None);
    assert_eq!(admit_user(info(None, None, None)), None);
}

#[test]
fn identity_is_the_provider_reported_id() {
    assert_eq!(admit_user(info(Some("u42"), Some("a@b.c"), None)), Some("u42".to_string()));
}

#[test]
fn register_status_mirrors_provider_answer() {
    assert_eq!(register_status(&info(Some("u1"), None, None)), 200);
    assert_eq!(register_status(&info(None, None, Some("exists"))), 400);
}

#[test]
fn github_signin_url_is_exact() {
    let url = get_github_signin_url("https://x.supabase.co/", "http://localhost:8280/");
    assert_eq!(
        url,
        "https://x.supabase.co/auth/v1/authorize?provider=github&redirect_to=http://localhost:8280/&scopes=user:email"
    );
}

#[test]
fn github_signin_url_trims_all_trailing_slashes() {
    let url = get_github_signin_url("https://x.supabase.co///", "r");
    assert_eq!(
        url,
        "https://x.supabase.co/auth/v1/authorize?provider=github&redirect_to=r&scopes=user:email"
    );
}

#[test]
fn api_url_joins_with_exactly_one_slash() {
    assert_eq!(build_api_url("https://x.co", "/auth/v1/signup"), "https://x.co/auth/v1/signup");
    assert_eq!(build_api_url("https://x.co/", "auth/v1/user"), "https://x.co/auth/v1/user");
    assert_eq!(build_api_url("https://x.co//", "//a"), "https://x.co/a");
}

#[test]
fn base_host_url_prefers_forwarded_headers() {
    assert_eq!(
        base_host_url(Some("https"), "http", Some("proxy.example"), "localhost:8280"),
        "https://proxy.example/"
    );
    assert_eq!(base_host_url(None, "http", None, "localhost:8280"), "http://localhost:8280/");
}

#[test]
fn config_builds_the_mysql_uri() {
    let c = Config::new(
        "https://x.supabase.co".to_string(),
        "anon".to_string(),
        "user",
        "pw",
        "db.host",
        "4000",
        "memos",
    );
    assert_eq!(c.server_port, 8280);
    assert_eq!(c.supabase_url, "https://x.supabase.co");
    assert_eq!(c.supabase_anon_key, "anon");
    assert_eq!(c.tidb_uri, "mysql://user:pw@db.host:4000/memos");
}

#[test]
fn config_keeps_empty_settings_verbatim() {
    let c = Config::new(String::new(), String::new(), "", "", "", "", "");
    assert_eq!(c.tidb_uri, "mysql://:@:/");
}
