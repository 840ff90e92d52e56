use spotter::auth::{auth_settings, callback_reply, needs_auth};

#[test]
fn settings_default_to_local_callback_and_cache() {
    let s = auth_settings(None, None);
    assert_eq!(s.redirect_uri, "http://localhost:8888/callback");
    assert_eq!(s.cache_path, ".spotify_token_cache.json");
    assert_eq!(s.scope, "user-read-recently-played");
    assert!(s.token_refreshing && s.token_cached);
}

#[test]
fn settings_follow_the_environment() {
    let s = auth_settings(Some("https://example.org/cb".to_string()), Some("/data/token.json".to_string()));
    assert_eq!(s.redirect_uri, "https://example.org/cb");
    assert_eq!(s.cache_path, "/data/token.json");
}

#[test]
fn sign_in_only_without_a_cached_token() {
    assert!(!needs_auth(true, true));
    assert!(needs_auth(true, false));
    assert!(needs_auth(false, false));
    assert!(needs_auth(false, true));
}

#[test]
fn callback_passes_the_code_on() {
    let r = callback_reply(Some("abc".to_string()));
    assert_eq!(r.code, Some("abc".to_string()));
    assert_eq!(r.page, "<h2>authenticated</h2><p>token get! you can close this tab :D</p>");
    let e = callback_reply(None);
    assert_eq!(e.code, None);
    assert_eq!(e.page, "<h2>error</h2><p>no code parameter in callback url :(</p>");
}
