//! The decisions of the Spotify sign-in: where the OAuth callback lands and
//! the token cache lives, whether a cached token spares a new sign-in, and
//! what the callback page answers. Reading the environment, serving the
//! callback and talking to Spotify are the application's part.
use vstd::prelude::*;

verus! {

/// The settings the Spotify client is built with.
#[derive(Debug)]
pub struct AuthSettings {
    /// Where Spotify sends the browser back after sign-in.
    pub redirect_uri: String,
    /// The file that caches the token.
    pub cache_path: String,
    /// The one permission asked for.
    pub scope: String,
    /// Whether the client refreshes an expired token by itself.
    pub token_refreshing: bool,
    /// Whether the client keeps the token in the cache file.
    pub token_cached: bool,
}

pub open spec fn spec_default_redirect_uri() -> Seq<char> {
    "http://localhost:8888/callback"@
}

pub open spec fn spec_default_cache_path() -> Seq<char> {
    ".spotify_token_cache.json"@
}

/// The client settings, given the values of `RSPOTIFY_REDIRECT_URI` and
/// `RSPOTIFY_CACHE_PATH` (`None` when unset): the local callback and a cache
/// file in the working directory by default; the recently-played permission;
/// token refreshing and caching on.
pub fn auth_settings(redirect_env: Option<String>, cache_env: Option<String>) -> (res: AuthSettings)
    ensures
        res.redirect_uri@ == (match redirect_env {
            Some(v) => v@,
            None => spec_default_redirect_uri(),
        }),
        res.cache_path@ == (match cache_env {
            Some(v) => v@,
            None => spec_default_cache_path(),
        }),
        res.scope@ == "user-read-recently-played"@,
        res.token_refreshing,
        res.token_cached,
{
    let redirect_uri = match redirect_env {
        Some(v) => v,
        None => String::from_str("http://localhost:8888/callback"),
    };
    let cache_path = match cache_env {
        Some(v) => v,
        None => String::from_str(".spotify_token_cache.json"),
    };
    AuthSettings {
        redirect_uri,
        cache_path,
        scope: String::from_str("user-read-recently-played"),
        token_refreshing: true,
        token_cached: true,
    }
}

/// Whether the user has to sign in: unless the cache file exists and a
/// token could be read from it.
pub fn needs_auth(cache_exists: bool, token_loaded: bool) -> (res: bool)
    ensures
        res == !(cache_exists && token_loaded),
{
    if cache_exists {
        !token_loaded
    } else {
        true
    }
}

pub open spec fn spec_authenticated_page() -> Seq<char> {
    "<h2>authenticated</h2><p>token get! you can close this tab :D</p>"@
}

pub open spec fn spec_missing_code_page() -> Seq<char> {
    "<h2>error</h2><p>no code parameter in callback url :(</p>"@
}

/// What the OAuth callback does with a request.
#[derive(Debug)]
pub struct CallbackReply {
    /// The authorization code to hand to the waiting sign-in, if any.
    pub code: Option<String>,
    /// The HTML page shown in the browser.
    pub page: String,
}

/// The callback's answer to a request whose `code` query parameter is
/// `code`: with a code, pass it on and say so; without, an error page.
pub fn callback_reply(code: Option<String>) -> (res: CallbackReply)
    ensures
        match code {
            Some(c) => res.code matches Some(r) && r@ == c@ && res.page@ == spec_authenticated_page(),
            None => res.code is None && res.page@ == spec_missing_code_page(),
        },
{
    match code {
        Some(c) => CallbackReply {
            code: Some(c),
            page: String::from_str("<h2>authenticated</h2><p>token get! you can close this tab :D</p>"),
        },
        None => CallbackReply {
            code: None,
            page: String::from_str("<h2>error</h2><p>no code parameter in callback url :(</p>"),
        },
    }
}

} // verus!
