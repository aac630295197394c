//! The requests of the authorization flow of the Spotify accounts service.
use vstd::prelude::*;

use vstd::string::StringExecFns;

verus! {

/// The credentials of a Spotify application, and the refresh token of the user once the
/// user has authorized it.
#[derive(Clone, Debug)]
pub struct SpotifyAuthorizationConfig {
    pub client_id: String,
    pub client_secret: String,
    pub refresh_token: Option<String>,
}

/// What the accounts service answers to a token request.
#[derive(Clone, Debug)]
pub struct SpotifyTokenResponse {
    pub access_token: String,
    pub token_type: String,
    pub scope: Option<String>,
    pub expires_in: i16,
    pub refresh_token: Option<String>,
}

/// The character of the standard base64 alphabet (`A`–`Z`, `a`–`z`, `0`–`9`, `+`, `/`) for
/// the six bits `v`.
pub open spec fn base64_digit(v: int) -> char {
    if v < 26 {
        (65 + v) as char
    } else if v < 52 {
        (97 + v - 26) as char
    } else if v < 62 {
        (48 + v - 52) as char
    } else if v == 62 {
        '+'
    } else {
        '/'
    }
}

/// The standard base64 encoding of `bytes`: each group of three bytes gives four digits of
/// six bits; a last group of one or two bytes is filled with zero bits and padded with `=`
/// to four characters.
pub open spec fn base64_encoding(bytes: Seq<u8>) -> Seq<char>
    decreases bytes.len(),
{
    if bytes.len() == 0 {
        Seq::empty()
    } else {
        let b0 = bytes[0] as int;
        let b1 = if bytes.len() > 1 { bytes[1] as int } else { 0 };
        let b2 = if bytes.len() > 2 { bytes[2] as int } else { 0 };
        let group = seq![
            base64_digit(b0 / 4),
            base64_digit((b0 % 4) * 16 + b1 / 16),
            if bytes.len() > 1 { base64_digit((b1 % 16) * 4 + b2 / 64) } else { '=' },
            if bytes.len() > 2 { base64_digit(b2 % 64) } else { '=' },
        ];
        group + if bytes.len() > 3 { base64_encoding(bytes.skip(3)) } else { Seq::empty() }
    }
}

/// Encodes `bytes` with `base64::encode`, which uses the standard alphabet with padding.
/// Claimed: the result is `base64_encoding(bytes)`, as the crate's documentation and source
/// describe it. The encoder panics when the length of the encoding overflows a `usize`,
/// hence the bound.
#[verifier::external_body]
fn encode_base64(bytes: &[u8]) -> (r: String)
    requires
        4 * (bytes@.len() / 3) + 4 <= usize::MAX,
    ensures
        r@ == base64_encoding(bytes@),
{
    base64::encode(bytes)
}

/// The query string `k1=v1&k2=v2&…&` of `params`, each pair followed by `&`, nothing escaped.
pub open spec fn query_string(params: Seq<(Seq<char>, Seq<char>)>) -> Seq<char>
    decreases params.len(),
{
    if params.len() == 0 {
        Seq::empty()
    } else {
        query_string(params.drop_last()) + params.last().0 + "="@ + params.last().1 + "&"@
    }
}

/// The views of the pairs of `params`.
pub open spec fn param_views(params: Seq<(&str, &str)>) -> Seq<(Seq<char>, Seq<char>)> {
    params.map_values(|p: (&str, &str)| (p.0@, p.1@))
}

/// Joins `params` with `querystring::stringify`. Claimed, as its source shows: each key,
/// `=`, the value and `&`, one pair after the other, nothing escaped.
#[verifier::external_body]
fn stringify(params: Vec<(&str, &str)>) -> (r: String)
    ensures
        r@ == query_string(param_views(params@)),
{
    querystring::stringify(params)
}

/// The page of the accounts service where the user authorizes the application `client_id`;
/// the service then redirects to the local callback.
pub open spec fn authorization_url_of(client_id: Seq<char>) -> Seq<char> {
    "https://accounts.spotify.com/authorize?client_id="@ + client_id
        + "&response_type=code&scope=streaming+user-read-email+user-modify-playback-state+user-read-private+playlist-read-private&redirect_uri=http://localhost:12345/callback"@
}

/// The page of the accounts service where the user authorizes the application.
pub fn authorization_url(client_id: &String) -> (r: String)
    ensures
        r@ == authorization_url_of(client_id@),
{
    let mut url = String::from_str("https://accounts.spotify.com/authorize?client_id=");
    url.append(client_id.as_str());
    url.append(
        "&response_type=code&scope=streaming+user-read-email+user-modify-playback-state+user-read-private+playlist-read-private&redirect_uri=http://localhost:12345/callback",
    );
    url
}

/// What the local callback does with the query of the redirection: the code to trade for
/// tokens (empty when the query has none), and the page shown to the user.
pub fn callback_outcome(code: Option<String>) -> (r: (String, &'static str))
    ensures
        match code {
            Some(c) => r.0 == c && r.1 == "You can now close this tab.",
            None => r.0@ == Seq::<char>::empty()
                && r.1 == "An error occurred (see the logs), you may need to go through the authorization flow again.",
        },
{
    match code {
        Some(c) => (c, "You can now close this tab."),
        None => (
            String::new(),
            "An error occurred (see the logs), you may need to go through the authorization flow again.",
        ),
    }
}

/// The value of the `Authorization` header of the calls to the Web API: `Bearer ` and the
/// access token.
pub fn bearer_authorization(token: &String) -> (r: String)
    ensures
        r@ == "Bearer "@ + token@,
{
    let mut header = String::from_str("Bearer ");
    header.append(token.as_str());
    header
}

/// The UTF-8 bytes of `client_id:client_secret`.
pub open spec fn credentials_bytes(client_id: Seq<char>, client_secret: Seq<char>) -> Seq<u8> {
    vstd::utf8::encode_utf8(client_id + ":"@ + client_secret)
}

/// The value of the `Authorization` header of the token requests: `Basic ` and the base64
/// encoding of `client_id:client_secret`.
pub fn basic_authorization(client_id: &String, client_secret: &String) -> (r: String)
    requires
        4 * (credentials_bytes(client_id@, client_secret@).len() / 3) + 4 <= usize::MAX,
    ensures
        r@ == "Basic "@ + base64_encoding(credentials_bytes(client_id@, client_secret@)),
{
    let mut credentials = client_id.clone();
    credentials.append(":");
    credentials.append(client_secret.as_str());
    let encoded = encode_base64(credentials.as_str().as_bytes());
    let mut header = String::from_str("Basic ");
    header.append(encoded.as_str());
    header
}

/// The authorization page asks for the authorization-code flow: its address carries the
/// parameter `response_type=code` right after the client, and ends with the callback that
/// receives the code, the very callback named when the code is traded for tokens.
pub proof fn the_authorization_page_asks_for_a_code(client_id: Seq<char>)
    ensures
        ({
            let url = authorization_url_of(client_id);
            let k: int = 49 + client_id.len() as int;
            &&& url.subrange(0, 49) == "https://accounts.spotify.com/authorize?client_id="@
            &&& url.subrange(49, k) == client_id
            &&& url.subrange(k, k + 20) == "&response_type=code&"@
            &&& url.subrange(url.len() - 44, url.len() as int) == "redirect_uri="@
                + "http://localhost:12345/callback"@
        }),
{
    reveal_strlit("https://accounts.spotify.com/authorize?client_id=");
    reveal_strlit(
        "&response_type=code&scope=streaming+user-read-email+user-modify-playback-state+user-read-private+playlist-read-private&redirect_uri=http://localhost:12345/callback",
    );
    reveal_strlit("&response_type=code&");
    reveal_strlit("redirect_uri=");
    reveal_strlit("http://localhost:12345/callback");
    let url = authorization_url_of(client_id);
    let k: int = 49 + client_id.len() as int;
    assert(url.subrange(0, 49) =~= "https://accounts.spotify.com/authorize?client_id="@);
    assert(url.subrange(49, k) =~= client_id);
    assert(url.subrange(k, k + 20) =~= "&response_type=code&"@);
    assert(url.subrange(url.len() - 44, url.len() as int) =~= "redirect_uri="@
        + "http://localhost:12345/callback"@);
}

/// The body of the request that trades the authorization `code` for tokens.
pub fn authorization_code_body(code: &str) -> (r: String)
    ensures
        r@ == query_string(
            seq![
                ("grant_type"@, "authorization_code"@),
                ("code"@, code@),
                ("redirect_uri"@, "http://localhost:12345/callback"@),
            ],
        ),
{
    let params = vec![
        ("grant_type", "authorization_code"),
        ("code", code),
        ("redirect_uri", "http://localhost:12345/callback"),
    ];
    let ghost p = params@;
    let r = stringify(params);
    assert(param_views(p) =~= seq![
        ("grant_type"@, "authorization_code"@),
        ("code"@, code@),
        ("redirect_uri"@, "http://localhost:12345/callback"@),
    ]);
    r
}

/// The body of the request that trades the refresh token for a fresh access token.
pub fn refresh_token_body(refresh_token: &str) -> (r: String)
    ensures
        r@ == query_string(seq![("grant_type"@, "refresh_token"@), ("refresh_token"@, refresh_token@)]),
{
    let params = vec![("grant_type", "refresh_token"), ("refresh_token", refresh_token)];
    let ghost p = params@;
    let r = stringify(params);
    assert(param_views(p) =~= seq![("grant_type"@, "refresh_token"@), ("refresh_token"@, refresh_token@)]);
    r
}

/// The body of the refresh request of `config`, or none when the user has not authorized
/// the application yet and there is no refresh token.
pub fn refresh_request_body(config: &SpotifyAuthorizationConfig) -> (r: Option<String>)
    ensures
        match config.refresh_token {
            Some(token) => r matches Some(body) && body@ == query_string(
                seq![("grant_type"@, "refresh_token"@), ("refresh_token"@, token@)],
            ),
            None => r is None,
        },
{
    match &config.refresh_token {
        Some(token) => Some(refresh_token_body(token.as_str())),
        None => None,
    }
}

} // verus!
