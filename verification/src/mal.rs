//! The requests the server sends to MyAnimeList on a client's behalf, and
//! the login link with its PKCE challenge.
use crate::structs::{Config, MALAnime, MALAnimeUpdate, MALReply, MALUser};
use crate::text::{decimal, decimal_string, push_str};
use vstd::prelude::*;

verus! {

/// The HTTP method of a request.
#[derive(Debug, Clone, Copy, PartialEq, Eq)]
pub enum HttpMethod {
    Get,
    Post,
    Patch,
}

/// A request to MyAnimeList: method, url, the `Authorization` header if
/// any, and the form fields sent as `application/x-www-form-urlencoded`.
#[derive(Debug, Clone)]
pub struct MalRequest {
    pub method: HttpMethod,
    pub url: String,
    pub authorization: Option<String>,
    pub form: Vec<(String, String)>,
}

pub struct MalRequestView {
    pub method: HttpMethod,
    pub url: Seq<char>,
    pub authorization: Option<Seq<char>>,
    pub form: Seq<(Seq<char>, Seq<char>)>,
}

impl View for MalRequest {
    type V = MalRequestView;

    open spec fn view(&self) -> MalRequestView {
        MalRequestView {
            method: self.method,
            url: self.url@,
            authorization: self.authorization.deep_view(),
            form: self.form@.map_values(|p: (String, String)| (p.0@, p.1@)),
        }
    }
}

/// The `Authorization` header for a user token.
pub open spec fn bearer(token: Seq<char>) -> Seq<char> {
    "Bearer "@ + token
}

/// Sets the list status and watched episodes of one anime.
pub open spec fn update_request(
    anime_id: u32,
    token: Seq<char>,
    status: Seq<char>,
    watched: u32,
) -> MalRequestView {
    MalRequestView {
        method: HttpMethod::Patch,
        url: "https://api.myanimelist.net/v2/anime/"@ + decimal(anime_id as nat)
            + "/my_list_status"@,
        authorization: Some(bearer(token)),
        form: seq![("status"@, status), ("num_watched_episodes"@, decimal(watched as nat))],
    }
}

/// Trades an authorization code for tokens.
pub open spec fn token_request(
    client_id: Seq<char>,
    secret: Seq<char>,
    code: Seq<char>,
    state: Seq<char>,
) -> MalRequestView {
    MalRequestView {
        method: HttpMethod::Post,
        url: "https://myanimelist.net/v1/oauth2/token"@,
        authorization: None,
        form: seq![
            ("client_id"@, client_id),
            ("client_secret"@, secret),
            ("code"@, code),
            ("code_verifier"@, state),
            ("grant_type"@, "authorization_code"@),
        ],
    }
}

/// Reads a user's profile.
pub open spec fn user_request(user: Seq<char>, token: Seq<char>) -> MalRequestView {
    MalRequestView {
        method: HttpMethod::Get,
        url: "https://api.myanimelist.net/v2/users/"@ + user,
        authorization: Some(bearer(token)),
        form: Seq::empty(),
    }
}

/// Reads one anime with the user's list status and its episode count.
pub open spec fn anime_request(anime_id: u32, token: Seq<char>) -> MalRequestView {
    MalRequestView {
        method: HttpMethod::Get,
        url: "https://api.myanimelist.net/v2/anime/"@ + decimal(anime_id as nat)
            + "?fields=my_list_status,num_episodes"@,
        authorization: Some(bearer(token)),
        form: Seq::empty(),
    }
}

/// The MyAnimeList login page for this client, with the PKCE challenge as
/// both the code challenge and the state.
pub open spec fn authorize_url(challenge: Seq<char>) -> Seq<char> {
    "https://myanimelist.net/v1/oauth2/authorize?response_type=code&client_id=0e16733a4d9bbf1152fa9cb2ada84048&code_challenge="@
        + challenge + "&state="@ + challenge
}

/// Every list update is a PATCH carrying the user's token, and its form has
/// exactly two fields: the status, then the watched count in decimal digits,
/// for every count, zero included.
pub proof fn lemma_update_request_fields(anime_id: u32, token: Seq<char>, status: Seq<char>, watched: u32)
    ensures
        update_request(anime_id, token, status, watched).method == HttpMethod::Patch,
        update_request(anime_id, token, status, watched).url == "https://api.myanimelist.net/v2/anime/"@
            + decimal(anime_id as nat) + "/my_list_status"@,
        update_request(anime_id, token, status, watched).authorization == Some("Bearer "@ + token),
        update_request(anime_id, token, status, watched).form.len() == 2,
        update_request(anime_id, token, status, watched).form[0] == ("status"@, status),
        update_request(anime_id, token, status, watched).form[1] == (
            "num_watched_episodes"@,
            decimal(watched as nat),
        ),
{
}

/// Every anime lookup is a GET that carries the user's token as a bearer
/// token and sends no form.
pub proof fn lemma_anime_request_fields(anime_id: u32, token: Seq<char>)
    ensures
        anime_request(anime_id, token).method == HttpMethod::Get,
        anime_request(anime_id, token).url == "https://api.myanimelist.net/v2/anime/"@ + decimal(
            anime_id as nat,
        ) + "?fields=my_list_status,num_episodes"@,
        anime_request(anime_id, token).authorization == Some("Bearer "@ + token),
        anime_request(anime_id, token).form.len() == 0,
{
}

/// Every profile lookup is a GET that carries the user's token as a bearer
/// token and sends no form.
pub proof fn lemma_user_request_fields(user: Seq<char>, token: Seq<char>)
    ensures
        user_request(user, token).method == HttpMethod::Get,
        user_request(user, token).url == "https://api.myanimelist.net/v2/users/"@ + user,
        user_request(user, token).authorization == Some("Bearer "@ + token),
        user_request(user, token).form.len() == 0,
{
}

/// Trading a code for tokens is a POST without a user token whose form has
/// exactly five fields: client id, client secret, code, the state as code
/// verifier, and the grant type `authorization_code`.
pub proof fn lemma_token_request_fields(
    client_id: Seq<char>,
    secret: Seq<char>,
    code: Seq<char>,
    state: Seq<char>,
)
    ensures
        token_request(client_id, secret, code, state).method == HttpMethod::Post,
        token_request(client_id, secret, code, state).url == "https://myanimelist.net/v1/oauth2/token"@,
        token_request(client_id, secret, code, state).authorization is None,
        token_request(client_id, secret, code, state).form.len() == 5,
        token_request(client_id, secret, code, state).form[0] == ("client_id"@, client_id),
        token_request(client_id, secret, code, state).form[1] == ("client_secret"@, secret),
        token_request(client_id, secret, code, state).form[2] == ("code"@, code),
        token_request(client_id, secret, code, state).form[3] == ("code_verifier"@, state),
        token_request(client_id, secret, code, state).form[4] == (
            "grant_type"@,
            "authorization_code"@,
        ),
{
}

/// The login link carries the challenge both as the code challenge and as
/// the state, at the end of the link.
pub proof fn lemma_authorize_url_carries_challenge(challenge: Seq<char>)
    ensures
        authorize_url(challenge).len() >= 2 * challenge.len(),
        authorize_url(challenge).subrange(
            authorize_url(challenge).len() - challenge.len(),
            authorize_url(challenge).len() as int,
        ) == challenge,
{
    let u = authorize_url(challenge);
    assert(u.subrange(u.len() - challenge.len(), u.len() as int) =~= challenge);
}

fn bearer_header(token: &String) -> (r: String)
    ensures
        r@ == bearer(token@),
{
    let mut r = String::from_str("Bearer ");
    push_str(&mut r, token.as_str());
    r
}

fn form_field(key: &str, value: String) -> (r: (String, String))
    ensures
        r.0@ == key@,
        r.1@ == value@,
{
    (String::from_str(key), value)
}

/// The request that `malupdateanimelist` sends.
pub fn mal_update_request(data: MALAnimeUpdate) -> (r: MalRequest)
    ensures
        r@ == update_request(data.anime_id, data.token@, data.status@, data.num_watched_episodes),
        r@.method == HttpMethod::Patch,
        r@.authorization == Some("Bearer "@ + data.token@),
        r@.form.len() == 2,
        r@.form[0] == ("status"@, data.status@),
        r@.form[1] == ("num_watched_episodes"@, decimal(data.num_watched_episodes as nat)),
{
    proof {
        lemma_update_request_fields(data.anime_id, data.token@, data.status@, data.num_watched_episodes);
    }
    let mut url = String::from_str("https://api.myanimelist.net/v2/anime/");
    push_str(&mut url, decimal_string(data.anime_id as u64).as_str());
    push_str(&mut url, "/my_list_status");
    let authorization = Some(bearer_header(&data.token));
    let mut form: Vec<(String, String)> = Vec::new();
    form.push(form_field("status", data.status));
    form.push(form_field("num_watched_episodes", decimal_string(data.num_watched_episodes as u64)));
    let r = MalRequest { method: HttpMethod::Patch, url, authorization, form };
    assert(r@.form =~= update_request(
        data.anime_id,
        data.token@,
        data.status@,
        data.num_watched_episodes,
    ).form);
    r
}

/// The request that `malauth` sends; the client's id and secret must be
/// configured.
pub fn mal_token_request(config: &Config, auth: &MALReply) -> (r: MalRequest)
    requires
        config.mal_client_id is Some,
        config.mal_secret is Some,
    ensures
        r@ == token_request(
            config.mal_client_id.unwrap()@,
            config.mal_secret.unwrap()@,
            auth.code@,
            auth.state@,
        ),
{
    let client_id = match &config.mal_client_id {
        Some(s) => s.clone(),
        None => String::new(),
    };
    let secret = match &config.mal_secret {
        Some(s) => s.clone(),
        None => String::new(),
    };
    let mut form: Vec<(String, String)> = Vec::new();
    form.push(form_field("client_id", client_id));
    form.push(form_field("client_secret", secret));
    form.push(form_field("code", auth.code.clone()));
    form.push(form_field("code_verifier", auth.state.clone()));
    form.push(form_field("grant_type", String::from_str("authorization_code")));
    let r = MalRequest {
        method: HttpMethod::Post,
        url: String::from_str("https://myanimelist.net/v1/oauth2/token"),
        authorization: None,
        form,
    };
    assert(r@.form =~= token_request(
        config.mal_client_id.unwrap()@,
        config.mal_secret.unwrap()@,
        auth.code@,
        auth.state@,
    ).form);
    r
}

/// The request that `maluser` sends.
pub fn mal_user_request(data: MALUser) -> (r: MalRequest)
    ensures
        r@ == user_request(data.user@, data.token@),
{
    let mut url = String::from_str("https://api.myanimelist.net/v2/users/");
    push_str(&mut url, data.user.as_str());
    let r = MalRequest {
        method: HttpMethod::Get,
        url,
        authorization: Some(bearer_header(&data.token)),
        form: Vec::new(),
    };
    assert(r@.form =~= user_request(data.user@, data.token@).form);
    r
}

/// The request that `malanime` sends.
pub fn mal_anime_request(data: MALAnime) -> (r: MalRequest)
    ensures
        r@ == anime_request(data.anime_id, data.token@),
        r@.method == HttpMethod::Get,
        r@.authorization == Some("Bearer "@ + data.token@),
        r@.form.len() == 0,
{
    proof {
        lemma_anime_request_fields(data.anime_id, data.token@);
    }
    let mut url = String::from_str("https://api.myanimelist.net/v2/anime/");
    push_str(&mut url, decimal_string(data.anime_id as u64).as_str());
    push_str(&mut url, "?fields=my_list_status,num_episodes");
    let r = MalRequest {
        method: HttpMethod::Get,
        url,
        authorization: Some(bearer_header(&data.token)),
        form: Vec::new(),
    };
    assert(r@.form =~= anime_request(data.anime_id, data.token@).form);
    r
}

/// A byte that the `pkce` crate draws code verifiers from: an ASCII letter
/// or digit, or one of `-`, `.`, `~`, `_`.
pub open spec fn verifier_byte(b: u8) -> bool {
    (65 <= b <= 90) || (97 <= b <= 122) || (48 <= b <= 57) || b == 45 || b == 46 || b == 126
        || b == 95
}

/// What `pkce::code_challenge` returns for a verifier: the unpadded
/// base64url encoding of its SHA-256 digest.
pub uninterp spec fn pkce_challenge(verifier: Seq<u8>) -> Seq<char>;

/// Calls `pkce::code_verifier`, which draws `length` random bytes from its
/// alphabet. The crate asserts a length from 43 to 128. Which bytes come
/// out is chance: only their number and alphabet are stated.
#[verifier::external_body]
fn code_verifier(length: usize) -> (r: Vec<u8>)
    requires
        43 <= length <= 128,
    ensures
        r@.len() == length,
        forall|i: int| 0 <= i < r@.len() ==> verifier_byte(#[trigger] r@[i]),
{
    pkce::code_verifier(length)
}

/// Calls `pkce::code_challenge`; the contract names its result.
#[verifier::external_body]
fn code_challenge(verifier: &[u8]) -> (r: String)
    ensures
        r@ == pkce_challenge(verifier@),
{
    pkce::code_challenge(verifier)
}

/// The login link with the PKCE challenge in place.
pub fn mal_authorize_url(challenge: &str) -> (r: String)
    ensures
        r@ == authorize_url(challenge@),
{
    let mut r = String::from_str(
        "https://myanimelist.net/v1/oauth2/authorize?response_type=code&client_id=0e16733a4d9bbf1152fa9cb2ada84048&code_challenge=",
    );
    push_str(&mut r, challenge);
    push_str(&mut r, "&state=");
    push_str(&mut r, challenge);
    r
}

/// The login link that `malurl` redirects to: a fresh verifier of 128
/// bytes, and the link built on its challenge.
pub fn malurl() -> (r: String)
    ensures
        exists|v: Seq<u8>|
            {
                &&& v.len() == 128
                &&& forall|i: int| 0 <= i < v.len() ==> verifier_byte(#[trigger] v[i])
                &&& r@ == authorize_url(#[trigger] pkce_challenge(v))
            },
{
    let verifier = code_verifier(128);
    let challenge = code_challenge(verifier.as_slice());
    let r = mal_authorize_url(challenge.as_str());
    assert(r@ == authorize_url(pkce_challenge(verifier@)));
    r
}

} // verus!
