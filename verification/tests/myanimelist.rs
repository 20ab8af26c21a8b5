use animu_server::mal::{
    mal_anime_request, mal_authorize_url, mal_token_request, mal_update_request, mal_user_request, malurl,
    HttpMethod,
};
use animu_server::structs::{Config, MALAnime, MALAnimeUpdate, MALReply, MALUser};

#[test]
fn update_request_patches_list_status() {
    let r = mal_update_request(MALAnimeUpdate {
        anime_id: 4224,
        token: "tok".to_string(),
        status: "watching".to_string(),
        num_watched_episodes: 12,
    });
    assert_eq!(r.method, HttpMethod::Patch);
    assert_eq!(r.url, "https://api.myanimelist.net/v2/anime/4224/my_list_status");
    assert_eq!(r.authorization, Some("Bearer tok".to_string()));
    assert_eq!(
        r.form,
        vec![
            ("status".to_string(), "watching".to_string()),
            ("num_watched_episodes".to_string(), "12".to_string())
        ]
    );
}

#[test]
fn token_request_posts_code() {
    let config = Config { mal_secret: Some("sec".to_string()), mal_client_id: Some("cid".to_string()) };
    let r = mal_token_request(&config, &MALReply { code: "c0de".to_string(), state: "st".to_string() });
    assert_eq!(r.method, HttpMethod::Post);
    assert_eq!(r.url, "https://myanimelist.net/v1/oauth2/token");
    assert_eq!(r.authorization, None);
    assert_eq!(r.form.len(), 5);
    assert_eq!(r.form[0], ("client_id".to_string(), "cid".to_string()));
    assert_eq!(r.form[1], ("client_secret".to_string(), "sec".to_string()));
    assert_eq!(r.form[2], ("code".to_string(), "c0de".to_string()));
    assert_eq!(r.form[3], ("code_verifier".to_string(), "st".to_string()));
    assert_eq!(r.form[4], ("grant_type".to_string(), "authorization_code".to_string()));
}

#[test]
fn user_request_gets_profile() {
    let r = mal_user_request(MALUser { user: "@me".to_string(), token: "t".to_string() });
    assert_eq!(r.method, HttpMethod::Get);
    assert_eq!(r.url, "https://api.myanimelist.net/v2/users/@me");
    assert_eq!(r.authorization, Some("Bearer t".to_string()));
    assert!(r.form.is_empty());
}

#[test]
fn anime_request_asks_for_status_and_episodes() {
    let r = mal_anime_request(MALAnime { anime_id: 0, token: "t".to_string() });
    assert_eq!(r.url, "https://api.myanimelist.net/v2/anime/0?fields=my_list_status,num_episodes");
    assert_eq!(r.method, HttpMethod::Get);
}

#[test]
fn authorize_url_carries_challenge_twice() {
    assert_eq!(
        mal_authorize_url("CH"),
        "https://myanimelist.net/v1/oauth2/authorize?response_type=code&client_id=0e16733a4d9bbf1152fa9cb2ada84048&code_challenge=CH&state=CH"
    );
}

#[test]
fn login_link_has_a_fresh_challenge() {
    let url = malurl();
    let prefix = "https://myanimelist.net/v1/oauth2/authorize?response_type=code&client_id=0e16733a4d9bbf1152fa9cb2ada84048&code_challenge=";
    assert!(url.starts_with(prefix));
    let rest = &url[prefix.len()..];
    let (challenge, state) = rest.split_once("&state=").unwrap();
    assert_eq!(challenge, state);
    assert_eq!(challenge.len(), 43);
    assert!(challenge.chars().all(|c| c.is_ascii_alphanumeric() || c == '-' || c == '_'));
}
