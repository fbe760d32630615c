use spotify_tui::auth::{
    decide_token_action, parse_callback, pkce_from_bytes, redirect_port, Auth, CallbackError,
    TokenAction, TokenData, TokenResponse,
};

fn tokens(expires_at: u64, refresh: Option<&str>) -> TokenData {
    TokenData {
        access_token: "acc".to_string(),
        refresh_token: refresh.map(|s| s.to_string()),
        expires_at,
    }
}

#[test]
fn token_decision() {
    assert!(matches!(decide_token_action(&None, 100), TokenAction::Authenticate));
    assert!(matches!(decide_token_action(&Some(tokens(1000, None)), 939), TokenAction::UseStored));
    assert!(matches!(decide_token_action(&Some(tokens(1000, None)), 940), TokenAction::Authenticate));
    match decide_token_action(&Some(tokens(1000, Some("r"))), 2000) {
        TokenAction::Refresh { refresh_token } => assert_eq!(refresh_token, "r"),
        other => panic!("unexpected {other:?}"),
    }
}

#[test]
fn token_data_expiry() {
    let auth = Auth::new("id".to_string(), "http://127.0.0.1:8888/callback".to_string());
    let resp = TokenResponse {
        access_token: "a".to_string(),
        refresh_token: Some("r".to_string()),
        expires_in: 3600,
    };
    let t = auth.to_token_data(resp, 1_700_000_000, Some("old".to_string()));
    assert_eq!(t.access_token, "a");
    assert_eq!(t.refresh_token.as_deref(), Some("r"));
    assert_eq!(t.expires_at, 1_700_003_600);
}

#[test]
fn refresh_without_new_refresh_token_keeps_old_one() {
    let auth = Auth::new("id".to_string(), "http://127.0.0.1:8888/callback".to_string());
    let resp = TokenResponse {
        access_token: "a2".to_string(),
        refresh_token: None,
        expires_in: 3600,
    };
    let t = auth.to_token_data(resp, 100, Some("old".to_string()));
    assert_eq!(t.access_token, "a2");
    assert_eq!(t.refresh_token.as_deref(), Some("old"));
    assert_eq!(t.expires_at, 3700);
    let first = TokenResponse { access_token: "a".to_string(), refresh_token: None, expires_in: 10 };
    assert_eq!(auth.to_token_data(first, 0, None).refresh_token, None);
}

#[test]
fn token_expiring_before_the_first_minute_is_refreshed() {
    match decide_token_action(&Some(tokens(30, Some("r"))), 0) {
        TokenAction::Refresh { refresh_token } => assert_eq!(refresh_token, "r"),
        other => panic!("unexpected {other:?}"),
    }
    assert!(matches!(decide_token_action(&Some(tokens(0, None)), 0), TokenAction::Authenticate));
    assert!(matches!(decide_token_action(&Some(tokens(61, None)), 0), TokenAction::UseStored));
    assert!(matches!(decide_token_action(&Some(tokens(60, None)), 0), TokenAction::Authenticate));
}

#[test]
fn ports_from_redirect_uris() {
    assert_eq!(redirect_port("http://127.0.0.1:8888/callback"), 8888);
    assert_eq!(redirect_port("http://localhost:9000/cb"), 9000);
    assert_eq!(redirect_port("http://localhost:9000"), 9000);
    assert_eq!(redirect_port("http://localhost/cb"), 8888);
    assert_eq!(redirect_port("http://localhost:70000/cb"), 8888);
    assert_eq!(redirect_port(""), 8888);
}

#[test]
fn callback_with_code() {
    assert_eq!(
        parse_callback("GET /callback?code=abc&state=xyz HTTP/1.1\r\n", "xyz"),
        Ok("abc".to_string())
    );
    assert_eq!(
        parse_callback("GET /callback?state=xyz&code=a=b HTTP/1.1", "xyz"),
        Ok("a=b".to_string())
    );
    assert_eq!(
        parse_callback("GET /callback?code=1&code=2&state=s HTTP/1.1", "s"),
        Ok("2".to_string())
    );
}

#[test]
fn callback_errors() {
    assert_eq!(parse_callback("GET /callback HTTP/1.1", "s"), Err(CallbackError::InvalidRequest));
    assert_eq!(parse_callback("", "s"), Err(CallbackError::InvalidRequest));
    assert_eq!(
        parse_callback("GET /callback?code=abc&state=bad HTTP/1.1", "s"),
        Err(CallbackError::StateMismatch)
    );
    assert_eq!(
        parse_callback("GET /callback?code=abc HTTP/1.1", "s"),
        Err(CallbackError::StateMismatch)
    );
    assert_eq!(
        parse_callback("GET /callback?error=access_denied&state=s HTTP/1.1", "s"),
        Err(CallbackError::MissingCode)
    );
    assert_eq!(CallbackError::InvalidRequest.message(), "Invalid callback request");
    assert_eq!(CallbackError::StateMismatch.message(), "State mismatch — possible CSRF");
    assert_eq!(CallbackError::MissingCode.message(), "No code in callback");
}

#[test]
fn pkce_matches_the_rfc_example() {
    let bytes: [u8; 32] = [
        116, 24, 223, 180, 151, 153, 224, 37, 79, 250, 96, 125, 216, 173, 187, 186, 22, 212, 37,
        77, 105, 214, 191, 240, 91, 88, 5, 88, 83, 132, 141, 121,
    ];
    let (verifier, challenge) = pkce_from_bytes(&bytes);
    assert_eq!(verifier, "dBjftJeZ4CVP-mB92K27uhbUJU1p1r_wW1gFWFOEjXk");
    assert_eq!(challenge, "E9Melhoa2OwvFrEMTJguCHaoeK1t8URWbuGJSstw-cM");
}

#[test]
fn base64_without_padding() {
    assert_eq!(pkce_from_bytes(b"hello").0, "aGVsbG8");
    assert_eq!(pkce_from_bytes(b"").0, "");
    assert_eq!(pkce_from_bytes(&[0xfb, 0xff]).0, "-_8");
}

#[test]
fn random_pkce_and_state_lengths() {
    let (v, c) = Auth::pkce_pair();
    assert_eq!(v.len(), 86);
    assert_eq!(c.len(), 43);
    assert_eq!(Auth::random_state().len(), 22);
}

#[test]
fn authorize_url_is_encoded() {
    let auth = Auth::new("cid".to_string(), "http://127.0.0.1:8888/callback".to_string());
    assert_eq!(
        auth.authorize_url("st", "ch"),
        "https://accounts.spotify.com/authorize?client_id=cid&response_type=code\
         &redirect_uri=http%3A%2F%2F127.0.0.1%3A8888%2Fcallback&state=st\
         &scope=user-read-playback-state%20user-modify-playback-state%20user-read-currently-playing%20user-library-read%20playlist-read-private\
         &code_challenge_method=S256&code_challenge=ch"
    );
}

#[test]
fn token_forms() {
    let auth = Auth::new("cid".to_string(), "http://r".to_string());
    let p = auth.exchange_params("code1", "ver");
    let want: Vec<(String, String)> = [
        ("grant_type", "authorization_code"),
        ("code", "code1"),
        ("redirect_uri", "http://r"),
        ("client_id", "cid"),
        ("code_verifier", "ver"),
    ]
    .iter()
    .map(|(a, b)| (a.to_string(), b.to_string()))
    .collect();
    assert_eq!(p, want);
    let p = auth.refresh_params("rt");
    assert_eq!(p[0], ("grant_type".to_string(), "refresh_token".to_string()));
    assert_eq!(p[1], ("refresh_token".to_string(), "rt".to_string()));
    assert_eq!(p[2], ("client_id".to_string(), "cid".to_string()));
    assert_eq!(auth.client_id(), "cid");
    assert_eq!(auth.redirect_uri(), "http://r");
}
