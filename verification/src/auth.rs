use vstd::prelude::*;
use vstd::string::StringExecFns;
use vstd::utf8::encode_utf8;

use base64::Engine;
use rand::RngCore;
use sha2::Digest;

use crate::text::{
    chars_of, copy_chars, keep_non_empty, non_empty, parse_bounded, parse_unsigned, split_chars,
    split_seq, str_equal, string_of, views, Separator,
};

verus! {

// ── Tokens ───────────────────────────────────────────────────────────────────

/// The tokens that authorize requests.
#[derive(Debug, Clone)]
pub struct TokenData {
    pub access_token: String,
    pub refresh_token: Option<String>,
    /// Unix time, in seconds, at which the access token expires.
    pub expires_at: u64,
}

/// What the token endpoint answers.
#[derive(Debug)]
pub struct TokenResponse {
    pub access_token: String,
    pub refresh_token: Option<String>,
    /// Seconds until the access token expires.
    pub expires_in: u64,
}

/// What to do with the tokens stored from an earlier run.
#[derive(Debug)]
pub enum TokenAction {
    /// They are valid for more than a minute: use them.
    UseStored,
    /// They expire within a minute: get new ones with this refresh token.
    Refresh { refresh_token: String },
    /// There are none, or they cannot be refreshed: log in.
    Authenticate,
}

/// How long before their expiry tokens are renewed, in seconds.
pub open spec fn expiry_margin() -> nat {
    60
}

/// What to do with the tokens read at start-up (`None` when none could be read), at Unix
/// time `now`. Stored tokens are used while `now` lies more than a minute before their
/// expiry (the minute taken off saturates at 0); otherwise they are refreshed when they
/// hold a refresh token.
pub fn decide_token_action(stored: &Option<TokenData>, now: u64) -> (r: TokenAction)
    ensures
        match stored {
            None => r is Authenticate,
            Some(t) => if now + expiry_margin() < t.expires_at {
                r is UseStored
            } else {
                match t.refresh_token {
                    Some(rt) => r matches TokenAction::Refresh { refresh_token } && refresh_token
                        == rt,
                    None => r is Authenticate,
                }
            },
        },
{
    match stored {
        Some(tokens) => {
            if now < tokens.expires_at.saturating_sub(60) {
                TokenAction::UseStored
            } else {
                match &tokens.refresh_token {
                    Some(rt) => TokenAction::Refresh { refresh_token: rt.clone() },
                    None => TokenAction::Authenticate,
                }
            }
        },
        None => TokenAction::Authenticate,
    }
}

/// The client that logs in: its id and the URI the login page redirects to.
#[derive(Debug)]
pub struct Auth {
    client_id: String,
    redirect_uri: String,
}

impl Auth {
    /// The client id.
    pub closed spec fn spec_client_id(&self) -> Seq<char> {
        self.client_id@
    }

    /// The redirect URI.
    pub closed spec fn spec_redirect_uri(&self) -> Seq<char> {
        self.redirect_uri@
    }

    /// A client with this id that is redirected to `redirect_uri`.
    pub fn new(client_id: String, redirect_uri: String) -> (r: Self)
        ensures
            r.spec_client_id() == client_id@,
            r.spec_redirect_uri() == redirect_uri@,
    {
        Auth { client_id, redirect_uri }
    }

    /// The client id.
    pub fn client_id(&self) -> (r: &str)
        ensures
            r@ == self.spec_client_id(),
    {
        self.client_id.as_str()
    }

    /// The redirect URI.
    pub fn redirect_uri(&self) -> (r: &str)
        ensures
            r@ == self.spec_redirect_uri(),
    {
        self.redirect_uri.as_str()
    }

    /// The tokens of an answer of the token endpoint received at Unix time `now`. An answer
    /// without a refresh token keeps `previous_refresh`, the refresh token held before (none
    /// after a first login), so that later runs can still refresh.
    pub fn to_token_data(
        &self,
        resp: TokenResponse,
        now: u64,
        previous_refresh: Option<String>,
    ) -> (r: TokenData)
        requires
            now + resp.expires_in <= u64::MAX,
        ensures
            r.access_token == resp.access_token,
            r.refresh_token == match resp.refresh_token {
                Some(t) => Some(t),
                None => previous_refresh,
            },
            r.expires_at == now + resp.expires_in,
    {
        let refresh_token = match resp.refresh_token {
            Some(t) => Some(t),
            None => previous_refresh,
        };
        TokenData {
            access_token: resp.access_token,
            refresh_token,
            expires_at: now + resp.expires_in,
        }
    }
}


// ── The redirect ─────────────────────────────────────────────────────────────

/// The port the redirect URI names: what follows its last `:` up to the first `/`, read
/// as a number; 8888 when that does not read.
pub open spec fn redirect_port_of(uri: Seq<char>) -> u16 {
    let after_colon = split_seq(uri, Separator::Char(':')).last();
    let digits = split_seq(after_colon, Separator::Char('/'))[0];
    match parse_unsigned(digits, 65535) {
        Some(v) => v as u16,
        None => 8888,
    }
}

/// The words of a line: the pieces between runs of whitespace, as `str::split_whitespace`
/// yields them.
pub open spec fn words(s: Seq<char>) -> Seq<Seq<char>> {
    non_empty(split_seq(s, Separator::Whitespace))
}

/// What precedes the first `=` of a `key=value` pair (all of it when there is none).
pub open spec fn pair_key(p: Seq<char>) -> Seq<char> {
    split_seq(p, Separator::Char('='))[0]
}

/// What follows the first `=` of a `key=value` pair, if there is a `=`.
pub open spec fn pair_value(p: Seq<char>) -> Option<Seq<char>> {
    if split_seq(p, Separator::Char('=')).len() >= 2 {
        Some(p.skip(pair_key(p).len() as int + 1))
    } else {
        None
    }
}

/// The value of the last pair named `name` that has a value.
pub open spec fn param_value(pairs: Seq<Seq<char>>, name: Seq<char>) -> Option<Seq<char>>
    decreases pairs.len(),
{
    if pairs.len() == 0 {
        None
    } else if pair_key(pairs.last()) == name && pair_value(pairs.last()) is Some {
        pair_value(pairs.last())
    } else {
        param_value(pairs.drop_last(), name)
    }
}

/// Why a callback request is refused.
#[derive(Clone, Copy, Debug, PartialEq, Eq, Structural)]
pub enum CallbackError {
    /// The request line has no path with a query.
    InvalidRequest,
    /// The `state` parameter is not the one sent with the login request.
    StateMismatch,
    /// There is no `code` parameter.
    MissingCode,
}

/// The message of a refused callback.
pub open spec fn callback_error_message(e: CallbackError) -> Seq<char> {
    match e {
        CallbackError::InvalidRequest => "Invalid callback request"@,
        CallbackError::StateMismatch => "State mismatch — possible CSRF"@,
        CallbackError::MissingCode => "No code in callback"@,
    }
}

impl CallbackError {
    /// The message of the error.
    pub fn message(&self) -> (r: &'static str)
        ensures
            r@ == callback_error_message(*self),
    {
        match self {
            CallbackError::InvalidRequest => "Invalid callback request",
            CallbackError::StateMismatch => "State mismatch — possible CSRF",
            CallbackError::MissingCode => "No code in callback",
        }
    }
}

/// The query of the request line `GET /callback?code=...&state=... HTTP/1.1`: what follows
/// the first `?` of its second word, up to a second `?`.
pub open spec fn callback_query(line: Seq<char>) -> Option<Seq<char>> {
    let w = words(line);
    if w.len() >= 2 && split_seq(w[1], Separator::Char('?')).len() >= 2 {
        Some(split_seq(w[1], Separator::Char('?'))[1])
    } else {
        None
    }
}

/// What a callback request line yields: the authorization code, when the request has a
/// query, its `state` is the expected one, and it holds a `code`.
pub open spec fn callback_result(line: Seq<char>, expected_state: Seq<char>) -> Result<
    Seq<char>,
    CallbackError,
> {
    match callback_query(line) {
        None => Err(CallbackError::InvalidRequest),
        Some(q) => {
            let pairs = split_seq(q, Separator::Char('&'));
            if param_value(pairs, "state"@) != Some(expected_state) {
                Err(CallbackError::StateMismatch)
            } else {
                match param_value(pairs, "code"@) {
                    Some(c) => Ok(c),
                    None => Err(CallbackError::MissingCode),
                }
            }
        },
    }
}

/// The port to listen on for the redirect.
pub fn redirect_port(redirect_uri: &str) -> (r: u16)
    ensures
        r == redirect_port_of(redirect_uri@),
{
    let cs = chars_of(redirect_uri);
    let pieces = split_chars(&cs, Separator::Char(':'));
    proof {
        crate::text::lemma_split_nonempty(cs@, Separator::Char(':'));
    }
    let last = &pieces[pieces.len() - 1];
    let parts = split_chars(last, Separator::Char('/'));
    proof {
        crate::text::lemma_split_nonempty(last@, Separator::Char('/'));
    }
    match parse_bounded(&parts[0], 65535) {
        Some(v) => v as u16,
        None => 8888,
    }
}

/// The position of the first `c` in `p`, if any.
fn first_index_of(p: &Vec<char>, c: char) -> (r: Option<usize>)
    ensures
        r matches Some(i) ==> i < p@.len() && p@[i as int] == c && forall|j: int|
            0 <= j < i ==> p@[j] != c,
        r is None ==> forall|j: int| 0 <= j < p@.len() ==> p@[j] != c,
{
    let mut i: usize = 0;
    while i < p.len()
        invariant
            i <= p@.len(),
            forall|j: int| 0 <= j < i ==> p@[j] != c,
        decreases p.len() - i,
    {
        if p[i] == c {
            return Some(i);
        }
        i = i + 1;
    }
    None
}

proof fn lemma_split_first_piece(p: Seq<char>, sep: Separator, i: int)
    requires
        0 <= i <= p.len(),
        forall|j: int| 0 <= j < i ==> !crate::text::separates(sep, #[trigger] p[j]),
        i < p.len() ==> crate::text::separates(sep, p[i]),
    ensures
        split_seq(p, sep)[0] == p.subrange(0, i),
        split_seq(p, sep).len() >= 2 <==> i < p.len(),
    decreases p.len(),
{
    crate::text::lemma_split_nonempty(p, sep);
    if p.len() > 0 {
        if i < p.len() {
            if i == p.len() - 1 {
                crate::text::lemma_split_no_separator(p.drop_last(), sep);
                assert(p.drop_last() =~= p.subrange(0, i));
            } else {
                lemma_split_first_piece(p.drop_last(), sep, i);
                crate::text::lemma_split_nonempty(p.drop_last(), sep);
                assert(p.drop_last().subrange(0, i) =~= p.subrange(0, i));
            }
        } else {
            crate::text::lemma_split_no_separator(p, sep);
            assert(p.subrange(0, i) =~= p);
        }
    } else {
        assert(p.subrange(0, i) =~= p);
    }
}

/// The key of a `key=value` pair, and its value if it has a `=`.
fn split_pair(p: &Vec<char>) -> (r: (Vec<char>, Option<Vec<char>>))
    ensures
        r.0@ == pair_key(p@),
        match r.1 {
            Some(v) => pair_value(p@) == Some(v@),
            None => pair_value(p@) is None,
        },
{
    let idx = first_index_of(p, '=');
    match idx {
        Some(i) => {
            proof {
                lemma_split_first_piece(p@, Separator::Char('='), i as int);
            }
            let mut key: Vec<char> = Vec::new();
            let mut k: usize = 0;
            while k < i
                invariant
                    i < p@.len(),
                    k <= i,
                    key@ == p@.subrange(0, k as int),
                decreases i - k,
            {
                key.push(p[k]);
                k = k + 1;
            }
            let mut value: Vec<char> = Vec::new();
            assert(i < p.len());
            let mut m: usize = i + 1;
            while m < p.len()
                invariant
                    i < p@.len(),
                    i + 1 <= m <= p@.len(),
                    value@ == p@.subrange(i + 1, m as int),
                decreases p.len() - m,
            {
                value.push(p[m]);
                m = m + 1;
            }
            assert(value@ =~= p@.skip(i + 1));
            (key, Some(value))
        },
        None => {
            proof {
                lemma_split_first_piece(p@, Separator::Char('='), p@.len() as int);
                assert(p@.subrange(0, p@.len() as int) =~= p@);
            }
            (copy_chars(p), None)
        },
    }
}

/// The value of the last pair named `name` that has a value.
fn find_param(pairs: &Vec<Vec<char>>, name: &str) -> (r: Option<Vec<char>>)
    ensures
        match r {
            Some(v) => param_value(views(pairs@), name@) == Some(v@),
            None => param_value(views(pairs@), name@) is None,
        },
{
    let ghost all = views(pairs@);
    let mut found: Option<Vec<char>> = None;
    let mut i: usize = 0;
    assert(all.subrange(0, 0) =~= Seq::<Seq<char>>::empty());
    while i < pairs.len()
        invariant
            i <= pairs@.len(),
            all == views(pairs@),
            match found {
                Some(v) => param_value(all.subrange(0, i as int), name@) == Some(v@),
                None => param_value(all.subrange(0, i as int), name@) is None,
            },
        decreases pairs.len() - i,
    {
        let (key, value) = split_pair(&pairs[i]);
        let key_str = string_of(&key);
        let ghost pre = all.subrange(0, i as int);
        let ghost post = all.subrange(0, i + 1);
        assert(post.drop_last() =~= pre);
        assert(post.last() == pairs@[i as int]@);
        if str_equal(key_str.as_str(), name) {
            match value {
                Some(v) => {
                    found = Some(v);
                },
                None => {},
            }
        }
        i = i + 1;
    }
    assert(all.subrange(0, pairs@.len() as int) =~= all);
    found
}

/// Reads the authorization code from the request line of the callback.
pub fn parse_callback(request_line: &str, expected_state: &str) -> (r: Result<String, CallbackError>)
    ensures
        match r {
            Ok(c) => callback_result(request_line@, expected_state@) == Ok::<Seq<char>, CallbackError>(c@),
            Err(e) => callback_result(request_line@, expected_state@) == Err::<Seq<char>, CallbackError>(e),
        },
{
    let cs = chars_of(request_line);
    let pieces = split_chars(&cs, Separator::Whitespace);
    let w = keep_non_empty(&pieces);
    if w.len() < 2 {
        return Err(CallbackError::InvalidRequest);
    }
    let parts = split_chars(&w[1], Separator::Char('?'));
    if parts.len() < 2 {
        return Err(CallbackError::InvalidRequest);
    }
    let pairs = split_chars(&parts[1], Separator::Char('&'));
    let code = find_param(&pairs, "code");
    let state = find_param(&pairs, "state");
    let state_ok = match &state {
        Some(v) => str_equal(string_of(v).as_str(), expected_state),
        None => false,
    };
    if !state_ok {
        return Err(CallbackError::StateMismatch);
    }
    match code {
        Some(c) => Ok(string_of(&c)),
        None => Err(CallbackError::MissingCode),
    }
}


// ── Encodings ────────────────────────────────────────────────────────────────

/// Whether a byte stands for itself in a percent-encoded URL component: ASCII letters,
/// digits, `-`, `.`, `_` and `~`.
pub open spec fn is_unreserved(b: u8) -> bool {
    ||| 48 <= b <= 57
    ||| 65 <= b <= 90
    ||| 97 <= b <= 122
    ||| b == 45
    ||| b == 46
    ||| b == 95
    ||| b == 126
}

/// An upper-case hexadecimal digit.
pub open spec fn hex_digit(d: nat) -> char {
    if d < 10 {
        ((d + 48) as u32) as char
    } else {
        ((d + 55) as u32) as char
    }
}

/// A byte percent-encoded: itself when unreserved, else `%` and two upper-case hex digits.
pub open spec fn url_encoded_byte(b: u8) -> Seq<char> {
    if is_unreserved(b) {
        seq![(b as u32) as char]
    } else {
        seq!['%', hex_digit(b as nat / 16), hex_digit(b as nat % 16)]
    }
}

/// Bytes percent-encoded one by one.
pub open spec fn url_encoded(bytes: Seq<u8>) -> Seq<char>
    decreases bytes.len(),
{
    if bytes.len() == 0 {
        Seq::empty()
    } else {
        url_encoded(bytes.drop_last()) + url_encoded_byte(bytes.last())
    }
}

/// Calls `urlencoding::encode`, which percent-encodes every byte of the text's UTF-8 form
/// except ASCII letters, digits, `-`, `.`, `_` and `~`, writing upper-case hex digits.
#[verifier::external_body]
fn url_encode(s: &str) -> (r: String)
    ensures
        r@ == url_encoded(encode_utf8(s@)),
{
    urlencoding::encode(s).into_owned()
}

/// The character of a 6-bit value in the URL-safe base64 alphabet
/// `A`–`Z`, `a`–`z`, `0`–`9`, `-`, `_`.
pub open spec fn base64_char(i: nat) -> char {
    if i < 26 {
        ((65 + i) as u32) as char
    } else if i < 52 {
        ((71 + i) as u32) as char
    } else if i < 62 {
        ((i - 4) as u32) as char
    } else if i == 62 {
        '-'
    } else {
        '_'
    }
}

/// Bytes in URL-safe base64 without padding: each group of three bytes gives four
/// characters, a last group of two gives three, and a last single byte gives two.
pub open spec fn base64_url(bytes: Seq<u8>) -> Seq<char>
    decreases bytes.len(),
{
    if bytes.len() >= 3 {
        let n = bytes[0] as nat * 65536 + bytes[1] as nat * 256 + bytes[2] as nat;
        seq![
            base64_char(n / 262144),
            base64_char((n / 4096) % 64),
            base64_char((n / 64) % 64),
            base64_char(n % 64),
        ] + base64_url(bytes.skip(3))
    } else if bytes.len() == 2 {
        let n = bytes[0] as nat * 256 + bytes[1] as nat;
        seq![base64_char(n / 1024), base64_char((n / 16) % 64), base64_char((n % 16) * 4)]
    } else if bytes.len() == 1 {
        seq![base64_char(bytes[0] as nat / 4), base64_char((bytes[0] as nat % 4) * 16)]
    } else {
        Seq::empty()
    }
}

/// Calls `Engine::encode` of `base64::engine::general_purpose::URL_SAFE_NO_PAD`: standard
/// base64 over the URL-safe alphabet, without `=` padding.
#[verifier::external_body]
fn encode_base64_url(bytes: &[u8]) -> (r: String)
    ensures
        r@ == base64_url(bytes@),
{
    base64::engine::general_purpose::URL_SAFE_NO_PAD.encode(bytes)
}

/// The SHA-256 digest of some bytes.
pub uninterp spec fn sha256_of(data: Seq<u8>) -> Seq<u8>;

/// Calls `sha2::Sha256::digest`; the digest depends on the bytes alone.
#[verifier::external_body]
fn sha256(data: &[u8]) -> (r: Vec<u8>)
    ensures
        r@ == sha256_of(data@),
{
    sha2::Sha256::digest(data).to_vec()
}

/// Fills `n` bytes from `rand::thread_rng` (`RngCore::fill_bytes`). Nothing is stated of
/// their values, which are random.
#[verifier::external_body]
fn random_bytes(n: usize) -> (r: Vec<u8>)
    ensures
        r@.len() == n,
{
    let mut v = vec![0u8; n];
    rand::thread_rng().fill_bytes(&mut v);
    v
}

// ── Login ────────────────────────────────────────────────────────────────────

/// A PKCE verifier made from some bytes, and its challenge: the verifier is the bytes in
/// URL-safe base64, and the challenge the SHA-256 digest of the verifier's text, in
/// URL-safe base64.
pub fn pkce_from_bytes(bytes: &[u8]) -> (r: (String, String))
    ensures
        r.0@ == base64_url(bytes@),
        r.1@ == base64_url(sha256_of(encode_utf8(r.0@))),
{
    let verifier = encode_base64_url(bytes);
    let digest = sha256(verifier.as_str().as_bytes());
    let challenge = encode_base64_url(digest.as_slice());
    (verifier, challenge)
}

/// The scopes the login asks for, separated by spaces.
pub open spec fn scopes_text() -> Seq<char> {
    "user-read-playback-state user-modify-playback-state user-read-currently-playing user-library-read playlist-read-private"@
}

/// The address of the login page.
pub open spec fn authorize_url_of(
    client_id: Seq<char>,
    redirect_uri: Seq<char>,
    state: Seq<char>,
    challenge: Seq<char>,
) -> Seq<char> {
    "https://accounts.spotify.com/authorize?client_id="@ + client_id
        + "&response_type=code&redirect_uri="@ + url_encoded(encode_utf8(redirect_uri))
        + "&state="@ + state + "&scope="@ + url_encoded(encode_utf8(scopes_text()))
        + "&code_challenge_method=S256&code_challenge="@ + challenge
}

/// Pairs of strings, as character sequences.
pub open spec fn pair_views(v: Seq<(String, String)>) -> Seq<(Seq<char>, Seq<char>)> {
    v.map_values(|p: (String, String)| (p.0@, p.1@))
}

/// A pair of strings made from two string slices.
fn pair(k: &str, v: &str) -> (r: (String, String))
    ensures
        r.0@ == k@,
        r.1@ == v@,
{
    (String::from_str(k), String::from_str(v))
}

impl Auth {
    /// A new PKCE verifier from 64 random bytes, and its challenge.
    pub fn pkce_pair() -> (r: (String, String))
        ensures
            exists|b: Seq<u8>| b.len() == 64 && r.0@ == base64_url(b),
            r.1@ == base64_url(sha256_of(encode_utf8(r.0@))),
    {
        let bytes = random_bytes(64);
        pkce_from_bytes(bytes.as_slice())
    }

    /// A new `state` value for the login request: 16 random bytes in URL-safe base64.
    pub fn random_state() -> (r: String)
        ensures
            exists|b: Seq<u8>| b.len() == 16 && r@ == base64_url(b),
    {
        let bytes = random_bytes(16);
        encode_base64_url(bytes.as_slice())
    }

    /// The address of the login page for this client.
    pub fn authorize_url(&self, state: &str, code_challenge: &str) -> (r: String)
        ensures
            r@ == authorize_url_of(
                self.spec_client_id(),
                self.spec_redirect_uri(),
                state@,
                code_challenge@,
            ),
    {
        let redirect = url_encode(self.redirect_uri.as_str());
        let scopes = url_encode(
            "user-read-playback-state user-modify-playback-state user-read-currently-playing user-library-read playlist-read-private",
        );
        let r = String::from_str("https://accounts.spotify.com/authorize?client_id=")
            .concat(self.client_id.as_str())
            .concat("&response_type=code&redirect_uri=")
            .concat(redirect.as_str())
            .concat("&state=")
            .concat(state)
            .concat("&scope=")
            .concat(scopes.as_str())
            .concat("&code_challenge_method=S256&code_challenge=")
            .concat(code_challenge);
        r
    }

    /// The form that trades an authorization code for tokens.
    pub fn exchange_params(&self, code: &str, verifier: &str) -> (r: Vec<(String, String)>)
        ensures
            pair_views(r@) == seq![
                ("grant_type"@, "authorization_code"@),
                ("code"@, code@),
                ("redirect_uri"@, self.spec_redirect_uri()),
                ("client_id"@, self.spec_client_id()),
                ("code_verifier"@, verifier@),
            ],
    {
        let mut r: Vec<(String, String)> = Vec::new();
        r.push(pair("grant_type", "authorization_code"));
        r.push(pair("code", code));
        r.push(pair("redirect_uri", self.redirect_uri.as_str()));
        r.push(pair("client_id", self.client_id.as_str()));
        r.push(pair("code_verifier", verifier));
        assert(pair_views(r@) =~= seq![
            ("grant_type"@, "authorization_code"@),
            ("code"@, code@),
            ("redirect_uri"@, self.spec_redirect_uri()),
            ("client_id"@, self.spec_client_id()),
            ("code_verifier"@, verifier@),
        ]);
        r
    }

    /// The form that trades a refresh token for new tokens.
    pub fn refresh_params(&self, refresh_token: &str) -> (r: Vec<(String, String)>)
        ensures
            pair_views(r@) == seq![
                ("grant_type"@, "refresh_token"@),
                ("refresh_token"@, refresh_token@),
                ("client_id"@, self.spec_client_id()),
            ],
    {
        let mut r: Vec<(String, String)> = Vec::new();
        r.push(pair("grant_type", "refresh_token"));
        r.push(pair("refresh_token", refresh_token));
        r.push(pair("client_id", self.client_id.as_str()));
        assert(pair_views(r@) =~= seq![
            ("grant_type"@, "refresh_token"@),
            ("refresh_token"@, refresh_token@),
            ("client_id"@, self.spec_client_id()),
        ]);
        r
    }
}

// ── Laws ─────────────────────────────────────────────────────────────────────

/// The port written in a redirect URI, after its last `:` and before the path, is the one
/// listened on.
pub proof fn lemma_redirect_port_written(prefix: Seq<char>, port: nat, path: Seq<char>)
    requires
        port <= 65535,
        forall|i: int| 0 <= i < path.len() ==> path[i] != ':',
        path.len() > 0 ==> path[0] == '/',
    ensures
        redirect_port_of(prefix + seq![':'] + crate::text::decimal(port) + path) == port as u16,
{
    let d = crate::text::decimal(port);
    crate::text::lemma_decimal_value(port);
    let b = d + path;
    assert forall|i: int| 0 <= i < b.len() implies !crate::text::separates(
        Separator::Char(':'),
        #[trigger] b[i],
    ) by {
        if i < d.len() {
            assert(crate::text::is_digit(d[i]));
        } else {
            assert(b[i] == path[i - d.len()]);
        }
    }
    crate::text::lemma_split_append(prefix, ':', b, Separator::Char(':'));
    assert(prefix + seq![':'] + d + path =~= prefix + seq![':'] + b);
    assert(split_seq(prefix + seq![':'] + b, Separator::Char(':')).last() == b);
    assert forall|j: int| 0 <= j < d.len() implies !crate::text::separates(
        Separator::Char('/'),
        #[trigger] b[j],
    ) by {
        assert(crate::text::is_digit(d[j]));
    }
    if path.len() > 0 {
        assert(b[d.len() as int] == '/');
    }
    lemma_split_first_piece(b, Separator::Char('/'), d.len() as int);
    assert(b.subrange(0, d.len() as int) =~= d);
    crate::text::lemma_parse_decimal(port, 65535);
}

proof fn lemma_no_separator_concat(a: Seq<char>, b: Seq<char>, sep: Separator)
    requires
        forall|i: int| 0 <= i < a.len() ==> !crate::text::separates(sep, #[trigger] a[i]),
        forall|i: int| 0 <= i < b.len() ==> !crate::text::separates(sep, #[trigger] b[i]),
    ensures
        forall|i: int| 0 <= i < (a + b).len() ==> !crate::text::separates(sep, #[trigger] (a + b)[i]),
{
    assert forall|i: int| 0 <= i < (a + b).len() implies !crate::text::separates(
        sep,
        #[trigger] (a + b)[i],
    ) by {
        if i < a.len() {
            assert((a + b)[i] == a[i]);
        } else {
            assert((a + b)[i] == b[i - a.len()]);
        }
    }
}

proof fn lemma_pair_parts(name: Seq<char>, value: Seq<char>)
    requires
        forall|i: int| 0 <= i < name.len() ==> name[i] != '=',
    ensures
        pair_key(name + seq!['='] + value) == name,
        pair_value(name + seq!['='] + value) == Some(value),
{
    let p = name + seq!['='] + value;
    assert forall|j: int| 0 <= j < name.len() implies !crate::text::separates(
        Separator::Char('='),
        #[trigger] p[j],
    ) by {
        assert(p[j] == name[j]);
    }
    assert(p[name.len() as int] == '=');
    lemma_split_first_piece(p, Separator::Char('='), name.len() as int);
    assert(p.subrange(0, name.len() as int) =~= name);
    assert(p.skip(name.len() as int + 1) =~= value);
}

/// The request line a browser sends when the login page redirects with a code and a state
/// is read back as that code, when the state is the expected one.
pub proof fn lemma_callback_round_trip(path: Seq<char>, code: Seq<char>, state: Seq<char>)
    requires
        forall|i: int| 0 <= i < path.len() ==> !crate::text::is_whitespace(#[trigger] path[i])
            && path[i] != '?',
        forall|i: int|
            0 <= i < code.len() ==> !crate::text::is_whitespace(#[trigger] code[i]) && code[i]
                != '?' && code[i] != '&',
        forall|i: int|
            0 <= i < state.len() ==> !crate::text::is_whitespace(#[trigger] state[i]) && state[i]
                != '?' && state[i] != '&',
    ensures
        callback_result(
            "GET "@ + path + "?code="@ + code + "&state="@ + state + " HTTP/1.1"@,
            state,
        ) == Ok::<Seq<char>, CallbackError>(code),
{
    reveal_strlit("GET ");
    reveal_strlit("?code=");
    reveal_strlit("&state=");
    reveal_strlit(" HTTP/1.1");
    let get = seq!['G', 'E', 'T'];
    let version = seq!['H', 'T', 'T', 'P', '/', '1', '.', '1'];
    let code_pair = seq!['c', 'o', 'd', 'e'] + seq!['='] + code;
    let state_pair = seq!['s', 't', 'a', 't', 'e'] + seq!['='] + state;
    let query = code_pair + seq!['&'] + state_pair;
    let target = path + seq!['?'] + query;
    let line = "GET "@ + path + "?code="@ + code + "&state="@ + state + " HTTP/1.1"@;
    assert(line =~= get + seq![' '] + target + seq![' '] + version);

    // The words of the line.
    let ws = Separator::Whitespace;
    assert forall|i: int| 0 <= i < get.len() implies !crate::text::separates(ws, #[trigger] get[i]) by {}
    assert forall|i: int| 0 <= i < version.len() implies !crate::text::separates(
        ws,
        #[trigger] version[i],
    ) by {}
    assert forall|i: int| 0 <= i < code_pair.len() implies !crate::text::separates(
        ws,
        #[trigger] code_pair[i],
    ) by {
        if i >= 5 {
            assert(code_pair[i] == code[i - 5]);
        }
    }
    assert forall|i: int| 0 <= i < state_pair.len() implies !crate::text::separates(
        ws,
        #[trigger] state_pair[i],
    ) by {
        if i >= 6 {
            assert(state_pair[i] == state[i - 6]);
        }
    }
    lemma_no_separator_concat(code_pair, seq!['&'], ws);
    lemma_no_separator_concat(code_pair + seq!['&'], state_pair, ws);
    lemma_no_separator_concat(path, seq!['?'], ws);
    lemma_no_separator_concat(path + seq!['?'], query, ws);
    assert(path + seq!['?'] + query == target);
    crate::text::lemma_split_no_separator(get, ws);
    crate::text::lemma_split_append(get, ' ', target, ws);
    crate::text::lemma_split_append(get + seq![' '] + target, ' ', version, ws);
    let pieces = split_seq(line, ws);
    assert(pieces =~= seq![get, target, version]);
    assert(pieces.drop_last() =~= seq![get, target]);
    assert(pieces.drop_last().drop_last() =~= seq![get]);
    assert(pieces.drop_last().drop_last().drop_last() =~= Seq::<Seq<char>>::empty());
    let p1 = pieces.drop_last().drop_last();
    let p2 = pieces.drop_last();
    assert(non_empty(p1.drop_last()) =~= Seq::<Seq<char>>::empty());
    assert(p1.last() == get);
    assert(non_empty(p1) =~= seq![get]);
    assert(p2.drop_last() == p1);
    assert(p2.last() == target);
    assert(target.len() > 0);
    assert(non_empty(p2) =~= seq![get, target]);
    assert(pieces.last() == version);
    assert(non_empty(pieces) =~= seq![get, target, version]);
    assert(words(line)[1] == target);

    // The query of the target.
    let qm = Separator::Char('?');
    assert forall|i: int| 0 <= i < path.len() implies !crate::text::separates(qm, #[trigger] path[i]) by {}
    assert forall|i: int| 0 <= i < code_pair.len() implies !crate::text::separates(
        qm,
        #[trigger] code_pair[i],
    ) by {
        if i >= 5 {
            assert(code_pair[i] == code[i - 5]);
        }
    }
    assert forall|i: int| 0 <= i < state_pair.len() implies !crate::text::separates(
        qm,
        #[trigger] state_pair[i],
    ) by {
        if i >= 6 {
            assert(state_pair[i] == state[i - 6]);
        }
    }
    lemma_no_separator_concat(code_pair, seq!['&'], qm);
    lemma_no_separator_concat(code_pair + seq!['&'], state_pair, qm);
    crate::text::lemma_split_no_separator(path, qm);
    crate::text::lemma_split_append(path, '?', query, qm);
    assert(split_seq(target, qm) =~= seq![path, query]);
    assert(callback_query(line) == Some(query));

    // The pairs of the query.
    let amp = Separator::Char('&');
    assert forall|i: int| 0 <= i < code_pair.len() implies !crate::text::separates(
        amp,
        #[trigger] code_pair[i],
    ) by {
        if i >= 5 {
            assert(code_pair[i] == code[i - 5]);
        }
    }
    assert forall|i: int| 0 <= i < state_pair.len() implies !crate::text::separates(
        amp,
        #[trigger] state_pair[i],
    ) by {
        if i >= 6 {
            assert(state_pair[i] == state[i - 6]);
        }
    }
    crate::text::lemma_split_no_separator(code_pair, amp);
    crate::text::lemma_split_append(code_pair, '&', state_pair, amp);
    let pairs = split_seq(query, amp);
    assert(pairs =~= seq![code_pair, state_pair]);
    lemma_pair_parts(seq!['c', 'o', 'd', 'e'], code);
    lemma_pair_parts(seq!['s', 't', 'a', 't', 'e'], state);
    reveal_strlit("state");
    reveal_strlit("code");
    assert("state"@ =~= seq!['s', 't', 'a', 't', 'e']);
    assert("code"@ =~= seq!['c', 'o', 'd', 'e']);
    assert(param_value(pairs, "state"@) == Some(state));
    assert(pairs.drop_last() =~= seq![code_pair]);
    assert(pair_key(pairs.last()) != "code"@);
    assert(param_value(pairs.drop_last(), "code"@) == Some(code));
    assert(param_value(pairs, "code"@) == Some(code));
}

} // verus!
