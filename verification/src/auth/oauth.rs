//! Google sign-in: the state of an authorisation request, the query parameters sent to
//! Google, the choice of the key that signed an ID token, and the user it names.
use vstd::prelude::*;
use crate::crypto::{decode_header_key_id, jwt_header_key_id, key_id_view, os_random_bytes, sha256, sha256_digest};
use crate::error::Error;
use crate::ids::Uuid;
use crate::text::{hex_digit, split_on};

verus! {

/// The claims of a session token issued by the API.
pub struct TokenClaims {
    pub sub: Uuid,
    pub mta: Option<Uuid>,
    pub iat: usize,
    pub exp: usize,
}

/// The tokens returned by Google's token endpoint.
pub struct OAuthResponse {
    pub access_token: String,
    pub id_token: String,
}

/// The claims of a Google ID token that the API reads.
pub struct TokenPayload {
    _aud: String,
    _azp: String,
    email: String,
    email_verified: bool,
    _exp: usize,
    given_name: String,
    family_name: String,
    _iat: usize,
    _iss: String,
    name: String,
    sub: String,
}

impl TokenPayload {
    pub closed spec fn spec_sub(&self) -> Seq<char> {
        self.sub@
    }

    pub closed spec fn spec_email(&self) -> Seq<char> {
        self.email@
    }

    pub closed spec fn spec_email_verified(&self) -> bool {
        self.email_verified
    }

    pub closed spec fn spec_name(&self) -> Seq<char> {
        self.name@
    }

    pub closed spec fn spec_given_name(&self) -> Seq<char> {
        self.given_name@
    }

    pub closed spec fn spec_family_name(&self) -> Seq<char> {
        self.family_name@
    }

    /// The claims, in the order audience, authorised party, email, whether the email is
    /// verified, expiry, given name, family name, issue time, issuer, name and subject.
    pub fn new(
        aud: String,
        azp: String,
        email: String,
        email_verified: bool,
        exp: usize,
        given_name: String,
        family_name: String,
        iat: usize,
        iss: String,
        name: String,
        sub: String,
    ) -> (r: Self)
        ensures
            r.spec_sub() == sub@,
            r.spec_email() == email@,
            r.spec_email_verified() == email_verified,
            r.spec_name() == name@,
            r.spec_given_name() == given_name@,
            r.spec_family_name() == family_name@,
    {
        TokenPayload {
            _aud: aud,
            _azp: azp,
            email,
            email_verified,
            _exp: exp,
            given_name,
            family_name,
            _iat: iat,
            _iss: iss,
            name,
            sub,
        }
    }
}

/// The Google user that an ID token names.
pub struct GoogleUserResult {
    pub id: String,
    pub email: String,
    pub verified_email: bool,
    pub name: String,
    pub given_name: String,
    pub family_name: String,
}

impl GoogleUserResult {
    /// The user named by the claims: the subject is the user's identifier.
    pub fn from_token_payload(payload: TokenPayload) -> (r: Self)
        ensures
            r.id@ == payload.spec_sub(),
            r.email@ == payload.spec_email(),
            r.verified_email == payload.spec_email_verified(),
            r.name@ == payload.spec_name(),
            r.given_name@ == payload.spec_given_name(),
            r.family_name@ == payload.spec_family_name(),
    {
        GoogleUserResult {
            id: payload.sub,
            email: payload.email,
            verified_email: payload.email_verified,
            name: payload.name,
            given_name: payload.given_name,
            family_name: payload.family_name,
        }
    }
}

/// One of Google's public signing keys: its algorithm, RSA exponent, key identifier, key
/// type, RSA modulus and use.
pub struct GooglePublicKey {
    pub alg: String,
    pub e: String,
    pub kid: String,
    pub kty: String,
    pub n: String,
    pub use_: String,
}

/// The modulus of the last key in `keys` whose identifier is `kid`, if there is one.
pub open spec fn modulus_for(keys: Seq<GooglePublicKey>, kid: Seq<char>) -> Option<Seq<char>>
    decreases keys.len(),
{
    if keys.len() == 0 {
        None
    } else if keys.last().kid@ == kid {
        Some(keys.last().n@)
    } else {
        modulus_for(keys.drop_last(), kid)
    }
}

/// The modulus of the last key with the given identifier, if there is one.
pub fn find_modulus(keys: &Vec<GooglePublicKey>, kid: &str) -> (r: Option<String>)
    ensures
        r matches Some(n) ==> modulus_for(keys@, kid@) == Some(n@),
        r is None ==> modulus_for(keys@, kid@) is None,
{
    let mut i = keys.len();
    assert(keys@.take(i as int) =~= keys@);
    while i > 0
        invariant
            i <= keys@.len(),
            modulus_for(keys@, kid@) == modulus_for(keys@.take(i as int), kid@),
        decreases i,
    {
        let ghost prefix = keys@.take(i as int);
        assert(prefix.drop_last() =~= keys@.take(i - 1));
        assert(prefix.last() == keys@[i - 1]);
        if crate::text::str_eq(keys[i - 1].kid.as_str(), kid) {
            return Some(keys[i - 1].n.clone());
        }
        i = i - 1;
    }
    None
}

/// How a decoded token header answers the request for its key identifier: the identifier
/// it names; an internal server error when it names none; a token failure when it does not
/// decode, whose detail is the failure's rendering when `verbose`.
pub open spec fn key_id_answer(header: Result<Option<Seq<char>>, Seq<char>>, verbose: bool, r: Result<String, Error>) -> bool {
    match header {
        Ok(Some(k)) => r matches Ok(s) && s@ == k,
        Ok(None) => r matches Err(Error::InternalServerError(d, s))
            && d@ == "No `kid` field in header"@ && s@ == "verify_id_token"@,
        Err(m) => r matches Err(Error::InternalServerError(d, s))
            && d@ == (if verbose { m } else { "Internal server error"@ }) && s@ == "jsonwebtoken"@,
    }
}

/// The key identifier named by a decoded token header, or the error that refuses the token.
pub fn key_id_from_header(header: Result<Option<String>, String>, verbose: bool) -> (r: Result<String, Error>)
    ensures
        key_id_answer(key_id_view(header), verbose, r),
{
    match header {
        Ok(Some(k)) => Ok(k),
        Ok(None) => Err(Error::InternalServerError(
            String::from_str("No `kid` field in header"),
            String::from_str("verify_id_token"),
        )),
        Err(m) => Err(Error::from_token_failure(m, verbose)),
    }
}

/// The identifier of the key that signed an ID token, read from the token's header.
pub fn token_key_id(id_token: &str, verbose: bool) -> (r: Result<String, Error>)
    ensures
        key_id_answer(jwt_header_key_id(id_token@), verbose, r),
        split_on(id_token@, '.').len() < 3 ==> (r matches Err(Error::InternalServerError(d, s))
            && d@ == (if verbose { "InvalidToken"@ } else { "Internal server error"@ }) && s@ == "jsonwebtoken"@),
{
    key_id_from_header(decode_header_key_id(id_token), verbose)
}

/// Bytes written as two lower-case hexadecimal digits each, high digit first.
pub open spec fn hex_lower(bytes: Seq<u8>) -> Seq<char>
    decreases bytes.len(),
{
    if bytes.len() == 0 {
        Seq::<char>::empty()
    } else {
        hex_lower(bytes.drop_last()) + seq![hex_digit(bytes.last() / 16), hex_digit(bytes.last() % 16)]
    }
}

/// Writes bytes as lower-case hexadecimal, two digits per byte.
pub fn to_hex_lower(bytes: &[u8]) -> (r: String)
    ensures
        r@ == hex_lower(bytes@),
{
    let digits: &str = "0123456789abcdef";
    proof {
        reveal_strlit("0123456789abcdef");
    }
    let mut r = String::new();
    let n = bytes.len();
    let mut i: usize = 0;
    while i < n
        invariant
            n == bytes@.len(),
            i <= n,
            digits@ == "0123456789abcdef"@,
            digits@.len() == 16,
            r@ == hex_lower(bytes@.take(i as int)),
        decreases n - i,
    {
        let b = bytes[i];
        let hi = (b / 16) as usize;
        let lo = (b % 16) as usize;
        r.append(digits.substring_char(hi, hi + 1));
        r.append(digits.substring_char(lo, lo + 1));
        assert(bytes@.take(i + 1).drop_last() =~= bytes@.take(i as int));
        assert(bytes@.take(i + 1).last() == b);
        assert(digits@.subrange(hi as int, hi + 1) =~= seq![hex_digit(b / 16)]);
        assert(digits@.subrange(lo as int, lo + 1) =~= seq![hex_digit(b % 16)]);
        assert(r@ =~= hex_lower(bytes@.take(i + 1)));
        i = i + 1;
    }
    assert(bytes@.take(n as int) =~= bytes@);
    r
}

/// The state of an authorisation request derived from random bytes: their SHA-256 digest in
/// lower-case hexadecimal.
pub fn oauth_state_from_random(random: &[u8]) -> (r: String)
    ensures
        r@ == hex_lower(sha256_digest(random@)),
        r@.len() == 64,
{
    let digest = sha256(random);
    proof {
        lemma_hex_lower_len(digest@);
    }
    to_hex_lower(digest.as_slice())
}

/// A fresh state for an authorisation request, from 32 bytes of the operating system's
/// random source; none when the source fails.
pub fn generate_oauth_state() -> (r: Option<String>)
    ensures
        r matches Some(s) ==> s@.len() == 64,
        r matches Some(s) ==> exists|b: Seq<u8>| b.len() == 32 && s@ == #[trigger] hex_lower(sha256_digest(b)),
{
    match os_random_bytes(32) {
        Some(bytes) => {
            let s = oauth_state_from_random(bytes.as_slice());
            assert(s@ == hex_lower(sha256_digest(bytes@)));
            Some(s)
        },
        None => None,
    }
}

/// Hexadecimal text has two digits per byte.
pub proof fn lemma_hex_lower_len(bytes: Seq<u8>)
    ensures
        hex_lower(bytes).len() == 2 * bytes.len(),
    decreases bytes.len(),
{
    if bytes.len() > 0 {
        lemma_hex_lower_len(bytes.drop_last());
    }
}

/// Where Google's authorisation requests are sent.
pub const GOOGLE_OAUTH_INIT_URL: &'static str = "https://accounts.google.com/o/oauth2/v2/auth?";

/// Where authorisation codes are exchanged for tokens.
pub const GOOGLE_TOKEN_URL: &'static str = "https://oauth2.googleapis.com/token?";

/// The scopes requested: OpenID, the user's email address and profile.
pub const GOOGLE_OAUTH_SCOPE: &'static str = "openid https://www.googleapis.com/auth/userinfo.email https://www.googleapis.com/auth/userinfo.profile";

/// The query parameters of an authorisation request to Google.
pub struct GoogleOAuthInitQueryParams {
    pub client_id: String,
    pub redirect_uri: String,
    pub response_type: String,
    pub scope: String,
    pub access_type: String,
    pub state: String,
    pub include_granted_scopes: bool,
    pub hd: String,
    pub prompt: Option<String>,
}

impl GoogleOAuthInitQueryParams {
    /// The parameters of a request for an online code, restricted to the school's domain,
    /// with the given state; Google is asked to let the user choose an account when
    /// `select_account` holds.
    pub fn new(client_id: &str, redirect_uri: &str, state: String, select_account: bool) -> (r: Self)
        ensures
            r.client_id@ == client_id@,
            r.redirect_uri@ == redirect_uri@,
            r.response_type@ == "code"@,
            r.scope@ == GOOGLE_OAUTH_SCOPE@,
            r.access_type@ == "online"@,
            r.state@ == state@,
            r.include_granted_scopes,
            r.hd@ == "sk.ac.th"@,
            select_account ==> (r.prompt matches Some(p) && p@ == "select_account"@),
            !select_account ==> r.prompt is None,
    {
        GoogleOAuthInitQueryParams {
            client_id: String::from_str(client_id),
            redirect_uri: String::from_str(redirect_uri),
            response_type: String::from_str("code"),
            scope: String::from_str(GOOGLE_OAUTH_SCOPE),
            access_type: String::from_str("online"),
            state,
            include_granted_scopes: true,
            hd: String::from_str("sk.ac.th"),
            prompt: if select_account { Some(String::from_str("select_account")) } else { None },
        }
    }
}

/// The address of an authorisation request with the given query string.
pub fn oauth_init_url(query: &str) -> (r: String)
    ensures
        r@ == GOOGLE_OAUTH_INIT_URL@ + query@,
{
    let mut r = String::from_str(GOOGLE_OAUTH_INIT_URL);
    r.append(query);
    r
}

/// The query parameters of a request that exchanges an authorisation code for tokens.
pub struct CodeExchangeQueryParams {
    pub client_id: String,
    pub client_secret: String,
    pub code: String,
    pub grant_type: String,
    pub redirect_uri: String,
}

impl CodeExchangeQueryParams {
    pub fn new(code: &str, client_id: &str, client_secret: &str, redirect_uri: &str) -> (r: Self)
        ensures
            r.client_id@ == client_id@,
            r.client_secret@ == client_secret@,
            r.code@ == code@,
            r.grant_type@ == "authorization_code"@,
            r.redirect_uri@ == redirect_uri@,
    {
        CodeExchangeQueryParams {
            client_id: String::from_str(client_id),
            client_secret: String::from_str(client_secret),
            code: String::from_str(code),
            grant_type: String::from_str("authorization_code"),
            redirect_uri: String::from_str(redirect_uri),
        }
    }
}

/// The address of a code exchange with the given query string.
pub fn code_exchange_url(query: &str) -> (r: String)
    ensures
        r@ == GOOGLE_TOKEN_URL@ + query@,
{
    let mut r = String::from_str(GOOGLE_TOKEN_URL);
    r.append(query);
    r
}

} // verus!
