//! Google sign-in claims and users, with the profile picture.
use vstd::prelude::*;
use crate::crypto::{decode_header_key_id, jwt_header_key_id, key_id_view};
use crate::text::split_on;

verus! {

/// The claims of a session token, with the subject as text.
pub struct TokenClaims {
    pub sub: String,
    pub iat: usize,
    pub exp: usize,
}

/// The tokens returned by Google's token endpoint.
pub struct OAuthResponse {
    pub access_token: String,
    pub id_token: String,
}

/// The claims of a Google ID token that the API reads, with the profile picture.
pub struct TokenPayload {
    _aud: String,
    _azp: String,
    email: String,
    email_verified: bool,
    _exp: usize,
    given_name: String,
    family_name: String,
    _iat: usize,
    _iss: String,
    _jti: String,
    name: String,
    _nbf: usize,
    picture: String,
    sub: String,
}

impl TokenPayload {
    pub closed spec fn spec_sub(&self) -> Seq<char> {
        self.sub@
    }

    pub closed spec fn spec_email(&self) -> Seq<char> {
        self.email@
    }

    pub closed spec fn spec_email_verified(&self) -> bool {
        self.email_verified
    }

    pub closed spec fn spec_name(&self) -> Seq<char> {
        self.name@
    }

    pub closed spec fn spec_given_name(&self) -> Seq<char> {
        self.given_name@
    }

    pub closed spec fn spec_family_name(&self) -> Seq<char> {
        self.family_name@
    }

    pub closed spec fn spec_picture(&self) -> Seq<char> {
        self.picture@
    }

    /// The claims, in the order audience, authorised party, email, whether the email is
    /// verified, expiry, given name, family name, issue time, issuer, token identifier,
    /// name, not-before time, picture and subject.
    pub fn new(
        aud: String,
        azp: String,
        email: String,
        email_verified: bool,
        exp: usize,
        given_name: String,
        family_name: String,
        iat: usize,
        iss: String,
        jti: String,
        name: String,
        nbf: usize,
        picture: String,
        sub: String,
    ) -> (r: Self)
        ensures
            r.spec_sub() == sub@,
            r.spec_email() == email@,
            r.spec_email_verified() == email_verified,
            r.spec_name() == name@,
            r.spec_given_name() == given_name@,
            r.spec_family_name() == family_name@,
            r.spec_picture() == picture@,
    {
        TokenPayload {
            _aud: aud,
            _azp: azp,
            email,
            email_verified,
            _exp: exp,
            given_name,
            family_name,
            _iat: iat,
            _iss: iss,
            _jti: jti,
            name,
            _nbf: nbf,
            picture,
            sub,
        }
    }
}

/// The Google user that an ID token names, with the profile picture.
pub struct GoogleUserResult {
    pub id: String,
    pub email: String,
    pub verified_email: bool,
    pub name: String,
    pub given_name: String,
    pub family_name: String,
    pub picture: String,
}

impl GoogleUserResult {
    /// The user named by the claims: the subject is the user's identifier.
    pub fn from_token_payload(payload: TokenPayload) -> (r: Self)
        ensures
            r.id@ == payload.spec_sub(),
            r.email@ == payload.spec_email(),
            r.verified_email == payload.spec_email_verified(),
            r.name@ == payload.spec_name(),
            r.given_name@ == payload.spec_given_name(),
            r.family_name@ == payload.spec_family_name(),
            r.picture@ == payload.spec_picture(),
    {
        GoogleUserResult {
            id: payload.sub,
            email: payload.email,
            verified_email: payload.email_verified,
            name: payload.name,
            given_name: payload.given_name,
            family_name: payload.family_name,
            picture: payload.picture,
        }
    }
}

/// How a decoded token header answers the request for its key identifier: the identifier
/// it names; a message when it names none; the rendering of the failure when it does not
/// decode.
pub open spec fn key_id_answer(header: Result<Option<Seq<char>>, Seq<char>>, r: Result<String, String>) -> bool {
    match header {
        Ok(Some(k)) => r matches Ok(s) && s@ == k,
        Ok(None) => r matches Err(m) && m@ == "Missing 'kid' in ID token header"@,
        Err(e) => r matches Err(m) && m@ == e,
    }
}

/// The key identifier named by a decoded token header, or the message that refuses the
/// token.
pub fn key_id_from_header(header: Result<Option<String>, String>) -> (r: Result<String, String>)
    ensures
        key_id_answer(key_id_view(header), r),
{
    match header {
        Ok(Some(k)) => Ok(k),
        Ok(None) => Err(String::from_str("Missing 'kid' in ID token header")),
        Err(m) => Err(m),
    }
}

/// The identifier of the key that signed an ID token, read from the token's header.
pub fn token_key_id(id_token: &str) -> (r: Result<String, String>)
    ensures
        key_id_answer(jwt_header_key_id(id_token@), r),
        split_on(id_token@, '.').len() < 3 ==> (r matches Err(m) && m@ == "InvalidToken"@),
{
    key_id_from_header(decode_header_key_id(id_token))
}

} // verus!
