//! The settings of the API, checked from the values of their environment variables.
use vstd::prelude::*;
use crate::text::decimal;

verus! {

/// The number that `str::parse::<u16>` reads from a text, if it reads one.
pub uninterp spec fn parsed_u16(s: Seq<char>) -> Option<u16>;

/// The number that `str::parse::<u64>` reads from a text, if it reads one.
pub uninterp spec fn parsed_u64(s: Seq<char>) -> Option<u64>;

/// Calls `str::parse::<u16>`. The result depends on the text alone and is named
/// `parsed_u16(s)`; the contract also claims what std documents of the plain case: a number
/// written in decimal without sign or leading zeros reads as that number.
#[verifier::external_body]
fn parse_u16(s: &str) -> (r: Option<u16>)
    ensures
        r == parsed_u16(s@),
        forall|v: u16| s@ == decimal(v as nat) ==> r == Some(v),
{
    s.parse::<u16>().ok()
}

/// Calls `str::parse::<u64>`. The result depends on the text alone and is named
/// `parsed_u64(s)`; the contract also claims what std documents of the plain case: a number
/// written in decimal without sign or leading zeros reads as that number.
#[verifier::external_body]
fn parse_u64(s: &str) -> (r: Option<u64>)
    ensures
        r == parsed_u64(s@),
        forall|v: u64| s@ == decimal(v as nat) ==> r == Some(v),
{
    s.parse::<u64>().ok()
}

/// The address the API listens on when `HOST` is not set.
pub const DEFAULT_HOST: &'static str = "0.0.0.0";

/// The port the API listens on when `PORT` is not set.
pub const DEFAULT_PORT: &'static str = "8000";

/// The settings of the API; the host address is of the type `H`.
pub struct ConfigValues<H> {
    pub client_origin: String,
    pub database_url: String,
    pub google_oauth_client_id: String,
    pub google_oauth_client_secret: String,
    pub host: H,
    pub port: u16,
    pub token_expired_in: String,
    pub token_max_age: u64,
    pub token_secret: String,
}

/// The text of an optional variable, or a default.
pub open spec fn or_default(v: Option<String>, default: &str) -> Seq<char> {
    match v {
        Some(s) => s@,
        None => default@,
    }
}

/// The first setting that is missing or malformed, as the message that refuses it, in the
/// order client origin, database address, Google client identifier and secret, host, port,
/// token lifetime, token maximum age and token secret; none when all are in order. An
/// absent host or port stands for its default; `host` is none when its text is not an
/// address.
pub open spec fn config_problem<H>(
    client_origin: Option<String>,
    database_url: Option<String>,
    google_oauth_client_id: Option<String>,
    google_oauth_client_secret: Option<String>,
    host: Option<H>,
    port: Option<String>,
    token_expired_in: Option<String>,
    token_max_age: Option<String>,
    token_secret: Option<String>,
) -> Option<Seq<char>> {
    if client_origin is None {
        Some("CLIENT_ORIGIN must be set"@)
    } else if database_url is None {
        Some("DATABASE_URL must be set"@)
    } else if google_oauth_client_id is None {
        Some("GOOGLE_OAUTH_CLIENT_ID must be set"@)
    } else if google_oauth_client_secret is None {
        Some("GOOGLE_OAUTH_CLIENT_SECRET must be set"@)
    } else if host is None {
        Some("HOST must be a valid IP address"@)
    } else if parsed_u16(or_default(port, DEFAULT_PORT)) is None {
        Some("PORT must be a valid port number"@)
    } else if token_expired_in is None {
        Some("TOKEN_EXPIRED_IN must be set"@)
    } else if token_max_age is None {
        Some("TOKEN_MAXAGE must be set"@)
    } else if parsed_u64(token_max_age.unwrap()@) is None {
        Some("TOKEN_MAXAGE must be a positive integer"@)
    } else if token_secret is None {
        Some("TOKEN_SECRET must be set"@)
    } else {
        None
    }
}

/// The text of the host: the variable, or the default address.
pub fn host_text(host: Option<String>) -> (r: String)
    ensures
        r@ == or_default(host, DEFAULT_HOST),
{
    match host {
        Some(h) => h,
        None => String::from_str(DEFAULT_HOST),
    }
}

/// Checks the settings from the values of their variables (`host` is the parsed host
/// text, none when it is not an address): the settings when all are in order, otherwise the
/// message that refuses the first setting that is not.
pub fn config_from_values<H>(
    client_origin: Option<String>,
    database_url: Option<String>,
    google_oauth_client_id: Option<String>,
    google_oauth_client_secret: Option<String>,
    host: Option<H>,
    port: Option<String>,
    token_expired_in: Option<String>,
    token_max_age: Option<String>,
    token_secret: Option<String>,
) -> (r: Result<ConfigValues<H>, String>)
    ensures
        r is Err <==> config_problem(client_origin, database_url, google_oauth_client_id,
            google_oauth_client_secret, host, port, token_expired_in, token_max_age, token_secret) is Some,
        r matches Err(m) ==> Some(m@) == config_problem(client_origin, database_url, google_oauth_client_id,
            google_oauth_client_secret, host, port, token_expired_in, token_max_age, token_secret),
        r matches Ok(c) ==> {
            &&& Some(c.client_origin) == client_origin
            &&& Some(c.database_url) == database_url
            &&& Some(c.google_oauth_client_id) == google_oauth_client_id
            &&& Some(c.google_oauth_client_secret) == google_oauth_client_secret
            &&& Some(c.host) == host
            &&& Some(c.port) == parsed_u16(or_default(port, DEFAULT_PORT))
            &&& Some(c.token_expired_in) == token_expired_in
            &&& Some(c.token_max_age) == parsed_u64(token_max_age.unwrap()@)
            &&& Some(c.token_secret) == token_secret
        },
{
    let client_origin = match client_origin {
        Some(v) => v,
        None => return Err(String::from_str("CLIENT_ORIGIN must be set")),
    };
    let database_url = match database_url {
        Some(v) => v,
        None => return Err(String::from_str("DATABASE_URL must be set")),
    };
    let google_oauth_client_id = match google_oauth_client_id {
        Some(v) => v,
        None => return Err(String::from_str("GOOGLE_OAUTH_CLIENT_ID must be set")),
    };
    let google_oauth_client_secret = match google_oauth_client_secret {
        Some(v) => v,
        None => return Err(String::from_str("GOOGLE_OAUTH_CLIENT_SECRET must be set")),
    };
    let host = match host {
        Some(v) => v,
        None => return Err(String::from_str("HOST must be a valid IP address")),
    };
    let port_text = match port {
        Some(p) => p,
        None => String::from_str(DEFAULT_PORT),
    };
    let port = match parse_u16(port_text.as_str()) {
        Some(v) => v,
        None => return Err(String::from_str("PORT must be a valid port number")),
    };
    let token_expired_in = match token_expired_in {
        Some(v) => v,
        None => return Err(String::from_str("TOKEN_EXPIRED_IN must be set")),
    };
    let max_age_text = match token_max_age {
        Some(v) => v,
        None => return Err(String::from_str("TOKEN_MAXAGE must be set")),
    };
    let token_max_age = match parse_u64(max_age_text.as_str()) {
        Some(v) => v,
        None => return Err(String::from_str("TOKEN_MAXAGE must be a positive integer")),
    };
    let token_secret = match token_secret {
        Some(v) => v,
        None => return Err(String::from_str("TOKEN_SECRET must be set")),
    };
    Ok(ConfigValues {
        client_origin,
        database_url,
        google_oauth_client_id,
        google_oauth_client_secret,
        host,
        port,
        token_expired_in,
        token_max_age,
        token_secret,
    })
}

} // verus!
