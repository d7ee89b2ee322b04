//! API keys as first stored: the hash of the long token kept as text.
use vstd::prelude::*;
use vstd::utf8::{decode_utf8, encode_utf8, valid_utf8};
use crate::crypto::{sha256, sha256_digest};
use crate::ids::{Timestamp, Uuid};
use crate::text::utf8_text;

verus! {

/// A stored API key: its owner and the hash of its long token.
pub struct ApiKey {
    pub id: Uuid,
    pub created_at: Option<Timestamp>,
    pub user_ud: Uuid,
    pub hash: String,
    pub expire_at: Option<Timestamp>,
}

impl ApiKey {
    /// The hash stored for a long token: the SHA-256 digest of its UTF-8 bytes, read as
    /// UTF-8 text; none when the digest is not valid UTF-8.
    pub fn stored_hash(long_token: &str) -> (r: Option<String>)
        ensures
            r is Some <==> valid_utf8(sha256_digest(encode_utf8(long_token@))),
            r matches Some(h) ==> h@ == decode_utf8(sha256_digest(encode_utf8(long_token@))),
    {
        let digest = sha256(long_token.as_bytes());
        utf8_text(digest.as_slice())
    }
}

} // verus!
