//! API keys of the form `prefix_shorttoken_longtoken`.
use vstd::prelude::*;
use crate::crypto::{bs58_encode, bs58_encoding, is_base58_char, os_random_bytes, sha256, sha256_digest};
use crate::ids::{Timestamp, Uuid};
use crate::text::{join_with, lemma_join_split, lemma_split_around_sep, lemma_split_without_sep, split_on, split_str, string_views};
use vstd::utf8::encode_utf8;

verus! {

/// The prefix every key issued by this library carries.
pub const API_KEY_PREFIX: &'static str = "mysk";

/// A stored API key: the short token in clear and the hash of the long token.
pub struct ApiKey {
    pub id: Uuid,
    pub created_at: Option<Timestamp>,
    pub user_id: Uuid,
    pub long_token_hash: String,
    pub short_token: String,
    pub expire_at: Option<Timestamp>,
}

/// An API key split into its three parts.
pub struct PrefixedApiKey {
    prefix: String,
    short_token: String,
    long_token: String,
}

/// The three parts of a prefixed API key.
pub struct PrefixedApiKeyView {
    pub prefix: Seq<char>,
    pub short_token: Seq<char>,
    pub long_token: Seq<char>,
}

/// `prefix`, `_`, `short`, `_`, `long`.
pub open spec fn api_key_text(prefix: Seq<char>, short: Seq<char>, long: Seq<char>) -> Seq<char> {
    prefix + seq!['_'] + short + seq!['_'] + long
}

impl View for PrefixedApiKey {
    type V = PrefixedApiKeyView;

    closed spec fn view(&self) -> PrefixedApiKeyView {
        PrefixedApiKeyView {
            prefix: self.prefix@,
            short_token: self.short_token@,
            long_token: self.long_token@,
        }
    }
}

/// Appends `b` to `a`.
fn concat(a: String, b: &str) -> (r: String)
    ensures
        r@ == a@ + b@,
{
    let mut a = a;
    a.append(b);
    a
}

impl PrefixedApiKey {
    pub fn new(prefix: String, short_token: String, long_token: String) -> (r: Self)
        ensures
            r@.prefix == prefix@,
            r@.short_token == short_token@,
            r@.long_token == long_token@,
    {
        Self { prefix, short_token, long_token }
    }

    pub fn get_short_token(&self) -> (r: &str)
        ensures
            r@ == self@.short_token,
    {
        self.short_token.as_str()
    }

    pub fn get_long_token(&self) -> (r: &str)
        ensures
            r@ == self@.long_token,
    {
        self.long_token.as_str()
    }

    pub fn get_prefix(&self) -> (r: &str)
        ensures
            r@ == self@.prefix,
    {
        self.prefix.as_str()
    }

    /// Splits a key at its underscores: the first three pieces are the prefix, the short
    /// token and the long token; further pieces are ignored. A key with fewer than two
    /// underscores has no such parts.
    pub fn from(api_key: String) -> (r: Self)
        requires
            split_on(api_key@, '_').len() >= 3,
        ensures
            r@.prefix == split_on(api_key@, '_')[0],
            r@.short_token == split_on(api_key@, '_')[1],
            r@.long_token == split_on(api_key@, '_')[2],
    {
        let tokens = split_str(api_key.as_str(), '_');
        assert(string_views(tokens@)[0] == tokens@[0]@);
        assert(string_views(tokens@)[1] == tokens@[1]@);
        assert(string_views(tokens@)[2] == tokens@[2]@);
        let prefix = tokens[0].clone();
        let short_token = tokens[1].clone();
        let long_token = tokens[2].clone();
        Self { prefix, short_token, long_token }
    }

    /// The key as text: the three parts joined with underscores.
    pub fn to_string(&self) -> (r: String)
        ensures
            r@ == api_key_text(self@.prefix, self@.short_token, self@.long_token),
    {
        let r = concat(self.prefix.clone(), "_");
        let r = concat(r, self.short_token.as_str());
        let r = concat(r, "_");
        let r = concat(r, self.long_token.as_str());
        proof {
            reveal_strlit("_");
        }
        r
    }
}

/// Parts without underscores survive formatting and parsing: splitting the text of a key
/// gives back its prefix, short token and long token.
pub proof fn lemma_parse_formatted_key(prefix: Seq<char>, short: Seq<char>, long: Seq<char>)
    requires
        !prefix.contains('_'),
        !short.contains('_'),
        !long.contains('_'),
    ensures
        split_on(api_key_text(prefix, short, long), '_') == seq![prefix, short, long],
{
    lemma_split_without_sep(prefix, '_');
    lemma_split_without_sep(short, '_');
    lemma_split_without_sep(long, '_');
    lemma_split_around_sep(short, long, '_');
    assert(prefix + seq!['_'] + short + seq!['_'] + long =~= prefix + seq!['_'] + (short + seq!['_'] + long));
    lemma_split_around_sep(prefix, short + seq!['_'] + long, '_');
    assert(seq![prefix] + (seq![short] + seq![long]) =~= seq![prefix, short, long]);
}

/// A key with exactly two underscores is rebuilt exactly by formatting its parsed parts.
pub proof fn lemma_format_parsed_key(text: Seq<char>)
    requires
        split_on(text, '_').len() == 3,
    ensures
        api_key_text(split_on(text, '_')[0], split_on(text, '_')[1], split_on(text, '_')[2]) == text,
{
    let p = split_on(text, '_');
    lemma_join_split(text, '_');
    assert(p.drop_last().drop_last() =~= seq![p[0]]);
    assert(p.drop_last() =~= seq![p[0], p[1]]);
    assert(join_with(seq![p[0]], '_') == p[0]);
    assert(join_with(p.drop_last(), '_') == p[0].push('_') + p[1]) by {
        assert(p.drop_last().drop_last() =~= seq![p[0]]);
    }
    assert(api_key_text(p[0], p[1], p[2]) =~= (p[0].push('_') + p[1]).push('_') + p[2]);
}

/// A token drawn from random bytes: the Base58 encoding of the first `length` of them.
pub fn api_token_from_random(random: &[u8], length: usize) -> (r: String)
    requires
        length <= random@.len(),
    ensures
        r@ == bs58_encoding(random@.take(length as int)),
        forall|i: int| 0 <= i < r@.len() ==> is_base58_char(#[trigger] r@[i]),
{
    let prefix = &random[0..length];
    assert(prefix@ =~= random@.take(length as int));
    bs58_encode(prefix)
}

/// Generates a token from `length` bytes of the operating system's random source; none
/// when the source fails.
fn generate_api_key(length: usize) -> (r: Option<String>)
    requires
        length <= 64,
    ensures
        r matches Some(t) ==> exists|b: Seq<u8>| b.len() == length && t@ == #[trigger] bs58_encoding(b),
        r matches Some(t) ==> forall|i: int| 0 <= i < t@.len() ==> is_base58_char(#[trigger] t@[i]),
{
    match os_random_bytes(64) {
        Some(bytes) => {
            let t = api_token_from_random(bytes.as_slice(), length);
            assert(bytes@.take(length as int).len() == length);
            Some(t)
        },
        None => None,
    }
}

/// A Base58 text holds no underscore.
proof fn lemma_base58_has_no_underscore(t: Seq<char>)
    requires
        forall|i: int| 0 <= i < t.len() ==> is_base58_char(#[trigger] t[i]),
    ensures
        !t.contains('_'),
{
    if t.contains('_') {
        let k = choose|k: int| 0 <= k < t.len() && t[k] == '_';
        assert(is_base58_char(t[k]));
    }
}

/// A freshly generated key: the text handed to its owner, and what is stored of it.
pub struct NewApiKey {
    pub short_token: String,
    pub long_token: String,
    pub long_token_hash: String,
    pub key: String,
}

impl NewApiKey {
    /// The key that the library derives from the given random bytes: an 8-byte short token
    /// and a 24-byte long token in Base58, the Base58 SHA-256 hash of the long token, and
    /// the text `mysk_<short>_<long>`.
    pub open spec fn derived_from(self, short_random: Seq<u8>, long_random: Seq<u8>) -> bool {
        &&& self.short_token@ == bs58_encoding(short_random.take(8))
        &&& self.long_token@ == bs58_encoding(long_random.take(24))
        &&& self.long_token_hash@ == bs58_encoding(sha256_digest(encode_utf8(self.long_token@)))
        &&& self.key@ == api_key_text(API_KEY_PREFIX@, self.short_token@, self.long_token@)
    }

    /// The key is derived from some random bytes.
    pub open spec fn derived_from_some_random(self) -> bool {
        exists|s: Seq<u8>, l: Seq<u8>| s.len() == 8 && l.len() == 24 && #[trigger] self.derived_from(s, l)
    }

    /// Completes a key from its two tokens: the Base58 SHA-256 hash of the long token, and
    /// the text `mysk_<short>_<long>`. Base58 tokens are read back from that text.
    pub fn from_tokens(short_token: String, long_token: String) -> (r: Self)
        ensures
            r.short_token@ == short_token@,
            r.long_token@ == long_token@,
            r.long_token_hash@ == bs58_encoding(sha256_digest(encode_utf8(long_token@))),
            r.key@ == api_key_text(API_KEY_PREFIX@, short_token@, long_token@),
            (forall|i: int| 0 <= i < short_token@.len() ==> is_base58_char(#[trigger] short_token@[i]))
                && (forall|i: int| 0 <= i < long_token@.len() ==> is_base58_char(#[trigger] long_token@[i]))
                ==> split_on(r.key@, '_') == seq![API_KEY_PREFIX@, short_token@, long_token@],
    {
        let digest = sha256(long_token.as_str().as_bytes());
        let long_token_hash = bs58_encode(digest.as_slice());
        let key = PrefixedApiKey::new(API_KEY_PREFIX.to_string(), short_token.clone(), long_token.clone())
            .to_string();
        proof {
            reveal_strlit("mysk");
            if (forall|i: int| 0 <= i < short_token@.len() ==> is_base58_char(#[trigger] short_token@[i]))
                && (forall|i: int| 0 <= i < long_token@.len() ==> is_base58_char(#[trigger] long_token@[i])) {
                lemma_base58_has_no_underscore(short_token@);
                lemma_base58_has_no_underscore(long_token@);
                assert(!API_KEY_PREFIX@.contains('_')) by {
                    if API_KEY_PREFIX@.contains('_') {
                        let k = choose|k: int| 0 <= k < API_KEY_PREFIX@.len() && API_KEY_PREFIX@[k] == '_';
                    }
                }
                lemma_parse_formatted_key(API_KEY_PREFIX@, short_token@, long_token@);
            }
        }
        NewApiKey { short_token, long_token, long_token_hash, key }
    }

    /// Derives a key from random bytes: the short token encodes the first 8 of
    /// `short_random`, the long token the first 24 of `long_random`. The key text parses
    /// back into the prefix and the two tokens.
    pub fn from_random(short_random: &[u8], long_random: &[u8]) -> (r: Self)
        requires
            short_random@.len() >= 8,
            long_random@.len() >= 24,
        ensures
            r.derived_from(short_random@, long_random@),
            split_on(r.key@, '_') == seq![API_KEY_PREFIX@, r.short_token@, r.long_token@],
    {
        let short_token = api_token_from_random(short_random, 8);
        let long_token = api_token_from_random(long_random, 24);
        NewApiKey::from_tokens(short_token, long_token)
    }
}

impl ApiKey {
    /// Generates the tokens of a new key from the operating system's random source; none
    /// when the source fails. Storing the key is left to the caller.
    pub fn generate() -> (r: Option<NewApiKey>)
        ensures
            r matches Some(k) ==> k.derived_from_some_random(),
            r matches Some(k) ==> split_on(k.key@, '_') == seq![API_KEY_PREFIX@, k.short_token@, k.long_token@],
    {
        let short_token = match generate_api_key(8) {
            Some(t) => t,
            None => return None,
        };
        let long_token = match generate_api_key(24) {
            Some(t) => t,
            None => return None,
        };
        let ghost s = choose|b: Seq<u8>| b.len() == 8 && short_token@ == #[trigger] bs58_encoding(b);
        let ghost l = choose|b: Seq<u8>| b.len() == 24 && long_token@ == #[trigger] bs58_encoding(b);
        let k = NewApiKey::from_tokens(short_token, long_token);
        assert(s.take(8) =~= s);
        assert(l.take(24) =~= l);
        assert(k.derived_from(s, l));
        Some(k)
    }
}

} // verus!
