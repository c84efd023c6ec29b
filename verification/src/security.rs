//! API keys, origins and request signatures.
//!
//! Signatures are HMAC-SHA-256 over the request body, keyed with the
//! SHA-256 of the configured key, and carried as lowercase hexadecimal
//! text. The hexadecimal codec is specified exactly; the digests are
//! named, uninterpreted functions of their input.

use vstd::prelude::*;

use vstd::utf8::encode_utf8;

use hmac::Mac;
use rand::Rng;
use sha2::Digest;

use crate::text::str_eq;

verus! {

/// The lowercase hexadecimal digit of a value below sixteen.
pub open spec fn spec_hex_digit(n: u8) -> char {
    if n == 0 {
        '0'
    } else if n == 1 {
        '1'
    } else if n == 2 {
        '2'
    } else if n == 3 {
        '3'
    } else if n == 4 {
        '4'
    } else if n == 5 {
        '5'
    } else if n == 6 {
        '6'
    } else if n == 7 {
        '7'
    } else if n == 8 {
        '8'
    } else if n == 9 {
        '9'
    } else if n == 10 {
        'a'
    } else if n == 11 {
        'b'
    } else if n == 12 {
        'c'
    } else if n == 13 {
        'd'
    } else if n == 14 {
        'e'
    } else {
        'f'
    }
}

/// The lowercase hexadecimal encoding of a byte string: two digits per
/// byte, high digit first.
pub open spec fn spec_hex_encoding(bytes: Seq<u8>) -> Seq<char>
    decreases bytes.len(),
{
    if bytes.len() == 0 {
        Seq::empty()
    } else {
        seq![
            spec_hex_digit(bytes.first() / 16),
            spec_hex_digit(bytes.first() % 16),
        ] + spec_hex_encoding(bytes.drop_first())
    }
}

/// The value of one hexadecimal digit, either case; nothing for any other
/// character.
pub open spec fn spec_hex_value(c: char) -> Option<u8> {
    if c == '0' {
        Some(0u8)
    } else if c == '1' {
        Some(1u8)
    } else if c == '2' {
        Some(2u8)
    } else if c == '3' {
        Some(3u8)
    } else if c == '4' {
        Some(4u8)
    } else if c == '5' {
        Some(5u8)
    } else if c == '6' {
        Some(6u8)
    } else if c == '7' {
        Some(7u8)
    } else if c == '8' {
        Some(8u8)
    } else if c == '9' {
        Some(9u8)
    } else if c == 'a' || c == 'A' {
        Some(10u8)
    } else if c == 'b' || c == 'B' {
        Some(11u8)
    } else if c == 'c' || c == 'C' {
        Some(12u8)
    } else if c == 'd' || c == 'D' {
        Some(13u8)
    } else if c == 'e' || c == 'E' {
        Some(14u8)
    } else if c == 'f' || c == 'F' {
        Some(15u8)
    } else {
        None
    }
}

/// Whether a character string is well-formed hexadecimal: even length,
/// digits only.
pub open spec fn spec_valid_hex(s: Seq<char>) -> bool {
    &&& s.len() % 2 == 0
    &&& forall|i: int| 0 <= i < s.len() ==> spec_hex_value(#[trigger] s[i]) is Some
}

/// The bytes a well-formed hexadecimal string denotes.
pub open spec fn spec_hex_decoding(s: Seq<char>) -> Seq<u8>
    decreases s.len(),
{
    if s.len() < 2 {
        Seq::empty()
    } else {
        seq![(spec_hex_value(s[0])->0 * 16 + spec_hex_value(s[1])->0) as u8]
            + spec_hex_decoding(s.skip(2))
    }
}

/// Decoding inverts encoding: the hexadecimal text of any byte string is
/// well-formed and denotes exactly those bytes.
pub proof fn lemma_hex_round_trip(bytes: Seq<u8>)
    ensures
        spec_valid_hex(spec_hex_encoding(bytes)),
        spec_hex_decoding(spec_hex_encoding(bytes)) == bytes,
    decreases bytes.len(),
{
    if bytes.len() == 0 {
        assert(spec_hex_decoding(spec_hex_encoding(bytes)) =~= bytes);
    } else {
        let rest = bytes.drop_first();
        lemma_hex_round_trip(rest);
        let enc = spec_hex_encoding(bytes);
        let b = bytes.first();
        assert(spec_hex_value(spec_hex_digit(b / 16)) == Some((b / 16) as u8));
        assert(spec_hex_value(spec_hex_digit(b % 16)) == Some((b % 16) as u8));
        assert(enc.skip(2) =~= spec_hex_encoding(rest));
        assert forall|i: int| 0 <= i < enc.len() implies spec_hex_value(#[trigger] enc[i]) is Some by {
            if i >= 2 {
                assert(enc[i] == spec_hex_encoding(rest)[i - 2]);
            }
        }
        assert(b / 16 * 16 + b % 16 == b) by (nonlinear_arith);
        assert(spec_hex_decoding(enc) =~= bytes);
    }
}

/// The SHA-256 digest of a byte string: a function of the bytes alone.
pub uninterp spec fn sha256_of(data: Seq<u8>) -> Seq<u8>;

/// The HMAC-SHA-256 tag over a byte string under a key: a function of the
/// two alone.
pub uninterp spec fn hmac_sha256_of(key: Seq<u8>, data: Seq<u8>) -> Seq<u8>;

/// Encodes bytes as lowercase hexadecimal text.
///
/// Relies on `hex::encode`: two lowercase digits per byte, high digit
/// first.
#[verifier::external_body]
fn hex_encode(bytes: &[u8]) -> (r: String)
    ensures
        r@ == spec_hex_encoding(bytes@),
{
    hex::encode(bytes)
}

/// Decodes hexadecimal text, either case, refusing malformed input.
///
/// Relies on `hex::decode`: it succeeds exactly on even-length strings of
/// hexadecimal digits and pairs the digits high-first.
#[verifier::external_body]
fn hex_decode(s: &str) -> (r: Result<Vec<u8>, ()>)
    ensures
        r is Ok <==> spec_valid_hex(s@),
        r matches Ok(bytes) ==> bytes@ == spec_hex_decoding(s@),
{
    match hex::decode(s) {
        Ok(b) => Ok(b),
        Err(_) => Err(()),
    }
}

/// Computes the SHA-256 digest.
///
/// Relies on `sha2::Sha256`: the digest is thirty-two bytes and a function
/// of the input alone.
#[verifier::external_body]
fn sha256(data: &[u8]) -> (r: Vec<u8>)
    ensures
        r@ == sha256_of(data@),
        r@.len() == 32,
{
    let mut hasher = sha2::Sha256::new();
    hasher.update(data);
    hasher.finalize().to_vec()
}

/// Computes the HMAC-SHA-256 tag.
///
/// Relies on `hmac::Hmac` over `sha2::Sha256`: a key of any length is
/// accepted, and the tag is thirty-two bytes and a function of key and
/// data alone.
#[verifier::external_body]
fn hmac_sha256(key: &[u8], data: &[u8]) -> (r: Result<Vec<u8>, ()>)
    ensures
        r is Ok,
        r matches Ok(tag) ==> tag@ == hmac_sha256_of(key@, data@) && tag@.len() == 32,
{
    match <hmac::Hmac<sha2::Sha256> as hmac::Mac>::new_from_slice(key) {
        Ok(mut mac) => {
            mac.update(data);
            Ok(mac.finalize().into_bytes().to_vec())
        },
        Err(_) => Err(()),
    }
}

/// Whether a character is an ASCII letter or digit.
pub open spec fn spec_is_ascii_alphanumeric(c: char) -> bool {
    ||| 'a' <= c <= 'z'
    ||| 'A' <= c <= 'Z'
    ||| '0' <= c <= '9'
}

/// Draws a fresh alphanumeric string of the given length.
///
/// Relies on `rand`'s thread-local generator with the `Alphanumeric`
/// distribution: the result has exactly the requested length and every
/// character is an ASCII letter or digit; nothing else is assumed of it.
#[verifier::external_body]
fn random_alphanumeric(len: usize) -> (r: String)
    ensures
        r@.len() == len,
        forall|i: int| 0 <= i < len ==> spec_is_ascii_alphanumeric(#[trigger] r@[i]),
{
    rand::thread_rng().sample_iter(rand::distributions::Alphanumeric).take(len).map(
        char::from,
    ).collect()
}

/// A secret API key. It deliberately has no formatting surface: only
/// [`ApiKey::redacted`] can be printed, so the secret cannot leak into
/// logs or output.
#[derive(Clone, PartialEq, Eq)]
pub struct ApiKey(pub String);

impl ApiKey {
    /// The placeholder shown wherever the key would otherwise leak into
    /// logs or output.
    pub fn redacted(&self) -> (r: String)
        ensures
            r@ == "<redacted api key>"@,
    {
        "<redacted api key>".to_owned()
    }
}

impl From<String> for ApiKey {
    fn from(s: String) -> (r: ApiKey) {
        ApiKey(s)
    }
}

impl vstd::std_specs::convert::FromSpecImpl<String> for ApiKey {
    open spec fn obeys_from_spec() -> bool {
        true
    }

    open spec fn from_spec(s: String) -> ApiKey {
        ApiKey(s)
    }
}

/// A secret API salt. Like the key, it deliberately has no formatting
/// surface beyond [`ApiSalt::redacted`].
#[derive(Clone, PartialEq, Eq)]
pub struct ApiSalt(pub String);

impl ApiSalt {
    /// The placeholder shown wherever the salt would otherwise leak into
    /// logs or output.
    pub fn redacted(&self) -> (r: String)
        ensures
            r@ == "<redacted api salt>"@,
    {
        "<redacted api salt>".to_owned()
    }
}

impl From<String> for ApiSalt {
    fn from(s: String) -> (r: ApiSalt) {
        ApiSalt(s)
    }
}

impl vstd::std_specs::convert::FromSpecImpl<String> for ApiSalt {
    open spec fn obeys_from_spec() -> bool {
        true
    }

    open spec fn from_spec(s: String) -> ApiSalt {
        ApiSalt(s)
    }
}

/// Why a security configuration is not fit for production.
#[derive(Debug, Clone, Copy, PartialEq, Eq, Structural)]
pub enum SecurityIssue {
    /// The key is unset or shorter than thirty-two characters.
    WeakKey,
    /// The salt is unset or shorter than thirty-two characters.
    WeakSalt,
    /// The allowed origins contain the wildcard.
    WildcardOrigin,
}

/// Security configuration: the signing key and salt, and the allowed
/// origins. It carries secrets, so it has no formatting surface either.
#[derive(Clone)]
pub struct SecurityConfig {
    key: Option<ApiKey>,
    salt: Option<ApiSalt>,
    allowed_origins: Vec<String>,
}

/// No key by default; it must be set explicitly.
pub fn default_key() -> (r: Option<ApiKey>)
    ensures
        r is None,
{
    None
}

/// No salt by default; it must be set explicitly.
pub fn default_salt() -> (r: Option<ApiSalt>)
    ensures
        r is None,
{
    None
}

/// Only the local host is allowed by default; a wildcard would not be
/// safe.
pub fn default_allowed_origins() -> (r: Vec<String>)
    ensures
        r@.len() == 1,
        r@[0]@ == "http://localhost"@,
{
    let mut v: Vec<String> = Vec::new();
    v.push("http://localhost".to_owned());
    v
}

impl Default for SecurityConfig {
    fn default() -> (r: SecurityConfig)
        ensures
            r.spec_key() is None,
            r.spec_salt() is None,
            r.spec_allowed_origins().len() == 1,
            r.spec_allowed_origins()[0]@ == "http://localhost"@,
    {
        SecurityConfig {
            key: default_key(),
            salt: default_salt(),
            allowed_origins: default_allowed_origins(),
        }
    }
}

/// The key material the signature scheme hashes: the configured key's
/// text, or the insecure placeholder when none is set.
pub open spec fn spec_key_material(key: Option<ApiKey>) -> Seq<char> {
    match key {
        Some(k) => k.0@,
        None => "default_key_placeholder_insecure"@,
    }
}

impl SecurityConfig {
    pub closed spec fn spec_key(&self) -> Option<ApiKey> {
        self.key
    }

    pub closed spec fn spec_salt(&self) -> Option<ApiSalt> {
        self.salt
    }

    pub closed spec fn spec_allowed_origins(&self) -> Seq<String> {
        self.allowed_origins@
    }

    /// The HMAC key this configuration signs with.
    pub open spec fn spec_prepared_key(&self) -> Seq<u8> {
        sha256_of(encode_utf8(spec_key_material(self.spec_key())))
    }

    /// The signature this configuration gives a byte string.
    pub open spec fn spec_signature(&self, data: Seq<u8>) -> Seq<char> {
        spec_hex_encoding(hmac_sha256_of(self.spec_prepared_key(), data))
    }

    /// Get the API key, if set.
    pub fn key(&self) -> (r: Option<&ApiKey>)
        ensures
            match r {
                Some(k) => self.spec_key() == Some(*k),
                None => self.spec_key() is None,
            },
    {
        match &self.key {
            Some(k) => Some(k),
            None => None,
        }
    }

    /// Set the API key.
    pub fn set_key(&mut self, key: ApiKey)
        ensures
            final(self).spec_key() == Some(key),
            final(self).spec_salt() == old(self).spec_salt(),
            final(self).spec_allowed_origins() == old(self).spec_allowed_origins(),
    {
        self.key = Some(key);
    }

    /// Get the salt, if set.
    pub fn salt(&self) -> (r: Option<&ApiSalt>)
        ensures
            match r {
                Some(s) => self.spec_salt() == Some(*s),
                None => self.spec_salt() is None,
            },
    {
        match &self.salt {
            Some(s) => Some(s),
            None => None,
        }
    }

    /// Set the salt.
    pub fn set_salt(&mut self, salt: ApiSalt)
        ensures
            final(self).spec_salt() == Some(salt),
            final(self).spec_key() == old(self).spec_key(),
            final(self).spec_allowed_origins() == old(self).spec_allowed_origins(),
    {
        self.salt = Some(salt);
    }

    /// Get the allowed origins.
    pub fn allowed_origins(&self) -> (r: &Vec<String>)
        ensures
            r@ == self.spec_allowed_origins(),
    {
        &self.allowed_origins
    }

    /// Set the allowed origins.
    pub fn set_allowed_origins(&mut self, origins: Vec<String>)
        ensures
            final(self).spec_allowed_origins() == origins@,
            final(self).spec_key() == old(self).spec_key(),
            final(self).spec_salt() == old(self).spec_salt(),
    {
        self.allowed_origins = origins;
    }

    /// Whether requests from this origin are allowed: the origin must be
    /// listed, or the wildcard must be.
    pub fn is_origin_allowed(&self, origin: &str) -> (r: bool)
        ensures
            r == exists|i: int|
                0 <= i < self.spec_allowed_origins().len() && ((#[trigger] self.spec_allowed_origins()[i])@
                    == origin@ || self.spec_allowed_origins()[i]@ == "*"@),
    {
        let mut i: usize = 0;
        while i < self.allowed_origins.len()
            invariant
                0 <= i <= self.spec_allowed_origins().len(),
                forall|j: int|
                    0 <= j < i ==> !((#[trigger] self.spec_allowed_origins()[j])@ == origin@
                        || self.spec_allowed_origins()[j]@ == "*"@),
            decreases self.spec_allowed_origins().len() - i,
        {
            let o = self.allowed_origins[i].as_str();
            if str_eq(o, origin) || str_eq(o, "*") {
                return true;
            }
            i = i + 1;
        }
        false
    }

    /// Prepares the HMAC key by hashing the configured key text, or the
    /// insecure placeholder when none is set.
    fn prepare_key(&self) -> (r: Vec<u8>)
        ensures
            r@ == self.spec_prepared_key(),
    {
        let material: &str = match &self.key {
            Some(k) => k.0.as_str(),
            None => "default_key_placeholder_insecure",
        };
        sha256(material.as_bytes())
    }

    /// Generates a random thirty-two-character API key when none is set or
    /// the set one is empty, and hands back the key now in force.
    pub fn generate_api_key(&mut self) -> (r: ApiKey)
        ensures
            final(self).spec_salt() == old(self).spec_salt(),
            final(self).spec_allowed_origins() == old(self).spec_allowed_origins(),
            final(self).spec_key() == Some(r),
            match old(self).spec_key() {
                Some(k) => if k.0@.len() == 0 {
                    r.0@.len() == 32 && forall|i: int|
                        0 <= i < 32 ==> spec_is_ascii_alphanumeric(#[trigger] r.0@[i])
                } else {
                    r == k
                },
                None => r.0@.len() == 32 && forall|i: int|
                    0 <= i < 32 ==> spec_is_ascii_alphanumeric(#[trigger] r.0@[i]),
            },
    {
        let fresh: bool = match &self.key {
            Some(k) => k.0.as_str().is_empty(),
            None => true,
        };
        if fresh {
            let generated = random_alphanumeric(32);
            self.key = Some(ApiKey(generated));
        }
        match &self.key {
            Some(k) => ApiKey(k.0.clone()),
            None => ApiKey(String::new()),
        }
    }

    /// Signs a byte string: the lowercase hexadecimal HMAC-SHA-256 tag
    /// under the prepared key.
    pub fn generate_signature(&self, data: &[u8]) -> (r: Result<String, ()>)
        ensures
            r is Ok,
            r matches Ok(sig) ==> sig@ == self.spec_signature(data@),
    {
        let key = self.prepare_key();
        match hmac_sha256(key.as_slice(), data) {
            Ok(tag) => Ok(hex_encode(tag.as_slice())),
            Err(()) => Err(()),
        }
    }

    /// Checks a signature: well-formed hexadecimal that denotes exactly
    /// the HMAC-SHA-256 tag of the data under the prepared key. Malformed
    /// hexadecimal is an error, not a mismatch.
    pub fn validate_signature(&self, data: &[u8], signature: &str) -> (r: Result<bool, ()>)
        ensures
            r is Ok <==> spec_valid_hex(signature@),
            r matches Ok(b) ==> b == (spec_hex_decoding(signature@) == hmac_sha256_of(
                self.spec_prepared_key(),
                data@,
            )),
    {
        let sig = match hex_decode(signature) {
            Ok(s) => s,
            Err(()) => {
                return Err(());
            },
        };
        let key = self.prepare_key();
        match hmac_sha256(key.as_slice(), data) {
            Ok(tag) => {
                let eq: bool = sig == tag;
                proof {
                    if sig@ =~= tag@ {
                    }
                }
                Ok(eq)
            },
            Err(()) => Err(()),
        }
    }

    /// Whether both key and salt are set at all.
    pub fn is_secure(&self) -> (r: bool)
        ensures
            r == (self.spec_key() is Some && self.spec_salt() is Some),
    {
        let has_key = match &self.key {
            Some(_) => true,
            None => false,
        };
        let has_salt = match &self.salt {
            Some(_) => true,
            None => false,
        };
        has_key && has_salt
    }

    /// Whether the configured key is set and long enough for production.
    pub open spec fn spec_key_strong(&self) -> bool {
        self.spec_key() matches Some(k) && k.0@.len() >= 32
    }

    /// Whether the configured salt is set and long enough for production.
    pub open spec fn spec_salt_strong(&self) -> bool {
        self.spec_salt() matches Some(s) && s.0@.len() >= 32
    }

    /// Whether no allowed origin is the wildcard.
    pub open spec fn spec_no_wildcard_origin(&self) -> bool {
        forall|i: int|
            0 <= i < self.spec_allowed_origins().len() ==> (#[trigger] self.spec_allowed_origins()[i])@
                != "*"@
    }

    /// Whether this configuration is fit for production: key and salt set
    /// and at least thirty-two characters, and no wildcard origin. The
    /// error names the first violated condition, in that order.
    pub fn validate_secure(&self) -> (r: Result<(), SecurityIssue>)
        ensures
            r is Ok <==> (self.spec_key_strong() && self.spec_salt_strong()
                && self.spec_no_wildcard_origin()),
            !self.spec_key_strong() ==> r == Err::<(), SecurityIssue>(SecurityIssue::WeakKey),
            (self.spec_key_strong() && !self.spec_salt_strong()) ==> r == Err::<(), SecurityIssue>(
                SecurityIssue::WeakSalt,
            ),
            (self.spec_key_strong() && self.spec_salt_strong() && !self.spec_no_wildcard_origin())
                ==> r == Err::<(), SecurityIssue>(SecurityIssue::WildcardOrigin),
    {
        let key_ok = match &self.key {
            Some(k) => k.0.as_str().unicode_len() >= 32,
            None => false,
        };
        proof {
            assert(key_ok == self.spec_key_strong());
        }
        if !key_ok {
            return Err(SecurityIssue::WeakKey);
        }
        let salt_ok = match &self.salt {
            Some(s) => s.0.as_str().unicode_len() >= 32,
            None => false,
        };
        proof {
            assert(salt_ok == self.spec_salt_strong());
        }
        if !salt_ok {
            return Err(SecurityIssue::WeakSalt);
        }
        let mut i: usize = 0;
        while i < self.allowed_origins.len()
            invariant
                0 <= i <= self.spec_allowed_origins().len(),
                self.spec_key_strong(),
                self.spec_salt_strong(),
                forall|j: int|
                    0 <= j < i ==> (#[trigger] self.spec_allowed_origins()[j])@ != "*"@,
            decreases self.spec_allowed_origins().len() - i,
        {
            if str_eq(self.allowed_origins[i].as_str(), "*") {
                return Err(SecurityIssue::WildcardOrigin);
            }
            i = i + 1;
        }
        Ok(())
    }
}

/// The hexadecimal SHA-256 digest of a byte string.
pub fn sha256_hex(data: &[u8]) -> (r: String)
    ensures
        r@ == spec_hex_encoding(sha256_of(data@)),
{
    let digest = sha256(data);
    hex_encode(digest.as_slice())
}

/// The signature round trip: a signature this configuration generates for
/// a byte string always validates for the same byte string.
pub proof fn lemma_signature_round_trip(config: SecurityConfig, data: Seq<u8>, sig: Seq<char>)
    requires
        sig == config.spec_signature(data),
    ensures
        spec_valid_hex(sig),
        spec_hex_decoding(sig) == hmac_sha256_of(config.spec_prepared_key(), data),
{
    lemma_hex_round_trip(hmac_sha256_of(config.spec_prepared_key(), data));
}

} // verus!
