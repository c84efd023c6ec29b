//! The result cache and operation fingerprints.
//!
//! Results and metadata fingerprints live in explicit cache values keyed by
//! plain strings; a fresh entry shadows an older one for the same key. The
//! caches are a fast path only, never a correctness dependency, and the
//! file system work around them stays outside.

use vstd::prelude::*;

use vstd::utf8::encode_utf8;

use crate::security::{sha256_of, spec_hex_encoding};
use crate::text::str_eq;

verus! {

/// Storage configuration: where temporary results go and how much cache is
/// allowed.
#[derive(Debug, Clone)]
pub struct StorageConfig {
    pub temp_dir: String,
    pub max_cache_size: usize,
}

pub fn default_temp_dir() -> (r: String)
    ensures
        r@ == "temp"@,
{
    "temp".to_owned()
}

pub fn default_max_cache_size() -> (r: usize)
    ensures
        r == 1024 * 1024 * 1024,
{
    1024 * 1024 * 1024
}

impl Default for StorageConfig {
    fn default() -> (r: StorageConfig)
        ensures
            r.temp_dir@ == "temp"@,
            r.max_cache_size == 1024 * 1024 * 1024,
    {
        StorageConfig { temp_dir: default_temp_dir(), max_cache_size: default_max_cache_size() }
    }
}

/// One cached result: the source image's path, the operation and its
/// parameters, and the path of the stored result.
#[derive(Debug, Clone)]
pub struct CacheEntry {
    pub image: String,
    pub operation: String,
    pub params: String,
    pub value: String,
}

/// A cache of operation results, newest first.
#[derive(Debug, Clone)]
pub struct ResultCache {
    pub entries: Vec<CacheEntry>,
}

/// The newest cached value for a key, if any, from position `i` on.
pub open spec fn spec_cache_lookup_from(
    entries: Seq<CacheEntry>,
    i: int,
    image: Seq<char>,
    operation: Seq<char>,
    params: Seq<char>,
) -> Option<Seq<char>>
    decreases entries.len() - i,
{
    if i < 0 || i >= entries.len() {
        None
    } else if entries[i].image@ == image && entries[i].operation@ == operation
        && entries[i].params@ == params {
        Some(entries[i].value@)
    } else {
        spec_cache_lookup_from(entries, i + 1, image, operation, params)
    }
}

/// The newest cached value for a key, if any.
pub open spec fn spec_cache_lookup(
    entries: Seq<CacheEntry>,
    image: Seq<char>,
    operation: Seq<char>,
    params: Seq<char>,
) -> Option<Seq<char>> {
    spec_cache_lookup_from(entries, 0, image, operation, params)
}

impl ResultCache {
    pub fn new() -> (c: ResultCache)
        ensures
            c.entries@.len() == 0,
    {
        ResultCache { entries: Vec::new() }
    }

    /// Looks a key up; the newest entry wins.
    pub fn get(&self, image: &str, operation: &str, params: &str) -> (r: Option<&String>)
        ensures
            match r {
                Some(v) => spec_cache_lookup(self.entries@, image@, operation@, params@) == Some(
                    v@,
                ),
                None => spec_cache_lookup(self.entries@, image@, operation@, params@) is None,
            },
    {
        let mut i: usize = 0;
        while i < self.entries.len()
            invariant
                0 <= i <= self.entries@.len(),
                spec_cache_lookup(self.entries@, image@, operation@, params@)
                    == spec_cache_lookup_from(self.entries@, i as int, image@, operation@, params@),
            decreases self.entries@.len() - i,
        {
            let e = &self.entries[i];
            if str_eq(e.image.as_str(), image) && str_eq(e.operation.as_str(), operation) && str_eq(
                e.params.as_str(),
                params,
            ) {
                return Some(&self.entries[i].value);
            }
            i = i + 1;
        }
        None
    }

    /// Stores a result; it shadows any older entry for the same key.
    pub fn put(&mut self, image: &str, operation: &str, params: &str, value: &str)
        ensures
            final(self).entries@.len() == old(self).entries@.len() + 1,
            spec_cache_lookup(final(self).entries@, image@, operation@, params@) == Some(value@),
            final(self).entries@.skip(1) == old(self).entries@,
    {
        let entry = CacheEntry {
            image: image.to_owned(),
            operation: operation.to_owned(),
            params: params.to_owned(),
            value: value.to_owned(),
        };
        self.entries.insert(0, entry);
        proof {
            assert(self.entries@.skip(1) =~= old(self).entries@);
        }
    }
}

/// Looks up the cached result for an operation on an image.
pub fn get_cached_result<'a>(cache: &'a ResultCache, image_path: &str, operation: &str, params: &str) -> (r:
    Option<&'a String>)
    ensures
        match r {
            Some(v) => spec_cache_lookup(cache.entries@, image_path@, operation@, params@) == Some(
                v@,
            ),
            None => spec_cache_lookup(cache.entries@, image_path@, operation@, params@) is None,
        },
{
    cache.get(image_path, operation, params)
}

/// Looks up the cached result for an operation on an image.
pub fn get_result<'a>(cache: &'a ResultCache, image_path: &str, operation: &str, params: &str) -> (r:
    Option<&'a String>)
    ensures
        match r {
            Some(v) => spec_cache_lookup(cache.entries@, image_path@, operation@, params@) == Some(
                v@,
            ),
            None => spec_cache_lookup(cache.entries@, image_path@, operation@, params@) is None,
        },
{
    cache.get(image_path, operation, params)
}

/// Stores a finished result in the cache.
pub fn cache_result(
    cache: &mut ResultCache,
    image_path: &str,
    operation: &str,
    params: &str,
    result_path: &str,
)
    ensures
        spec_cache_lookup(final(cache).entries@, image_path@, operation@, params@) == Some(
            result_path@,
        ),
        final(cache).entries@.skip(1) == old(cache).entries@,
{
    cache.put(image_path, operation, params, result_path);
}

/// A cache of metadata fingerprints, keyed by file name, content length
/// and content type.
#[derive(Debug, Clone)]
pub struct MetadataCache {
    pub entries: Vec<(String, usize, String, String)>,
}

/// The newest fingerprint for a key, if any, from position `i` on.
pub open spec fn spec_metadata_lookup_from(
    entries: Seq<(String, usize, String, String)>,
    i: int,
    filename: Seq<char>,
    content_length: usize,
    content_type: Seq<char>,
) -> Option<Seq<char>>
    decreases entries.len() - i,
{
    if i < 0 || i >= entries.len() {
        None
    } else if entries[i].0@ == filename && entries[i].1 == content_length && entries[i].2@
        == content_type {
        Some(entries[i].3@)
    } else {
        spec_metadata_lookup_from(entries, i + 1, filename, content_length, content_type)
    }
}

/// The newest fingerprint for a key, if any.
pub open spec fn spec_metadata_lookup(
    entries: Seq<(String, usize, String, String)>,
    filename: Seq<char>,
    content_length: usize,
    content_type: Seq<char>,
) -> Option<Seq<char>> {
    spec_metadata_lookup_from(entries, 0, filename, content_length, content_type)
}

impl MetadataCache {
    pub fn new() -> (c: MetadataCache)
        ensures
            c.entries@.len() == 0,
    {
        MetadataCache { entries: Vec::new() }
    }

    /// Looks a fingerprint up; the newest entry wins.
    pub fn get(&self, filename: &str, content_length: usize, content_type: &str) -> (r: Option<
        &String,
    >)
        ensures
            match r {
                Some(v) => spec_metadata_lookup(self.entries@, filename@, content_length, content_type@)
                    == Some(v@),
                None => spec_metadata_lookup(
                    self.entries@,
                    filename@,
                    content_length,
                    content_type@,
                ) is None,
            },
    {
        let mut i: usize = 0;
        while i < self.entries.len()
            invariant
                0 <= i <= self.entries@.len(),
                spec_metadata_lookup(self.entries@, filename@, content_length, content_type@)
                    == spec_metadata_lookup_from(
                    self.entries@,
                    i as int,
                    filename@,
                    content_length,
                    content_type@,
                ),
            decreases self.entries@.len() - i,
        {
            let e = &self.entries[i];
            if str_eq(e.0.as_str(), filename) && e.1 == content_length && str_eq(
                e.2.as_str(),
                content_type,
            ) {
                return Some(&self.entries[i].3);
            }
            i = i + 1;
        }
        None
    }

    /// Stores a fingerprint; it shadows any older entry for the same key.
    pub fn put(&mut self, filename: &str, content_length: usize, content_type: &str, hash: &str)
        ensures
            spec_metadata_lookup(final(self).entries@, filename@, content_length, content_type@)
                == Some(hash@),
            final(self).entries@.skip(1) == old(self).entries@,
    {
        self.entries.insert(
            0,
            (filename.to_owned(), content_length, content_type.to_owned(), hash.to_owned()),
        );
        proof {
            assert(self.entries@.skip(1) =~= old(self).entries@);
        }
    }
}

/// Whether a request's metadata fingerprint is already known; if so, the
/// name the processed result would be stored under. Whether a file of that
/// name actually exists is the caller's question.
pub fn check_cached_metadata(
    cache: &MetadataCache,
    filename: &str,
    content_length: usize,
    content_type: &str,
) -> (r: Option<String>)
    ensures
        r is Some <==> spec_metadata_lookup(cache.entries@, filename@, content_length, content_type@) is Some,
        r matches Some(path) ==> path@ == "temp/processed_"@ + filename@,
{
    match cache.get(filename, content_length, content_type) {
        Some(_) => {
            let mut path = "temp/processed_".to_owned();
            path.push_str(filename);
            Some(path)
        },
        None => None,
    }
}

/// The fingerprint of one operation on one image: the hexadecimal SHA-256
/// digest of the image bytes, the operation name and the parameter text,
/// in that order.
pub fn generate_operation_hash(image_bytes: &[u8], operation: &str, params: &str) -> (r: String)
    ensures
        r@ == spec_hex_encoding(
            sha256_of(image_bytes@ + encode_utf8(operation@) + encode_utf8(params@)),
        ),
{
    let mut data = vstd::slice::slice_to_vec(image_bytes);
    let mut op_bytes = vstd::slice::slice_to_vec(operation.as_bytes());
    let mut param_bytes = vstd::slice::slice_to_vec(params.as_bytes());
    data.append(&mut op_bytes);
    data.append(&mut param_bytes);
    crate::security::sha256_hex(data.as_slice())
}

} // verus!
