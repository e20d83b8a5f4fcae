//! Where a record is cached, and what is kept beside it.
//!
//! The cache of one API origin is a directory named by the URL-safe
//! encoding of the origin, below the cache root and above the API version.
//! Each resource has one body file there and one sibling metadata file.

use vstd::prelude::*;
use vstd::string::*;
use vstd::utf8::*;

use reqwest::header::HeaderMap;

use crate::text::{append_decimal, decimal, opt_text};

verus! {

/// The version of the API that this client speaks.
pub const API_VERSION: &'static str = "v1";

/// The directory below which every origin has its cache.
pub const CACHE_ROOT: &'static str = "Data/SKSE/Plugins/BazaarRealmCache";

/// The character that stands for a six-bit value: the one at that place in
/// `ABCDEFGHIJKLMNOPQRSTUVWXYZabcdefghijklmnopqrstuvwxyz0123456789-_`, the
/// URL-safe alphabet of RFC 4648.
pub open spec fn url_safe_char(v: u8) -> char {
    if v < 26 {
        (v + 65) as u8 as char
    } else if v < 52 {
        (v + 71) as u8 as char
    } else if v < 62 {
        (v - 4) as u8 as char
    } else if v == 62 {
        '-'
    } else {
        '_'
    }
}

/// The six-bit values that a byte string is cut into, from the highest bit
/// of the first byte on: four for each three bytes, then two for a last
/// single byte or three for a last pair, the missing low bits being zero.
pub open spec fn sextets(bytes: Seq<u8>) -> Seq<u8>
    decreases bytes.len(),
{
    if bytes.len() == 0 {
        seq![]
    } else if bytes.len() == 1 {
        seq![bytes[0] >> 2, (bytes[0] << 4) & 0x3f]
    } else if bytes.len() == 2 {
        seq![bytes[0] >> 2, (bytes[0] << 4 | bytes[1] >> 4) & 0x3f, (bytes[1] << 2) & 0x3f]
    } else {
        seq![
            bytes[0] >> 2,
            (bytes[0] << 4 | bytes[1] >> 4) & 0x3f,
            (bytes[1] << 2 | bytes[2] >> 6) & 0x3f,
            bytes[2] & 0x3f,
        ] + sextets(bytes.skip(3))
    }
}

/// Base64 with the URL-safe alphabet and without padding: one character
/// for each six bits.
pub open spec fn base64_url(bytes: Seq<u8>) -> Seq<char> {
    sextets(bytes).map_values(|v: u8| url_safe_char(v))
}

/// The cache directory of an API origin, with `/` between its parts.
pub open spec fn cache_dir_path(api_url: Seq<char>) -> Seq<char> {
    CACHE_ROOT@ + "/"@ + base64_url(encode_utf8(api_url)) + "/"@ + API_VERSION@
}

/// Calls `base64::encode_config` with `base64::URL_SAFE_NO_PAD` on the
/// bytes of `input`. The contract states the encoding that the crate
/// documents for that configuration. The call panics only where the size of
/// the output overflows `usize`, which four thirds of a slice's length
/// cannot do.
#[verifier::external_body]
fn encode_url_safe(input: &str) -> (r: String)
    ensures
        r@ == base64_url(encode_utf8(input@)),
{
    base64::encode_config(input, base64::URL_SAFE_NO_PAD)
}

/// The cache directory of the API at `api_url`. Creating it is left to the
/// caller.
pub fn file_cache_dir(api_url: &str) -> (dir: String)
    ensures
        dir@ == cache_dir_path(api_url@),
{
    let encoded = encode_url_safe(api_url);
    let mut dir = String::from_str(CACHE_ROOT);
    dir.append("/");
    dir.append(encoded.as_str());
    dir.append("/");
    dir.append(API_VERSION);
    dir
}

/// The identity of a cached record below the cache directory of its origin:
/// the kind of resource, and its own id or the id of the shop it belongs to.
#[derive(Debug, Clone, Copy, PartialEq, Eq, Structural)]
pub enum Resource {
    /// One shop, by its id.
    Shop(i64),
    /// The listing of shops.
    ShopList,
    /// One owner, by its id.
    Owner(i64),
    /// One merchandise list, by its id.
    MerchandiseList(i64),
    /// The merchandise list of a shop, by the shop's id.
    ShopMerchandiseList(i64),
    /// One interior reference list, by its id.
    InteriorRefList(i64),
    /// The interior reference list of a shop, by the shop's id.
    ShopInteriorRefList(i64),
    /// One transaction, by its id.
    Transaction(i64),
}

/// The file name of a resource without its ending.
pub open spec fn file_stem(resource: Resource) -> Seq<char> {
    match resource {
        Resource::Shop(id) => "shop_"@ + decimal(id as int),
        Resource::ShopList => "shops"@,
        Resource::Owner(id) => "owner_"@ + decimal(id as int),
        Resource::MerchandiseList(id) => "merchandise_list_"@ + decimal(id as int),
        Resource::ShopMerchandiseList(id) => "shop_"@ + decimal(id as int) + "_merchandise_list"@,
        Resource::InteriorRefList(id) => "interior_ref_list_"@ + decimal(id as int),
        Resource::ShopInteriorRefList(id) => "shop_"@ + decimal(id as int)
            + "_interior_ref_list"@,
        Resource::Transaction(id) => "transaction_"@ + decimal(id as int),
    }
}

/// The name of the file that holds the body of a resource.
pub open spec fn body_file(resource: Resource) -> Seq<char> {
    file_stem(resource) + ".bin"@
}

/// The name of the file that holds the metadata of a resource.
pub open spec fn metadata_file(resource: Resource) -> Seq<char> {
    file_stem(resource) + "_metadata.json"@
}

/// What is reported when a record is in neither the API's answer nor the
/// cache.
pub open spec fn miss_message(resource: Resource) -> Seq<char> {
    "Object not found in API or in cache: "@ + body_file(resource)
}

impl Resource {
    fn file_stem(&self) -> (s: String)
        ensures
            s@ == file_stem(*self),
    {
        match *self {
            Resource::Shop(id) => {
                let mut s = String::from_str("shop_");
                append_decimal(&mut s, id);
                s
            },
            Resource::ShopList => String::from_str("shops"),
            Resource::Owner(id) => {
                let mut s = String::from_str("owner_");
                append_decimal(&mut s, id);
                s
            },
            Resource::MerchandiseList(id) => {
                let mut s = String::from_str("merchandise_list_");
                append_decimal(&mut s, id);
                s
            },
            Resource::ShopMerchandiseList(id) => {
                let mut s = String::from_str("shop_");
                append_decimal(&mut s, id);
                s.append("_merchandise_list");
                s
            },
            Resource::InteriorRefList(id) => {
                let mut s = String::from_str("interior_ref_list_");
                append_decimal(&mut s, id);
                s
            },
            Resource::ShopInteriorRefList(id) => {
                let mut s = String::from_str("shop_");
                append_decimal(&mut s, id);
                s.append("_interior_ref_list");
                s
            },
            Resource::Transaction(id) => {
                let mut s = String::from_str("transaction_");
                append_decimal(&mut s, id);
                s
            },
        }
    }

    /// The name of the body file of this resource.
    pub fn body_file(&self) -> (s: String)
        ensures
            s@ == body_file(*self),
    {
        let mut s = self.file_stem();
        s.append(".bin");
        s
    }

    /// The name of the metadata file of this resource.
    pub fn metadata_file(&self) -> (s: String)
        ensures
            s@ == metadata_file(*self),
    {
        let mut s = self.file_stem();
        s.append("_metadata.json");
        s
    }

    /// The message of a cache miss on this resource.
    pub fn miss_message(&self) -> (s: String)
        ensures
            s@ == miss_message(*self),
    {
        let mut s = String::from_str("Object not found in API or in cache: ");
        let file = self.body_file();
        s.append(file.as_str());
        s
    }
}

/// The identity of a cached record: the API origin and the resource.
#[derive(Debug, Clone, PartialEq, Eq)]
pub struct CacheKey {
    pub api_url: String,
    pub resource: Resource,
}

/// The mathematical value of a `CacheKey`.
pub struct CacheKeyView {
    pub api_url: Seq<char>,
    pub resource: Resource,
}

impl View for CacheKey {
    type V = CacheKeyView;

    open spec fn view(&self) -> CacheKeyView {
        CacheKeyView { api_url: self.api_url@, resource: self.resource }
    }
}

/// The path of the body file of a key.
pub open spec fn body_path(key: CacheKeyView) -> Seq<char> {
    cache_dir_path(key.api_url) + "/"@ + body_file(key.resource)
}

/// The path of the metadata file of a key.
pub open spec fn metadata_path(key: CacheKeyView) -> Seq<char> {
    cache_dir_path(key.api_url) + "/"@ + metadata_file(key.resource)
}

impl CacheKey {
    /// The key of `resource` at the API at `api_url`.
    pub fn new(api_url: &str, resource: Resource) -> (key: CacheKey)
        ensures
            key@ == (CacheKeyView { api_url: api_url@, resource }),
    {
        CacheKey { api_url: String::from_str(api_url), resource }
    }

    /// The path of the body file.
    pub fn body_path(&self) -> (path: String)
        ensures
            path@ == body_path(self@),
    {
        let mut path = file_cache_dir(self.api_url.as_str());
        path.append("/");
        let file = self.resource.body_file();
        path.append(file.as_str());
        path
    }

    /// The path of the metadata file.
    pub fn metadata_path(&self) -> (path: String)
        ensures
            path@ == metadata_path(self@),
    {
        let mut path = file_cache_dir(self.api_url.as_str());
        path.append("/");
        let file = self.resource.metadata_file();
        path.append(file.as_str());
        path
    }
}

/// The headers of a response, as the transport hands them over.
#[verifier::external_type_specification]
#[verifier::external_body]
#[verifier::reject_recursive_types(T)]
pub struct ExHeaderMap<T>(reqwest::header::HeaderMap<T>);

/// One value among the headers of a response.
#[verifier::external_type_specification]
#[verifier::external_body]
pub struct ExHeaderValue(reqwest::header::HeaderValue);

/// What `HeaderMap::get` finds in the headers under each name: the first
/// value of that name, as the text that `HeaderValue::to_str` gives, or
/// `None` for a value that is no text.
pub uninterp spec fn header_texts(headers: HeaderMap) -> Map<Seq<char>, Option<Seq<char>>>;

/// A point in time: whole seconds since 1970-01-01 00:00:00 UTC, and the
/// nanoseconds after them.
#[derive(Debug, Clone, Copy, PartialEq, Eq, Structural)]
pub struct Timestamp {
    pub secs: i64,
    pub nanos: u32,
}

/// What is kept beside a cached body: the validator token of the response
/// that brought it, and the time that the response gave.
#[derive(Debug, Clone, PartialEq, Eq)]
pub struct Metadata {
    pub etag: Option<String>,
    pub date: Option<Timestamp>,
}

/// The mathematical value of a `Metadata`.
pub struct MetadataView {
    pub etag: Option<Seq<char>>,
    pub date: Option<Timestamp>,
}

impl View for Metadata {
    type V = MetadataView;

    open spec fn view(&self) -> MetadataView {
        MetadataView { etag: opt_text(self.etag), date: self.date }
    }
}

/// The time that `text` parses to as a `chrono::DateTime<Utc>`, by seconds
/// and nanoseconds; `None` where the parse fails.
pub uninterp spec fn parsed_timestamp(text: Seq<char>) -> Option<Timestamp>;

/// Parses `text` with `str::parse::<chrono::DateTime<Utc>>` and reads the
/// result with `timestamp` and `timestamp_subsec_nanos`. The contract only
/// names the outcome: it is a function of the text.
#[verifier::external_body]
fn parse_timestamp(text: &str) -> (r: Option<Timestamp>)
    ensures
        r == parsed_timestamp(text@),
{
    match text.parse::<chrono::DateTime<chrono::Utc>>() {
        Ok(time) => Some(
            Timestamp { secs: time.timestamp(), nanos: time.timestamp_subsec_nanos() },
        ),
        Err(_) => None,
    }
}

/// The time to keep for a `date` header, given what it parsed to: that
/// time, or `now` where it did not parse.
pub open spec fn time_or(parsed: Option<Timestamp>, now: Timestamp) -> Timestamp {
    match parsed {
        Some(time) => time,
        None => now,
    }
}

/// The time that a `date` header stands for.
pub open spec fn header_time(value: Seq<char>, now: Timestamp) -> Timestamp {
    time_or(parsed_timestamp(value), now)
}

/// The text of a header value: the empty text for a value that is none.
pub open spec fn value_text(value: Option<Seq<char>>) -> Seq<char> {
    match value {
        Some(text) => text,
        None => Seq::empty(),
    }
}

/// The text of the header with the given name, where there is one.
pub open spec fn header_text(headers: Map<Seq<char>, Option<Seq<char>>>, name: Seq<char>) -> Option<
    Seq<char>,
> {
    if headers.contains_key(name) {
        Some(value_text(headers[name]))
    } else {
        None
    }
}

/// The metadata that the headers of a response give: the value of `etag`,
/// and the time of `date`.
pub open spec fn metadata_of(
    headers: Map<Seq<char>, Option<Seq<char>>>,
    now: Timestamp,
) -> MetadataView {
    MetadataView {
        etag: header_text(headers, "etag"@),
        date: match header_text(headers, "date"@) {
            Some(value) => Some(header_time(value, now)),
            None => None,
        },
    }
}

/// Calls `HeaderMap::get` with `name` and `HeaderValue::to_str` on what it
/// finds. The contract only names the outcome: the first value of that
/// name, as text where it is text.
#[verifier::external_body]
fn first_header(headers: &HeaderMap, name: &str) -> (r: Option<Option<String>>)
    ensures
        match r {
            Some(value) => header_texts(*headers).contains_key(name@) && header_texts(
                *headers,
            )[name@] == opt_text(value),
            None => !header_texts(*headers).contains_key(name@),
        },
{
    match headers.get(name) {
        Some(value) => match value.to_str() {
            Ok(text) => Some(Some(text.to_string())),
            Err(_) => Some(None),
        },
        None => None,
    }
}

/// The text of a header value that was looked up.
pub fn header_text_from(found: Option<Option<String>>) -> (text: Option<String>)
    ensures
        opt_text(text) == match found {
            Some(value) => Some(value_text(opt_text(value))),
            None => None,
        },
{
    match found {
        Some(Some(text)) => Some(text),
        Some(None) => Some(String::new()),
        None => None,
    }
}

/// The time to keep for a `date` header that parsed to `parsed`.
pub fn header_time_from(parsed: Option<Timestamp>, now: Timestamp) -> (time: Timestamp)
    ensures
        time == time_or(parsed, now),
{
    match parsed {
        Some(time) => time,
        None => now,
    }
}

/// The metadata to keep for a response with these headers, received at
/// `now`.
pub fn metadata_from_headers(headers: &HeaderMap, now: Timestamp) -> (metadata: Metadata)
    ensures
        metadata@ == metadata_of(header_texts(*headers), now),
{
    let etag = header_text_from(first_header(headers, "etag"));
    let date = match header_text_from(first_header(headers, "date")) {
        Some(value) => Some(header_time_from(parse_timestamp(value.as_str()), now)),
        None => None,
    };
    Metadata { etag, date }
}

} // verus!
