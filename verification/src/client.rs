//! The credential: how it is cached, when a cached one is used again, and
//! when a freshly captured one is accepted.

use vstd::prelude::*;
use vstd::bytes::{spec_u64_from_le_bytes, spec_u64_to_le_bytes, lemma_auto_spec_u64_to_from_le_bytes};
use vstd::utf8::{decode_utf8, encode_utf8, valid_utf8, encode_utf8_decode_utf8, encode_utf8_valid_utf8};

verus! {

/// The authentication material that every authenticated request carries.
#[derive(Clone, Debug)]
pub struct Client {
    /// The value of the `Cookie` header.
    pub cookie: String,
}

impl View for Client {
    type V = Seq<char>;

    open spec fn view(&self) -> Seq<char> {
        self.cookie@
    }
}

/// Why no credential came out of a step.
#[derive(Clone, Copy, Debug, PartialEq, Eq, Structural)]
pub enum ClientError {
    /// The cache file does not hold a credential record.
    MalformedCache,
    /// The login flow handed over an empty credential.
    EmptyCredential,
    /// The portal did not show the four schedule categories.
    UnexpectedItemCount,
    /// An event came in that the current step of the login does not wait for.
    UnexpectedEvent,
}

/// The status with which the portal answers a request it accepts.
pub const STATUS_OK: u16 = 200;

/// The cache record of a cookie: the length of its UTF-8 encoding as eight
/// little-endian bytes, then the encoding itself.
pub open spec fn cache_record(cookie: Seq<char>) -> Seq<u8> {
    spec_u64_to_le_bytes(encode_utf8(cookie).len() as u64) + encode_utf8(cookie)
}

/// The cookie that a cache file holds, if it begins with a whole record.
/// Bytes after the record are ignored.
pub open spec fn parse_cache_record(bytes: Seq<u8>) -> Option<Seq<char>> {
    if bytes.len() < 8 {
        None
    } else {
        let n = spec_u64_from_le_bytes(bytes.subrange(0, 8)) as int;
        if 8 + n > bytes.len() {
            None
        } else if !valid_utf8(bytes.subrange(8, 8 + n)) {
            None
        } else {
            Some(decode_utf8(bytes.subrange(8, 8 + n)))
        }
    }
}

/// A record that was written is read back as the cookie it was written from.
pub proof fn lemma_cache_round_trip(cookie: Seq<char>)
    requires
        encode_utf8(cookie).len() <= u64::MAX,
    ensures
        parse_cache_record(cache_record(cookie)) == Some(cookie),
{
    lemma_auto_spec_u64_to_from_le_bytes();
    let body = encode_utf8(cookie);
    let head = spec_u64_to_le_bytes(body.len() as u64);
    let record = cache_record(cookie);
    assert(head.len() == 8);
    assert(record.subrange(0, 8) =~= head);
    assert(record.subrange(8, 8 + body.len() as int) =~= body);
    encode_utf8_valid_utf8(cookie);
    encode_utf8_decode_utf8(cookie);
}

/// What to do once the cache file was looked at.
pub enum CacheCheck {
    /// The file held this credential: ask the portal whether it still holds.
    Probe(Client),
    /// No usable credential is cached: log in.
    Acquire,
}

/// What to do once the probe of a cached credential was answered.
pub enum ProbeOutcome {
    /// The portal accepted the credential: use it, and start no browser.
    UseCached(Client),
    /// The credential is stale or the probe failed: log in.
    Acquire,
}

/// A freshly captured credential and the bytes to overwrite the cache with.
pub struct Captured {
    pub client: Client,
    pub cache_bytes: Vec<u8>,
}

impl Client {
    /// The bytes that the cache file holds for this credential.
    pub fn to_cache_bytes(&self) -> (bytes: Vec<u8>)
        ensures
            bytes@ == cache_record(self@),
    {
        match bincode_serialize(&self.cookie) {
            Ok(bytes) => bytes,
            Err(_) => unreached(),
        }
    }

    /// Reads a credential back from the bytes of the cache file.
    pub fn from_cache_bytes(bytes: &[u8]) -> (result: Result<Client, ClientError>)
        ensures
            match result {
                Ok(client) => parse_cache_record(bytes@) == Some(client@),
                Err(e) => parse_cache_record(bytes@) is None && e == ClientError::MalformedCache,
            },
    {
        match bincode_deserialize(bytes) {
            Ok(cookie) => Ok(Client { cookie }),
            Err(_) => Err(ClientError::MalformedCache),
        }
    }

    /// Decides what follows the look at the cache file: `cached` holds its
    /// bytes, or nothing where it could not be read. A file that holds a
    /// record is probed; anything else leads to a login.
    pub fn check_cache(cached: Option<&[u8]>) -> (check: CacheCheck)
        ensures
            match check {
                CacheCheck::Probe(client) => cached matches Some(bytes) && parse_cache_record(
                    bytes@,
                ) == Some(client@),
                CacheCheck::Acquire => cached matches Some(bytes) ==> parse_cache_record(bytes@)
                    is None,
            },
    {
        match cached {
            None => CacheCheck::Acquire,
            Some(bytes) => match Client::from_cache_bytes(bytes) {
                Ok(client) => CacheCheck::Probe(client),
                Err(_) => CacheCheck::Acquire,
            },
        }
    }

    /// Decides what follows the probe: `status` is the status of the answer,
    /// or nothing where the request failed. The cached credential is used
    /// exactly when the portal answered with success.
    pub fn after_probe(self, status: Option<u16>) -> (outcome: ProbeOutcome)
        ensures
            match outcome {
                ProbeOutcome::UseCached(client) => status == Some(STATUS_OK) && client == self,
                ProbeOutcome::Acquire => status != Some(STATUS_OK),
            },
    {
        match status {
            Some(code) => if code == STATUS_OK {
                ProbeOutcome::UseCached(self)
            } else {
                ProbeOutcome::Acquire
            },
            None => ProbeOutcome::Acquire,
        }
    }

    /// Accepts what the interception handed over. An empty cookie is refused
    /// and leaves nothing to write; any other becomes the credential, with
    /// the bytes of its cache record.
    pub fn from_captured(cookie: String) -> (result: Result<Captured, ClientError>)
        ensures
            match result {
                Ok(captured) => {
                    &&& cookie@.len() > 0
                    &&& captured.client@ == cookie@
                    &&& captured.cache_bytes@ == cache_record(cookie@)
                },
                Err(e) => cookie@.len() == 0 && e == ClientError::EmptyCredential,
            },
    {
        if cookie.as_str().is_empty() {
            return Err(ClientError::EmptyCredential);
        }
        let client = Client { cookie };
        let cache_bytes = client.to_cache_bytes();
        Ok(Captured { client, cache_bytes })
    }
}

/// The error type of the `bincode` crate.
#[verifier::external_type_specification]
#[verifier::external_body]
pub struct ExBincodeErrorKind(bincode::ErrorKind);

/// `bincode::serialize` on a string. The outside function writes the length
/// of the string in bytes as a `u64`, little-endian, and then the bytes, and
/// does not fail on a string.
#[verifier::external_body]
fn bincode_serialize(cookie: &String) -> (result: Result<Vec<u8>, Box<bincode::ErrorKind>>)
    ensures
        result is Ok,
        result matches Ok(bytes) ==> bytes@ == cache_record(cookie@),
{
    bincode::serialize(cookie)
}

/// `bincode::deserialize` to a string. The outside function reads eight
/// bytes as a little-endian length, takes that many bytes after them, and
/// gives the string they encode; it fails where the input is shorter than
/// that or the bytes are not UTF-8, and ignores what follows them.
#[verifier::external_body]
fn bincode_deserialize(bytes: &[u8]) -> (result: Result<String, Box<bincode::ErrorKind>>)
    ensures
        result matches Ok(cookie) ==> parse_cache_record(bytes@) == Some(cookie@),
        result is Err ==> parse_cache_record(bytes@) is None,
{
    bincode::deserialize::<String>(bytes)
}

} // verus!
