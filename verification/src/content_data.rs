//! Content data: a byte buffer with its source identifier, a text
//! heuristic, UTF-8 decoding, digesting and hex rendering, and slicing.

use vstd::prelude::*;

use sha2::Digest;
use vstd::string::StringSliceAdditionalSpecFns;
use vstd::utf8::{decode_utf8, valid_utf8};

use crate::content_metadata::ContentSource;
use crate::report::{Error, ErrorResource, ErrorType};

verus! {

/// What the digest of a byte sequence is, as the SHA-256 function gives
/// it; the value depends on the bytes alone.
pub uninterp spec fn sha256_of(data: Seq<u8>) -> Seq<u8>;

/// Relies on sha2's `Sha256` (`new`, `update`, `finalize`): the 32-byte
/// digest of the input, a function of the bytes alone.
#[verifier::external_body]
fn sha256_digest(data: &[u8]) -> (r: Vec<u8>)
    ensures
        r@ == sha256_of(data@),
        r@.len() == 32,
{
    let mut hasher = sha2::Sha256::new();
    hasher.update(data);
    hasher.finalize().to_vec()
}

/// The lowercase hex digit of a value below sixteen.
pub open spec fn spec_hex_digit(n: u8) -> char {
    if n == 0 {
        '0'
    } else if n == 1 {
        '1'
    } else if n == 2 {
        '2'
    } else if n == 3 {
        '3'
    } else if n == 4 {
        '4'
    } else if n == 5 {
        '5'
    } else if n == 6 {
        '6'
    } else if n == 7 {
        '7'
    } else if n == 8 {
        '8'
    } else if n == 9 {
        '9'
    } else if n == 10 {
        'a'
    } else if n == 11 {
        'b'
    } else if n == 12 {
        'c'
    } else if n == 13 {
        'd'
    } else if n == 14 {
        'e'
    } else {
        'f'
    }
}

/// The lowercase hex rendering of a byte sequence: two digits per byte,
/// high nibble first.
pub open spec fn spec_hex_of(data: Seq<u8>) -> Seq<char> {
    Seq::new(
        data.len() * 2,
        |i: int|
            if i % 2 == 0 {
                spec_hex_digit(data[i / 2] / 16)
            } else {
                spec_hex_digit(data[i / 2] % 16)
            },
    )
}

/// Relies on hex's `encode`: the lowercase hex rendering of the bytes, two
/// digits per byte, high nibble first.
#[verifier::external_body]
fn hex_encode(data: &[u8]) -> (r: String)
    ensures
        r@ == spec_hex_of(data@),
{
    hex::encode(data)
}

/// Relies on std's `String::from_utf8`, with vstd's model of UTF-8:
/// succeeds exactly on valid UTF-8 and decodes it.
#[verifier::external_body]
fn utf8_to_string(data: &[u8]) -> (r: Result<String, String>)
    ensures
        r is Ok <==> valid_utf8(data@),
        r matches Ok(s) ==> s@ == decode_utf8(data@),
{
    String::from_utf8(data.to_vec()).map_err(|e| e.to_string())
}

/// Relies on std's `str::from_utf8`, with vstd's model of UTF-8: succeeds
/// exactly on valid UTF-8 and decodes it.
#[verifier::external_body]
fn utf8_to_str(data: &[u8]) -> (r: Result<&str, String>)
    ensures
        r is Ok <==> valid_utf8(data@),
    r matches Ok(s) ==> s@ == decode_utf8(data@),
{
    std::str::from_utf8(data).map_err(|e| e.to_string())
}

/// True when a byte renders as text under the basic heuristic: an ASCII
/// graphic character or ASCII whitespace.
pub open spec fn spec_text_byte(b: u8) -> bool {
    (33 <= b && b <= 126) || b == 32 || b == 9 || b == 10 || b == 12 || b == 13
}

/// Content data with its source: a byte buffer whose digest, text form and
/// slices can be asked for.
#[derive(Debug, Clone, PartialEq)]
pub struct ContentData {
    /// Unique identifier for the content source.
    pub content_source: ContentSource,
    /// The actual content data.
    pub content_data: Vec<u8>,
}

impl ContentData {
    /// Creates new content data.
    pub fn new(content_source: ContentSource, content_data: Vec<u8>) -> (r: ContentData)
        ensures
            r.content_source == content_source,
            r.content_data@ == content_data@,
    {
        ContentData { content_source, content_data }
    }

    /// Creates content data from text, with a fresh source.
    pub fn from_text(text: &str) -> (r: ContentData)
        ensures
            r.content_data@ == text.spec_bytes(),
    {
        ContentData {
            content_source: ContentSource::new(),
            content_data: text.as_bytes_vec(),
        }
    }

    /// Creates content data from bytes, with a fresh source.
    pub fn from_vec(data: Vec<u8>) -> (r: ContentData)
        ensures
            r.content_data@ == data@,
    {
        ContentData { content_source: ContentSource::new(), content_data: data }
    }

    /// The size of the content in bytes.
    pub fn size(&self) -> (r: usize)
        ensures
            r == self.content_data@.len(),
    {
        self.content_data.len()
    }

    /// The content data as a byte slice.
    pub fn as_bytes(&self) -> (r: &[u8])
        ensures
            r@ == self.content_data@,
    {
        self.content_data.as_slice()
    }

    /// The content data, consumed.
    pub fn into_bytes(self) -> (r: Vec<u8>)
        ensures
            r == self.content_data,
    {
        self.content_data
    }

    /// True when the content is likely text: every byte is an ASCII
    /// graphic character or ASCII whitespace.
    pub fn is_likely_text(&self) -> (r: bool)
        ensures
            r <==> (forall|i: int|
                0 <= i < self.content_data@.len() ==> spec_text_byte(#[trigger] self.content_data@[i])),
    {
        let mut i: usize = 0;
        while i < self.content_data.len()
            invariant
                i <= self.content_data@.len(),
                forall|j: int| 0 <= j < i ==> spec_text_byte(#[trigger] self.content_data@[j]),
            decreases self.content_data@.len() - i,
        {
            let b: u8 = self.content_data[i];
            if !((33 <= b && b <= 126) || b == 32 || b == 9 || b == 10 || b == 12 || b == 13) {
                return false;
            }
            i = i + 1;
        }
        true
    }

    /// The content as a UTF-8 string; bytes that are not valid UTF-8 are a
    /// runtime error.
    pub fn as_string(&self) -> (r: Result<String, Error>)
        ensures
            r is Ok <==> valid_utf8(self.content_data@),
            r matches Ok(s) ==> s@ == decode_utf8(self.content_data@),
            r matches Err(e) ==> e.error_type == ErrorType::Runtime && e.error_resource
                == ErrorResource::Core,
    {
        match utf8_to_string(self.content_data.as_slice()) {
            Ok(s) => Ok(s),
            Err(_) => Err(
                Error::new(
                    ErrorType::Runtime,
                    ErrorResource::Core,
                    String::from_str("Invalid UTF-8"),
                ),
            ),
        }
    }

    /// The content as a UTF-8 string slice; bytes that are not valid UTF-8
    /// are a runtime error.
    pub fn as_str(&self) -> (r: Result<&str, Error>)
        ensures
            r is Ok <==> valid_utf8(self.content_data@),
            r matches Ok(s) ==> s@ == decode_utf8(self.content_data@),
            r matches Err(e) ==> e.error_type == ErrorType::Runtime && e.error_resource
                == ErrorResource::Core,
    {
        match utf8_to_str(self.content_data.as_slice()) {
            Ok(s) => Ok(s),
            Err(_) => Err(
                Error::new(
                    ErrorType::Runtime,
                    ErrorResource::Core,
                    String::from_str("Invalid UTF-8"),
                ),
            ),
        }
    }

    /// Computes the SHA-256 digest of the content: 32 bytes, a function of
    /// the content alone.
    pub fn compute_sha256(&self) -> (r: Vec<u8>)
        ensures
            r@ == sha256_of(self.content_data@),
            r@.len() == 32,
    {
        sha256_digest(self.content_data.as_slice())
    }

    /// The SHA-256 digest of the content, computed on demand.
    pub fn sha256(&self) -> (r: Vec<u8>)
        ensures
            r@ == sha256_of(self.content_data@),
            r@.len() == 32,
    {
        self.compute_sha256()
    }

    /// The SHA-256 digest of the content as a lowercase hex string.
    pub fn sha256_hex(&self) -> (r: String)
        ensures
            r@ == spec_hex_of(sha256_of(self.content_data@)),
    {
        let digest: Vec<u8> = self.sha256();
        hex_encode(digest.as_slice())
    }

    /// Verifies the content against an expected SHA-256 digest: succeeds
    /// exactly when the digest of the content equals the expected bytes.
    pub fn verify_sha256(&self, expected_hash: &[u8]) -> (r: Result<(), Error>)
        ensures
            r is Ok <==> sha256_of(self.content_data@) == expected_hash@,
            r matches Err(e) ==> e.error_type == ErrorType::Runtime && e.error_resource
                == ErrorResource::Core,
    {
        let actual: Vec<u8> = self.sha256();
        let alen: usize = actual.len();
        if alen == expected_hash.len() {
            let mut i: usize = 0;
            let mut same: bool = true;
            while i < alen
                invariant
                    i <= alen,
                    alen == actual@.len(),
                    alen == expected_hash@.len(),
                    same <==> (forall|j: int| 0 <= j < i ==> actual@[j] == expected_hash@[j]),
                decreases alen - i,
            {
                if actual[i] != expected_hash[i] {
                    same = false;
                }
                i = i + 1;
            }
            if same {
                proof {
                    assert(actual@ =~= expected_hash@);
                }
                return Ok(());
            }
        }
        proof {
            assert(sha256_of(self.content_data@) != expected_hash@) by {
                assert(actual@ == sha256_of(self.content_data@));
            }
        }
        Err(
            Error::new(
                ErrorType::Runtime,
                ErrorResource::Core,
                String::from_str("Hash mismatch"),
            ),
        )
    }

    /// The bytes between `start` and `end`: exactly that range on
    /// in-bounds, ordered indexes, and a runtime error otherwise.
    pub fn slice(&self, start: usize, end: usize) -> (r: Result<Vec<u8>, Error>)
        ensures
            r is Ok <==> (end <= self.content_data@.len() && start <= end),
            r matches Ok(v) ==> v@ == self.content_data@.subrange(start as int, end as int),
            r matches Err(e) ==> e.error_type == ErrorType::Runtime && e.error_resource
                == ErrorResource::Core,
    {
        if end > self.content_data.len() {
            return Err(
                Error::new(
                    ErrorType::Runtime,
                    ErrorResource::Core,
                    String::from_str("Slice end exceeds content length"),
                ),
            );
        }
        if start > end {
            return Err(
                Error::new(
                    ErrorType::Runtime,
                    ErrorResource::Core,
                    String::from_str("Slice start is greater than end"),
                ),
            );
        }
        let mut out: Vec<u8> = Vec::new();
        let mut i: usize = start;
        while i < end
            invariant
                start <= i <= end,
                end <= self.content_data@.len(),
                out@ == self.content_data@.subrange(start as int, i as int),
            decreases end - i,
        {
            out.push(self.content_data[i]);
            proof {
                assert(out@ =~= self.content_data@.subrange(start as int, i + 1));
            }
            i = i + 1;
        }
        Ok(out)
    }

    /// True when the content is empty.
    pub fn is_empty(&self) -> (r: bool)
        ensures
            r == (self.content_data@.len() == 0),
    {
        self.content_data.len() == 0
    }
}

} // verus!
