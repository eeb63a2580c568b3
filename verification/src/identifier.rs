//! Opaque identifier generation.
//!
//! An id combines a content tuple, the current high-resolution timestamp and
//! a process-random salt into one hash input, hashes it, and writes the hash
//! bytes in a lower-cased base-32 alphabet that excludes ambiguous
//! characters. Collisions are extremely unlikely but not impossible; callers
//! needing uniqueness verify against their store and retry. What is proved:
//! the id is a fixed function of the generator's captured state — so a
//! generator always yields the same id — and every id is exactly thirteen
//! lower-case Crockford digits, hence always a valid path segment.

use vstd::prelude::*;
use vstd::bytes::u64_to_le_bytes;
use vstd::bytes::u128_to_le_bytes;
use vstd::bytes::spec_u64_to_le_bytes;
use vstd::bytes::spec_u128_to_le_bytes;
use vstd::std_specs::hash::DefaultHasherAdditionalSpecFns;
use vstd::utf8::encode_utf8;

use std::collections::hash_map::DefaultHasher;
use std::hash::Hasher;

use crate::comment_photos::valid_segment;
use crate::text::string_to_chars;
use crate::text::string_from_chars;

verus! {

/// The base-32 alphabet of Douglas Crockford: digits and upper-case letters,
/// with the ambiguous I, L, O and U left out.
pub open spec fn crockford_alphabet() -> Seq<char> {
    seq![
        '0',
        '1',
        '2',
        '3',
        '4',
        '5',
        '6',
        '7',
        '8',
        '9',
        'A',
        'B',
        'C',
        'D',
        'E',
        'F',
        'G',
        'H',
        'J',
        'K',
        'M',
        'N',
        'P',
        'Q',
        'R',
        'S',
        'T',
        'V',
        'W',
        'X',
        'Y',
        'Z',
    ]
}

/// The lower-cased Crockford alphabet, aligned index by index with
/// [`crockford_alphabet`].
pub open spec fn lower_crockford_alphabet() -> Seq<char> {
    seq![
        '0',
        '1',
        '2',
        '3',
        '4',
        '5',
        '6',
        '7',
        '8',
        '9',
        'a',
        'b',
        'c',
        'd',
        'e',
        'f',
        'g',
        'h',
        'j',
        'k',
        'm',
        'n',
        'p',
        'q',
        'r',
        's',
        't',
        'v',
        'w',
        'x',
        'y',
        'z',
    ]
}

pub open spec fn is_crockford_char(c: char) -> bool {
    crockford_alphabet().contains(c)
}

pub open spec fn is_lower_crockford_char(c: char) -> bool {
    lower_crockford_alphabet().contains(c)
}

/// How many base-32 digits an unpadded encoding of `n` bytes has.
pub open spec fn crockford_len(n: int) -> int {
    if n % 5 == 0 {
        n / 5 * 8
    } else {
        n / 5 * 8 + (n % 5 * 8 + 4) / 5
    }
}

/// The Crockford base-32 rendering of a byte sequence, as `base32::encode`
/// computes it: a fixed function of the bytes alone.
pub uninterp spec fn crockford_of(data: Seq<u8>) -> Seq<char>;

/// Relies on `base32::encode` with the Crockford alphabet: the rendering is
/// a function of the bytes alone, every output character comes from that
/// alphabet, no padding is appended, and the output length is the byte
/// length scaled to five-bit digits.
#[verifier::external_body]
fn crockford_base32(data: &Vec<u8>) -> (r: String)
    ensures
        r@ == crockford_of(data@),
        r@.len() == crockford_len(data@.len() as int),
        forall|i: int| 0 <= i < r@.len() ==> is_crockford_char(#[trigger] r@[i]),
{
    base32::encode(base32::Alphabet::Crockford, data.as_slice())
}

/// Relies on `std::time::SystemTime::now` and `duration_since`: the
/// nanoseconds since the Unix epoch, or zero when the clock sits before it.
/// Nothing is known of the value.
#[verifier::external_body]
fn now_nanos() -> u128 {
    std::time::SystemTime::now().duration_since(std::time::UNIX_EPOCH).map(
        |d| d.as_nanos(),
    ).unwrap_or(0u128)
}

pub assume_specification<T>[ rand::random::<T> ]() -> (r: T)
    where
        rand::distributions::Standard: rand::distributions::Distribution<T>,
;

/// The lower-cased form of one ASCII character.
pub open spec fn lower_char(c: char) -> char {
    if 'A' <= c && c <= 'Z' {
        (((c as u32) + 32) as u8) as char
    } else {
        c
    }
}

/// A string lower-cased character by character.
pub open spec fn lower_seq(s: Seq<char>) -> Seq<char> {
    Seq::new(s.len(), |i: int| lower_char(s[i]))
}

/// Lower-case the ASCII letters of a string, leaving the rest untouched.
pub fn ascii_lowercase(s: &str) -> (r: String)
    ensures
        r@ == lower_seq(s@),
{
    let chars = string_to_chars(s);
    let mut out: Vec<char> = Vec::new();
    let mut i: usize = 0;
    while i < chars.len()
        invariant
            i <= chars@.len(),
            chars@ == s@,
            out@.len() == i,
            forall|k: int| 0 <= k < i ==> out@[k] == lower_char(#[trigger] s@[k]),
        decreases chars@.len() - i,
    {
        let c = chars[i];
        if 'A' <= c && c <= 'Z' {
            let u = c as u32;
            let b = #[verifier::truncate] ((u + 32) as u8);
            out.push(b as char);
        } else {
            out.push(c);
        }
        i = i + 1;
    }
    proof {
        assert(out@ =~= lower_seq(s@));
    }
    string_from_chars(&out)
}

/// Lower-casing a Crockford digit lands in the lower-case alphabet, and in
/// particular never on a path separator.
pub proof fn lemma_lower_crockford(c: char)
    requires
        is_crockford_char(c),
    ensures
        is_lower_crockford_char(lower_char(c)),
        lower_char(c) != '/',
{
    let a = crockford_alphabet();
    let la = lower_crockford_alphabet();
    let i = choose|i: int| 0 <= i < a.len() && a[i] == c;
    assert(a[i] == c);
    assert(la[i] == lower_char(a[i]));
    assert(la.contains(lower_char(c)));
}

/// An identifier produced here: exactly the thirteen lower-case Crockford
/// digits of an eight-byte encoding, and so always a valid path segment.
pub open spec fn generated_id(s: Seq<char>) -> bool {
    &&& s.len() == crockford_len(8)
    &&& forall|i: int| 0 <= i < s.len() ==> is_lower_crockford_char(#[trigger] s[i])
    &&& valid_segment(s)
}

/// Generates one opaque identifier from captured state.
pub trait Generate {
    /// The identifier this generator yields: a fixed function of the state
    /// captured when the generator was built, so repeated calls agree.
    spec fn id_spec(&self) -> Seq<char>;

    /// Produce the identifier.
    fn generate(&self) -> (r: String)
        ensures
            r@ == self.id_spec(),
            generated_id(r@),
    ;
}

/// Content that can enter a hash: a flat byte rendering.
pub trait HashContent {
    /// The bytes this content contributes to the hash input.
    spec fn content_spec(&self) -> Seq<u8>;

    fn content_bytes(&self) -> (r: Vec<u8>)
        ensures
            r@ == self.content_spec(),
    ;
}

/// The raw material of one id: a content tuple plus time and randomness
/// drawn once, when the generator is built.
pub struct IdGenerator<T> {
    timestamp: u128,
    salt: u64,
    content: T,
}

impl<T> IdGenerator<T> {
    /// The content this generator was built over.
    pub closed spec fn content_of(&self) -> T {
        self.content
    }

    /// A generator over `t`, salted with the current time and a fresh
    /// random value, both captured once: the id is fixed from here on.
    pub fn new(t: T) -> (r: IdGenerator<T>)
        ensures
            r.content_of() == t,
    {
        IdGenerator { timestamp: now_nanos(), salt: rand::random::<u64>(), content: t }
    }
}

impl<T: HashContent> Generate for IdGenerator<T> {
    /// The id: the captured timestamp, salt and content bytes hashed to 64
    /// bits, rendered in Crockford base-32 and lower-cased.
    closed spec fn id_spec(&self) -> Seq<char> {
        lower_seq(
            crockford_of(
                spec_u64_to_le_bytes(
                    DefaultHasher::spec_finish(
                        seq![
                            spec_u128_to_le_bytes(self.timestamp),
                            spec_u64_to_le_bytes(self.salt),
                            self.content.content_spec(),
                        ],
                    ),
                ),
            ),
        )
    }

    fn generate(&self) -> (r: String) {
        let mut hasher = DefaultHasher::new();
        let ts = u128_to_le_bytes(self.timestamp);
        hasher.write(ts.as_slice());
        let salt = u64_to_le_bytes(self.salt);
        hasher.write(salt.as_slice());
        let content = self.content.content_bytes();
        hasher.write(content.as_slice());
        proof {
            assert(hasher@ =~= seq![
                spec_u128_to_le_bytes(self.timestamp),
                spec_u64_to_le_bytes(self.salt),
                self.content.content_spec(),
            ]);
        }
        let raw = hasher.finish();
        let bytes = u64_to_le_bytes(raw);
        let encoded = crockford_base32(&bytes);
        let id = ascii_lowercase(encoded.as_str());
        proof {
            assert(encoded@.len() == crockford_len(8));
            assert forall|i: int| 0 <= i < id@.len() implies is_lower_crockford_char(
                #[trigger] id@[i],
            ) && id@[i] != '/' by {
                lemma_lower_crockford(encoded@[i]);
            }
        }
        id
    }
}

impl HashContent for (String, String) {
    /// The two strings' UTF-8 bytes, separated by a zero byte.
    open spec fn content_spec(&self) -> Seq<u8> {
        encode_utf8(self.0@) + seq![0u8] + encode_utf8(self.1@)
    }

    fn content_bytes(&self) -> (r: Vec<u8>) {
        let mut v: Vec<u8> = Vec::new();
        v.extend_from_slice(self.0.as_str().as_bytes());
        v.push(0u8);
        v.extend_from_slice(self.1.as_str().as_bytes());
        proof {
            assert(v@ =~= self.content_spec());
        }
        v
    }
}

impl HashContent for (String, String, String) {
    /// The three strings' UTF-8 bytes, separated by zero bytes.
    open spec fn content_spec(&self) -> Seq<u8> {
        encode_utf8(self.0@) + seq![0u8] + encode_utf8(self.1@) + seq![0u8] + encode_utf8(self.2@)
    }

    fn content_bytes(&self) -> (r: Vec<u8>) {
        let mut v: Vec<u8> = Vec::new();
        v.extend_from_slice(self.0.as_str().as_bytes());
        v.push(0u8);
        v.extend_from_slice(self.1.as_str().as_bytes());
        v.push(0u8);
        v.extend_from_slice(self.2.as_str().as_bytes());
        proof {
            assert(v@ =~= self.content_spec());
        }
        v
    }
}

} // verus!
