//! Request-side helpers: header parsing and upload size policy.
//!
//! Reading the request itself happens in the surrounding process; what is
//! verified here is how header values are interpreted and when an upload's
//! byte count is acceptable.

use vstd::prelude::*;

use crate::text::string_to_chars;
use crate::text::string_from_chars;

verus! {

/// Where and under what name an uploaded file is stored, and the byte
/// bounds it must respect.
pub struct SaveUploadedFileOptions<'a> {
    pub directory: &'a str,
    pub path: &'a str,
    pub bytes_min: Option<usize>,
    pub bytes_max: Option<usize>,
}

/// Whether a running upload total has exceeded the allowed maximum.
pub fn upload_too_large(total: usize, options: &SaveUploadedFileOptions<'_>) -> (r: bool)
    ensures
        r == match options.bytes_max {
            Some(max) => total > max,
            None => false,
        },
{
    match options.bytes_max {
        Some(max) => total > max,
        None => false,
    }
}

/// Whether a finished upload stayed below the required minimum.
pub fn upload_too_small(total: usize, options: &SaveUploadedFileOptions<'_>) -> (r: bool)
    ensures
        r == match options.bytes_min {
            Some(min) => total < min,
            None => false,
        },
{
    match options.bytes_min {
        Some(min) => total < min,
        None => false,
    }
}

pub open spec fn is_dec_digit(c: char) -> bool {
    '0' <= c && c <= '9'
}

/// The numeric value of a digit string, read left to right.
pub open spec fn dec_val(s: Seq<char>) -> int
    decreases s.len(),
{
    if s.len() == 0 {
        0
    } else {
        dec_val(s.drop_last()) * 10 + (s.last() as int - '0' as int)
    }
}

/// A longer digit prefix never has a smaller value.
proof fn lemma_dec_val_grows(s: Seq<char>, i: int)
    requires
        0 <= i <= s.len(),
        forall|k: int| 0 <= k < s.len() ==> is_dec_digit(#[trigger] s[k]),
    ensures
        dec_val(s.take(i)) <= dec_val(s),
    decreases s.len() - i,
{
    if i < s.len() {
        lemma_dec_val_grows(s, i + 1);
        let t = s.take(i + 1);
        assert(t.drop_last() =~= s.take(i));
        assert(is_dec_digit(t.last()));
        assert(dec_val(s.take(i)) >= 0) by {
            lemma_dec_val_nonneg(s.take(i));
        }
        assert(dec_val(s.take(i)) <= dec_val(s.take(i + 1)));
    } else {
        assert(s.take(i) =~= s);
    }
}

proof fn lemma_dec_val_nonneg(s: Seq<char>)
    requires
        forall|k: int| 0 <= k < s.len() ==> is_dec_digit(#[trigger] s[k]),
    ensures
        dec_val(s) >= 0,
    decreases s.len(),
{
    if s.len() > 0 {
        assert forall|k: int| 0 <= k < s.drop_last().len() implies is_dec_digit(
            #[trigger] s.drop_last()[k],
        ) by {
            assert(s.drop_last()[k] == s[k]);
        }
        lemma_dec_val_nonneg(s.drop_last());
    }
}

/// Read a Content-Length header value: the decimal value of a nonempty
/// all-digit string that fits a 64-bit count, and nothing else.
pub fn read_content_length(value: &str) -> (r: Option<u64>)
    ensures
        match r {
            Some(n) => value@.len() > 0 && (forall|k: int|
                0 <= k < value@.len() ==> is_dec_digit(#[trigger] value@[k])) && n == dec_val(
                value@,
            ),
            None => value@.len() == 0 || (exists|k: int|
                0 <= k < value@.len() && !is_dec_digit(#[trigger] value@[k])) || dec_val(value@)
                > u64::MAX,
        },
{
    let chars = string_to_chars(value);
    let n = chars.len();
    if n == 0 {
        return None;
    }
    let mut acc: u64 = 0;
    let mut i: usize = 0;
    while i < n
        invariant
            i <= n,
            n == value@.len(),
            chars@ == value@,
            forall|k: int| 0 <= k < i ==> is_dec_digit(#[trigger] value@[k]),
            acc == dec_val(value@.take(i as int)),
        decreases n - i,
    {
        let c = chars[i];
        if !('0' <= c && c <= '9') {
            return None;
        }
        let d: u64 = (c as u32 - '0' as u32) as u64;
        let next = match acc.checked_mul(10) {
            Some(m) => m.checked_add(d),
            None => None,
        };
        acc = match next {
            Some(v) => v,
            None => {
                proof {
                    let t = value@.take(i + 1 as int);
                    assert(t.drop_last() =~= value@.take(i as int));
                    assert(t.last() == value@[i as int]);
                    assert(dec_val(t) > u64::MAX);
                    if forall|k: int| 0 <= k < value@.len() ==> is_dec_digit(#[trigger] value@[k]) {
                        lemma_dec_val_grows(value@, i + 1);
                        assert(dec_val(value@) > u64::MAX);
                    } else {
                        assert(exists|k: int|
                            0 <= k < value@.len() && !is_dec_digit(#[trigger] value@[k]));
                    }
                }
                return None;
            },
        };
        proof {
            let t = value@.take(i + 1 as int);
            assert(t.drop_last() =~= value@.take(i as int));
            assert(t.last() == value@[i as int]);
        }
        i = i + 1;
    }
    proof {
        assert(value@.take(n as int) =~= value@);
    }
    Some(acc)
}

/// The token of a bearer authorization header: everything after the first
/// space, when the value has one.
pub fn bearer_token(value: &str) -> (r: Option<String>)
    ensures
        match r {
            Some(t) => exists|i: int|
                0 <= i < value@.len() && value@[i] == ' ' && (forall|j: int|
                    0 <= j < i ==> value@[j] != ' ') && t@ == value@.skip(i + 1),
            None => forall|i: int| 0 <= i < value@.len() ==> value@[i] != ' ',
        },
{
    let chars = string_to_chars(value);
    let n = chars.len();
    let mut i: usize = 0;
    while i < n
        invariant
            i <= n,
            n == value@.len(),
            chars@ == value@,
            forall|j: int| 0 <= j < i ==> value@[j] != ' ',
        decreases n - i,
    {
        if chars[i] == ' ' {
            let mut rest: Vec<char> = Vec::new();
            let mut k = i + 1;
            while k < n
                invariant
                    i + 1 <= k <= n,
                    n == value@.len(),
                    chars@ == value@,
                    rest@ == value@.subrange(i + 1 as int, k as int),
                decreases n - k,
            {
                rest.push(chars[k]);
                k = k + 1;
                proof {
                    assert(rest@ =~= value@.subrange(i + 1 as int, k as int));
                }
            }
            proof {
                assert(rest@ =~= value@.skip(i + 1 as int));
            }
            return Some(string_from_chars(&rest));
        }
        i = i + 1;
    }
    None
}

} // verus!
