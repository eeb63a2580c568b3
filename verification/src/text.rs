//! Character-level helpers shared by the path codec and the order
//! serialization.

use vstd::prelude::*;

verus! {

/// The characters of a string slice, one `char` per element.
pub fn string_to_chars(s: &str) -> (r: Vec<char>)
    ensures
        r@ == s@,
{
    let n = s.unicode_len();
    let mut r: Vec<char> = Vec::new();
    let mut i: usize = 0;
    while i < n
        invariant
            i <= n,
            n == s@.len(),
            r@ == s@.subrange(0, i as int),
        decreases n - i,
    {
        r.push(s.get_char(i));
        i = i + 1;
        proof {
            assert(r@ =~= s@.subrange(0, i as int));
        }
    }
    proof {
        assert(r@ =~= s@);
    }
    r
}

/// The views of a sequence of strings.
pub open spec fn str_views(r: Seq<String>) -> Seq<Seq<char>> {
    r.map_values(|x: String| x@)
}

/// Whether two string slices hold the same characters.
pub fn str_eq(a: &str, b: &str) -> (r: bool)
    ensures
        r == (a@ == b@),
{
    let n = a.unicode_len();
    if b.unicode_len() != n {
        proof {
            assert(a@.len() != b@.len());
        }
        return false;
    }
    let mut k: usize = 0;
    while k < n
        invariant
            k <= n,
            n == a@.len(),
            b@.len() == n,
            forall|m: int| 0 <= m < k ==> a@[m] == b@[m],
        decreases n - k,
    {
        if a.get_char(k) != b.get_char(k) {
            return false;
        }
        k = k + 1;
    }
    proof {
        assert(a@ =~= b@);
    }
    true
}

/// Whether `p` is a prefix of `t`.
pub open spec fn is_prefix(p: Seq<char>, t: Seq<char>) -> bool {
    p.len() <= t.len() && t.take(p.len() as int) == p
}

/// Whether `t` starts with the characters of `p`.
pub fn str_starts_with(t: &str, p: &str) -> (r: bool)
    ensures
        r == is_prefix(p@, t@),
{
    let n = p.unicode_len();
    if t.unicode_len() < n {
        return false;
    }
    let mut k: usize = 0;
    while k < n
        invariant
            k <= n,
            n == p@.len(),
            n <= t@.len(),
            forall|m: int| 0 <= m < k ==> t@[m] == p@[m],
        decreases n - k,
    {
        if t.get_char(k) != p.get_char(k) {
            proof {
                assert(t@.take(p@.len() as int)[k as int] != p@[k as int]);
            }
            return false;
        }
        k = k + 1;
    }
    proof {
        assert(t@.take(p@.len() as int) =~= p@);
    }
    true
}

/// Relies on `String`'s `FromIterator<char>` implementation: collecting
/// characters yields the string holding exactly those characters.
#[verifier::external_body]
pub fn string_from_chars(v: &Vec<char>) -> (r: String)
    ensures
        r@ == v@,
{
    v.iter().collect()
}

} // verus!
