//! Serialization of orders as small flat JSON objects.
//!
//! An order is stored as `{"id":"…","src":"…","dest":"…","profile":"…"}`,
//! one file per (photo, profile). The writer escapes quotes and backslashes
//! in the string fields; the parser accepts exactly the canonical form the
//! writer emits, and [`lemma_order_json_round_trip`] proves that parsing a
//! written order recovers every field, for all field contents.

use vstd::prelude::*;

use crate::comment_photos::ConvertOrder;
use crate::photo::Profile;
use crate::text::string_to_chars;
use crate::text::string_from_chars;

verus! {

/// The escaped form of one character inside a JSON string.
pub open spec fn escape_char(c: char) -> Seq<char> {
    if c == '"' || c == '\\' {
        seq!['\\', c]
    } else {
        seq![c]
    }
}

/// The escaped form of a whole string body.
pub open spec fn escape_seq(s: Seq<char>) -> Seq<char>
    decreases s.len(),
{
    if s.len() == 0 {
        Seq::empty()
    } else {
        escape_char(s[0]) + escape_seq(s.drop_first())
    }
}

pub proof fn lemma_escape_append(a: Seq<char>, b: Seq<char>)
    ensures
        escape_seq(a + b) == escape_seq(a) + escape_seq(b),
    decreases a.len(),
{
    if a.len() == 0 {
        assert(a + b =~= b);
        assert(escape_seq(a) + escape_seq(b) =~= escape_seq(b));
    } else {
        lemma_escape_append(a.drop_first(), b);
        assert((a + b).drop_first() =~= a.drop_first() + b);
        assert((a + b)[0] == a[0]);
        assert(escape_seq(a + b) =~= escape_seq(a) + escape_seq(b));
    }
}

/// Escaping a string free of quotes and backslashes changes nothing.
pub proof fn lemma_escape_plain(t: Seq<char>)
    requires
        forall|i: int| 0 <= i < t.len() ==> t[i] != '"' && t[i] != '\\',
    ensures
        escape_seq(t) == t,
    decreases t.len(),
{
    if t.len() > 0 {
        lemma_escape_plain(t.drop_first());
        assert(escape_seq(t) =~= t);
    }
}

/// Read an escaped string body up to, but not including, its closing quote:
/// the unescaped body and the rest of the input from that quote on. Nothing
/// is read when the input ends before a closing quote or holds a stray
/// backslash escape.
pub open spec fn scan_string(s: Seq<char>) -> Option<(Seq<char>, Seq<char>)>
    decreases s.len(),
{
    if s.len() == 0 {
        None
    } else if s[0] == '"' {
        Some((Seq::empty(), s))
    } else if s[0] == '\\' {
        if s.len() >= 2 && (s[1] == '\\' || s[1] == '"') {
            match scan_string(s.skip(2)) {
                Some(p) => Some((seq![s[1]] + p.0, p.1)),
                None => None,
            }
        } else {
            None
        }
    } else {
        match scan_string(s.drop_first()) {
            Some(p) => Some((seq![s[0]] + p.0, p.1)),
            None => None,
        }
    }
}

/// Scanning an escaped body followed by its closing quote recovers the body.
pub proof fn lemma_scan_escaped(u: Seq<char>, rest: Seq<char>)
    requires
        rest.len() > 0,
        rest[0] == '"',
    ensures
        scan_string(escape_seq(u) + rest) == Some((u, rest)),
    decreases u.len(),
{
    let s = escape_seq(u) + rest;
    if u.len() == 0 {
        assert(s =~= rest);
    } else {
        let c = u[0];
        lemma_scan_escaped(u.drop_first(), rest);
        if c == '"' || c == '\\' {
            assert(s[0] == '\\');
            assert(s[1] == c);
            assert(s.skip(2) =~= escape_seq(u.drop_first()) + rest);
            assert(seq![c] + u.drop_first() =~= u);
        } else {
            assert(s[0] == c);
            assert(s.drop_first() =~= escape_seq(u.drop_first()) + rest);
            assert(seq![c] + u.drop_first() =~= u);
        }
    }
}

pub open spec fn lit_id() -> Seq<char> {
    seq!['{', '"', 'i', 'd', '"', ':', '"']
}

pub open spec fn lit_src() -> Seq<char> {
    seq!['"', ',', '"', 's', 'r', 'c', '"', ':', '"']
}

pub open spec fn lit_dest() -> Seq<char> {
    seq!['"', ',', '"', 'd', 'e', 's', 't', '"', ':', '"']
}

pub open spec fn lit_profile() -> Seq<char> {
    seq!['"', ',', '"', 'p', 'r', 'o', 'f', 'i', 'l', 'e', '"', ':', '"']
}

pub open spec fn lit_end() -> Seq<char> {
    seq!['"', '}']
}

/// The serialized name of each profile.
pub open spec fn profile_token(p: Profile) -> Seq<char> {
    match p {
        Profile::ORIGINAL_JPG => seq!['o', 'r', 'i', 'g', 'i', 'n', 'a', 'l', '_', 'j', 'p', 'g'],
        Profile::SCALE_1600_JPG => seq![
            's',
            'c',
            'a',
            'l',
            'e',
            '_',
            '1',
            '6',
            '0',
            '0',
            '_',
            'j',
            'p',
            'g',
        ],
        Profile::THUMBNAIL_256_JPG => seq![
            't',
            'h',
            'u',
            'm',
            'b',
            'n',
            'a',
            'i',
            'l',
            '_',
            '2',
            '5',
            '6',
            '_',
            'j',
            'p',
            'g',
        ],
    }
}

/// The profile a serialized name denotes, if any. The three names have three
/// different lengths, so they never collide.
pub open spec fn profile_of_token(t: Seq<char>) -> Option<Profile> {
    if t == profile_token(Profile::ORIGINAL_JPG) {
        Some(Profile::ORIGINAL_JPG)
    } else if t == profile_token(Profile::SCALE_1600_JPG) {
        Some(Profile::SCALE_1600_JPG)
    } else if t == profile_token(Profile::THUMBNAIL_256_JPG) {
        Some(Profile::THUMBNAIL_256_JPG)
    } else {
        None
    }
}

/// The canonical serialization of one order.
pub open spec fn order_json_spec(id: Seq<char>, src: Seq<char>, dest: Seq<char>, p: Profile) -> Seq<
    char,
> {
    lit_id() + escape_seq(id) + lit_src() + escape_seq(src) + lit_dest() + escape_seq(dest)
        + lit_profile() + profile_token(p) + lit_end()
}

/// What parsing recovers: the four fields, exactly when the input is the
/// canonical serialization of some order.
pub open spec fn parse_order_spec(s: Seq<char>) -> Option<
    (Seq<char>, Seq<char>, Seq<char>, Profile),
> {
    if s.len() < 7 || s.take(7) != lit_id() {
        None
    } else {
        match scan_string(s.skip(7)) {
            None => None,
            Some((id, r1)) => if r1.len() < 9 || r1.take(9) != lit_src() {
                None
            } else {
                match scan_string(r1.skip(9)) {
                    None => None,
                    Some((src, r2)) => if r2.len() < 10 || r2.take(10) != lit_dest() {
                        None
                    } else {
                        match scan_string(r2.skip(10)) {
                            None => None,
                            Some((dest, r3)) => if r3.len() < 13 || r3.take(13) != lit_profile() {
                                None
                            } else {
                                match scan_string(r3.skip(13)) {
                                    None => None,
                                    Some((tok, r4)) => if r4 != lit_end() {
                                        None
                                    } else {
                                        match profile_of_token(tok) {
                                            None => None,
                                            Some(p) => Some((id, src, dest, p)),
                                        }
                                    },
                                }
                            },
                        }
                    },
                }
            },
        }
    }
}

proof fn lemma_token_plain(p: Profile)
    ensures
        forall|i: int|
            0 <= i < profile_token(p).len() ==> profile_token(p)[i] != '"' && profile_token(p)[i]
                != '\\',
{
}

/// Round trip of the order serialization: parsing a written order recovers
/// every field, whatever the id and the paths hold.
pub proof fn lemma_order_json_round_trip(id: Seq<char>, src: Seq<char>, dest: Seq<char>, p: Profile)
    ensures
        parse_order_spec(order_json_spec(id, src, dest, p)) == Some((id, src, dest, p)),
{
    let tok = profile_token(p);
    let t4 = tok + lit_end();
    let t3 = lit_profile().skip(1) + t4;
    let t2 = lit_dest().skip(1) + escape_seq(dest) + seq!['"'] + t3;
    let t1 = lit_src().skip(1) + escape_seq(src) + seq!['"'] + t2;
    let s = order_json_spec(id, src, dest, p);
    assert(s =~= lit_id() + escape_seq(id) + seq!['"'] + t1);

    assert(s.take(7) =~= lit_id());
    assert(s.skip(7) =~= escape_seq(id) + (seq!['"'] + t1));
    lemma_scan_escaped(id, seq!['"'] + t1);
    let r1 = seq!['"'] + t1;
    assert(scan_string(s.skip(7)) == Some((id, r1)));

    assert(r1.take(9) =~= lit_src());
    assert(r1.skip(9) =~= escape_seq(src) + (seq!['"'] + t2));
    lemma_scan_escaped(src, seq!['"'] + t2);
    let r2 = seq!['"'] + t2;
    assert(scan_string(r1.skip(9)) == Some((src, r2)));

    assert(r2.take(10) =~= lit_dest());
    assert(r2.skip(10) =~= escape_seq(dest) + (seq!['"'] + t3));
    lemma_scan_escaped(dest, seq!['"'] + t3);
    let r3 = seq!['"'] + t3;
    assert(scan_string(r2.skip(10)) == Some((dest, r3)));

    assert(r3.take(13) =~= lit_profile());
    assert(r3.skip(13) =~= tok + lit_end());
    lemma_token_plain(p);
    lemma_escape_plain(tok);
    assert(r3.skip(13) =~= escape_seq(tok) + lit_end());
    lemma_scan_escaped(tok, lit_end());
    assert(scan_string(r3.skip(13)) == Some((tok, lit_end())));

    assert(profile_of_token(tok) == Some(p)) by {
        match p {
            Profile::ORIGINAL_JPG => {},
            Profile::SCALE_1600_JPG => {
                assert(tok.len() != profile_token(Profile::ORIGINAL_JPG).len());
            },
            Profile::THUMBNAIL_256_JPG => {
                assert(tok.len() != profile_token(Profile::ORIGINAL_JPG).len());
                assert(tok.len() != profile_token(Profile::SCALE_1600_JPG).len());
            },
        }
    }
}

/// Append the characters of `s` to `out`.
fn push_str_chars(out: &mut Vec<char>, s: &str)
    ensures
        final(out)@ == old(out)@ + s@,
{
    let cs = string_to_chars(s);
    let mut i: usize = 0;
    while i < cs.len()
        invariant
            i <= cs@.len(),
            cs@ == s@,
            out@ == old(out)@ + s@.take(i as int),
        decreases cs@.len() - i,
    {
        out.push(cs[i]);
        i = i + 1;
        proof {
            assert(out@ =~= old(out)@ + s@.take(i as int));
        }
    }
    proof {
        assert(out@ =~= old(out)@ + s@);
    }
}

/// Append the escaped form of `s` to `out`.
fn push_escaped(out: &mut Vec<char>, s: &str)
    ensures
        final(out)@ == old(out)@ + escape_seq(s@),
{
    let cs = string_to_chars(s);
    let mut i: usize = 0;
    while i < cs.len()
        invariant
            i <= cs@.len(),
            cs@ == s@,
            out@ == old(out)@ + escape_seq(s@.take(i as int)),
        decreases cs@.len() - i,
    {
        let c = cs[i];
        if c == '"' || c == '\\' {
            out.push('\\');
            out.push(c);
        } else {
            out.push(c);
        }
        proof {
            let ch = s@[i as int];
            lemma_escape_append(s@.take(i as int), seq![ch]);
            assert(s@.take(i + 1 as int) =~= s@.take(i as int) + seq![ch]);
            assert(seq![ch].drop_first() =~= Seq::<char>::empty());
            assert(escape_seq(seq![ch]) == escape_char(seq![ch][0]) + escape_seq(
                Seq::<char>::empty(),
            ));
            assert(escape_seq(seq![ch]) =~= escape_char(ch));
            assert(out@ =~= old(out)@ + escape_seq(s@.take(i + 1 as int)));
        }
        i = i + 1;
    }
    proof {
        assert(s@.take(cs@.len() as int) =~= s@);
    }
}

/// Whether `v` holds the characters of `lit` starting at `i`.
fn has_lit(v: &Vec<char>, i: usize, lit: &str) -> (r: bool)
    requires
        i <= v@.len(),
    ensures
        r == (i + lit@.len() <= v@.len() && v@.subrange(
            i as int,
            i + lit@.len(),
        ) == lit@),
{
    let n = lit.unicode_len();
    let vlen = v.len();
    if vlen - i < n {
        return false;
    }
    let mut k: usize = 0;
    while k < n
        invariant
            k <= n,
            n == lit@.len(),
            i + n <= vlen,
            vlen == v@.len(),
            forall|m: int| 0 <= m < k ==> v@[i + m] == lit@[m],
        decreases n - k,
    {
        if v[i + k] != lit.get_char(k) {
            proof {
                assert(v@.subrange(i as int, i + lit@.len())[k as int] != lit@[k as int]);
            }
            return false;
        }
        k = k + 1;
    }
    proof {
        assert(v@.subrange(i as int, i + lit@.len()) =~= lit@);
    }
    true
}

/// Read an escaped string body of `v` from `i` on: the unescaped body and
/// the index of the closing quote, mirroring [`scan_string`].
fn scan_string_at(v: &Vec<char>, i: usize) -> (r: Option<(Vec<char>, usize)>)
    requires
        i <= v@.len(),
    ensures
        match r {
            Some(p) => i <= p.1 <= v@.len() && scan_string(v@.skip(i as int)) == Some(
                (p.0@, v@.skip(p.1 as int)),
            ),
            None => scan_string(v@.skip(i as int)) is None,
        },
    decreases v@.len() - i,
{
    let ghost s = v@.skip(i as int);
    if i == v.len() {
        proof {
            assert(s.len() == 0);
        }
        return None;
    }
    let c = v[i];
    proof {
        assert(s[0] == c);
    }
    if c == '"' {
        Some((Vec::new(), i))
    } else if c == '\\' {
        if i + 1 < v.len() && (v[i + 1] == '\\' || v[i + 1] == '"') {
            proof {
                assert(s[1] == v@[i + 1]);
                assert(s.skip(2) =~= v@.skip(i + 2 as int));
            }
            match scan_string_at(v, i + 2) {
                Some((u, j)) => {
                    let mut u2: Vec<char> = Vec::new();
                    u2.push(v[i + 1]);
                    let mut tail = u;
                    let ghost tail_view = tail@;
                    u2.append(&mut tail);
                    proof {
                        assert(u2@ =~= seq![s[1]] + tail_view);
                    }
                    Some((u2, j))
                },
                None => None,
            }
        } else {
            proof {
                if s.len() >= 2 {
                    assert(s[1] == v@[i + 1]);
                }
            }
            None
        }
    } else {
        proof {
            assert(s.drop_first() =~= v@.skip(i + 1 as int));
        }
        match scan_string_at(v, i + 1) {
            Some((u, j)) => {
                let mut u2: Vec<char> = Vec::new();
                u2.push(c);
                let mut tail = u;
                let ghost tail_view = tail@;
                u2.append(&mut tail);
                proof {
                    assert(u2@ =~= seq![s[0]] + tail_view);
                }
                Some((u2, j))
            },
            None => None,
        }
    }
}

impl ConvertOrder {
    /// Serialize this order in its canonical JSON form.
    pub fn to_json(&self) -> (r: String)
        ensures
            r@ == order_json_spec(self.id@, self.src@, self.dest@, self.profile),
    {
        proof {
            reveal_strlit("{\"id\":\"");
            reveal_strlit("\",\"src\":\"");
            reveal_strlit("\",\"dest\":\"");
            reveal_strlit("\",\"profile\":\"");
            reveal_strlit("\"}");
            reveal_strlit("original_jpg");
            reveal_strlit("scale_1600_jpg");
            reveal_strlit("thumbnail_256_jpg");
            assert("{\"id\":\""@ =~= lit_id());
            assert("\",\"src\":\""@ =~= seq!['"'] + lit_src().skip(1));
            assert("\",\"src\":\""@ =~= lit_src());
            assert("\",\"dest\":\""@ =~= lit_dest());
            assert("\",\"profile\":\""@ =~= lit_profile());
            assert("\"}"@ =~= lit_end());
            assert("original_jpg"@ =~= profile_token(Profile::ORIGINAL_JPG));
            assert("scale_1600_jpg"@ =~= profile_token(Profile::SCALE_1600_JPG));
            assert("thumbnail_256_jpg"@ =~= profile_token(Profile::THUMBNAIL_256_JPG));
        }
        let token: &str = match self.profile {
            Profile::ORIGINAL_JPG => "original_jpg",
            Profile::SCALE_1600_JPG => "scale_1600_jpg",
            Profile::THUMBNAIL_256_JPG => "thumbnail_256_jpg",
        };
        let mut out: Vec<char> = Vec::new();
        push_str_chars(&mut out, "{\"id\":\"");
        push_escaped(&mut out, self.id.as_str());
        push_str_chars(&mut out, "\",\"src\":\"");
        push_escaped(&mut out, self.src.as_str());
        push_str_chars(&mut out, "\",\"dest\":\"");
        push_escaped(&mut out, self.dest.as_str());
        push_str_chars(&mut out, "\",\"profile\":\"");
        push_str_chars(&mut out, token);
        push_str_chars(&mut out, "\"}");
        proof {
            assert(out@ =~= order_json_spec(self.id@, self.src@, self.dest@, self.profile));
        }
        string_from_chars(&out)
    }

    /// Parse an order from its canonical JSON form: exactly the inverse of
    /// [`Self::to_json`]. Anything else is rejected, and the worker skips
    /// the file.
    pub fn from_json(s: &str) -> (r: Option<ConvertOrder>)
        ensures
            match r {
                Some(o) => parse_order_spec(s@) == Some((o.id@, o.src@, o.dest@, o.profile)),
                None => parse_order_spec(s@) is None,
            },
    {
        proof {
            reveal_strlit("{\"id\":\"");
            reveal_strlit("\",\"src\":\"");
            reveal_strlit("\",\"dest\":\"");
            reveal_strlit("\",\"profile\":\"");
            reveal_strlit("original_jpg");
            reveal_strlit("scale_1600_jpg");
            reveal_strlit("thumbnail_256_jpg");
            assert("{\"id\":\""@ =~= lit_id());
            assert("\",\"src\":\""@ =~= lit_src());
            assert("\",\"dest\":\""@ =~= lit_dest());
            assert("\",\"profile\":\""@ =~= lit_profile());
            assert("original_jpg"@ =~= profile_token(Profile::ORIGINAL_JPG));
            assert("scale_1600_jpg"@ =~= profile_token(Profile::SCALE_1600_JPG));
            assert("thumbnail_256_jpg"@ =~= profile_token(Profile::THUMBNAIL_256_JPG));
        }
        let v = string_to_chars(s);
        let vlen = v.len();
        if !has_lit(&v, 0, "{\"id\":\"") {
            proof {
                if s@.len() >= 7 {
                    assert(s@.take(7) =~= v@.subrange(0, 7));
                }
            }
            return None;
        }
        proof {
            assert(s@.take(7) =~= v@.subrange(0, 7));
        }
        let (id, j1) = match scan_string_at(&v, 7) {
            Some(p) => p,
            None => {
                return None;
            },
        };
        if !has_lit(&v, j1, "\",\"src\":\"") {
            proof {
                let r1 = v@.skip(j1 as int);
                if r1.len() >= 9 {
                    assert(r1.take(9) =~= v@.subrange(j1 as int, j1 + 9));
                }
            }
            return None;
        }
        proof {
            assert(v@.skip(j1 as int).take(9) =~= v@.subrange(j1 as int, j1 + 9));
            assert(v@.skip(j1 as int).skip(9) =~= v@.skip(j1 + 9 as int));
        }
        proof {
            assert(j1 + 9 <= vlen);
        }
        let (src, j2) = match scan_string_at(&v, j1 + 9) {
            Some(p) => p,
            None => {
                return None;
            },
        };
        if !has_lit(&v, j2, "\",\"dest\":\"") {
            proof {
                let r2 = v@.skip(j2 as int);
                if r2.len() >= 10 {
                    assert(r2.take(10) =~= v@.subrange(j2 as int, j2 + 10));
                }
            }
            return None;
        }
        proof {
            assert(v@.skip(j2 as int).take(10) =~= v@.subrange(j2 as int, j2 + 10));
            assert(v@.skip(j2 as int).skip(10) =~= v@.skip(j2 + 10 as int));
        }
        proof {
            assert(j2 + 10 <= vlen);
        }
        let (dest, j3) = match scan_string_at(&v, j2 + 10) {
            Some(p) => p,
            None => {
                return None;
            },
        };
        if !has_lit(&v, j3, "\",\"profile\":\"") {
            proof {
                let r3 = v@.skip(j3 as int);
                if r3.len() >= 13 {
                    assert(r3.take(13) =~= v@.subrange(j3 as int, j3 + 13));
                }
            }
            return None;
        }
        proof {
            assert(v@.skip(j3 as int).take(13) =~= v@.subrange(j3 as int, j3 + 13));
            assert(v@.skip(j3 as int).skip(13) =~= v@.skip(j3 + 13 as int));
        }
        proof {
            assert(j3 + 13 <= vlen);
        }
        let (tok, j4) = match scan_string_at(&v, j3 + 13) {
            Some(p) => p,
            None => {
                return None;
            },
        };
        let ghost r4 = v@.skip(j4 as int);
        if !(v.len() - j4 == 2 && v[j4] == '"' && v[j4 + 1] == '}') {
            proof {
                if r4 == lit_end() {
                    assert(r4.len() == 2);
                    assert(r4[0] == v@[j4 as int]);
                    assert(r4[1] == v@[j4 + 1]);
                }
            }
            return None;
        }
        proof {
            assert(r4 =~= lit_end());
        }
        let profile = if chars_eq(&tok, "original_jpg") {
            Profile::ORIGINAL_JPG
        } else if chars_eq(&tok, "scale_1600_jpg") {
            Profile::SCALE_1600_JPG
        } else if chars_eq(&tok, "thumbnail_256_jpg") {
            Profile::THUMBNAIL_256_JPG
        } else {
            return None;
        };
        Some(
            ConvertOrder {
                id: string_from_chars(&id),
                src: string_from_chars(&src),
                dest: string_from_chars(&dest),
                profile,
            },
        )
    }
}

/// Whether the characters of `a` spell `s`.
fn chars_eq(a: &Vec<char>, s: &str) -> (r: bool)
    ensures
        r == (a@ == s@),
{
    let n = s.unicode_len();
    if a.len() != n {
        proof {
            assert(a@.len() != s@.len());
        }
        return false;
    }
    let mut k: usize = 0;
    while k < n
        invariant
            k <= n,
            n == s@.len(),
            a@.len() == n,
            forall|m: int| 0 <= m < k ==> a@[m] == s@[m],
        decreases n - k,
    {
        if a[k] != s.get_char(k) {
            return false;
        }
        k = k + 1;
    }
    proof {
        assert(a@ =~= s@);
    }
    true
}

} // verus!
