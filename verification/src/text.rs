use vstd::prelude::*;

use crate::ole::hresult::push_char;

verus! {

/// A UTF-16 code unit in the surrogate range.
pub open spec fn is_surrogate(u: u16) -> bool {
    0xD800 <= u <= 0xDFFF
}

/// A UTF-16 code unit that opens a surrogate pair.
pub open spec fn is_high_surrogate(u: u16) -> bool {
    0xD800 <= u <= 0xDBFF
}

/// A UTF-16 code unit that closes a surrogate pair.
pub open spec fn is_low_surrogate(u: u16) -> bool {
    0xDC00 <= u <= 0xDFFF
}

/// The UTF-16 code units of one character.
pub open spec fn utf16_of_char(c: char) -> Seq<u16> {
    let v = c as u32;
    if v < 0x10000 {
        seq![v as u16]
    } else {
        seq![(0xD800 + (v - 0x10000) / 0x400) as u16, (0xDC00 + (v - 0x10000) % 0x400) as u16]
    }
}

/// The UTF-16 encoding of a text.
pub open spec fn utf16_encode(s: Seq<char>) -> Seq<u16>
    decreases s.len(),
{
    if s.len() == 0 {
        Seq::empty()
    } else {
        utf16_of_char(s[0]) + utf16_encode(s.drop_first())
    }
}

/// The code point that a surrogate pair stands for.
pub open spec fn surrogate_pair_value(hi: u16, lo: u16) -> u32 {
    (0x10000 + (hi - 0xD800) * 0x400 + (lo - 0xDC00)) as u32
}

/// The text that a run of UTF-16 code units stands for, where each surrogate
/// that is not part of a pair becomes U+FFFD.
pub open spec fn utf16_decode_lossy(u: Seq<u16>) -> Seq<char>
    decreases u.len(),
{
    if u.len() == 0 {
        Seq::empty()
    } else if is_high_surrogate(u[0]) && u.len() >= 2 && is_low_surrogate(u[1]) {
        seq![surrogate_pair_value(u[0], u[1]) as char] + utf16_decode_lossy(
            u.subrange(2, u.len() as int),
        )
    } else if is_surrogate(u[0]) {
        seq!['\u{FFFD}'] + utf16_decode_lossy(u.drop_first())
    } else {
        seq![(u[0] as u32) as char] + utf16_decode_lossy(u.drop_first())
    }
}

/// The code units before the first NUL unit (all of them when there is none).
pub open spec fn wide_until_nul(u: Seq<u16>) -> Seq<u16>
    decreases u.len(),
{
    if u.len() == 0 || u[0] == 0 {
        Seq::empty()
    } else {
        seq![u[0]] + wide_until_nul(u.drop_first())
    }
}

/// Calls std's `char::from_u32`, which its documentation says gives the
/// character with that code point, or `None` for a surrogate or a value past
/// U+10FFFF; the contract claims exactly that.
#[verifier::external_body]
fn char_from_u32(v: u32) -> (r: Option<char>)
    ensures
        r == (if v < 0xD800 || (0xE000 <= v && v <= 0x10FFFF) {
            Some(v as char)
        } else {
            None
        }),
{
    char::from_u32(v)
}

/// Encoding a concatenation encodes each part.
pub proof fn lemma_utf16_encode_concat(a: Seq<char>, b: Seq<char>)
    ensures
        utf16_encode(a + b) == utf16_encode(a) + utf16_encode(b),
    decreases a.len(),
{
    if a.len() == 0 {
        assert(a + b =~= b);
    } else {
        lemma_utf16_encode_concat(a.drop_first(), b);
        assert((a + b).drop_first() =~= a.drop_first() + b);
        assert(utf16_encode(a) + utf16_encode(b) =~= utf16_of_char(a[0]) + (utf16_encode(
            a.drop_first(),
        ) + utf16_encode(b)));
    }
}

/// Appends the UTF-16 units of `c` to `v`.
fn push_utf16(v: &mut Vec<u16>, c: char)
    ensures
        final(v)@ == old(v)@ + utf16_of_char(c),
{
    let x = c as u32;
    if x < 0x10000 {
        v.push(x as u16);
        assert(final(v)@ =~= old(v)@ + utf16_of_char(c));
    } else {
        let w = x - 0x10000;
        v.push((0xD800 + w / 0x400) as u16);
        v.push((0xDC00 + w % 0x400) as u16);
        assert(final(v)@ =~= old(v)@ + utf16_of_char(c));
    }
}

/// The UTF-16 encoding of `s`.
fn encode_str(s: &str) -> (r: Vec<u16>)
    ensures
        r@ == utf16_encode(s@),
{
    broadcast use vstd::string::group_string_axioms;

    let mut r: Vec<u16> = Vec::new();
    for c in it: s.chars()
        invariant
            it.seq() == s@,
            r@ == utf16_encode(s@.take(it.index() as int)),
    {
        proof {
            let i = it.index() as int;
            lemma_utf16_encode_concat(s@.take(i), seq![c]);
            assert(s@.take(i + 1) =~= s@.take(i) + seq![c]);
            assert(utf16_encode(seq![c]) =~= utf16_of_char(c)) by {
                assert(seq![c].drop_first() =~= Seq::<char>::empty());
                assert(utf16_encode(seq![c]) == utf16_of_char(c) + utf16_encode(Seq::<char>::empty()));
            }
        }
        push_utf16(&mut r, c);
    }
    assert(s@.take(s@.len() as int) =~= s@);
    r
}

/// Conversion of a text to the UTF-16 form that Windows calls take.
pub trait ToWide {
    /// The text that is converted.
    spec fn wide_source(&self) -> Seq<char>;

    /// The UTF-16 code units of the text.
    fn to_wide(&self) -> (r: Vec<u16>)
        ensures
            r@ == utf16_encode(self.wide_source()),
    ;

    /// The UTF-16 code units of the text followed by a NUL unit.
    fn to_wide_null(&self) -> (r: Vec<u16>)
        ensures
            r@ == utf16_encode(self.wide_source()).push(0),
    ;
}

impl ToWide for str {
    open spec fn wide_source(&self) -> Seq<char> {
        self@
    }

    fn to_wide(&self) -> (r: Vec<u16>) {
        encode_str(self)
    }

    fn to_wide_null(&self) -> (r: Vec<u16>) {
        let mut r = encode_str(self);
        r.push(0);
        r
    }
}

impl ToWide for String {
    open spec fn wide_source(&self) -> Seq<char> {
        self@
    }

    fn to_wide(&self) -> (r: Vec<u16>) {
        encode_str(self.as_str())
    }

    fn to_wide_null(&self) -> (r: Vec<u16>) {
        let mut r = encode_str(self.as_str());
        r.push(0);
        r
    }
}

/// Where the first NUL unit of `buf` stands (its length when there is none).
fn nul_position(buf: &[u16]) -> (k: usize)
    ensures
        k <= buf@.len(),
        wide_until_nul(buf@) == buf@.take(k as int),
{
    let mut i: usize = 0;
    assert(buf@.skip(0) =~= buf@);
    assert(buf@.take(0) + wide_until_nul(buf@) =~= wide_until_nul(buf@));
    while i < buf.len() && buf[i] != 0
        invariant
            i <= buf@.len(),
            wide_until_nul(buf@) == buf@.take(i as int) + wide_until_nul(buf@.skip(i as int)),
        decreases buf@.len() - i,
    {
        proof {
            let t = buf@.skip(i as int);
            assert(t.drop_first() =~= buf@.skip(i + 1));
            assert(buf@.take(i + 1) =~= buf@.take(i as int) + seq![buf@[i as int]]);
            assert(wide_until_nul(t) == seq![t[0]] + wide_until_nul(t.drop_first()));
            assert(buf@.take(i as int) + wide_until_nul(t) =~= buf@.take(i + 1) + wide_until_nul(
                buf@.skip(i + 1),
            ));
        }
        i = i + 1;
    }
    proof {
        let t = buf@.skip(i as int);
        assert(wide_until_nul(t) =~= Seq::<u16>::empty());
        assert(buf@.take(i as int) + wide_until_nul(t) =~= buf@.take(i as int));
    }
    i
}

/// The text of the UTF-16 units of `buf` before its first NUL unit; each
/// surrogate that is not part of a pair becomes U+FFFD.
pub fn string_from_wide_null(buf: &[u16]) -> (r: String)
    ensures
        r@ == utf16_decode_lossy(wide_until_nul(buf@)),
{
    let k = nul_position(buf);
    let ghost p = buf@.take(k as int);
    let mut r = String::new();
    let mut i: usize = 0;
    assert(p.skip(0) =~= p);
    assert(r@ + utf16_decode_lossy(p) =~= utf16_decode_lossy(p));
    while i < k
        invariant
            k <= buf@.len(),
            p == buf@.take(k as int),
            i <= k,
            utf16_decode_lossy(p) == r@ + utf16_decode_lossy(p.skip(i as int)),
        decreases k - i,
    {
        let ghost t = p.skip(i as int);
        let u = buf[i];
        assert(t[0] == u);
        if 0xD800 <= u && u <= 0xDBFF && i + 1 < k && 0xDC00 <= buf[i + 1] && buf[i + 1] <= 0xDFFF {
            let lo = buf[i + 1];
            assert(t[1] == lo);
            let v: u32 = 0x10000 + ((u as u32) - 0xD800) * 0x400 + ((lo as u32) - 0xDC00);
            match char_from_u32(v) {
                Some(c) => {
                    push_char(&mut r, c);
                },
                None => {
                    assert(false);
                },
            }
            proof {
                assert(t.subrange(2, t.len() as int) =~= p.skip(i + 2));
            }
            i = i + 2;
        } else if 0xD800 <= u && u <= 0xDFFF {
            push_char(&mut r, '\u{FFFD}');
            proof {
                assert(t.drop_first() =~= p.skip(i + 1));
            }
            i = i + 1;
        } else {
            match char_from_u32(u as u32) {
                Some(c) => {
                    push_char(&mut r, c);
                },
                None => {
                    assert(false);
                },
            }
            proof {
                assert(t.drop_first() =~= p.skip(i + 1));
            }
            i = i + 1;
        }
        assert(utf16_decode_lossy(p) =~= r@ + utf16_decode_lossy(p.skip(i as int)));
    }
    assert(utf16_decode_lossy(p.skip(k as int)) =~= Seq::<char>::empty()) by {
        assert(p.skip(k as int).len() == 0);
    }
    assert(r@ =~= r@ + Seq::<char>::empty());
    r
}

/// Decoding the UTF-16 encoding of a text gives the text back.
pub proof fn lemma_utf16_decode_encode(s: Seq<char>)
    ensures
        utf16_decode_lossy(utf16_encode(s)) == s,
    decreases s.len(),
{
    if s.len() == 0 {
        assert(utf16_encode(s) =~= Seq::<u16>::empty());
        assert(utf16_decode_lossy(Seq::<u16>::empty()) =~= s);
    } else {
        let c = s[0];
        let rest = s.drop_first();
        let e = utf16_encode(rest);
        let u = utf16_of_char(c) + e;
        lemma_utf16_decode_encode(rest);
        assert(utf16_encode(s) == u);
        let v = c as u32;
        vstd::utf8::char_is_scalar(c);
        vstd::utf8::char_u32_cast(c, v);
        if v < 0x10000 {
            assert(u[0] == v as u16);
            assert(!is_surrogate(u[0]));
            assert((u[0] as u32) == v);
            assert(u.drop_first() =~= e);
            assert(utf16_decode_lossy(u) == seq![(u[0] as u32) as char] + utf16_decode_lossy(e));
            assert(seq![(u[0] as u32) as char] + rest =~= s);
        } else {
            let w = v - 0x10000;
            assert(u[0] == (0xD800 + w / 0x400) as u16);
            assert(u[1] == (0xDC00 + w % 0x400) as u16);
            assert(surrogate_pair_value(u[0], u[1]) == v);
            assert(u.subrange(2, u.len() as int) =~= e);
            assert(seq![surrogate_pair_value(u[0], u[1]) as char] + rest =~= s);
        }
    }
}

/// A text without NUL characters encodes to code units without NUL units.
pub proof fn lemma_utf16_encode_no_nul(s: Seq<char>)
    requires
        !s.contains('\0'),
    ensures
        forall|i: int| 0 <= i < utf16_encode(s).len() ==> utf16_encode(s)[i] != 0,
    decreases s.len(),
{
    if s.len() > 0 {
        let rest = s.drop_first();
        assert forall|j: int| 0 <= j < rest.len() implies rest[j] != '\0' by {
            assert(rest[j] == s[j + 1]);
        }
        assert(!rest.contains('\0'));
        lemma_utf16_encode_no_nul(rest);
        assert(s[0] != '\0') by {
            assert(s.contains(s[0]));
        }
        let a = utf16_of_char(s[0]);
        let e = utf16_encode(rest);
        vstd::utf8::char_is_scalar(s[0]);
        vstd::utf8::char_u32_cast(s[0], s[0] as u32);
        vstd::utf8::char_u32_cast('\0', 0u32);
        assert(s[0] as u32 != 0);
        assert forall|i: int| 0 <= i < a.len() implies a[i] != 0 by {}
        assert forall|i: int| 0 <= i < utf16_encode(s).len() implies utf16_encode(s)[i] != 0 by {
            if i < a.len() {
                assert(utf16_encode(s)[i] == a[i]);
            } else {
                assert(utf16_encode(s)[i] == e[i - a.len()]);
            }
        }
    }
}

/// Units before a NUL-free prefix are all kept.
pub proof fn lemma_wide_until_nul_prefix(a: Seq<u16>, b: Seq<u16>)
    requires
        forall|i: int| 0 <= i < a.len() ==> a[i] != 0,
    ensures
        wide_until_nul(a + b) == a + wide_until_nul(b),
    decreases a.len(),
{
    if a.len() == 0 {
        assert(a + b =~= b);
        assert(a + wide_until_nul(b) =~= wide_until_nul(b));
    } else {
        lemma_wide_until_nul_prefix(a.drop_first(), b);
        assert((a + b).drop_first() =~= a.drop_first() + b);
        assert((a + b)[0] == a[0]);
        assert(seq![a[0]] + (a.drop_first() + wide_until_nul(b)) =~= a + wide_until_nul(b));
    }
}

/// A text without NUL characters, encoded with a terminating NUL and read
/// back up to the first NUL, is the text itself.
pub proof fn law_wide_null_roundtrip(s: Seq<char>)
    requires
        !s.contains('\0'),
    ensures
        utf16_decode_lossy(wide_until_nul(utf16_encode(s).push(0))) == s,
{
    let e = utf16_encode(s);
    lemma_utf16_encode_no_nul(s);
    lemma_wide_until_nul_prefix(e, seq![0u16]);
    assert(e.push(0) =~= e + seq![0u16]);
    assert(wide_until_nul(seq![0u16]) =~= Seq::<u16>::empty());
    assert(e + Seq::<u16>::empty() =~= e);
    lemma_utf16_decode_encode(s);
}

/// UTF-16 as Unicode defines it: a character below U+10000 is the one unit
/// with its own value; any other is a high surrogate then a low surrogate
/// whose ten-bit payloads, read together and offset by 0x10000, give it back.
pub proof fn law_utf16_units_of_char(c: char)
    ensures
        ({
            let v = c as u32;
            let u = utf16_of_char(c);
            &&& v < 0x10000 ==> u.len() == 1 && u[0] == v
            &&& v >= 0x10000 ==> {
                &&& u.len() == 2
                &&& 0xD800 <= u[0] <= 0xDBFF
                &&& 0xDC00 <= u[1] <= 0xDFFF
                &&& 0x10000 + (u[0] - 0xD800) * 0x400 + (u[1] - 0xDC00) == v
            }
        }),
{
    vstd::utf8::char_is_scalar(c);
}

} // verus!
