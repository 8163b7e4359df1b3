use vstd::prelude::*;

verus! {

/// The 32-bit status code that COM calls return; negative means failure.
pub type HRESULT = i32;

/// The upper-case hexadecimal digit for a value below 16.
pub open spec fn hex_digit(d: nat) -> char {
    if d < 10 {
        (48 + d) as char
    } else {
        (55 + d) as char
    }
}

/// The last `width` hexadecimal digits of `n`, most significant first,
/// padded with zeros.
pub open spec fn hex_upper(n: nat, width: nat) -> Seq<char>
    decreases width,
{
    if width == 0 {
        Seq::empty()
    } else {
        hex_upper(n / 16, (width - 1) as nat).push(hex_digit(n % 16))
    }
}

/// The bit pattern of an HRESULT read as an unsigned 32-bit number
/// (two's complement for negative codes).
pub open spec fn hresult_bits(hr: HRESULT) -> nat {
    if hr >= 0 {
        hr as nat
    } else {
        (hr + 0x1_0000_0000) as nat
    }
}

/// The text `HRESULT 0x`.
pub open spec fn hresult_prefix() -> Seq<char> {
    seq!['H', 'R', 'E', 'S', 'U', 'L', 'T', ' ', '0', 'x']
}

/// How an HRESULT is written: `HRESULT 0x` and eight upper-case hex digits.
pub open spec fn hresult_text(hr: HRESULT) -> Seq<char> {
    hresult_prefix() + hex_upper(hresult_bits(hr), 8)
}

/// Calls std's `String::push`, which its documentation says appends the
/// character to the end of the string; the contract claims exactly that.
#[verifier::external_body]
pub(crate) fn push_char(s: &mut String, c: char)
    ensures
        final(s)@ == old(s)@.push(c),
{
    s.push(c);
}

/// The upper-case hexadecimal digit for `d`.
fn hex_digit_char(d: u32) -> (c: char)
    requires
        d < 16,
    ensures
        c == hex_digit(d as nat),
{
    if d < 10 {
        ((d as u8) + 48u8) as char
    } else {
        ((d as u8) + 55u8) as char
    }
}

/// Appends the last `width` hex digits of `n` to `s`.
fn push_hex(s: &mut String, n: u32, width: u32)
    ensures
        final(s)@ == old(s)@ + hex_upper(n as nat, width as nat),
    decreases width,
{
    if width > 0 {
        push_hex(s, n / 16, width - 1);
        let c = hex_digit_char(n % 16);
        push_char(s, c);
        assert(final(s)@ =~= old(s)@ + hex_upper(n as nat, width as nat));
    }
}

/// Success and failure tests and the text of a status code.
pub trait OkNotOk: Sized {
    fn succeeded(self) -> bool;

    fn failed(self) -> bool;

    fn to_string(self) -> String;
}

impl OkNotOk for HRESULT {
    /// Whether the code reports success (it is not negative).
    fn succeeded(self) -> (r: bool)
        ensures
            r == (self >= 0),
    {
        self >= 0
    }

    /// Whether the code reports failure (it is negative).
    fn failed(self) -> (r: bool)
        ensures
            r == (self < 0),
    {
        self < 0
    }

    /// `HRESULT 0x` followed by the code's 32 bits in eight upper-case hex digits.
    fn to_string(self) -> (r: String)
        ensures
            r@ == hresult_text(self),
    {
        let bits: u32 = if self >= 0 {
            self as u32
        } else {
            ((self as i64) + 0x1_0000_0000i64) as u32
        };
        let mut s = String::from_str("HRESULT 0x");
        proof {
            reveal_strlit("HRESULT 0x");
        }
        assert(s@ =~= hresult_prefix());
        push_hex(&mut s, bits, 8);
        s
    }
}

/// How many values `width` hex digits can write: sixteen to the power `width`.
pub open spec fn hex_capacity(width: nat) -> nat
    decreases width,
{
    if width == 0 {
        1
    } else {
        16 * hex_capacity((width - 1) as nat)
    }
}

/// `width` hex digits make a text of `width` characters.
pub proof fn lemma_hex_upper_len(n: nat, width: nat)
    ensures
        hex_upper(n, width).len() == width,
    decreases width,
{
    if width > 0 {
        lemma_hex_upper_len(n / 16, (width - 1) as nat);
    }
}

/// Distinct digit values have distinct digit characters.
pub proof fn lemma_hex_digit_injective(a: nat, b: nat)
    requires
        a < 16,
        b < 16,
        hex_digit(a) == hex_digit(b),
    ensures
        a == b,
{
    assert(hex_digit(a) as u32 == if a < 10 { 48 + a } else { 55 + a });
    assert(hex_digit(b) as u32 == if b < 10 { 48 + b } else { 55 + b });
}

/// Two values that `width` hex digits can write, written the same way, are equal.
pub proof fn lemma_hex_upper_injective(n: nat, m: nat, width: nat)
    requires
        n < hex_capacity(width),
        m < hex_capacity(width),
        hex_upper(n, width) == hex_upper(m, width),
    ensures
        n == m,
    decreases width,
{
    if width > 0 {
        let w1 = (width - 1) as nat;
        let a = hex_upper(n / 16, w1);
        let b = hex_upper(m / 16, w1);
        lemma_hex_upper_len(n / 16, w1);
        lemma_hex_upper_len(m / 16, w1);
        assert(a =~= hex_upper(n, width).drop_last());
        assert(b =~= hex_upper(m, width).drop_last());
        assert(hex_digit(n % 16) == hex_upper(n, width).last());
        assert(hex_digit(m % 16) == hex_upper(m, width).last());
        lemma_hex_digit_injective(n % 16, m % 16);
        lemma_hex_upper_injective(n / 16, m / 16, w1);
    }
}

/// The text of a status code names it exactly: two codes with the same text
/// are the same code.
pub proof fn law_hresult_text_injective(a: HRESULT, b: HRESULT)
    requires
        hresult_text(a) == hresult_text(b),
    ensures
        a == b,
{
    assert(hex_capacity(8) == 0x1_0000_0000) by {
        reveal_with_fuel(hex_capacity, 9);
    }
    let p = hresult_prefix();
    let ha = hex_upper(hresult_bits(a), 8);
    let hb = hex_upper(hresult_bits(b), 8);
    assert(ha =~= hresult_text(a).subrange(10, hresult_text(a).len() as int));
    assert(hb =~= hresult_text(b).subrange(10, hresult_text(b).len() as int));
    lemma_hex_upper_injective(hresult_bits(a), hresult_bits(b), 8);
}

/// The value of a character as an upper-case hexadecimal digit (-1 for any
/// other character).
pub open spec fn hex_digit_value(c: char) -> int {
    let v = c as u32;
    if 48 <= v <= 57 {
        v - 48
    } else if 65 <= v <= 70 {
        v - 55
    } else {
        -1
    }
}

/// The number that a run of hexadecimal digits writes, most significant first.
pub open spec fn hex_value(t: Seq<char>) -> int
    decreases t.len(),
{
    if t.len() == 0 {
        0
    } else {
        hex_value(t.drop_last()) * 16 + hex_digit_value(t.last())
    }
}

/// Writing a value that fits in `width` digits gives upper-case hex digits
/// that read back as that value.
pub proof fn lemma_hex_upper_reads_back(n: nat, width: nat)
    requires
        n < hex_capacity(width),
    ensures
        hex_value(hex_upper(n, width)) == n,
        forall|i: int|
            0 <= i < width ==> 0 <= #[trigger] hex_digit_value(hex_upper(n, width)[i]) < 16,
    decreases width,
{
    lemma_hex_upper_len(n, width);
    if width > 0 {
        let w1 = (width - 1) as nat;
        lemma_hex_upper_reads_back(n / 16, w1);
        lemma_hex_upper_len(n / 16, w1);
        let t = hex_upper(n, width);
        let d = n % 16;
        assert(hex_digit(d) as u32 == if d < 10 { 48 + d } else { 55 + d });
        assert(t.drop_last() =~= hex_upper(n / 16, w1));
        assert(t.last() == hex_digit(d));
        assert(hex_digit_value(hex_digit(d)) == d);
        assert forall|i: int| 0 <= i < width implies 0 <= #[trigger] hex_digit_value(t[i]) < 16 by {
            if i < w1 {
                assert(t[i] == hex_upper(n / 16, w1)[i]);
            }
        }
    } else {
        assert(n == 0);
    }
}

/// The text of a status code is `HRESULT 0x` and eight upper-case hex digits
/// that read back as the code's 32 bits (the code itself when it is not
/// negative, the code plus 2^32 when it is).
pub proof fn law_hresult_text_reads_back(hr: HRESULT)
    ensures
        hresult_text(hr).len() == 18,
        hresult_text(hr).subrange(0, 10) == "HRESULT 0x"@,
        forall|i: int| 10 <= i < 18 ==> 0 <= #[trigger] hex_digit_value(hresult_text(hr)[i]) < 16,
        hex_value(hresult_text(hr).subrange(10, 18)) == if hr >= 0 {
            hr as int
        } else {
            hr + 0x1_0000_0000
        },
{
    reveal_strlit("HRESULT 0x");
    assert(hex_capacity(8) == 0x1_0000_0000) by {
        reveal_with_fuel(hex_capacity, 9);
    }
    let h = hex_upper(hresult_bits(hr), 8);
    lemma_hex_upper_reads_back(hresult_bits(hr), 8);
    lemma_hex_upper_len(hresult_bits(hr), 8);
    let t = hresult_text(hr);
    assert(t.subrange(0, 10) =~= "HRESULT 0x"@);
    assert(t.subrange(10, 18) =~= h);
    assert forall|i: int| 10 <= i < 18 implies 0 <= #[trigger] hex_digit_value(t[i]) < 16 by {
        assert(t[i] == h[i - 10]);
    }
}

} // verus!
