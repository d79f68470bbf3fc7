//! Decimal and hexadecimal rendering of unsigned integers, as used in kernel
//! command line fragments.

use vstd::prelude::*;

verus! {

/// The lowercase hexadecimal digit of a value below 16.
pub open spec fn digit_char(d: nat) -> char {
    if d == 0 { '0' }
    else if d == 1 { '1' }
    else if d == 2 { '2' }
    else if d == 3 { '3' }
    else if d == 4 { '4' }
    else if d == 5 { '5' }
    else if d == 6 { '6' }
    else if d == 7 { '7' }
    else if d == 8 { '8' }
    else if d == 9 { '9' }
    else if d == 10 { 'a' }
    else if d == 11 { 'b' }
    else if d == 12 { 'c' }
    else if d == 13 { 'd' }
    else if d == 14 { 'e' }
    else { 'f' }
}

/// The decimal digits of `n`, most significant first, without leading zeros.
pub open spec fn dec_digits(n: nat) -> Seq<char>
    decreases n,
{
    if n < 10 {
        seq![digit_char(n)]
    } else {
        dec_digits(n / 10) + seq![digit_char(n % 10)]
    }
}

/// The lowercase hexadecimal digits of `n`, most significant first, without leading zeros.
pub open spec fn hex_digits(n: nat) -> Seq<char>
    decreases n,
{
    if n < 16 {
        seq![digit_char(n)]
    } else {
        hex_digits(n / 16) + seq![digit_char(n % 16)]
    }
}

/// `s` preceded by as many `'0'` as bring it to `width` characters.
pub open spec fn zero_pad(s: Seq<char>, width: nat) -> Seq<char> {
    if s.len() >= width {
        s
    } else {
        Seq::new((width - s.len()) as nat, |i: int| '0') + s
    }
}

/// The decimal rendering of `n`, as `{}` prints it.
pub open spec fn dec(n: nat) -> Seq<char> {
    dec_digits(n)
}

/// The hexadecimal rendering of `n` padded to eight digits, as `{:08x}` prints it.
pub open spec fn hex08(n: nat) -> Seq<char> {
    zero_pad(hex_digits(n), 8)
}

/// The hexadecimal rendering of a byte padded to two digits, as `{:02x}` prints it.
pub open spec fn hex02(n: nat) -> Seq<char> {
    zero_pad(hex_digits(n), 2)
}

fn digit_str(d: u64) -> (r: &'static str)
    requires
        d < 16,
    ensures
        r@ == seq![digit_char(d as nat)],
{
    proof {
        reveal_strlit("0");
        reveal_strlit("1");
        reveal_strlit("2");
        reveal_strlit("3");
        reveal_strlit("4");
        reveal_strlit("5");
        reveal_strlit("6");
        reveal_strlit("7");
        reveal_strlit("8");
        reveal_strlit("9");
        reveal_strlit("a");
        reveal_strlit("b");
        reveal_strlit("c");
        reveal_strlit("d");
        reveal_strlit("e");
        reveal_strlit("f");
    }
    let r = if d == 0 { "0" }
    else if d == 1 { "1" }
    else if d == 2 { "2" }
    else if d == 3 { "3" }
    else if d == 4 { "4" }
    else if d == 5 { "5" }
    else if d == 6 { "6" }
    else if d == 7 { "7" }
    else if d == 8 { "8" }
    else if d == 9 { "9" }
    else if d == 10 { "a" }
    else if d == 11 { "b" }
    else if d == 12 { "c" }
    else if d == 13 { "d" }
    else if d == 14 { "e" }
    else { "f" };
    assert(r@ =~= seq![digit_char(d as nat)]);
    r
}

fn render_dec(n: u64) -> (r: String)
    ensures
        r@ == dec_digits(n as nat),
    decreases n,
{
    if n < 10 {
        String::from_str(digit_str(n))
    } else {
        let head = render_dec(n / 10);
        head.concat(digit_str(n % 10))
    }
}

fn render_hex(n: u64) -> (r: String)
    ensures
        r@ == hex_digits(n as nat),
    decreases n,
{
    if n < 16 {
        String::from_str(digit_str(n))
    } else {
        let head = render_hex(n / 16);
        head.concat(digit_str(n % 16))
    }
}

/// Renders `n` in decimal.
pub fn format_dec(n: u64) -> (r: String)
    ensures
        r@ == dec(n as nat),
{
    render_dec(n)
}

/// Renders `n` in lowercase hexadecimal, padded with zeros to eight digits.
pub fn format_hex08(n: u64) -> (r: String)
    ensures
        r@ == hex08(n as nat),
{
    let s = render_hex(n);
    let len = s.as_str().unicode_len();
    if len >= 8 {
        s
    } else {
        let mut pad = String::new();
        let mut i: usize = len;
        while i < 8
            invariant
                len <= i <= 8,
                pad@ == Seq::new((i - len) as nat, |k: int| '0'),
            decreases 8 - i,
        {
            let ghost before = pad@;
            proof {
                reveal_strlit("0");
            }
            pad.append("0");
            i = i + 1;
            assert(pad@ =~= Seq::new((i - len) as nat, |k: int| '0')) by {
                assert(pad@ == before + "0"@);
            }
        }
        pad.concat(s.as_str())
    }
}

/// Renders a byte as two lowercase hexadecimal digits.
pub fn format_hex02(b: u8) -> (r: String)
    ensures
        r@ == hex02(b as nat),
{
    let hi = (b / 16) as u64;
    let lo = (b % 16) as u64;
    if hi == 0 {
        proof {
            reveal_strlit("0");
        }
        let r = String::from_str("0").concat(digit_str(lo));
        assert(r@ =~= hex02(b as nat));
        r
    } else {
        let r = String::from_str(digit_str(hi)).concat(digit_str(lo));
        assert(hex_digits((b / 16) as nat) == seq![digit_char(hi as nat)]);
        assert(r@ =~= hex02(b as nat));
        r
    }
}

} // verus!
