//! Verified string helpers: equality, ASCII case mapping, and decimal /
//! hexadecimal digit rendering used by the display formatters.

use vstd::prelude::*;

verus! {

/// Whether `c` is an ASCII uppercase letter.
pub open spec fn is_ascii_upper(c: char) -> bool {
    'A' <= c && c <= 'Z'
}

/// Whether `c` is an ASCII lowercase letter.
pub open spec fn is_ascii_lower(c: char) -> bool {
    'a' <= c && c <= 'z'
}

/// Whether `c` is an ASCII letter or digit.
pub open spec fn is_ascii_alnum(c: char) -> bool {
    ('0' <= c && c <= '9') || is_ascii_upper(c) || is_ascii_lower(c)
}

/// The ASCII uppercase counterpart of `c`; other characters are unchanged.
pub open spec fn upper_char(c: char) -> char {
    if is_ascii_lower(c) {
        ((c as u32) - 32) as char
    } else {
        c
    }
}

/// The ASCII lowercase counterpart of `c`; other characters are unchanged.
pub open spec fn lower_char(c: char) -> char {
    if is_ascii_upper(c) {
        ((c as u32) + 32) as char
    } else {
        c
    }
}

/// Maps a sequence of characters through [`upper_char`].
pub open spec fn upper_seq(s: Seq<char>) -> Seq<char> {
    s.map_values(|c: char| upper_char(c))
}

/// Executable counterpart of [`upper_char`].
pub fn to_upper_char(c: char) -> (r: char)
    ensures
        r == upper_char(c),
{
    match c {
        'a' => 'A',
        'b' => 'B',
        'c' => 'C',
        'd' => 'D',
        'e' => 'E',
        'f' => 'F',
        'g' => 'G',
        'h' => 'H',
        'i' => 'I',
        'j' => 'J',
        'k' => 'K',
        'l' => 'L',
        'm' => 'M',
        'n' => 'N',
        'o' => 'O',
        'p' => 'P',
        'q' => 'Q',
        'r' => 'R',
        's' => 'S',
        't' => 'T',
        'u' => 'U',
        'v' => 'V',
        'w' => 'W',
        'x' => 'X',
        'y' => 'Y',
        'z' => 'Z',
        _ => c,
    }
}

/// Exact string equality, decided character by character.
pub fn str_eq(a: &str, b: &str) -> (r: bool)
    ensures
        r == (a@ == b@),
{
    let a_len = a.unicode_len();
    let b_len = b.unicode_len();
    if a_len != b_len {
        assert(a@.len() != b@.len());
        return false;
    }
    let mut i: usize = 0;
    while i < a_len
        invariant
            i <= a_len,
            a_len == a@.len(),
            a_len == b@.len(),
            forall|j: int| 0 <= j < i ==> a@[j] == b@[j],
        decreases a_len - i,
    {
        if a.get_char(i) != b.get_char(i) {
            return false;
        }
        i += 1;
    }
    proof {
        assert(a@ =~= b@);
    }
    true
}

/// Whether `s`, mapped to ASCII uppercase, equals `t` exactly.
pub fn eq_ignore_ascii_case_upper(s: &str, t: &str) -> (r: bool)
    ensures
        r == (upper_seq(s@) == t@),
{
    let s_len = s.unicode_len();
    let t_len = t.unicode_len();
    if s_len != t_len {
        assert(upper_seq(s@).len() != t@.len());
        return false;
    }
    let mut i: usize = 0;
    while i < s_len
        invariant
            i <= s_len,
            s_len == s@.len(),
            s_len == t@.len(),
            forall|j: int| 0 <= j < i ==> upper_char(s@[j]) == t@[j],
        decreases s_len - i,
    {
        if to_upper_char(s.get_char(i)) != t.get_char(i) {
            assert(upper_seq(s@)[i as int] != t@[i as int]);
            return false;
        }
        i += 1;
    }
    proof {
        assert(upper_seq(s@) =~= t@);
    }
    true
}

/// The character for the decimal digit `n`.
pub open spec fn dec_digit_char(n: int) -> char {
    (48 + n) as char
}

/// The decimal rendering of `n` (no sign, no leading zeroes except for `0`).
pub open spec fn dec_seq(n: int) -> Seq<char>
    decreases n,
{
    if n < 10 {
        seq![dec_digit_char(n)]
    } else {
        dec_seq(n / 10).push(dec_digit_char(n % 10))
    }
}

/// One decimal digit as a string slice.
pub fn dec_digit_str(n: u64) -> (r: &'static str)
    requires
        n < 10,
    ensures
        r@ == seq![dec_digit_char(n as int)],
{
    proof {
        reveal_strlit("0");
        reveal_strlit("1");
        reveal_strlit("2");
        reveal_strlit("3");
        reveal_strlit("4");
        reveal_strlit("5");
        reveal_strlit("6");
        reveal_strlit("7");
        reveal_strlit("8");
        reveal_strlit("9");
    }
    let r = match n {
        0 => "0",
        1 => "1",
        2 => "2",
        3 => "3",
        4 => "4",
        5 => "5",
        6 => "6",
        7 => "7",
        8 => "8",
        _ => "9",
    };
    proof {
        assert(r@ =~= seq![dec_digit_char(n as int)]);
    }
    r
}

/// Renders `n` in decimal.
pub fn u64_to_dec(n: u64) -> (r: String)
    ensures
        r@ == dec_seq(n as int),
    decreases n,
{
    if n < 10 {
        String::from_str(dec_digit_str(n))
    } else {
        let mut s = u64_to_dec(n / 10);
        s.append(dec_digit_str(n % 10));
        proof {
            assert(s@ =~= dec_seq(n as int));
        }
        s
    }
}

/// `k` zero characters.
pub open spec fn zeros(k: int) -> Seq<char> {
    Seq::new(if k < 0 {
        0
    } else {
        k as nat
    }, |i: int| '0')
}

/// `s` left-padded with zeroes to width `w` (unchanged if already that wide).
pub open spec fn pad0(s: Seq<char>, w: int) -> Seq<char> {
    zeros(w - s.len()) + s
}

/// A signed value rendered as Rust's sign-aware zero padding to width `w`
/// renders it: the sign first, then the magnitude padded to the remaining
/// width.
pub open spec fn signed_pad(v: int, w: int) -> Seq<char> {
    if v >= 0 {
        pad0(dec_seq(v), w)
    } else {
        seq!['-'] + pad0(dec_seq(-v), w - 1)
    }
}

proof fn lemma_dec_seq_len(n: int)
    requires
        n >= 0,
    ensures
        dec_seq(n).len() >= 1,
        n < 10 ==> dec_seq(n).len() == 1,
        10 <= n < 100 ==> dec_seq(n).len() == 2,
        100 <= n < 1000 ==> dec_seq(n).len() == 3,
        n >= 100 ==> dec_seq(n).len() >= 3,
    decreases n,
{
    if n >= 10 {
        lemma_dec_seq_len(n / 10);
    }
}

/// Renders `n` in decimal, left-padded with zeroes to at least `width`
/// characters; `width` is at most 3.
pub fn dec_pad(n: u64, width: usize) -> (r: String)
    requires
        width <= 3,
    ensures
        r@ == pad0(dec_seq(n as int), width as int),
{
    proof {
        lemma_dec_seq_len(n as int);
        reveal_strlit("");
        reveal_strlit("0");
        reveal_strlit("00");
    }
    let prefix: &'static str = if width == 3 && n < 10 {
        "00"
    } else if (width == 3 && n < 100) || (width == 2 && n < 10) {
        "0"
    } else {
        ""
    };
    let mut s = String::from_str(prefix);
    let digits = u64_to_dec(n);
    s.append(digits.as_str());
    proof {
        assert(s@ =~= pad0(dec_seq(n as int), width as int));
    }
    s
}

/// Renders a signed value the way Rust's `{:0w$}` formatting does, for a
/// magnitude given separately from its sign; `width` is at most 3.
pub fn signed_dec_pad(neg: bool, abs: u64, width: usize) -> (r: String)
    requires
        1 <= width <= 3,
    ensures
        r@ == signed_pad(
            if neg {
                -(abs as int)
            } else {
                abs as int
            },
            width as int,
        ),
{
    if neg && abs > 0 {
        proof {
            reveal_strlit("-");
        }
        let mut s = String::from_str("-");
        let digits = dec_pad(abs, width - 1);
        s.append(digits.as_str());
        proof {
            assert(s@ =~= signed_pad(-(abs as int), width as int));
        }
        s
    } else {
        dec_pad(abs, width)
    }
}

/// The character for the hexadecimal digit `n`, lowercase.
pub open spec fn hex_digit_char(n: int) -> char {
    if n < 10 {
        (48 + n) as char
    } else {
        (87 + n) as char
    }
}

/// The low `n` hexadecimal digits of `v`, most significant first, zero
/// padded to exactly `n` characters.
pub open spec fn hex_seq(v: int, n: int) -> Seq<char>
    decreases n,
{
    if n <= 0 {
        Seq::empty()
    } else {
        hex_seq(v / 16, n - 1).push(hex_digit_char(v % 16))
    }
}

/// One hexadecimal digit as a string slice.
pub fn hex_digit_str(n: u64) -> (r: &'static str)
    requires
        n < 16,
    ensures
        r@ == seq![hex_digit_char(n as int)],
{
    if n < 10 {
        dec_digit_str(n)
    } else {
        proof {
            reveal_strlit("a");
            reveal_strlit("b");
            reveal_strlit("c");
            reveal_strlit("d");
            reveal_strlit("e");
            reveal_strlit("f");
        }
        let r = match n {
            10 => "a",
            11 => "b",
            12 => "c",
            13 => "d",
            14 => "e",
            _ => "f",
        };
        proof {
            assert(r@ =~= seq![hex_digit_char(n as int)]);
        }
        r
    }
}

/// Renders the low `n` hexadecimal digits of `v`, zero padded to exactly
/// `n` characters.
pub fn hex_pad(v: u64, n: usize) -> (r: String)
    ensures
        r@ == hex_seq(v as int, n as int),
    decreases n,
{
    if n == 0 {
        String::new()
    } else {
        let mut s = hex_pad(v / 16, n - 1);
        s.append(hex_digit_str(v % 16));
        proof {
            assert(s@ =~= hex_seq(v as int, n as int));
        }
        s
    }
}

/// Division truncating toward zero, as machine division does; `b` is
/// positive.
pub open spec fn trunc_div(a: int, b: int) -> int {
    if a >= 0 {
        a / b
    } else {
        -((-a) / b)
    }
}

/// Remainder of division truncating toward zero; `b` is positive.
pub open spec fn trunc_mod(a: int, b: int) -> int {
    if a >= 0 {
        a % b
    } else {
        -((-a) % b)
    }
}

/// Maps a sequence of characters through [`lower_char`].
pub open spec fn lower_seq(s: Seq<char>) -> Seq<char> {
    s.map_values(|c: char| lower_char(c))
}

/// One ASCII letter or digit as a lowercase string slice.
pub fn lower_alnum_str(c: char) -> (r: &'static str)
    requires
        is_ascii_alnum(c),
    ensures
        r@ == seq![lower_char(c)],
{
    proof {
        reveal_strlit("g");
        reveal_strlit("h");
        reveal_strlit("i");
        reveal_strlit("j");
        reveal_strlit("k");
        reveal_strlit("l");
        reveal_strlit("m");
        reveal_strlit("n");
        reveal_strlit("o");
        reveal_strlit("p");
        reveal_strlit("q");
        reveal_strlit("r");
        reveal_strlit("s");
        reveal_strlit("t");
        reveal_strlit("u");
        reveal_strlit("v");
        reveal_strlit("w");
        reveal_strlit("x");
        reveal_strlit("y");
        reveal_strlit("z");
    }
    if c <= '9' {
        let n = (c as u32) - 48;
        dec_digit_str(n as u64)
    } else if c <= 'F' || ('a' <= c && c <= 'f') {
        let n = if c <= 'F' {
            (c as u32) - 55
        } else {
            (c as u32) - 87
        };
        hex_digit_str(n as u64)
    } else {
        let r = match c {
            'G' | 'g' => "g",
            'H' | 'h' => "h",
            'I' | 'i' => "i",
            'J' | 'j' => "j",
            'K' | 'k' => "k",
            'L' | 'l' => "l",
            'M' | 'm' => "m",
            'N' | 'n' => "n",
            'O' | 'o' => "o",
            'P' | 'p' => "p",
            'Q' | 'q' => "q",
            'R' | 'r' => "r",
            'S' | 's' => "s",
            'T' | 't' => "t",
            'U' | 'u' => "u",
            'V' | 'v' => "v",
            'W' | 'w' => "w",
            'X' | 'x' => "x",
            'Y' | 'y' => "y",
            _ => "z",
        };
        proof {
            assert(r@ =~= seq![lower_char(c)]);
        }
        r
    }
}

} // verus!
