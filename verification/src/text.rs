//! Text helpers on `str`: equality, suffixes, decimal numerals, and the ASCII case folding that
//! player codes are parsed through.
use vstd::prelude::*;
use vstd::string::*;

verus! {

/// Whether two string slices hold the same characters.
pub(crate) fn str_equal(a: &str, b: &str) -> (r: bool)
    ensures
        r == (a@ == b@),
{
    a.to_owned() == b.to_owned()
}

/// Whether `s` ends with `suffix`, as a spec over the character sequences.
pub open spec fn seq_has_suffix(s: Seq<char>, suffix: Seq<char>) -> bool {
    suffix.len() <= s.len() && s.subrange(s.len() - suffix.len(), s.len() as int) == suffix
}

/// Whether `suffix` is a suffix of `s`.
pub(crate) fn str_ends_with(s: &str, suffix: &str) -> (r: bool)
    ensures
        r == seq_has_suffix(s@, suffix@),
{
    let n = s.unicode_len();
    let m = suffix.unicode_len();
    if m > n {
        return false;
    }
    let tail = s.substring_char(n - m, n);
    tail.to_owned() == suffix.to_owned()
}

/// ASCII lower-casing of one character, as `char::to_ascii_lowercase` defines it.
pub open spec fn ascii_lower(c: char) -> char {
    if 'A' <= c && c <= 'Z' {
        ((c as u32) + 32) as char
    } else {
        c
    }
}

pub open spec fn ascii_lower_seq(s: Seq<char>) -> Seq<char> {
    s.map_values(|c: char| ascii_lower(c))
}

pub fn char_to_ascii_lower(c: char) -> (r: char)
    ensures
        r == ascii_lower(c),
{
    match c {
        'A' => 'a',
        'B' => 'b',
        'C' => 'c',
        'D' => 'd',
        'E' => 'e',
        'F' => 'f',
        'G' => 'g',
        'H' => 'h',
        'I' => 'i',
        'J' => 'j',
        'K' => 'k',
        'L' => 'l',
        'M' => 'm',
        'N' => 'n',
        'O' => 'o',
        'P' => 'p',
        'Q' => 'q',
        'R' => 'r',
        'S' => 's',
        'T' => 't',
        'U' => 'u',
        'V' => 'v',
        'W' => 'w',
        'X' => 'x',
        'Y' => 'y',
        'Z' => 'z',
        _ => c,
    }
}

/// The characters of `s`, in order.
pub fn str_chars(s: &str) -> (r: Vec<char>)
    ensures
        r@ == s@,
{
    let mut out: Vec<char> = Vec::new();
    let n = s.unicode_len();
    for i in 0..n
        invariant
            n == s@.len(),
            out@ == s@.take(i as int),
    {
        let c = s.get_char(i);
        out.push(c);
        proof {
            assert(s@.take(i + 1) =~= s@.take(i as int).push(c));
        }
    }
    proof {
        assert(s@.take(n as int) =~= s@);
    }
    out
}

/// The ASCII lower-case form of `s`, as a character vector.
pub fn to_ascii_lowercase_chars(s: &str) -> (r: Vec<char>)
    ensures
        r@ == ascii_lower_seq(s@),
{
    let chars = str_chars(s);
    let mut out: Vec<char> = Vec::new();
    let n = chars.len();
    for i in 0..n
        invariant
            n == chars@.len(),
            chars@ == s@,
            out@ == ascii_lower_seq(chars@.take(i as int)),
    {
        let c = char_to_ascii_lower(chars[i]);
        out.push(c);
        proof {
            assert(chars@.take(i + 1) == chars@.take(i as int).push(chars@[i as int]));
            assert(ascii_lower_seq(chars@.take(i + 1)) =~= ascii_lower_seq(chars@.take(i as int)).push(ascii_lower(chars@[i as int])));
        }
    }
    proof {
        assert(chars@.take(n as int) =~= chars@);
    }
    out
}

/// The decimal digits of `n`, most significant first.
pub open spec fn decimal(n: nat) -> Seq<char>
    decreases n,
{
    if n < 10 {
        seq![digit_char(n)]
    } else {
        decimal(n / 10).push(digit_char(n % 10))
    }
}

pub open spec fn digit_char(d: nat) -> char {
    if d == 0 {
        '0'
    } else if d == 1 {
        '1'
    } else if d == 2 {
        '2'
    } else if d == 3 {
        '3'
    } else if d == 4 {
        '4'
    } else if d == 5 {
        '5'
    } else if d == 6 {
        '6'
    } else if d == 7 {
        '7'
    } else if d == 8 {
        '8'
    } else {
        '9'
    }
}

/// `s` padded on the left with `'0'` to at least `width` characters.
pub open spec fn zero_padded(s: Seq<char>, width: nat) -> Seq<char> {
    if s.len() >= width {
        s
    } else {
        Seq::new((width - s.len()) as nat, |i: int| '0') + s
    }
}

fn digit_str(d: u8) -> (r: &'static str)
    requires
        d < 10,
    ensures
        r@ == seq![digit_char(d as nat)],
{
    proof {
        reveal_strlit("0");
        reveal_strlit("1");
        reveal_strlit("2");
        reveal_strlit("3");
        reveal_strlit("4");
        reveal_strlit("5");
        reveal_strlit("6");
        reveal_strlit("7");
        reveal_strlit("8");
        reveal_strlit("9");
    }
    if d == 0 {
        "0"
    } else if d == 1 {
        "1"
    } else if d == 2 {
        "2"
    } else if d == 3 {
        "3"
    } else if d == 4 {
        "4"
    } else if d == 5 {
        "5"
    } else if d == 6 {
        "6"
    } else if d == 7 {
        "7"
    } else if d == 8 {
        "8"
    } else {
        "9"
    }
}

/// The decimal digits of `n`, least significant first.
fn digits_reversed(n: usize) -> (r: Vec<u8>)
    ensures
        r@.len() == decimal(n as nat).len(),
        forall|i: int| 0 <= i < r@.len() ==> #[trigger] r@[i] < 10,
        forall|i: int|
            0 <= i < r@.len() ==> digit_char(#[trigger] r@[i] as nat) == decimal(n as nat)[decimal(n as nat).len() - 1 - i],
    decreases n,
{
    if n < 10 {
        let v = vec![n as u8];
        v
    } else {
        let mut rest = digits_reversed(n / 10);
        let mut out: Vec<u8> = vec![(n % 10) as u8];
        let ghost d = decimal((n / 10) as nat);
        let ghost full = decimal(n as nat);
        proof {
            assert(full == d.push(digit_char((n % 10) as nat)));
        }
        let k = rest.len();
        for i in 0..k
            invariant
                k == rest@.len(),
                rest@.len() == d.len(),
                d == decimal((n / 10) as nat),
                full == d.push(digit_char((n % 10) as nat)),
                out@.len() == i + 1,
                out@[0] == (n % 10) as u8,
                forall|j: int| 0 <= j < rest@.len() ==> #[trigger] rest@[j] < 10,
                forall|j: int| 0 <= j < rest@.len() ==> digit_char(#[trigger] rest@[j] as nat) == d[d.len() - 1 - j],
                forall|j: int| 1 <= j < out@.len() ==> #[trigger] out@[j] == rest@[j - 1],
        {
            out.push(rest[i]);
        }
        proof {
            assert forall|i: int| 0 <= i < out@.len() implies digit_char(#[trigger] out@[i] as nat) == full[full.len() - 1 - i] by {
                if i > 0 {
                    assert(out@[i] == rest@[i - 1]);
                }
            }
        }
        out
    }
}

/// Append the decimal digits of `n` to `s`.
pub fn push_decimal(s: &mut String, n: usize)
    ensures
        final(s)@ == old(s)@ + decimal(n as nat),
{
    let digits = digits_reversed(n);
    let ghost dec = decimal(n as nat);
    let len = digits.len();
    let mut k: usize = 0;
    while k < len
        invariant
            len == digits@.len(),
            len == dec.len(),
            dec == decimal(n as nat),
            k <= len,
            forall|i: int| 0 <= i < len ==> #[trigger] digits@[i] < 10,
            forall|i: int| 0 <= i < len ==> digit_char(#[trigger] digits@[i] as nat) == dec[dec.len() - 1 - i],
            s@ == old(s)@ + dec.take(k as int),
        decreases len - k,
    {
        let d = digits[len - 1 - k];
        let piece = digit_str(d);
        s.append(piece);
        proof {
            assert(dec.take(k + 1) =~= dec.take(k as int).push(dec[k as int]));
            assert(digit_char(digits@[len - 1 - k] as nat) == dec[k as int]);
        }
        k += 1;
    }
    proof {
        assert(dec.take(len as int) =~= dec);
    }
}

/// Append the decimal digits of `n` to `s`, padded with leading zeros to `width` digits.
pub fn push_zero_padded(s: &mut String, n: usize, width: usize)
    ensures
        final(s)@ == old(s)@ + zero_padded(decimal(n as nat), width as nat),
{
    let digits = digits_reversed(n);
    let ghost dec = decimal(n as nat);
    let mut pad: usize = 0;
    let zeros = if digits.len() < width {
        width - digits.len()
    } else {
        0
    };
    proof {
        reveal_strlit("0");
    }
    while pad < zeros
        invariant
            pad <= zeros,
            s@ == old(s)@ + Seq::new(pad as nat, |i: int| '0'),
        decreases zeros - pad,
    {
        proof {
            reveal_strlit("0");
        }
        s.append("0");
        pad += 1;
        proof {
            assert(Seq::new(pad as nat, |i: int| '0') =~= Seq::new((pad - 1) as nat, |i: int| '0').push('0'));
            assert(s@ =~= old(s)@ + Seq::new(pad as nat, |i: int| '0'));
        }
    }
    let ghost padded = s@;
    push_decimal(s, n);
    proof {
        assert(zero_padded(dec, width as nat) =~= Seq::new(zeros as nat, |i: int| '0') + dec);
    }
}

} // verus!
