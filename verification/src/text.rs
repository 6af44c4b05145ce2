//! Character-level helpers: symbol format validation, ASCII lowercasing and
//! decimal rendering of counters, used to derive identifiers.

use vstd::prelude::*;

verus! {

/// An uppercase ASCII letter.
pub open spec fn is_upper_ascii(c: char) -> bool {
    65 <= c as u32 && c as u32 <= 90
}

/// A well-formed collection symbol: non-empty, uppercase ASCII letters only.
pub open spec fn spec_symbol_ok(s: Seq<char>) -> bool {
    s.len() > 0 && forall|i: int| 0 <= i < s.len() ==> is_upper_ascii(#[trigger] s[i])
}

/// Checks the symbol format rule: non-empty, uppercase ASCII letters only,
/// which also excludes whitespace and punctuation.
pub fn symbol_ok(s: &str) -> (b: bool)
    ensures
        b == spec_symbol_ok(s@),
{
    let n = s.unicode_len();
    if n == 0 {
        return false;
    }
    let mut i: usize = 0;
    while i < n
        invariant
            n == s@.len(),
            0 <= i <= n,
            forall|j: int| 0 <= j < i ==> is_upper_ascii(#[trigger] s@[j]),
        decreases n - i,
    {
        let c = s.get_char(i);
        let u = c as u32;
        if u < 65 || u > 90 {
            return false;
        }
        i = i + 1;
    }
    true
}

/// The lowercase counterpart of an uppercase ASCII letter; other characters
/// are left as they are.
pub open spec fn lower_char(c: char) -> char {
    if is_upper_ascii(c) {
        ((c as u32 + 32) as u8) as char
    } else {
        c
    }
}

/// A sequence of characters, lowercased letter by letter.
pub open spec fn spec_lower(s: Seq<char>) -> Seq<char> {
    Seq::new(s.len(), |i: int| lower_char(s[i]))
}

/// Lowercases a string of uppercase ASCII letters.
pub fn lower_ascii(s: &str) -> (r: String)
    requires
        forall|i: int| 0 <= i < s@.len() ==> is_upper_ascii(#[trigger] s@[i]),
    ensures
        r@ == spec_lower(s@),
{
    let n = s.unicode_len();
    let mut r = String::new();
    let mut i: usize = 0;
    while i < n
        invariant
            n == s@.len(),
            0 <= i <= n,
            forall|j: int| 0 <= j < s@.len() ==> is_upper_ascii(#[trigger] s@[j]),
            r@ =~= spec_lower(s@).take(i as int),
        decreases n - i,
    {
        let c = s.get_char(i);
        r.append(lower_str(c));
        proof {
            assert(r@ =~= spec_lower(s@).take(i + 1));
        }
        i = i + 1;
    }
    proof {
        assert(spec_lower(s@).take(n as int) =~= spec_lower(s@));
    }
    r
}

/// The lowercase letter matching an uppercase ASCII letter, as a string of
/// one character.
pub fn lower_str(c: char) -> (r: &'static str)
    requires
        is_upper_ascii(c),
    ensures
        r@ =~= seq![lower_char(c)],
{
    let u = c as u32;
    if u == 65 {
        proof { reveal_strlit("a"); }
        "a"
    } else if u == 66 {
        proof { reveal_strlit("b"); }
        "b"
    } else if u == 67 {
        proof { reveal_strlit("c"); }
        "c"
    } else if u == 68 {
        proof { reveal_strlit("d"); }
        "d"
    } else if u == 69 {
        proof { reveal_strlit("e"); }
        "e"
    } else if u == 70 {
        proof { reveal_strlit("f"); }
        "f"
    } else if u == 71 {
        proof { reveal_strlit("g"); }
        "g"
    } else if u == 72 {
        proof { reveal_strlit("h"); }
        "h"
    } else if u == 73 {
        proof { reveal_strlit("i"); }
        "i"
    } else if u == 74 {
        proof { reveal_strlit("j"); }
        "j"
    } else if u == 75 {
        proof { reveal_strlit("k"); }
        "k"
    } else if u == 76 {
        proof { reveal_strlit("l"); }
        "l"
    } else if u == 77 {
        proof { reveal_strlit("m"); }
        "m"
    } else if u == 78 {
        proof { reveal_strlit("n"); }
        "n"
    } else if u == 79 {
        proof { reveal_strlit("o"); }
        "o"
    } else if u == 80 {
        proof { reveal_strlit("p"); }
        "p"
    } else if u == 81 {
        proof { reveal_strlit("q"); }
        "q"
    } else if u == 82 {
        proof { reveal_strlit("r"); }
        "r"
    } else if u == 83 {
        proof { reveal_strlit("s"); }
        "s"
    } else if u == 84 {
        proof { reveal_strlit("t"); }
        "t"
    } else if u == 85 {
        proof { reveal_strlit("u"); }
        "u"
    } else if u == 86 {
        proof { reveal_strlit("v"); }
        "v"
    } else if u == 87 {
        proof { reveal_strlit("w"); }
        "w"
    } else if u == 88 {
        proof { reveal_strlit("x"); }
        "x"
    } else if u == 89 {
        proof { reveal_strlit("y"); }
        "y"
    } else {
        proof { reveal_strlit("z"); }
        "z"
    }
}

/// The character for a single decimal digit.
pub open spec fn digit_char(d: nat) -> char {
    if d == 0 {
        '0'
    } else if d == 1 {
        '1'
    } else if d == 2 {
        '2'
    } else if d == 3 {
        '3'
    } else if d == 4 {
        '4'
    } else if d == 5 {
        '5'
    } else if d == 6 {
        '6'
    } else if d == 7 {
        '7'
    } else if d == 8 {
        '8'
    } else {
        '9'
    }
}

/// The decimal rendering of a number, most significant digit first, with no
/// leading zeroes (zero itself is rendered "0").
pub open spec fn dec_digits(n: nat) -> Seq<char>
    decreases n,
{
    if n < 10 {
        seq![digit_char(n)]
    } else {
        dec_digits(n / 10).push(digit_char(n % 10))
    }
}

/// A single decimal digit as a string of one character.
pub fn digit_str(d: u64) -> (r: &'static str)
    requires
        d < 10,
    ensures
        r@ =~= seq![digit_char(d as nat)],
{
    if d == 0 {
        proof { reveal_strlit("0"); }
        "0"
    } else if d == 1 {
        proof { reveal_strlit("1"); }
        "1"
    } else if d == 2 {
        proof { reveal_strlit("2"); }
        "2"
    } else if d == 3 {
        proof { reveal_strlit("3"); }
        "3"
    } else if d == 4 {
        proof { reveal_strlit("4"); }
        "4"
    } else if d == 5 {
        proof { reveal_strlit("5"); }
        "5"
    } else if d == 6 {
        proof { reveal_strlit("6"); }
        "6"
    } else if d == 7 {
        proof { reveal_strlit("7"); }
        "7"
    } else if d == 8 {
        proof { reveal_strlit("8"); }
        "8"
    } else {
        proof { reveal_strlit("9"); }
        "9"
    }
}

/// Renders a counter value in decimal.
pub fn u64_to_dec(n: u64) -> (r: String)
    ensures
        r@ == dec_digits(n as nat),
    decreases n,
{
    if n < 10 {
        let r = String::from_str(digit_str(n));
        proof {
            assert(r@ =~= dec_digits(n as nat));
        }
        r
    } else {
        let mut r = u64_to_dec(n / 10);
        r.append(digit_str(n % 10));
        proof {
            assert(r@ =~= dec_digits(n as nat));
        }
        r
    }
}

/// Two characters are equal exactly when their code points are.
pub proof fn lemma_char_eq_code(c1: char, c2: char)
    ensures
        (c1 == c2) <==> (c1 as u32 == c2 as u32),
{
    vstd::utf8::char_u32_cast(c1, c1 as u32);
    vstd::utf8::char_u32_cast(c2, c2 as u32);
}

/// The code point of a lowercased character: shifted by 32 for an uppercase
/// ASCII letter, untouched otherwise.
pub proof fn lemma_lower_char_code(c: char)
    ensures
        is_upper_ascii(c) ==> lower_char(c) as u32 == c as u32 + 32,
        !is_upper_ascii(c) ==> lower_char(c) == c,
{
}

/// `p` is a prefix of `s`.
pub open spec fn spec_starts_with(s: Seq<char>, p: Seq<char>) -> bool {
    p.len() <= s.len() && forall|i: int| 0 <= i < p.len() ==> s[i] == #[trigger] p[i]
}

/// Checks whether `s` starts with `p`.
pub fn starts_with(s: &str, p: &str) -> (b: bool)
    ensures
        b == spec_starts_with(s@, p@),
{
    let sn = s.unicode_len();
    let pn = p.unicode_len();
    if pn > sn {
        return false;
    }
    let mut i: usize = 0;
    while i < pn
        invariant
            sn == s@.len(),
            pn == p@.len(),
            pn <= sn,
            0 <= i <= pn,
            forall|j: int| 0 <= j < i ==> s@[j] == #[trigger] p@[j],
        decreases pn - i,
    {
        if s.get_char(i) != p.get_char(i) {
            return false;
        }
        i = i + 1;
    }
    true
}

} // verus!
