//! Text primitives used by the comparison predicate and by the failure
//! reasons: whitespace trimming, ASCII case-insensitive equality and the
//! decimal rendering of counters.

use vstd::prelude::*;

verus! {

/// The characters of the Unicode property White_Space, which is what
/// `char::is_whitespace` and `str::trim` go by.
pub open spec fn is_white_space(c: char) -> bool {
    let u = c as u32;
    ||| 0x09 <= u <= 0x0D
    ||| u == 0x20
    ||| u == 0x85
    ||| u == 0xA0
    ||| u == 0x1680
    ||| 0x2000 <= u <= 0x200A
    ||| u == 0x2028
    ||| u == 0x2029
    ||| u == 0x202F
    ||| u == 0x205F
    ||| u == 0x3000
}

/// The string without its leading white space.
pub open spec fn trim_leading(s: Seq<char>) -> Seq<char>
    decreases s.len(),
{
    if s.len() > 0 && is_white_space(s[0]) {
        trim_leading(s.drop_first())
    } else {
        s
    }
}

/// The string without its trailing white space.
pub open spec fn trim_trailing(s: Seq<char>) -> Seq<char>
    decreases s.len(),
{
    if s.len() > 0 && is_white_space(s.last()) {
        trim_trailing(s.drop_last())
    } else {
        s
    }
}

/// What `str::trim` leaves of a string: the string without its leading and
/// trailing white space.
pub open spec fn trimmed(s: Seq<char>) -> Seq<char> {
    trim_trailing(trim_leading(s))
}

/// Two characters are equal once ASCII letters are folded to lower case.
pub open spec fn chars_equal_ignoring_ascii_case(a: char, b: char) -> bool {
    ||| a == b
    ||| (65 <= a as u32 <= 90 && b as u32 == a as u32 + 32)
    ||| (97 <= a as u32 <= 122 && a as u32 == b as u32 + 32)
}

/// Two strings are equal once ASCII letters are folded to lower case; every
/// other character must match exactly.
pub open spec fn equal_ignoring_ascii_case(a: Seq<char>, b: Seq<char>) -> bool {
    &&& a.len() == b.len()
    &&& forall|i: int| 0 <= i < a.len() ==> chars_equal_ignoring_ascii_case(#[trigger] a[i], b[i])
}

/// The character of one decimal digit.
pub open spec fn digit_char(d: nat) -> char {
    if d == 0 {
        '0'
    } else if d == 1 {
        '1'
    } else if d == 2 {
        '2'
    } else if d == 3 {
        '3'
    } else if d == 4 {
        '4'
    } else if d == 5 {
        '5'
    } else if d == 6 {
        '6'
    } else if d == 7 {
        '7'
    } else if d == 8 {
        '8'
    } else {
        '9'
    }
}

/// The decimal digits of `n`, most significant first, with no leading zero.
pub open spec fn decimal(n: nat) -> Seq<char>
    decreases n,
{
    if n < 10 {
        seq![digit_char(n)]
    } else {
        decimal(n / 10).push(digit_char(n % 10))
    }
}

/// Relies on `str::trim`, which removes leading and trailing whitespace,
/// whitespace being the Unicode property White_Space.
#[verifier::external_body]
pub(crate) fn trim_whitespace(s: &str) -> (r: String)
    ensures
        r@ == trimmed(s@),
{
    s.trim().to_string()
}

/// Relies on `str::eq_ignore_ascii_case`, which is documented to equal
/// `to_ascii_lowercase(a) == to_ascii_lowercase(b)`: only 'A'..='Z' are
/// mapped (to 'a'..='z'), every other character is kept.
#[verifier::external_body]
pub(crate) fn eq_ignore_ascii_case(a: &str, b: &str) -> (r: bool)
    ensures
        r == equal_ignoring_ascii_case(a@, b@),
{
    a.eq_ignore_ascii_case(b)
}

/// Relies on the `Display` impl of `u64` (through `ToString`), which writes
/// the number in decimal.
#[verifier::external_body]
pub(crate) fn u64_to_decimal(n: u64) -> (r: String)
    ensures
        r@ == decimal(n as nat),
{
    n.to_string()
}

} // verus!
