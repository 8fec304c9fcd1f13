//! Text building blocks: concatenation with an exact view, and decimal
//! rendering of integers.

use vstd::prelude::*;
use vstd::string::{StrSliceExecFns, StringExecFns};

verus! {

/// The character that renders the decimal digit `d`.
pub open spec fn digit_char(d: nat) -> char {
    if d == 0 {
        '0'
    } else if d == 1 {
        '1'
    } else if d == 2 {
        '2'
    } else if d == 3 {
        '3'
    } else if d == 4 {
        '4'
    } else if d == 5 {
        '5'
    } else if d == 6 {
        '6'
    } else if d == 7 {
        '7'
    } else if d == 8 {
        '8'
    } else {
        '9'
    }
}

/// The decimal rendering of `n`, without sign or leading zeros.
pub open spec fn decimal(n: nat) -> Seq<char>
    decreases n,
{
    if n < 10 {
        seq![digit_char(n)]
    } else {
        decimal(n / 10).push(digit_char(n % 10))
    }
}

/// The decimal rendering of a signed integer: a minus sign before the
/// magnitude of a negative number.
pub open spec fn signed_decimal(i: int) -> Seq<char> {
    if i < 0 {
        seq!['-'] + decimal((-i) as nat)
    } else {
        decimal(i as nat)
    }
}

fn digit_str(d: u64) -> (r: &'static str)
    requires
        d < 10,
    ensures
        r@ == seq![digit_char(d as nat)],
{
    proof {
        reveal_strlit("0");
        reveal_strlit("1");
        reveal_strlit("2");
        reveal_strlit("3");
        reveal_strlit("4");
        reveal_strlit("5");
        reveal_strlit("6");
        reveal_strlit("7");
        reveal_strlit("8");
        reveal_strlit("9");
    }
    let r = if d == 0 {
        "0"
    } else if d == 1 {
        "1"
    } else if d == 2 {
        "2"
    } else if d == 3 {
        "3"
    } else if d == 4 {
        "4"
    } else if d == 5 {
        "5"
    } else if d == 6 {
        "6"
    } else if d == 7 {
        "7"
    } else if d == 8 {
        "8"
    } else {
        "9"
    };
    assert(r@ =~= seq![digit_char(d as nat)]);
    r
}

/// Renders `n` in decimal.
pub fn u64_to_string(n: u64) -> (r: String)
    ensures
        r@ == decimal(n as nat),
    decreases n,
{
    if n < 10 {
        String::from_str(digit_str(n))
    } else {
        let mut r = u64_to_string(n / 10);
        r.append(digit_str(n % 10));
        assert(r@ =~= decimal(n as nat));
        r
    }
}

/// Renders an index in decimal.
pub fn index_to_string(n: usize) -> (r: String)
    ensures
        r@ == decimal(n as nat),
{
    u64_to_string(n as u64)
}

/// Renders a signed integer in decimal.
pub fn i64_to_string(i: i64) -> (r: String)
    ensures
        r@ == signed_decimal(i as int),
{
    if i < 0 {
        let magnitude: u64 = ((-(i + 1)) as u64) + 1;
        let digits = u64_to_string(magnitude);
        let mut r = String::from_str("-");
        r.append(digits.as_str());
        proof {
            reveal_strlit("-");
            assert(r@ =~= signed_decimal(i as int));
        }
        r
    } else {
        u64_to_string(i as u64)
    }
}

/// `a` followed by `b`.
pub fn join2(a: &str, b: &str) -> (r: String)
    ensures
        r@ == a@ + b@,
{
    let mut r = String::from_str(a);
    r.append(b);
    r
}

/// The three texts in a row.
pub fn join3(a: &str, b: &str, c: &str) -> (r: String)
    ensures
        r@ == a@ + b@ + c@,
{
    let mut r = join2(a, b);
    r.append(c);
    r
}

/// The four texts in a row.
pub fn join4(a: &str, b: &str, c: &str, d: &str) -> (r: String)
    ensures
        r@ == a@ + b@ + c@ + d@,
{
    let mut r = join3(a, b, c);
    r.append(d);
    r
}

/// The five texts in a row.
pub fn join5(a: &str, b: &str, c: &str, d: &str, e: &str) -> (r: String)
    ensures
        r@ == a@ + b@ + c@ + d@ + e@,
{
    let mut r = join4(a, b, c, d);
    r.append(e);
    r
}

/// The six texts in a row.
pub fn join6(a: &str, b: &str, c: &str, d: &str, e: &str, f: &str) -> (r: String)
    ensures
        r@ == a@ + b@ + c@ + d@ + e@ + f@,
{
    let mut r = join5(a, b, c, d, e);
    r.append(f);
    r
}

/// The seven texts in a row.
pub fn join7(a: &str, b: &str, c: &str, d: &str, e: &str, f: &str, g: &str) -> (r: String)
    ensures
        r@ == a@ + b@ + c@ + d@ + e@ + f@ + g@,
{
    let mut r = join6(a, b, c, d, e, f);
    r.append(g);
    r
}

/// Adds one character at the end of a text. This is `String::push` of the
/// standard library, which appends the given character and changes
/// nothing else; its contract is taken on trust.
#[verifier::external_body]
pub(crate) fn push_char(text: &mut String, c: char)
    ensures
        final(text)@ == old(text)@.push(c),
{
    text.push(c);
}

/// The upper-case form of an ASCII letter; any other character unchanged.
pub open spec fn ascii_upper(c: char) -> char {
    if 'a' <= c <= 'z' {
        ((c as u8) - 32) as char
    } else {
        c
    }
}

/// The upper-case form of an ASCII letter; any other character unchanged.
pub fn to_ascii_upper(c: char) -> (r: char)
    ensures
        r == ascii_upper(c),
{
    if 'a' <= c && c <= 'z' {
        ((c as u8) - 32) as char
    } else {
        c
    }
}

/// The first `n` characters of `value` in bumpy case: spaces are left out,
/// and a character that follows a space is put in upper case.
pub open spec fn bumpy_case(value: Seq<char>, n: int) -> Seq<char>
    decreases n,
{
    if n <= 0 {
        Seq::empty()
    } else if value[n - 1] == ' ' {
        bumpy_case(value, n - 1)
    } else if n >= 2 && value[n - 2] == ' ' {
        bumpy_case(value, n - 1).push(ascii_upper(value[n - 1]))
    } else {
        bumpy_case(value, n - 1).push(value[n - 1])
    }
}

/// Puts a name in bumpy case: `"fly to base"` becomes `"flyToBase"`.
pub fn convert_to_bumpy_case(value: &str) -> (r: String)
    ensures
        r@ == bumpy_case(value@, value@.len() as int),
{
    let mut result = String::new();
    let n = value.unicode_len();
    let mut prev_space_encountered = false;
    let mut i: usize = 0;
    assert(result@ =~= bumpy_case(value@, 0));
    while i < n
        invariant
            i <= n,
            n == value@.len(),
            result@ == bumpy_case(value@, i as int),
            prev_space_encountered == (i > 0 && value@[i - 1] == ' '),
        decreases n - i,
    {
        let ch = value.get_char(i);
        if ch == ' ' {
            prev_space_encountered = true;
        } else {
            if prev_space_encountered {
                push_char(&mut result, to_ascii_upper(ch));
            } else {
                push_char(&mut result, ch);
            }
            prev_space_encountered = false;
        }
        i = i + 1;
    }
    result
}

/// `value` with `to` in place of every `from`.
pub open spec fn replaced(value: Seq<char>, from: char, to: char) -> Seq<char> {
    Seq::new(
        value.len(),
        |i: int|
            if value[i] == from {
                to
            } else {
                value[i]
            },
    )
}

/// Puts `to` in place of every `from`.
pub fn replace_char(value: &str, from: char, to: char) -> (r: String)
    ensures
        r@ == replaced(value@, from, to),
{
    let mut result = String::new();
    let n = value.unicode_len();
    let mut i: usize = 0;
    assert(result@ =~= replaced(value@, from, to).take(0));
    while i < n
        invariant
            i <= n,
            n == value@.len(),
            result@ == replaced(value@, from, to).take(i as int),
        decreases n - i,
    {
        let ch = value.get_char(i);
        if ch == from {
            push_char(&mut result, to);
        } else {
            push_char(&mut result, ch);
        }
        assert(result@ =~= replaced(value@, from, to).take(i + 1));
        i = i + 1;
    }
    assert(replaced(value@, from, to).take(n as int) =~= replaced(value@, from, to));
    result
}

/// `value` without any `c`: the first `n` characters, filtered.
pub open spec fn without(value: Seq<char>, c: char, n: int) -> Seq<char>
    decreases n,
{
    if n <= 0 {
        Seq::empty()
    } else if value[n - 1] == c {
        without(value, c, n - 1)
    } else {
        without(value, c, n - 1).push(value[n - 1])
    }
}

/// Leaves every `c` out.
pub fn remove_char(value: &str, c: char) -> (r: String)
    ensures
        r@ == without(value@, c, value@.len() as int),
{
    let mut result = String::new();
    let n = value.unicode_len();
    let mut i: usize = 0;
    assert(result@ =~= without(value@, c, 0));
    while i < n
        invariant
            i <= n,
            n == value@.len(),
            result@ == without(value@, c, i as int),
        decreases n - i,
    {
        let ch = value.get_char(i);
        if ch != c {
            push_char(&mut result, ch);
        }
        i = i + 1;
    }
    result
}

/// How `a` stands to `b` from position `from` on, in the order of
/// dictionaries over code points: -1 where `a` comes first, 1 where `b`
/// does, 0 where the two agree.
pub open spec fn text_order(a: Seq<char>, b: Seq<char>, from: int) -> int
    decreases a.len() - from,
{
    if from < 0 {
        0
    } else if from >= a.len() && from >= b.len() {
        0
    } else if from >= a.len() {
        -1
    } else if from >= b.len() {
        1
    } else if a[from] < b[from] {
        -1
    } else if a[from] > b[from] {
        1
    } else {
        text_order(a, b, from + 1)
    }
}

/// Compares two texts in the order of dictionaries over code points.
pub fn order_texts(a: &str, b: &str) -> (r: i8)
    ensures
        r as int == text_order(a@, b@, 0),
{
    let n = a.unicode_len();
    let m = b.unicode_len();
    let mut i: usize = 0;
    while i < n && i < m
        invariant
            i <= n,
            i <= m,
            n == a@.len(),
            m == b@.len(),
            text_order(a@, b@, 0) == text_order(a@, b@, i as int),
        decreases n - i,
    {
        let x = a.get_char(i);
        let y = b.get_char(i);
        if x < y {
            return -1;
        }
        if x > y {
            return 1;
        }
        i = i + 1;
    }
    if i < m {
        -1
    } else if i < n {
        1
    } else {
        0
    }
}

/// The number that the first `n` characters of a text write, read as
/// decimal digits.
pub open spec fn digits_value(text: Seq<char>, n: int) -> int
    decreases n,
{
    if n <= 0 {
        0
    } else {
        digits_value(text, n - 1) * 10 + ((text[n - 1] as int) - ('0' as int))
    }
}

/// Whether a text holds decimal digits only.
pub open spec fn all_digits(text: Seq<char>) -> bool {
    forall|i: int| 0 <= i < text.len() ==> (#[trigger] text[i]) >= '0' && '9' >= text[i]
}

/// The integer that a text writes in decimal: an optional sign, then one
/// digit or more and nothing else. A plus sign may always stand; a minus
/// sign only where `signed` says that negative numbers are read. There is
/// no bound on the number here.
pub open spec fn integer_read(text: Seq<char>, signed: bool) -> Option<int> {
    let negative = signed && text.len() > 0 && text[0] == '-';
    let digits = if text.len() > 0 && (text[0] == '+' || negative) {
        text.subrange(1, text.len() as int)
    } else {
        text
    };
    if digits.len() > 0 && all_digits(digits) {
        if negative {
            Some(-digits_value(digits, digits.len() as int))
        } else {
            Some(digits_value(digits, digits.len() as int))
        }
    } else {
        None
    }
}

/// Whether a text writes an integer from `min` to `max`.
pub open spec fn reads_within(text: Seq<char>, signed: bool, min: int, max: int) -> bool {
    match integer_read(text, signed) {
        Some(value) => min <= value && value <= max,
        None => false,
    }
}

} // verus!
