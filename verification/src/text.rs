//! Character and string helpers, specified over sequences of characters.

use vstd::prelude::*;
use vstd::string::StringExecFns;

verus! {

/// `String::push` of the standard library: afterwards the string is what it
/// was before, followed by the character `c`.
pub assume_specification[ String::push ](s: &mut String, c: char)
    ensures
        final(s)@ == old(s)@.push(c),
;

/// `==` on string slices of the standard library: two slices are equal when
/// they hold the same characters.
pub assume_specification[ <str as PartialEq>::eq ](a: &str, b: &str) -> (r: bool)
    ensures
        r == (a@ == b@),
;

/// The characters of an optional string.
pub open spec fn opt_text(o: Option<String>) -> Option<Seq<char>> {
    match o {
        Some(s) => Some(s@),
        None => None,
    }
}

/// The characters of an optional string slice.
pub open spec fn opt_str(o: Option<&str>) -> Option<Seq<char>> {
    match o {
        Some(s) => Some(s@),
        None => None,
    }
}

/// Whether `c` is one of the ASCII hexadecimal digits.
pub open spec fn is_hex_digit(c: char) -> bool {
    ('0' <= c && c <= '9') || ('a' <= c && c <= 'f') || ('A' <= c && c <= 'F')
}

/// Whether `c` is an ASCII decimal digit.
pub open spec fn is_digit(c: char) -> bool {
    '0' <= c && c <= '9'
}

/// Whether `c` has the Unicode property `White_Space`.
pub open spec fn is_whitespace(c: char) -> bool {
    let n = c as u32;
    (0x09 <= n && n <= 0x0D) || n == 0x20 || n == 0x85 || n == 0xA0 || n == 0x1680 || (0x2000 <= n
        && n <= 0x200A) || n == 0x2028 || n == 0x2029 || n == 0x202F || n == 0x205F || n == 0x3000
}

/// The lower-case form of an ASCII letter; any other character unchanged.
pub open spec fn ascii_lower(c: char) -> char {
    if 'A' <= c && c <= 'Z' {
        ((c as u32) + 32) as char
    } else {
        c
    }
}

/// `s` without its leading white space.
pub open spec fn trim_start(s: Seq<char>) -> Seq<char>
    decreases s.len(),
{
    if s.len() > 0 && is_whitespace(s[0]) {
        trim_start(s.drop_first())
    } else {
        s
    }
}

/// `s` without its trailing white space.
pub open spec fn trim_end(s: Seq<char>) -> Seq<char>
    decreases s.len(),
{
    if s.len() > 0 && is_whitespace(s.last()) {
        trim_end(s.drop_last())
    } else {
        s
    }
}

/// `s` without leading and trailing white space.
pub open spec fn trimmed(s: Seq<char>) -> Seq<char> {
    trim_end(trim_start(s))
}

/// The index of the first `c` in `s`, or the length of `s` if there is none.
pub open spec fn index_of(s: Seq<char>, c: char) -> int
    decreases s.len(),
{
    if s.len() == 0 {
        0
    } else if s[0] == c {
        0
    } else {
        1 + index_of(s.drop_first(), c)
    }
}

/// The parts of `s` before and after its first `c`, if it has one.
pub open spec fn split_once_at(s: Seq<char>, c: char) -> Option<(Seq<char>, Seq<char>)> {
    let i = index_of(s, c);
    if i < s.len() {
        Some((s.take(i), s.skip(i + 1)))
    } else {
        None
    }
}

/// The pieces of `s` between occurrences of `c`, each one trimmed.
pub open spec fn split_trimmed_at(s: Seq<char>, c: char) -> Seq<Seq<char>>
    decreases s.len(),
{
    let i = index_of(s, c);
    if 0 <= i < s.len() {
        seq![trimmed(s.take(i))] + split_trimmed_at(s.skip(i + 1), c)
    } else {
        seq![trimmed(s)]
    }
}

/// `s` with every ASCII letter in lower case.
pub open spec fn ascii_lowered(s: Seq<char>) -> Seq<char> {
    s.map_values(|c: char| ascii_lower(c))
}

/// The value of a decimal digit; zero for any other character.
pub open spec fn digit_value(c: char) -> nat {
    if is_digit(c) {
        ((c as u32) - 48) as nat
    } else {
        0
    }
}

/// The number that the decimal digits `s` write.
pub open spec fn digits_value(s: Seq<char>) -> nat
    decreases s.len(),
{
    if s.len() == 0 {
        0
    } else {
        digits_value(s.drop_last()) * 10 + digit_value(s.last())
    }
}

/// Whether `s` holds decimal digits only.
pub open spec fn all_digits(s: Seq<char>) -> bool {
    forall|i: int| 0 <= i < s.len() ==> is_digit(#[trigger] s[i])
}

/// The digits of an unsigned decimal number: `s` without one leading `+`.
pub open spec fn unsigned_digits(s: Seq<char>) -> Seq<char> {
    if s.len() > 0 && s[0] == '+' {
        s.drop_first()
    } else {
        s
    }
}

/// The 64-bit unsigned number that `s` writes in decimal: an optional `+`,
/// then at least one digit and nothing else; none if the number does not fit.
pub open spec fn parsed_u64(s: Seq<char>) -> Option<u64> {
    let body = unsigned_digits(s);
    if body.len() > 0 && all_digits(body) && digits_value(body) <= u64::MAX {
        Some(digits_value(body) as u64)
    } else {
        None
    }
}

/// `s` without one leading sign.
pub open spec fn unsigned_part(s: Seq<char>) -> Seq<char> {
    if s.len() > 0 && (s[0] == '+' || s[0] == '-') {
        s.drop_first()
    } else {
        s
    }
}

/// Digits, a point and digits, with a digit on at least one side of the
/// point; or digits alone.
pub open spec fn is_mantissa(s: Seq<char>) -> bool {
    match split_once_at(s, '.') {
        Some((whole, fraction)) => all_digits(whole) && all_digits(fraction) && whole.len()
            + fraction.len() > 0,
        None => all_digits(s) && s.len() > 0,
    }
}

/// An optional sign and at least one digit.
pub open spec fn is_exponent(s: Seq<char>) -> bool {
    unsigned_part(s).len() > 0 && all_digits(unsigned_part(s))
}

/// A mantissa, followed or not by `e` and an exponent.
pub open spec fn is_decimal_number(s: Seq<char>) -> bool {
    match split_once_at(s, 'e') {
        Some((mantissa, exponent)) => is_mantissa(mantissa) && is_exponent(exponent),
        None => is_mantissa(s),
    }
}

/// Whether `s` writes a floating-point number: an optional sign, then a
/// decimal number or one of the words `inf`, `infinity` and `nan`, letters
/// in either case.
pub open spec fn is_float_text(s: Seq<char>) -> bool {
    let body = ascii_lowered(unsigned_part(s));
    body == "inf"@ || body == "infinity"@ || body == "nan"@ || is_decimal_number(body)
}

/// The character that writes the digit `d`.
pub open spec fn digit_char(d: nat) -> char {
    if d == 0 {
        '0'
    } else if d == 1 {
        '1'
    } else if d == 2 {
        '2'
    } else if d == 3 {
        '3'
    } else if d == 4 {
        '4'
    } else if d == 5 {
        '5'
    } else if d == 6 {
        '6'
    } else if d == 7 {
        '7'
    } else if d == 8 {
        '8'
    } else {
        '9'
    }
}

/// The decimal digits of `n`, without leading zeros.
pub open spec fn decimal_digits(n: nat) -> Seq<char>
    decreases n,
{
    if n < 10 {
        seq![digit_char(n)]
    } else {
        decimal_digits(n / 10).push(digit_char(n % 10))
    }
}

/// Where leading white space ends, `trim_start` begins.
pub proof fn lemma_trim_start(s: Seq<char>, a: int)
    requires
        0 <= a <= s.len(),
        forall|k: int| 0 <= k < a ==> is_whitespace(#[trigger] s[k]),
        a < s.len() ==> !is_whitespace(s[a]),
    ensures
        trim_start(s) == s.skip(a),
    decreases a,
{
    if a == 0 {
        assert(s.skip(0) =~= s);
    } else {
        let t = s.drop_first();
        assert forall|k: int| 0 <= k < a - 1 implies is_whitespace(#[trigger] t[k]) by {
            assert(t[k] == s[k + 1]);
        }
        lemma_trim_start(t, a - 1);
        assert(t.skip(a - 1) =~= s.skip(a));
    }
}

/// Where trailing white space begins, `trim_end` ends.
pub proof fn lemma_trim_end(s: Seq<char>, b: int)
    requires
        0 <= b <= s.len(),
        forall|k: int| b <= k < s.len() ==> is_whitespace(#[trigger] s[k]),
        b > 0 ==> !is_whitespace(s[b - 1]),
    ensures
        trim_end(s) == s.take(b),
    decreases s.len() - b,
{
    if b == s.len() {
        assert(s.take(b) =~= s);
    } else {
        let t = s.drop_last();
        lemma_trim_end(t, b);
        assert(t.take(b) =~= s.take(b));
    }
}

/// The first place at which `c` stands is what `index_of` gives.
pub proof fn lemma_index_of(s: Seq<char>, c: char, i: int)
    requires
        0 <= i <= s.len(),
        forall|k: int| 0 <= k < i ==> #[trigger] s[k] != c,
        i < s.len() ==> s[i] == c,
    ensures
        index_of(s, c) == i,
    decreases i,
{
    if i > 0 {
        let t = s.drop_first();
        assert forall|k: int| 0 <= k < i - 1 implies #[trigger] t[k] != c by {
            assert(t[k] == s[k + 1]);
        }
        lemma_index_of(t, c, i - 1);
    }
}

/// `index_of` lies within the sequence, on the first `c` if there is one.
pub proof fn lemma_index_of_bounds(s: Seq<char>, c: char)
    ensures
        0 <= index_of(s, c) <= s.len(),
        index_of(s, c) < s.len() ==> s[index_of(s, c)] == c,
        forall|k: int| 0 <= k < index_of(s, c) ==> #[trigger] s[k] != c,
    decreases s.len(),
{
    if s.len() > 0 && s[0] != c {
        let t = s.drop_first();
        lemma_index_of_bounds(t, c);
        assert forall|k: int| 0 <= k < index_of(s, c) implies #[trigger] s[k] != c by {
            if k > 0 {
                assert(s[k] == t[k - 1]);
            }
        }
    }
}

/// A longer run of digits writes no smaller a number than its beginning.
pub proof fn lemma_digits_value_grows(s: Seq<char>, k: int)
    requires
        0 <= k <= s.len(),
    ensures
        digits_value(s.take(k)) <= digits_value(s),
    decreases s.len() - k,
{
    if k == s.len() {
        assert(s.take(k) =~= s);
    } else {
        let t = s.drop_last();
        lemma_digits_value_grows(t, k);
        assert(t.take(k) =~= s.take(k));
    }
}

/// Tests a character for being an ASCII hexadecimal digit.
pub fn hex_digit(c: char) -> (r: bool)
    ensures
        r == is_hex_digit(c),
{
    ('0' <= c && c <= '9') || ('a' <= c && c <= 'f') || ('A' <= c && c <= 'F')
}

/// Tests a character for the Unicode property `White_Space`.
pub fn whitespace(c: char) -> (r: bool)
    ensures
        r == is_whitespace(c),
{
    let n: u32 = c as u32;
    (0x09 <= n && n <= 0x0D) || n == 0x20 || n == 0x85 || n == 0xA0 || n == 0x1680 || (0x2000 <= n
        && n <= 0x200A) || n == 0x2028 || n == 0x2029 || n == 0x202F || n == 0x205F || n == 0x3000
}

/// `a` followed by `b`.
pub fn join2(a: &str, b: &str) -> (r: String)
    ensures
        r@ == a@ + b@,
{
    let mut out = String::from_str(a);
    out.append(b);
    out
}

/// `a`, `b` and `c`, one after the other.
pub fn join3(a: &str, b: &str, c: &str) -> (r: String)
    ensures
        r@ == a@ + b@ + c@,
{
    let mut out = String::from_str(a);
    out.append(b);
    out.append(c);
    out
}

/// `a`, `b`, `c` and `d`, one after the other.
pub fn join4(a: &str, b: &str, c: &str, d: &str) -> (r: String)
    ensures
        r@ == a@ + b@ + c@ + d@,
{
    let mut out = String::from_str(a);
    out.append(b);
    out.append(c);
    out.append(d);
    out
}

/// Compares two strings character by character.
pub fn text_eq(a: &str, b: &str) -> (r: bool)
    ensures
        r == (a@ == b@),
{
    a.eq(b)
}

/// Removes leading and trailing white space.
pub fn trim(s: &str) -> (r: &str)
    ensures
        r@ == trimmed(s@),
{
    let n = s.unicode_len();
    let mut start: usize = 0;
    let mut end: usize = 0;
    let mut seen = false;
    let mut i: usize = 0;
    for c in it: s.chars()
        invariant
            it.seq() == s@,
            n == s@.len(),
            i == it.index(),
            i <= n,
            !seen ==> forall|k: int| 0 <= k < i ==> is_whitespace(#[trigger] s@[k]),
            seen ==> 0 <= start < end <= i,
            seen ==> !is_whitespace(s@[start as int]) && !is_whitespace(s@[end - 1]),
            seen ==> forall|k: int| 0 <= k < start ==> is_whitespace(#[trigger] s@[k]),
            seen ==> forall|k: int| end <= k < i ==> is_whitespace(#[trigger] s@[k]),
    {
        if !whitespace(c) {
            if !seen {
                start = i;
                seen = true;
            }
            end = i + 1;
        }
        i = i + 1;
    }
    if seen {
        proof {
            lemma_trim_start(s@, start as int);
            let t = s@.skip(start as int);
            assert forall|k: int| end - start <= k < t.len() implies is_whitespace(
                #[trigger] t[k],
            ) by {
                assert(t[k] == s@[k + start]);
            }
            assert(t[end - start - 1] == s@[end - 1]);
            lemma_trim_end(t, end - start);
            assert(t.take(end - start) =~= s@.subrange(start as int, end as int));
        }
        s.substring_char(start, end)
    } else {
        proof {
            lemma_trim_start(s@, n as int);
            assert(s@.skip(n as int) =~= Seq::<char>::empty());
            assert(s@.subrange(0, 0) =~= Seq::<char>::empty());
        }
        s.substring_char(0, 0)
    }
}

/// Splits a string at the first occurrence of `sep`.
pub fn split_once(s: &str, sep: char) -> (r: Option<(&str, &str)>)
    ensures
        match r {
            Some((left, right)) => split_once_at(s@, sep) == Some((left@, right@)),
            None => split_once_at(s@, sep).is_none(),
        },
{
    let n = s.unicode_len();
    let mut found: Option<usize> = None;
    let mut i: usize = 0;
    for c in it: s.chars()
        invariant
            it.seq() == s@,
            n == s@.len(),
            i == it.index(),
            i <= n,
            match found {
                Some(p) => p < i && s@[p as int] == sep && forall|k: int|
                    0 <= k < p ==> #[trigger] s@[k] != sep,
                None => forall|k: int| 0 <= k < i ==> #[trigger] s@[k] != sep,
            },
    {
        if found.is_none() && c == sep {
            found = Some(i);
        }
        i = i + 1;
    }
    match found {
        Some(p) => {
            proof {
                lemma_index_of(s@, sep, p as int);
                assert(s@.subrange(0, p as int) =~= s@.take(p as int));
                assert(s@.subrange(p + 1, n as int) =~= s@.skip(p + 1));
            }
            Some((s.substring_char(0, p), s.substring_char(p + 1, n)))
        },
        None => {
            proof {
                lemma_index_of(s@, sep, n as int);
            }
            None
        },
    }
}

/// Turns the ASCII letters of a character into lower case.
pub fn lower(c: char) -> (r: char)
    ensures
        r == ascii_lower(c),
{
    if 'A' <= c && c <= 'Z' {
        let n: u8 = c as u8;
        (n + 32) as char
    } else {
        c
    }
}

/// A copy of `s` with its ASCII letters in lower case.
pub fn to_ascii_lowercase(s: &str) -> (r: String)
    ensures
        r@ == ascii_lowered(s@),
{
    let mut out = String::new();
    for c in it: s.chars()
        invariant
            it.seq() == s@,
            out@ == ascii_lowered(s@.take(it.index() as int)),
    {
        proof {
            let k = it.index() as int;
            assert(ascii_lowered(s@.take(k + 1)) =~= ascii_lowered(s@.take(k)).push(
                ascii_lower(s@[k]),
            ));
        }
        out.push(lower(c));
    }
    proof {
        assert(s@.take(s@.len() as int) =~= s@);
    }
    out
}

/// Compares two strings without regard to the case of ASCII letters.
pub fn eq_ignore_ascii_case(a: &str, b: &str) -> (r: bool)
    ensures
        r == (ascii_lowered(a@) == ascii_lowered(b@)),
{
    to_ascii_lowercase(a) == to_ascii_lowercase(b)
}

/// Reads an unsigned decimal number of 64 bits.
pub fn parse_u64(s: &str) -> (r: Option<u64>)
    ensures
        r == parsed_u64(s@),
{
    let mut acc: u64 = 0;
    let mut digits: usize = 0;
    let mut signed = false;
    let mut i: usize = 0;
    let n = s.unicode_len();
    for c in it: s.chars()
        invariant
            it.seq() == s@,
            n == s@.len(),
            i == it.index(),
            i <= n,
            signed == (i > 0 && s@[0] == '+'),
            digits == i - (if signed { 1int } else { 0int }),
            all_digits(unsigned_digits(s@).take(digits as int)),
            acc == digits_value(unsigned_digits(s@).take(digits as int)),
    {
        let ghost body = unsigned_digits(s@);
        if i == 0 && c == '+' {
            signed = true;
            proof {
                assert(body.take(0) =~= Seq::<char>::empty());
            }
        } else {
            proof {
                assert(body[digits as int] == c);
                assert(body.take(digits + 1).drop_last() =~= body.take(digits as int));
                assert(body.take(digits + 1).last() == c);
            }
            if !('0' <= c && c <= '9') {
                proof {
                    assert(!is_digit(body[digits as int]));
                }
                return None;
            }
            let d: u64 = ((c as u32) - 48) as u64;
            let next = match acc.checked_mul(10) {
                Some(m) => m.checked_add(d),
                None => None,
            };
            match next {
                Some(v) => {
                    acc = v;
                },
                None => {
                    proof {
                        lemma_digits_value_grows(body, digits + 1);
                    }
                    return None;
                },
            }
            proof {
                assert forall|k: int| 0 <= k < digits + 1 implies is_digit(
                    #[trigger] body.take(digits + 1)[k],
                ) by {
                    if k < digits {
                        assert(body.take(digits as int)[k] == body.take(digits + 1)[k]);
                    }
                }
            }
            digits = digits + 1;
        }
        i = i + 1;
    }
    proof {
        let body = unsigned_digits(s@);
        assert(body.take(digits as int) =~= body);
    }
    if digits == 0 {
        None
    } else {
        Some(acc)
    }
}

/// The character that writes a digit.
fn digit(d: u64) -> (r: char)
    requires
        d < 10,
    ensures
        r == digit_char(d as nat),
{
    if d == 0 {
        '0'
    } else if d == 1 {
        '1'
    } else if d == 2 {
        '2'
    } else if d == 3 {
        '3'
    } else if d == 4 {
        '4'
    } else if d == 5 {
        '5'
    } else if d == 6 {
        '6'
    } else if d == 7 {
        '7'
    } else if d == 8 {
        '8'
    } else {
        '9'
    }
}

/// Appends the decimal digits of `n` to `out`.
pub fn push_decimal(out: &mut String, n: u64)
    ensures
        final(out)@ == old(out)@ + decimal_digits(n as nat),
    decreases n,
{
    if n >= 10 {
        push_decimal(out, n / 10);
    }
    out.push(digit(n % 10));
    proof {
        if n < 10 {
            assert(old(out)@.push(digit_char(n as nat)) =~= old(out)@ + decimal_digits(n as nat));
        } else {
            assert((old(out)@ + decimal_digits((n / 10) as nat)).push(digit_char((n % 10) as nat))
                =~= old(out)@ + decimal_digits(n as nat));
        }
    }
}

/// The decimal digits of `n` as a string.
pub fn decimal_text(n: u64) -> (r: String)
    ensures
        r@ == decimal_digits(n as nat),
{
    let mut out = String::new();
    push_decimal(&mut out, n);
    proof {
        assert(Seq::<char>::empty() + decimal_digits(n as nat) =~= decimal_digits(n as nat));
    }
    out
}

/// Splits a string at every `sep` and trims each piece.
pub fn split_trimmed(s: &str, sep: char) -> (r: Vec<String>)
    ensures
        r@.len() == split_trimmed_at(s@, sep).len(),
        forall|i: int| 0 <= i < r@.len() ==> (#[trigger] r@[i])@ == split_trimmed_at(s@, sep)[i],
{
    let mut out: Vec<String> = Vec::new();
    let mut rest: &str = s;
    let mut open = true;
    let ghost mut done: Seq<Seq<char>> = Seq::empty();
    while open
        invariant
            out@.len() == done.len(),
            forall|i: int| 0 <= i < out@.len() ==> (#[trigger] out@[i])@ == done[i],
            open ==> done + split_trimmed_at(rest@, sep) == split_trimmed_at(s@, sep),
            !open ==> done == split_trimmed_at(s@, sep),
        decreases (if open { 1int } else { 0int }), rest@.len(),
    {
        proof {
            lemma_index_of_bounds(rest@, sep);
        }
        match split_once(rest, sep) {
            Some((left, right)) => {
                out.push(trim(left).to_owned());
                proof {
                    assert((done + seq![trimmed(left@)]) + split_trimmed_at(right@, sep) =~= done
                        + split_trimmed_at(rest@, sep));
                    done = done + seq![trimmed(left@)];
                }
                rest = right;
            },
            None => {
                out.push(trim(rest).to_owned());
                proof {
                    done = done + seq![trimmed(rest@)];
                }
                open = false;
            },
        }
    }
    out
}

/// Tests a string for holding decimal digits only.
pub fn only_digits(s: &str) -> (r: bool)
    ensures
        r == all_digits(s@),
{
    for c in it: s.chars()
        invariant
            it.seq() == s@,
            all_digits(s@.take(it.index() as int)),
    {
        if !('0' <= c && c <= '9') {
            return false;
        }
        proof {
            let k = it.index() as int;
            assert forall|j: int| 0 <= j < k + 1 implies is_digit(#[trigger] s@.take(k + 1)[j]) by {
                if j < k {
                    assert(s@.take(k)[j] == s@.take(k + 1)[j]);
                }
            }
        }
    }
    proof {
        assert(s@.take(s@.len() as int) =~= s@);
    }
    true
}

/// `s` without one leading sign.
pub fn strip_sign(s: &str) -> (r: &str)
    ensures
        r@ == unsigned_part(s@),
{
    let n = s.unicode_len();
    if n > 0 {
        let c = s.get_char(0);
        if c == '+' || c == '-' {
            proof {
                assert(s@.subrange(1, n as int) =~= s@.drop_first());
            }
            return s.substring_char(1, n);
        }
    }
    s
}

fn mantissa(s: &str) -> (r: bool)
    ensures
        r == is_mantissa(s@),
{
    match split_once(s, '.') {
        Some((whole, fraction)) => {
            let a = whole.unicode_len();
            let b = fraction.unicode_len();
            only_digits(whole) && only_digits(fraction) && (a > 0 || b > 0)
        },
        None => only_digits(s) && s.unicode_len() > 0,
    }
}

fn exponent(s: &str) -> (r: bool)
    ensures
        r == is_exponent(s@),
{
    let digits = strip_sign(s);
    digits.unicode_len() > 0 && only_digits(digits)
}

fn decimal_number(s: &str) -> (r: bool)
    ensures
        r == is_decimal_number(s@),
{
    match split_once(s, 'e') {
        Some((m, x)) => mantissa(m) && exponent(x),
        None => mantissa(s),
    }
}

/// Tests a string for writing a floating-point number.
pub fn float_text(s: &str) -> (r: bool)
    ensures
        r == is_float_text(s@),
{
    let body = to_ascii_lowercase(strip_sign(s));
    text_eq(body.as_str(), "inf") || text_eq(body.as_str(), "infinity") || text_eq(
        body.as_str(),
        "nan",
    ) || decimal_number(body.as_str())
}

} // verus!
