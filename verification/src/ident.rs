//! Resource identifiers: 32 hexadecimal digits, written in five groups.

use vstd::prelude::*;
use vstd::string::StringExecFns;
use crate::error::Error;
use crate::text::{hex_digit, is_hex_digit};

verus! {

/// The hexadecimal digits of `s`, in their order; every other character is
/// left out.
pub open spec fn hex_digits_of(s: Seq<char>) -> Seq<char> {
    s.filter(|c: char| is_hex_digit(c))
}

/// Thirty-two digits in groups of 8, 4, 4, 4 and 12, with a dash between.
pub open spec fn dashed(h: Seq<char>) -> Seq<char> {
    h.subrange(0, 8) + seq!['-'] + h.subrange(8, 12) + seq!['-'] + h.subrange(12, 16) + seq!['-']
        + h.subrange(16, 20) + seq!['-'] + h.subrange(20, 32)
}

/// The canonical form of the identifier that `s` writes, where it writes one.
pub open spec fn normalized_id(s: Seq<char>) -> Option<Seq<char>> {
    let h = hex_digits_of(s);
    if h.len() == 32 {
        Some(dashed(h))
    } else {
        None
    }
}

/// Whether `e` is the error that reports `id` as no identifier.
pub open spec fn is_invalid_id(e: Error, id: Seq<char>) -> bool {
    &&& normalized_id(id).is_none()
    &&& e matches Error::InvalidIdentifier { input, stripped_len }
    &&& input@ == id
    &&& stripped_len == hex_digits_of(id).len()
}

/// Filtering keeps a sequence whose every element passes.
proof fn lemma_filter_keeps_all(s: Seq<char>)
    requires
        forall|i: int| 0 <= i < s.len() ==> is_hex_digit(#[trigger] s[i]),
    ensures
        hex_digits_of(s) == s,
    decreases s.len(),
{
    reveal(Seq::filter);
    if s.len() > 0 {
        lemma_filter_keeps_all(s.drop_last());
        assert(s.drop_last().push(s.last()) =~= s);
    }
}

/// A text with 32 hexadecimal digits or more is an identifier only if it has
/// exactly 32.
pub proof fn lemma_wrong_count_is_rejected(s: Seq<char>)
    requires
        hex_digits_of(s).len() >= 32,
        hex_digits_of(s).len() != 32,
    ensures
        normalized_id(s).is_none(),
{
}

/// The canonical form of an identifier is its own canonical form.
pub proof fn lemma_dashed_is_canonical(h: Seq<char>)
    requires
        h.len() == 32,
        forall|i: int| 0 <= i < h.len() ==> is_hex_digit(#[trigger] h[i]),
    ensures
        normalized_id(dashed(h)) == Some(dashed(h)),
{
    let pred = |c: char| is_hex_digit(c);
    let dash = seq!['-'];
    let a = h.subrange(0, 8);
    let b = h.subrange(8, 12);
    let c = h.subrange(12, 16);
    let d = h.subrange(16, 20);
    let e = h.subrange(20, 32);
    lemma_filter_keeps_all(a);
    lemma_filter_keeps_all(b);
    lemma_filter_keeps_all(c);
    lemma_filter_keeps_all(d);
    lemma_filter_keeps_all(e);
    assert(dash.filter(pred) =~= Seq::<char>::empty()) by {
        reveal(Seq::filter);
        assert(dash.drop_last() =~= Seq::<char>::empty());
        assert(!pred(dash.last()));
    }
    Seq::filter_distributes_over_add(a, dash, pred);
    Seq::filter_distributes_over_add(a + dash, b, pred);
    Seq::filter_distributes_over_add(a + dash + b, dash, pred);
    Seq::filter_distributes_over_add(a + dash + b + dash, c, pred);
    Seq::filter_distributes_over_add(a + dash + b + dash + c, dash, pred);
    Seq::filter_distributes_over_add(a + dash + b + dash + c + dash, d, pred);
    Seq::filter_distributes_over_add(a + dash + b + dash + c + dash + d, dash, pred);
    Seq::filter_distributes_over_add(a + dash + b + dash + c + dash + d + dash, e, pred);
    assert(hex_digits_of(dashed(h)) =~= h);
}

/// Normalizing twice gives what normalizing once gives.
pub proof fn lemma_normalize_idempotent(s: Seq<char>)
    requires
        normalized_id(s).is_some(),
    ensures
        normalized_id(normalized_id(s).unwrap()) == normalized_id(s),
{
    let h = hex_digits_of(s);
    assert forall|i: int| 0 <= i < h.len() implies is_hex_digit(#[trigger] h[i]) by {
        s.lemma_filter_pred(|c: char| is_hex_digit(c), i);
    }
    lemma_dashed_is_canonical(h);
}

/// Brings a page, block or database identifier into its canonical form.
///
/// Every character that is not a hexadecimal digit is dropped. Exactly 32
/// digits must remain; they are returned in groups of 8, 4, 4, 4 and 12.
pub fn normalize_page_id(id: &str) -> (r: Result<String, Error>)
    ensures
        match r {
            Ok(canonical) => normalized_id(id@) == Some(canonical@),
            Err(e) => is_invalid_id(e, id@),
        },
{
    let total = id.unicode_len();
    let mut clean = String::new();
    let mut count: usize = 0;
    for c in it: id.chars()
        invariant
            it.seq() == id@,
            total == id@.len(),
            clean@ == hex_digits_of(id@.take(it.index() as int)),
            count == clean@.len(),
            count <= it.index(),
    {
        proof {
            let k = it.index() as int;
            assert(id@.take(k + 1) =~= id@.take(k).push(id@[k]));
            id@.take(k).lemma_filter_push(id@[k], |c: char| is_hex_digit(c));
        }
        if hex_digit(c) {
            clean.push(c);
            count = count + 1;
        }
    }
    proof {
        assert(id@.take(id@.len() as int) =~= id@);
    }
    if count != 32 {
        return Err(Error::InvalidIdentifier { input: id.to_owned(), stripped_len: count });
    }
    let digits = clean.as_str();
    let mut out = String::new();
    out.append(digits.substring_char(0, 8));
    out.push('-');
    out.append(digits.substring_char(8, 12));
    out.push('-');
    out.append(digits.substring_char(12, 16));
    out.push('-');
    out.append(digits.substring_char(16, 20));
    out.push('-');
    out.append(digits.substring_char(20, 32));
    proof {
        assert(out@ =~= dashed(clean@));
    }
    Ok(out)
}

} // verus!
