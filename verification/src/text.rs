//! Small verified helpers over text: comparison, whitespace, decimal rendering.

use vstd::prelude::*;
use vstd::string::*;

verus! {

/// Content equality of two string slices.
pub fn str_eq(a: &str, b: &str) -> (same: bool)
    ensures
        same == (a@ == b@),
{
    let left: String = a.to_owned();
    let right: String = b.to_owned();
    left == right
}

/// The characters that Unicode gives the `White_Space` property.
pub open spec fn is_whitespace(c: char) -> bool {
    let code = c as u32;
    ||| (0x09 <= code <= 0x0D)
    ||| code == 0x20
    ||| code == 0x85
    ||| code == 0xA0
    ||| code == 0x1680
    ||| (0x2000 <= code <= 0x200A)
    ||| code == 0x2028
    ||| code == 0x2029
    ||| code == 0x202F
    ||| code == 0x205F
    ||| code == 0x3000
}

/// Whether Unicode counts the character as whitespace.
pub fn char_is_whitespace(c: char) -> (white: bool)
    ensures
        white == is_whitespace(c),
{
    let code: u32 = c as u32;
    (0x09 <= code && code <= 0x0D) || code == 0x20 || code == 0x85 || code == 0xA0 || code
        == 0x1680 || (0x2000 <= code && code <= 0x200A) || code == 0x2028 || code == 0x2029 || code
        == 0x202F || code == 0x205F || code == 0x3000
}

/// A text is blank when it holds nothing but whitespace; the empty text is blank.
pub open spec fn is_blank(s: Seq<char>) -> bool {
    forall|i: int| 0 <= i < s.len() ==> is_whitespace(#[trigger] s[i])
}

/// A text with one more character is blank when both are.
pub proof fn lemma_blank_push(s: Seq<char>, c: char)
    ensures
        is_blank(s.push(c)) == (is_blank(s) && is_whitespace(c)),
{
    let t = s.push(c);
    if is_blank(t) {
        assert(t[s.len() as int] == c);
        assert forall|i: int| 0 <= i < s.len() implies is_whitespace(#[trigger] s[i]) by {
            assert(t[i] == s[i]);
        }
    }
    if is_blank(s) && is_whitespace(c) {
        assert forall|i: int| 0 <= i < t.len() implies is_whitespace(#[trigger] t[i]) by {
            if i < s.len() {
                assert(t[i] == s[i]);
            }
        }
    }
}

/// Whether the text holds nothing but whitespace.
pub fn str_is_blank(s: &str) -> (blank: bool)
    ensures
        blank == is_blank(s@),
{
    broadcast use vstd::string::group_string_axioms;

    let mut blank: bool = true;
    for c in it: s.chars()
        invariant
            it.seq() == s@,
            blank == is_blank(s@.take(it.index())),
    {
        proof {
            assert(s@.take(it.index() + 1) == s@.take(it.index()).push(c));
            lemma_blank_push(s@.take(it.index()), c);
        }
        blank = blank && char_is_whitespace(c);
    }
    assert(s@.take(s@.len() as int) == s@);
    blank
}

/// The value of the first pair whose key is `key`, if there is one.
pub open spec fn first_value<V>(pairs: Seq<(Seq<char>, V)>, key: Seq<char>) -> Option<V>
    decreases pairs.len(),
{
    if pairs.len() == 0 {
        None
    } else if pairs[0].0 == key {
        Some(pairs[0].1)
    } else {
        first_value(pairs.drop_first(), key)
    }
}

/// Pairs whose keys differ from `key` may be skipped at the front.
pub proof fn lemma_first_value_suffix<V>(pairs: Seq<(Seq<char>, V)>, key: Seq<char>, i: int)
    requires
        0 <= i <= pairs.len(),
        forall|j: int| 0 <= j < i ==> (#[trigger] pairs[j]).0 != key,
    ensures
        first_value(pairs, key) == first_value(pairs.subrange(i, pairs.len() as int), key),
    decreases i,
{
    if i == 0 {
        assert(pairs.subrange(0, pairs.len() as int) == pairs);
    } else {
        lemma_first_value_suffix(pairs, key, i - 1);
        let prev = pairs.subrange(i - 1, pairs.len() as int);
        assert(prev[0] == pairs[i - 1]);
        assert(prev.drop_first() == pairs.subrange(i, pairs.len() as int));
    }
}

/// A pair found at `i`, with no earlier pair of that key, is the first value.
pub proof fn lemma_first_value_at<V>(pairs: Seq<(Seq<char>, V)>, key: Seq<char>, i: int)
    requires
        0 <= i < pairs.len(),
        pairs[i].0 == key,
        forall|j: int| 0 <= j < i ==> (#[trigger] pairs[j]).0 != key,
    ensures
        first_value(pairs, key) == Some(pairs[i].1),
{
    lemma_first_value_suffix(pairs, key, i);
    let rest = pairs.subrange(i, pairs.len() as int);
    assert(rest.len() > 0);
    assert(rest[0] == pairs[i]);
}

/// Where no pair has the key, there is no first value.
pub proof fn lemma_first_value_none<V>(pairs: Seq<(Seq<char>, V)>, key: Seq<char>)
    requires
        forall|j: int| 0 <= j < pairs.len() ==> (#[trigger] pairs[j]).0 != key,
    ensures
        first_value(pairs, key) is None,
{
    lemma_first_value_suffix(pairs, key, pairs.len() as int);
}

/// The views of a list of text pairs.
pub open spec fn text_pairs(pairs: Seq<(String, String)>) -> Seq<(Seq<char>, Seq<char>)> {
    Seq::new(pairs.len(), |i: int| (pairs[i].0@, pairs[i].1@))
}

/// The value of the first pair named `key`.
pub fn find_text<'a>(pairs: &'a Vec<(String, String)>, key: &str) -> (r: Option<&'a String>)
    ensures
        match r {
            Some(v) => first_value(text_pairs(pairs@), key@) == Some(v@),
            None => first_value(text_pairs(pairs@), key@) is None,
        },
{
    let ghost all = text_pairs(pairs@);
    let mut i: usize = 0;
    while i < pairs.len()
        invariant
            i <= pairs.len(),
            all == text_pairs(pairs@),
            forall|j: int| 0 <= j < i ==> (#[trigger] all[j]).0 != key@,
        decreases pairs.len() - i,
    {
        if str_eq(pairs[i].0.as_str(), key) {
            proof {
                lemma_first_value_at(all, key@, i as int);
            }
            return Some(&pairs[i].1);
        }
        i += 1;
    }
    proof {
        lemma_first_value_none(all, key@);
    }
    None
}

/// A copy of a list of text pairs.
pub fn clone_pairs(pairs: &Vec<(String, String)>) -> (copy: Vec<(String, String)>)
    ensures
        text_pairs(copy@) == text_pairs(pairs@),
{
    let mut copy: Vec<(String, String)> = Vec::new();
    let mut i: usize = 0;
    while i < pairs.len()
        invariant
            i <= pairs.len(),
            copy@.len() == i,
            forall|j: int|
                0 <= j < i ==> (#[trigger] copy@[j]).0@ == pairs@[j].0@ && copy@[j].1@
                    == pairs@[j].1@,
        decreases pairs.len() - i,
    {
        copy.push((pairs[i].0.clone(), pairs[i].1.clone()));
        i += 1;
    }
    assert(text_pairs(copy@) =~= text_pairs(pairs@));
    copy
}

/// Whether `char::is_alphanumeric` holds of a character: whether Unicode
/// counts it among the letters and numbers.
pub uninterp spec fn alphanumeric(c: char) -> bool;

/// `char::is_alphanumeric`. The contract only names the outcome.
pub assume_specification[ char::is_alphanumeric ](c: char) -> (r: bool)
    ensures
        r == alphanumeric(c),
;

/// The text of an optional text.
pub open spec fn opt_text(o: Option<String>) -> Option<Seq<char>> {
    match o {
        Some(s) => Some(s@),
        None => None,
    }
}

/// The pairs of an optional list of text pairs.
pub open spec fn opt_pairs(o: Option<Vec<(String, String)>>) -> Option<Seq<(Seq<char>, Seq<char>)>> {
    match o {
        Some(pairs) => Some(text_pairs(pairs@)),
        None => None,
    }
}

/// A copy of an optional text.
pub fn clone_opt_text(o: &Option<String>) -> (copy: Option<String>)
    ensures
        opt_text(copy) == opt_text(*o),
{
    match o {
        Some(s) => Some(s.clone()),
        None => None,
    }
}

/// `String::push`: appends one character to the end of the text.
pub assume_specification[ String::push ](s: &mut String, c: char)
    ensures
        final(s)@ == old(s)@.push(c),
;

/// The character of the decimal digit `d`.
pub open spec fn digit_char(d: nat) -> char {
    ((48 + d) as u8) as char
}

/// The decimal digits of `n`, most significant first, without leading zeros.
pub open spec fn decimal(n: nat) -> Seq<char>
    decreases n,
{
    if n < 10 {
        seq![digit_char(n)]
    } else {
        decimal(n / 10).push(digit_char(n % 10))
    }
}

/// Appends the decimal digits of `n` to `out`.
pub fn push_decimal(out: &mut String, n: u64)
    ensures
        final(out)@ == old(out)@ + decimal(n as nat),
    decreases n,
{
    if n >= 10 {
        push_decimal(out, n / 10);
    }
    let d: u8 = (n % 10) as u8;
    let c: char = (48u8 + d) as char;
    out.push(c);
    proof {
        if n >= 10 {
            assert(old(out)@ + decimal((n / 10) as nat).push(c) == (old(out)@ + decimal(
                (n / 10) as nat,
            )).push(c));
        } else {
            assert(old(out)@ + seq![c] == old(out)@.push(c));
        }
    }
}

/// The decimal text of `n`.
pub fn u64_to_decimal(n: u64) -> (text: String)
    ensures
        text@ == decimal(n as nat),
{
    let mut text = String::new();
    push_decimal(&mut text, n);
    assert(Seq::<char>::empty() + decimal(n as nat) == decimal(n as nat));
    text
}

} // verus!
