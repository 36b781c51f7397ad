//! The program reader, proved to follow [`crate::grammar`].
use vstd::prelude::*;

use crate::atom::{JkList, JkProgram, Value};
use crate::error::{Fault, JkError};
use crate::grammar::{
    all_digits, digits_value, integer_value, is_delim, is_digit, is_false_text, is_float_text,
    is_integer_text, is_space, is_true_text, parse_item, parse_items, parse_text, string_end,
    token_end, token_value, unsigned_part,
};

verus! {

/// The program reader: turns text into the atoms it denotes.
pub struct JkParser;

proof fn lemma_digits_step(t: Seq<char>, k: int)
    requires
        0 <= k < t.len(),
    ensures
        digits_value(t.take(k + 1)) == digits_value(t.take(k)) * 10 + (t[k] as int - '0' as int),
{
    assert(t.take(k + 1).drop_last() =~= t.take(k));
}

proof fn lemma_digits_grow(t: Seq<char>, k: int)
    requires
        all_digits(t),
        0 <= k <= t.len(),
    ensures
        0 <= digits_value(t.take(k)) <= digits_value(t),
    decreases t.len() - k,
{
    if k == t.len() {
        assert(t.take(k) =~= t);
        lemma_digits_nonneg(t);
    } else {
        lemma_digits_grow(t, k + 1);
        lemma_digits_step(t, k);
        lemma_digits_nonneg(t.take(k));
    }
}

proof fn lemma_digits_nonneg(t: Seq<char>)
    requires
        all_digits(t),
    ensures
        0 <= digits_value(t),
    decreases t.len(),
{
    if t.len() > 0 {
        assert(is_digit(t[t.len() - 1]));
        lemma_digits_nonneg(t.drop_last());
    }
}

proof fn lemma_token_end_after(s: Seq<char>, i: int)
    ensures
        token_end(s, i) >= i,
    decreases s.len() - i,
{
    if 0 <= i < s.len() && !is_delim(s[i]) {
        lemma_token_end_after(s, i + 1);
    }
}

/// The characters of `text`, one by one.
fn chars_of(text: &str) -> (r: Vec<char>)
    ensures
        r@ == text@,
{
    let n = text.unicode_len();
    let mut r: Vec<char> = Vec::new();
    let mut i: usize = 0;
    while i < n
        invariant
            n == text@.len(),
            i <= n,
            r@ == text@.take(i as int),
        decreases n - i,
    {
        r.push(text.get_char(i));
        i = i + 1;
        assert(r@ =~= text@.take(i as int));
    }
    assert(r@ =~= text@);
    r
}

fn is_space_char(c: char) -> (r: bool)
    ensures
        r == is_space(c),
{
    c == ' ' || c == '\t' || c == '\n' || c == '\r'
}

fn is_delim_char(c: char) -> (r: bool)
    ensures
        r == is_delim(c),
{
    is_space_char(c) || c == '[' || c == ']' || c == '"'
}

fn is_digit_char(c: char) -> (r: bool)
    ensures
        r == is_digit(c),
{
    '0' <= c && c <= '9'
}

/// The end of the bare token that starts at `i`.
fn scan_token(chars: &Vec<char>, i: usize) -> (e: usize)
    requires
        i <= chars@.len(),
    ensures
        e as int == token_end(chars@, i as int),
        i <= e <= chars@.len(),
{
    let mut k = i;
    while k < chars.len() && !is_delim_char(chars[k])
        invariant
            i <= k <= chars@.len(),
            token_end(chars@, k as int) == token_end(chars@, i as int),
        decreases chars@.len() - k,
    {
        k = k + 1;
    }
    k
}

/// The position of the quote that closes a string whose text starts at `i`.
fn scan_string(chars: &Vec<char>, i: usize) -> (r: Option<usize>)
    requires
        i <= chars@.len(),
    ensures
        match string_end(chars@, i as int) {
            Some(e) => r == Some(e as usize) && i <= e < chars@.len(),
            None => r is None,
        },
{
    let mut k = i;
    while k < chars.len()
        invariant
            i <= k,
            string_end(chars@, k as int) == string_end(chars@, i as int),
            k > chars@.len() ==> string_end(chars@, k as int) is None,
        decreases chars@.len() + 1 - k,
    {
        if chars[k] == '"' {
            return Some(k);
        } else if chars[k] == '\\' {
            if k + 1 >= chars.len() {
                return None;
            }
            k = k + 2;
        } else {
            k = k + 1;
        }
    }
    None
}

/// The value of the integer token `chars[i..e]`, if it fits in 64 bits.
fn integer_token(chars: &Vec<char>, i: usize, e: usize) -> (r: Option<i64>)
    requires
        i < e <= chars@.len(),
        is_integer_text(chars@.subrange(i as int, e as int)),
    ensures
        ({
            let v = integer_value(chars@.subrange(i as int, e as int));
            if i64::MIN <= v <= i64::MAX {
                r == Some(v as i64)
            } else {
                r is None
            }
        }),
{
    let ghost t = chars@.subrange(i as int, e as int);
    let negative = chars[i] == '-';
    let start = if negative {
        i + 1
    } else {
        i
    };
    let ghost u = chars@.subrange(start as int, e as int);
    assert(u =~= unsigned_part(t));
    let ghost v = integer_value(t);
    assert(v == if negative {
        -digits_value(u)
    } else {
        digits_value(u)
    });
    let mut acc: i64 = 0;
    let mut k = start;
    assert(u.take(0) =~= Seq::<char>::empty());
    while k < e
        invariant
            start <= k <= e,
            e <= chars@.len(),
            u == chars@.subrange(start as int, e as int),
            all_digits(u),
            v == integer_value(chars@.subrange(i as int, e as int)),
            v == if negative {
                -digits_value(u)
            } else {
                digits_value(u)
            },
            acc == if negative {
                -digits_value(u.take(k - start))
            } else {
                digits_value(u.take(k - start))
            },
        decreases e - k,
    {
        let c = chars[k];
        assert(c == u[k - start]);
        assert(is_digit(c));
        let d = (c as u32 - '0' as u32) as i64;
        proof {
            lemma_digits_step(u, k - start);
            lemma_digits_grow(u, k - start + 1);
            lemma_digits_nonneg(u.take(k - start));
        }
        let ghost p = digits_value(u.take(k - start));
        let ghost q = digits_value(u.take(k - start + 1));
        assert(q == p * 10 + d);
        assert(0 <= p && q <= digits_value(u));
        let m = match acc.checked_mul(10) {
            Some(m) => m,
            None => {
                assert(v < i64::MIN || v > i64::MAX);
                return None;
            },
        };
        let next = if negative {
            m.checked_sub(d)
        } else {
            m.checked_add(d)
        };
        match next {
            Some(n) => acc = n,
            None => {
                assert(v < i64::MIN || v > i64::MAX);
                return None;
            },
        }
        k = k + 1;
    }
    assert(u.take(e - start) =~= u);
    Some(acc)
}

/// Whether `chars[a..b]` are all decimal digits.
fn digits_between(chars: &Vec<char>, a: usize, b: usize) -> (r: bool)
    requires
        a <= b <= chars@.len(),
    ensures
        r == all_digits(chars@.subrange(a as int, b as int)),
{
    let mut k = a;
    while k < b
        invariant
            a <= k <= b,
            b <= chars@.len(),
            all_digits(chars@.subrange(a as int, k as int)),
        decreases b - k,
    {
        if !is_digit_char(chars[k]) {
            assert(chars@.subrange(a as int, b as int)[k - a] == chars@[k as int]);
            return false;
        }
        k = k + 1;
        assert forall|j: int| 0 <= j < k - a implies is_digit(
            #[trigger] chars@.subrange(a as int, k as int)[j],
        ) by {
            if j < k - 1 - a {
                assert(chars@.subrange(a as int, k - 1)[j] == chars@.subrange(a as int, k as int)[j]);
            }
        }
    }
    true
}

/// Where the unsigned part of the token `chars[i..e]` starts.
fn unsigned_start(chars: &Vec<char>, i: usize, e: usize) -> (r: usize)
    requires
        i < e <= chars@.len(),
    ensures
        i <= r <= e,
        chars@.subrange(r as int, e as int) == unsigned_part(chars@.subrange(i as int, e as int)),
{
    if chars[i] == '-' {
        assert(chars@.subrange(i + 1, e as int) =~= chars@.subrange(i as int, e as int).drop_first());
        i + 1
    } else {
        i
    }
}

fn integer_text(chars: &Vec<char>, i: usize, e: usize) -> (r: bool)
    requires
        i < e <= chars@.len(),
    ensures
        r == is_integer_text(chars@.subrange(i as int, e as int)),
{
    let start = unsigned_start(chars, i, e);
    start < e && digits_between(chars, start, e)
}

fn float_text(chars: &Vec<char>, i: usize, e: usize) -> (r: bool)
    requires
        i < e <= chars@.len(),
    ensures
        r == is_float_text(chars@.subrange(i as int, e as int)),
{
    let ghost t = chars@.subrange(i as int, e as int);
    let start = unsigned_start(chars, i, e);
    let ghost u = unsigned_part(t);
    let mut p = start;
    while p < e && is_digit_char(chars[p])
        invariant
            start <= p <= e,
            e <= chars@.len(),
            u == chars@.subrange(start as int, e as int),
            forall|j: int| 0 <= j < p - start ==> is_digit(#[trigger] u[j]),
        decreases e - p,
    {
        p = p + 1;
    }
    let ok = p > start && p < e - 1 && chars[p] == '.' && digits_between(chars, p + 1, e);
    proof {
        let q = p - start;
        if ok {
            assert(u.take(q) =~= chars@.subrange(start as int, p as int));
            assert(u.skip(q + 1) =~= chars@.subrange(p + 1, e as int));
            assert(u[q] == '.');
            assert(all_digits(u.take(q)));
        } else if is_float_text(t) {
            let w = choose|w: int|
                0 < w < u.len() - 1 && u[w] == '.' && all_digits(u.take(w)) && all_digits(
                    #[trigger] u.skip(w + 1),
                );
            if w < q {
                assert(is_digit(u[w]));
            } else if w > q {
                assert(u.take(w)[q] == u[q]);
                if p < e {
                    assert(!is_digit(u[q]));
                }
            } else {
                assert(u.skip(w + 1) =~= chars@.subrange(p + 1, e as int));
            }
        }
    }
    ok
}

fn true_text(chars: &Vec<char>, i: usize, e: usize) -> (r: bool)
    requires
        i < e <= chars@.len(),
    ensures
        r == is_true_text(chars@.subrange(i as int, e as int)),
{
    e - i == 4 && chars[i] == 't' && chars[i + 1] == 'r' && chars[i + 2] == 'u' && chars[i + 3]
        == 'e'
}

fn false_text(chars: &Vec<char>, i: usize, e: usize) -> (r: bool)
    requires
        i < e <= chars@.len(),
    ensures
        r == is_false_text(chars@.subrange(i as int, e as int)),
{
    e - i == 5 && chars[i] == 'f' && chars[i + 1] == 'a' && chars[i + 2] == 'l' && chars[i + 3]
        == 's' && chars[i + 4] == 'e'
}

/// The atom that the bare token `chars[i..e]` denotes.
fn token_atom(text: &str, chars: &Vec<char>, i: usize, e: usize) -> (r: Result<JkProgram, JkError>)
    requires
        text@ == chars@,
        i < e <= chars@.len(),
    ensures
        match token_value(chars@.subrange(i as int, e as int)) {
            Some(v) => r is Ok && r->Ok_0@ == v,
            None => r is Err && r->Err_0@ == Fault::ParseError,
        },
{
    if integer_text(chars, i, e) {
        match integer_token(chars, i, e) {
            Some(n) => Ok(JkProgram::JkInt(n)),
            None => Err(JkError::ParseError),
        }
    } else if float_text(chars, i, e) {
        Ok(JkProgram::JkFloat(String::from_str(text.substring_char(i, e))))
    } else if true_text(chars, i, e) {
        Ok(JkProgram::JkBool(true))
    } else if false_text(chars, i, e) {
        Ok(JkProgram::JkBool(false))
    } else {
        Ok(JkProgram::JkWord(String::from_str(text.substring_char(i, e))))
    }
}

/// The answer of [`parse_items`] with `acc` before the atoms it gives.
spec fn prefixed(acc: Seq<Value>, r: Option<(Seq<Value>, int)>) -> Option<(Seq<Value>, int)> {
    match r {
        Some((vs, e)) => Some((acc + vs, e)),
        None => None,
    }
}

/// The atoms from position `i` on, as [`parse_items`] describes them.
fn items(text: &str, chars: &Vec<char>, i: usize, nested: bool) -> (r: Result<(JkList, usize), JkError>)
    requires
        text@ == chars@,
        i <= chars@.len(),
    ensures
        match parse_items(chars@, i as int, nested) {
            Some((vs, e)) => r is Ok && r->Ok_0.0@ == vs && r->Ok_0.1 as int == e,
            None => r is Err && r->Err_0@ == Fault::ParseError,
        },
        r is Ok ==> i <= r->Ok_0.1 <= chars@.len() && (nested ==> i < r->Ok_0.1),
    decreases chars@.len() - i, 1int,
{
    let mut acc = JkList::new();
    let mut k = i;
    assert(acc@ + Seq::<Value>::empty() =~= Seq::<Value>::empty());
    assert forall|vs: Seq<Value>| Seq::<Value>::empty() + vs =~= vs by {}
    loop
        invariant
            i <= k <= chars@.len(),
            text@ == chars@,
            parse_items(chars@, i as int, nested) == prefixed(
                acc@,
                parse_items(chars@, k as int, nested),
            ),
        decreases chars@.len() - k,
    {
        if k == chars.len() {
            if nested {
                return Err(JkError::ParseError);
            } else {
                assert(acc@ + Seq::<Value>::empty() =~= acc@);
                return Ok((acc, k));
            }
        }
        let c = chars[k];
        if is_space_char(c) {
            k = k + 1;
        } else if c == ']' {
            if nested {
                assert(acc@ + Seq::<Value>::empty() =~= acc@);
                return Ok((acc, k + 1));
            } else {
                return Err(JkError::ParseError);
            }
        } else {
            let (v, e) = item(text, chars, k)?;
            proof {
                match parse_items(chars@, e as int, nested) {
                    Some((vs, f)) => {
                        assert(acc@.push(v@) + vs =~= acc@ + (seq![v@] + vs));
                    },
                    None => {},
                }
            }
            acc.push_back(v);
            k = e;
        }
    }
}

/// The one atom at position `k`, as [`parse_item`] describes it.
fn item(text: &str, chars: &Vec<char>, k: usize) -> (r: Result<(JkProgram, usize), JkError>)
    requires
        text@ == chars@,
        k < chars@.len(),
        !is_space(chars@[k as int]),
        chars@[k as int] != ']',
    ensures
        match parse_item(chars@, k as int) {
            Some((v, e)) => r is Ok && r->Ok_0.0@ == v && r->Ok_0.1 as int == e,
            None => r is Err && r->Err_0@ == Fault::ParseError,
        },
        r is Ok ==> k < r->Ok_0.1 <= chars@.len(),
    decreases chars@.len() - k, 0int,
{
    let n = chars.len();
    if chars[k] == '[' {
        let (l, e) = items(text, chars, k + 1, true)?;
        Ok((JkProgram::JkQuotation(l), e))
    } else if chars[k] == '"' {
        match scan_string(chars, k + 1) {
            Some(e) => {
                let s = String::from_str(text.substring_char(k + 1, e));
                Ok((JkProgram::JkString(s), e + 1))
            },
            None => Err(JkError::ParseError),
        }
    } else {
        let e = scan_token(chars, k);
        proof {
            lemma_token_end_after(chars@, k + 1);
        }
        let a = token_atom(text, chars, k, e)?;
        Ok((a, e))
    }
}

impl JkParser {
    /// The atoms that `input` denotes, in source order, or `ParseError`
    /// where it does not follow the grammar.
    pub fn parse(input: &str) -> (r: Result<JkList, JkError>)
        ensures
            match parse_text(input@) {
                Some(vs) => r is Ok && r->Ok_0@ == vs,
                None => r is Err && r->Err_0@ == Fault::ParseError,
            },
    {
        let chars = chars_of(input);
        let (l, _) = items(input, &chars, 0, false)?;
        Ok(l)
    }
}

/// The atoms that `input` denotes, in source order.
pub fn parse(input: &str) -> (r: Result<JkList, JkError>)
    ensures
        match parse_text(input@) {
            Some(vs) => r is Ok && r->Ok_0@ == vs,
            None => r is Err && r->Err_0@ == Fault::ParseError,
        },
{
    JkParser::parse(input)
}

} // verus!
