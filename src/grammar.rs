//! The grammar of program text, as mathematics.
use vstd::prelude::*;

use crate::atom::Value;

verus! {

/// Characters that separate tokens.
pub open spec fn is_space(c: char) -> bool {
    c == ' ' || c == '\t' || c == '\n' || c == '\r'
}

/// Characters that end a bare token.
pub open spec fn is_delim(c: char) -> bool {
    is_space(c) || c == '[' || c == ']' || c == '"'
}

pub open spec fn is_digit(c: char) -> bool {
    '0' <= c <= '9'
}

/// The end of the bare token that starts at or before `i`.
pub open spec fn token_end(s: Seq<char>, i: int) -> int
    decreases s.len() - i,
{
    if 0 <= i < s.len() && !is_delim(s[i]) {
        token_end(s, i + 1)
    } else {
        i
    }
}

/// The position of the quote that closes a string whose text starts at `i`.
/// A backslash keeps the character after it in the text, a quote included.
pub open spec fn string_end(s: Seq<char>, i: int) -> Option<int>
    decreases s.len() - i,
{
    if i < 0 || i >= s.len() {
        None
    } else if s[i] == '"' {
        Some(i)
    } else if s[i] == '\\' {
        if i + 1 < s.len() {
            string_end(s, i + 2)
        } else {
            None
        }
    } else {
        string_end(s, i + 1)
    }
}

/// A token with an optional leading minus sign: the part after the sign.
pub open spec fn unsigned_part(t: Seq<char>) -> Seq<char> {
    if t.len() > 0 && t[0] == '-' {
        t.drop_first()
    } else {
        t
    }
}

pub open spec fn all_digits(t: Seq<char>) -> bool {
    forall|i: int| 0 <= i < t.len() ==> is_digit(#[trigger] t[i])
}

/// `-?[0-9]+`
pub open spec fn is_integer_text(t: Seq<char>) -> bool {
    unsigned_part(t).len() > 0 && all_digits(unsigned_part(t))
}

/// `-?[0-9]+.[0-9]+`
pub open spec fn is_float_text(t: Seq<char>) -> bool {
    let u = unsigned_part(t);
    exists|p: int|
        0 < p < u.len() - 1 && u[p] == '.' && all_digits(u.take(p)) && all_digits(
            #[trigger] u.skip(p + 1),
        )
}

/// The number that a string of decimal digits denotes.
pub open spec fn digits_value(t: Seq<char>) -> int
    decreases t.len(),
{
    if t.len() == 0 {
        0
    } else {
        digits_value(t.drop_last()) * 10 + (t.last() as int - '0' as int)
    }
}

/// The number that an integer token denotes.
pub open spec fn integer_value(t: Seq<char>) -> int {
    if t.len() > 0 && t[0] == '-' {
        -digits_value(t.drop_first())
    } else {
        digits_value(t)
    }
}

pub open spec fn is_true_text(t: Seq<char>) -> bool {
    t.len() == 4 && t[0] == 't' && t[1] == 'r' && t[2] == 'u' && t[3] == 'e'
}

pub open spec fn is_false_text(t: Seq<char>) -> bool {
    t.len() == 5 && t[0] == 'f' && t[1] == 'a' && t[2] == 'l' && t[3] == 's' && t[4] == 'e'
}

/// The atom that a bare token denotes; `None` for an integer out of range.
pub open spec fn token_value(t: Seq<char>) -> Option<Value> {
    if is_integer_text(t) {
        if i64::MIN <= integer_value(t) <= i64::MAX {
            Some(Value::Int(integer_value(t) as i64))
        } else {
            None
        }
    } else if is_float_text(t) {
        Some(Value::Float(t))
    } else if is_true_text(t) {
        Some(Value::Bool(true))
    } else if is_false_text(t) {
        Some(Value::Bool(false))
    } else {
        Some(Value::Word(t))
    }
}

/// The atoms from position `i` up to the end of the text (`nested` false) or
/// up to and including the bracket that closes the quotation (`nested` true),
/// with the position after them; `None` where the text does not parse.
pub open spec fn parse_items(s: Seq<char>, i: int, nested: bool) -> Option<(Seq<Value>, int)>
    decreases s.len() - i, 1int,
{
    if i < 0 || i > s.len() {
        None
    } else if i == s.len() {
        if nested {
            None
        } else {
            Some((Seq::empty(), i))
        }
    } else if is_space(s[i]) {
        parse_items(s, i + 1, nested)
    } else if s[i] == ']' {
        if nested {
            Some((Seq::empty(), i + 1))
        } else {
            None
        }
    } else {
        match parse_item(s, i) {
            Some((v, k)) => if i < k <= s.len() {
                match parse_items(s, k, nested) {
                    Some((vs, e)) => Some((seq![v] + vs, e)),
                    None => None,
                }
            } else {
                None
            },
            None => None,
        }
    }
}

/// The one atom that starts at position `i`, which holds no space and no
/// closing bracket, with the position after it.
pub open spec fn parse_item(s: Seq<char>, i: int) -> Option<(Value, int)>
    decreases s.len() - i, 0int,
{
    if i < 0 || i >= s.len() {
        None
    } else if s[i] == '[' {
        match parse_items(s, i + 1, true) {
            Some((vs, e)) => Some((Value::Quotation(vs), e)),
            None => None,
        }
    } else if s[i] == '"' {
        match string_end(s, i + 1) {
            Some(e) => Some((Value::Str(s.subrange(i + 1, e)), e + 1)),
            None => None,
        }
    } else {
        let e = token_end(s, i);
        match token_value(s.subrange(i, e)) {
            Some(v) => Some((v, e)),
            None => None,
        }
    }
}

/// The atoms that a program text denotes, in source order.
pub open spec fn parse_text(s: Seq<char>) -> Option<Seq<Value>> {
    match parse_items(s, 0, false) {
        Some((vs, _)) => Some(vs),
        None => None,
    }
}

} // verus!
