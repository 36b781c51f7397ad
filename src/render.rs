//! How values are shown to the user.
use vstd::prelude::*;

use crate::atom::Value;
use crate::semantics::word_name;

verus! {

/// The decimal digit for `d < 10`.
pub open spec fn digit(d: nat) -> char {
    (('0' as u8) + (d as u8)) as char
}

/// The decimal text of a natural number.
pub open spec fn nat_text(n: nat) -> Seq<char>
    decreases n,
{
    if n < 10 {
        seq![digit(n)]
    } else {
        nat_text(n / 10).push(digit(n % 10))
    }
}

/// The decimal text of an integer, with a leading minus sign if negative.
pub open spec fn int_text(i: int) -> Seq<char> {
    if i < 0 {
        "-"@ + nat_text((-i) as nat)
    } else {
        nat_text(i as nat)
    }
}

/// How a value is shown to the user.
pub open spec fn show(v: Value) -> Seq<char>
    decreases v,
{
    match v {
        Value::Builtin(b) => "<builtin "@ + word_name(b) + ">"@,
        Value::Int(i) => int_text(i as int),
        Value::Float(t) => t,
        Value::Bool(b) => if b {
            "true"@
        } else {
            "false"@
        },
        Value::Char(c) => "'"@ + seq![c] + "'"@,
        Value::Word(w) => w,
        Value::Str(s) => "\""@ + s + "\""@,
        Value::Quotation(q) => "["@ + show_items(q) + "]"@,
    }
}

/// The values of `q` shown one after the other, separated by commas.
pub open spec fn show_items(q: Seq<Value>) -> Seq<char>
    decreases q,
{
    if q.len() == 0 {
        Seq::empty()
    } else if q.len() == 1 {
        show(q[0])
    } else {
        show_items(q.drop_last()) + ", "@ + show(q.last())
    }
}

/// How a list is shown to the user.
pub open spec fn show_list(q: Seq<Value>) -> Seq<char> {
    "["@ + show_items(q) + "]"@
}

/// Relies on `char::to_string` (through `Display`): the one-character string
/// that holds `c`.
#[verifier::external_body]
pub(crate) fn char_text(c: char) -> (r: String)
    ensures
        r@ == seq![c],
{
    c.to_string()
}

/// Appends the decimal text of `n`.
pub(crate) fn write_nat(out: &mut String, n: u64)
    ensures
        final(out)@ == old(out)@ + nat_text(n as nat),
    decreases n,
{
    if n >= 10 {
        write_nat(out, n / 10);
    }
    let d = (n % 10) as u8;
    let c = (('0' as u8) + d) as char;
    out.append(char_text(c).as_str());
    proof {
        if n >= 10 {
            assert(old(out)@ + nat_text(n as nat) =~= old(out)@ + nat_text((n / 10) as nat) + seq![c]);
        } else {
            assert(old(out)@ + nat_text(n as nat) =~= old(out)@ + seq![c]);
        }
    }
}

/// Appends the decimal text of `i`.
pub(crate) fn write_int(out: &mut String, i: i64)
    ensures
        final(out)@ == old(out)@ + int_text(i as int),
{
    if i < 0 {
        out.append("-");
        let m = (0i128 - i as i128) as u64;
        write_nat(out, m);
        assert(old(out)@ + int_text(i as int) =~= old(out)@ + "-"@ + nat_text(m as nat));
    } else {
        write_nat(out, i as u64);
    }
}

} // verus!
