//! What each step does to a machine, as mathematics.
use vstd::prelude::*;

use crate::atom::{Builtin, Value};
use crate::error::Fault;
use crate::fiber::{Action, Machine};

verus! {

/// What a built-in asks of one operand.
pub enum Kind {
    Any,
    Number,
    Integer,
    Boolean,
    Text,
    Quotation,
}

pub open spec fn fits(k: Kind, v: Value) -> bool {
    match k {
        Kind::Any => true,
        Kind::Number => v is Int || v is Float,
        Kind::Integer => v is Int,
        Kind::Boolean => v is Bool,
        Kind::Text => v is Str,
        Kind::Quotation => v is Quotation,
    }
}

/// The name that an `Expected` error gives for a kind.
pub open spec fn kind_name(k: Kind) -> Seq<char> {
    match k {
        Kind::Any => Seq::empty(),
        Kind::Number => "number"@,
        Kind::Integer => "integer"@,
        Kind::Boolean => "boolean"@,
        Kind::Text => "string"@,
        Kind::Quotation => "quotation"@,
    }
}

/// Pops operands off `s`, the top first, checking each against its kind as it
/// comes off. Gives the first failure with the stack as that failure leaves it
/// (the offending operand already removed), or `None` when all operands are
/// there and fit.
pub open spec fn pop_check(s: Seq<Value>, kinds: Seq<Kind>) -> Option<(Seq<Value>, Fault)>
    decreases kinds.len(),
{
    if kinds.len() == 0 {
        None
    } else if s.len() == 0 {
        Some((s, Fault::StackUnderflow))
    } else if !fits(kinds[0], s.last()) {
        Some((s.drop_last(), Fault::Expected(kind_name(kinds[0]))))
    } else {
        pop_check(s.drop_last(), kinds.drop_first())
    }
}

/// The operands of each built-in, the top of the stack first.
pub open spec fn operands(b: Builtin) -> Seq<Kind> {
    match b {
        Builtin::Add | Builtin::Sub | Builtin::Mul | Builtin::Div | Builtin::Modulo | Builtin::Lt
        | Builtin::Gt | Builtin::Lte | Builtin::Gte => seq![Kind::Number, Kind::Number],
        Builtin::And | Builtin::Or => seq![Kind::Boolean, Kind::Boolean],
        Builtin::Not => seq![Kind::Boolean],
        Builtin::Dup | Builtin::Drop | Builtin::Quote => seq![Kind::Any],
        Builtin::Swap | Builtin::Over | Builtin::Nip => seq![Kind::Any, Kind::Any],
        Builtin::Dig | Builtin::Bury => seq![Kind::Any, Kind::Any, Kind::Any],
        Builtin::Cat => seq![Kind::Quotation, Kind::Quotation],
        Builtin::Apply | Builtin::Uncons | Builtin::Head | Builtin::Tail | Builtin::Empty
        | Builtin::Def => seq![Kind::Quotation],
        Builtin::Dip | Builtin::Cons => seq![Kind::Quotation, Kind::Any],
        Builtin::Ifte => seq![Kind::Quotation, Kind::Quotation, Kind::Boolean],
        Builtin::Load | Builtin::Print | Builtin::Println => seq![Kind::Text],
        Builtin::Eq => seq![Kind::Integer, Kind::Integer],
        Builtin::Iota => seq![Kind::Integer],
        Builtin::Reset => seq![],
    }
}

pub open spec fn overflow() -> Fault {
    Fault::RuntimeError("integer overflow"@)
}

/// The result of an integer operation, or the error it raises.
pub open spec fn int_result(r: Option<i64>) -> Result<Value, Fault> {
    match r {
        Some(v) => Ok(Value::Int(v)),
        None => Err(overflow()),
    }
}

/// An arithmetic or comparison word on two integers `a` (pushed first) and `c`.
pub open spec fn int_op(b: Builtin, a: i64, c: i64) -> Result<Value, Fault> {
    match b {
        Builtin::Add => int_result(a.checked_add(c)),
        Builtin::Sub => int_result(a.checked_sub(c)),
        Builtin::Mul => int_result(a.checked_mul(c)),
        Builtin::Div => if c == 0 {
            Err(Fault::DivisionByZero)
        } else {
            int_result(a.checked_div(c))
        },
        Builtin::Modulo => if c == 0 {
            Err(Fault::DivisionByZero)
        } else {
            int_result(a.checked_rem(c))
        },
        Builtin::Lt => Ok(Value::Bool(a < c)),
        Builtin::Gt => Ok(Value::Bool(a > c)),
        Builtin::Lte => Ok(Value::Bool(a <= c)),
        _ => Ok(Value::Bool(a >= c)),
    }
}

/// An arithmetic or comparison word on two numbers, once both are off the
/// stack and `m` is what is left.
pub open spec fn numeric(b: Builtin, a: Value, c: Value, m: Machine) -> (Machine, Result<Action, Fault>) {
    match (a, c) {
        (Value::Int(x), Value::Int(y)) => match int_op(b, x, y) {
            Ok(v) => (m.push(v), Ok(Action::Continue)),
            Err(f) => (m, Err(f)),
        },
        (Value::Float(x), Value::Float(y)) => (m, Ok(Action::Float(b, x, y))),
        _ => (m, Err(Fault::TypeError)),
    }
}

/// `def`: binds the names of `names`, the last first, each to one quotation
/// taken off the stack.
pub open spec fn define(names: Seq<Value>, m: Machine) -> (Machine, Result<Action, Fault>)
    decreases names.len(),
{
    if names.len() == 0 {
        (m, Ok(Action::Continue))
    } else if !(names.last() is Word) {
        (m, Err(Fault::Expected("word"@)))
    } else if m.stack.len() == 0 {
        (m, Err(Fault::StackUnderflow))
    } else if !(m.stack.last() is Quotation) {
        (m.with_stack(m.stack.drop_last()), Err(Fault::Expected("quotation"@)))
    } else {
        define(
            names.drop_last(),
            Machine {
                stack: m.stack.drop_last(),
                dict: m.dict.insert(names.last()->Word_0, m.stack.last()->Quotation_0),
                ..m
            },
        )
    }
}

/// The integers `0 .. n` in ascending order.
pub open spec fn range_to(n: i64) -> Seq<Value> {
    Seq::new(if n > 0 { n as nat } else { 0 }, |i: int| Value::Int(i as i64))
}

/// The effect of a built-in whose operands are all there and fit.
pub open spec fn effect(b: Builtin, m: Machine) -> (Machine, Result<Action, Fault>) {
    let s = m.stack;
    let n = s.len() as int;
    let x = s[n - 1];
    let y = s[n - 2];
    let z = s[n - 3];
    let r1 = m.with_stack(s.drop_last());
    let r2 = m.with_stack(s.drop_last().drop_last());
    let r3 = m.with_stack(s.drop_last().drop_last().drop_last());
    let ok = Ok(Action::Continue);
    match b {
        Builtin::Add | Builtin::Sub | Builtin::Mul | Builtin::Div | Builtin::Modulo | Builtin::Lt
        | Builtin::Gt | Builtin::Lte | Builtin::Gte => numeric(b, y, x, r2),
        Builtin::And => (r2.push(Value::Bool(y->Bool_0 && x->Bool_0)), ok),
        Builtin::Or => (r2.push(Value::Bool(y->Bool_0 || x->Bool_0)), ok),
        Builtin::Not => (r1.push(Value::Bool(!x->Bool_0)), ok),
        Builtin::Dup => (r1.push(x).push(x), ok),
        Builtin::Swap => (r2.push(x).push(y), ok),
        Builtin::Drop => (r1, ok),
        Builtin::Quote => (r1.push(Value::Quotation(seq![x])), ok),
        Builtin::Cat => (r2.push(Value::Quotation(y->Quotation_0 + x->Quotation_0)), ok),
        Builtin::Apply => (r1.with_queue(x->Quotation_0 + m.queue), ok),
        Builtin::Dip => (r2.with_queue(x->Quotation_0.push(y) + m.queue), ok),
        Builtin::Cons => (r2.push(Value::Quotation(seq![y] + x->Quotation_0)), ok),
        Builtin::Uncons => if x->Quotation_0.len() == 0 {
            (r1, Err(Fault::RuntimeError("[] uncons"@)))
        } else {
            (
                r1.push(x->Quotation_0[0]).push(Value::Quotation(x->Quotation_0.drop_first())),
                ok,
            )
        },
        Builtin::Over => (r2.push(y).push(x).push(y), ok),
        Builtin::Dig => (r3.push(y).push(x).push(z), ok),
        Builtin::Bury => (r3.push(x).push(z).push(y), ok),
        Builtin::Nip => (r2.push(x), ok),
        Builtin::Ifte => (
            r3.with_queue(
                (if z->Bool_0 {
                    y->Quotation_0
                } else {
                    x->Quotation_0
                }) + m.queue,
            ),
            ok,
        ),
        Builtin::Def => define(x->Quotation_0, r1),
        Builtin::Load => (r1, Ok(Action::Load(x->Str_0))),
        Builtin::Eq => (r2.push(Value::Bool(y->Int_0 == x->Int_0)), ok),
        Builtin::Head => if x->Quotation_0.len() == 0 {
            (r1, Err(Fault::RuntimeError("[] head"@)))
        } else {
            (r1.push(x->Quotation_0[0]), ok)
        },
        Builtin::Tail => if x->Quotation_0.len() == 0 {
            (r1, Err(Fault::RuntimeError("[] tail"@)))
        } else {
            (r1.push(Value::Quotation(x->Quotation_0.drop_first())), ok)
        },
        Builtin::Empty => (r1.push(Value::Bool(x->Quotation_0.len() == 0)), ok),
        Builtin::Reset => (m.with_stack(Seq::empty()).with_queue(Seq::empty()), ok),
        Builtin::Iota => (r1.push(Value::Quotation(range_to(x->Int_0))), ok),
        Builtin::Print => (r1, Ok(Action::Print(x->Str_0))),
        Builtin::Println => (r1, Ok(Action::PrintLine(x->Str_0))),
    }
}

/// What running a built-in does to a machine, and what it returns.
pub open spec fn run_builtin(b: Builtin, m: Machine) -> (Machine, Result<Action, Fault>) {
    match pop_check(m.stack, operands(b)) {
        Some((s, f)) => (m.with_stack(s), Err(f)),
        None => effect(b, m),
    }
}

/// The word under which each built-in is installed.
pub open spec fn word_name(b: Builtin) -> Seq<char> {
    match b {
        Builtin::Add => seq!['+'],
        Builtin::Sub => seq!['-'],
        Builtin::Mul => seq!['*'],
        Builtin::Div => seq!['/'],
        Builtin::Modulo => seq!['%'],
        Builtin::Lt => seq!['<'],
        Builtin::Gt => seq!['>'],
        Builtin::Lte => seq!['<', '='],
        Builtin::Gte => seq!['>', '='],
        Builtin::And => seq!['a', 'n', 'd'],
        Builtin::Or => seq!['o', 'r'],
        Builtin::Not => seq!['n', 'o', 't'],
        Builtin::Dup => seq!['d', 'u', 'p'],
        Builtin::Swap => seq!['s', 'w', 'a', 'p'],
        Builtin::Drop => seq!['d', 'r', 'o', 'p'],
        Builtin::Quote => seq!['q', 'u', 'o', 't', 'e'],
        Builtin::Cat => seq!['c', 'a', 't'],
        Builtin::Apply => seq!['i'],
        Builtin::Dip => seq!['d', 'i', 'p'],
        Builtin::Cons => seq!['c', 'o', 'n', 's'],
        Builtin::Uncons => seq!['u', 'n', 'c', 'o', 'n', 's'],
        Builtin::Over => seq!['o', 'v', 'e', 'r'],
        Builtin::Dig => seq!['d', 'i', 'g'],
        Builtin::Bury => seq!['b', 'u', 'r', 'y'],
        Builtin::Nip => seq!['n', 'i', 'p'],
        Builtin::Ifte => seq!['i', 'f', 't', 'e'],
        Builtin::Def => seq!['d', 'e', 'f'],
        Builtin::Load => seq!['l', 'o', 'a', 'd'],
        Builtin::Eq => seq!['='],
        Builtin::Head => seq!['h', 'e', 'a', 'd'],
        Builtin::Tail => seq!['t', 'a', 'i', 'l'],
        Builtin::Empty => seq!['e', 'm', 'p', 't', 'y', '?'],
        Builtin::Reset => seq!['r', 'e', 's', 'e', 't'],
        Builtin::Iota => seq!['i', 'o', 't', 'a'],
        Builtin::Print => seq!['p', 'r', 'i', 'n', 't'],
        Builtin::Println => seq!['p', 'r', 'i', 'n', 't', 'l', 'n'],
    }
}

/// Every built-in is bound, under its name, to the one-atom list that holds it.
pub open spec fn has_builtins(d: Map<Seq<char>, Seq<Value>>) -> bool {
    forall|b: Builtin| #[trigger]
        d.contains_key(word_name(b)) && d[word_name(b)] == seq![Value::Builtin(b)]
}

/// The built-in installed under a name, if any: the inverse of [`word_name`].
pub open spec fn builtin_of_name(k: Seq<char>) -> Option<Builtin> {
    if k.len() == 1 && k[0] == '+' {
        Some(Builtin::Add)
    } else if k.len() == 1 && k[0] == '-' {
        Some(Builtin::Sub)
    } else if k.len() == 1 && k[0] == '*' {
        Some(Builtin::Mul)
    } else if k.len() == 1 && k[0] == '/' {
        Some(Builtin::Div)
    } else if k.len() == 1 && k[0] == '%' {
        Some(Builtin::Modulo)
    } else if k.len() == 1 && k[0] == '<' {
        Some(Builtin::Lt)
    } else if k.len() == 1 && k[0] == '>' {
        Some(Builtin::Gt)
    } else if k.len() == 2 && k[0] == '<' && k[1] == '=' {
        Some(Builtin::Lte)
    } else if k.len() == 2 && k[0] == '>' && k[1] == '=' {
        Some(Builtin::Gte)
    } else if k.len() == 3 && k[0] == 'a' && k[1] == 'n' && k[2] == 'd' {
        Some(Builtin::And)
    } else if k.len() == 2 && k[0] == 'o' && k[1] == 'r' {
        Some(Builtin::Or)
    } else if k.len() == 3 && k[0] == 'n' && k[1] == 'o' && k[2] == 't' {
        Some(Builtin::Not)
    } else if k.len() == 3 && k[0] == 'd' && k[1] == 'u' && k[2] == 'p' {
        Some(Builtin::Dup)
    } else if k.len() == 4 && k[0] == 's' && k[1] == 'w' && k[2] == 'a' && k[3] == 'p' {
        Some(Builtin::Swap)
    } else if k.len() == 4 && k[0] == 'd' && k[1] == 'r' && k[2] == 'o' && k[3] == 'p' {
        Some(Builtin::Drop)
    } else if k.len() == 5 && k[0] == 'q' && k[1] == 'u' && k[2] == 'o' && k[3] == 't' && k[4] == 'e' {
        Some(Builtin::Quote)
    } else if k.len() == 3 && k[0] == 'c' && k[1] == 'a' && k[2] == 't' {
        Some(Builtin::Cat)
    } else if k.len() == 1 && k[0] == 'i' {
        Some(Builtin::Apply)
    } else if k.len() == 3 && k[0] == 'd' && k[1] == 'i' && k[2] == 'p' {
        Some(Builtin::Dip)
    } else if k.len() == 4 && k[0] == 'c' && k[1] == 'o' && k[2] == 'n' && k[3] == 's' {
        Some(Builtin::Cons)
    } else if k.len() == 6 && k[0] == 'u' && k[1] == 'n' && k[2] == 'c' && k[3] == 'o' && k[4] == 'n' && k[5] == 's' {
        Some(Builtin::Uncons)
    } else if k.len() == 4 && k[0] == 'o' && k[1] == 'v' && k[2] == 'e' && k[3] == 'r' {
        Some(Builtin::Over)
    } else if k.len() == 3 && k[0] == 'd' && k[1] == 'i' && k[2] == 'g' {
        Some(Builtin::Dig)
    } else if k.len() == 4 && k[0] == 'b' && k[1] == 'u' && k[2] == 'r' && k[3] == 'y' {
        Some(Builtin::Bury)
    } else if k.len() == 3 && k[0] == 'n' && k[1] == 'i' && k[2] == 'p' {
        Some(Builtin::Nip)
    } else if k.len() == 4 && k[0] == 'i' && k[1] == 'f' && k[2] == 't' && k[3] == 'e' {
        Some(Builtin::Ifte)
    } else if k.len() == 3 && k[0] == 'd' && k[1] == 'e' && k[2] == 'f' {
        Some(Builtin::Def)
    } else if k.len() == 4 && k[0] == 'l' && k[1] == 'o' && k[2] == 'a' && k[3] == 'd' {
        Some(Builtin::Load)
    } else if k.len() == 1 && k[0] == '=' {
        Some(Builtin::Eq)
    } else if k.len() == 4 && k[0] == 'h' && k[1] == 'e' && k[2] == 'a' && k[3] == 'd' {
        Some(Builtin::Head)
    } else if k.len() == 4 && k[0] == 't' && k[1] == 'a' && k[2] == 'i' && k[3] == 'l' {
        Some(Builtin::Tail)
    } else if k.len() == 6 && k[0] == 'e' && k[1] == 'm' && k[2] == 'p' && k[3] == 't' && k[4] == 'y' && k[5] == '?' {
        Some(Builtin::Empty)
    } else if k.len() == 5 && k[0] == 'r' && k[1] == 'e' && k[2] == 's' && k[3] == 'e' && k[4] == 't' {
        Some(Builtin::Reset)
    } else if k.len() == 4 && k[0] == 'i' && k[1] == 'o' && k[2] == 't' && k[3] == 'a' {
        Some(Builtin::Iota)
    } else if k.len() == 5 && k[0] == 'p' && k[1] == 'r' && k[2] == 'i' && k[3] == 'n' && k[4] == 't' {
        Some(Builtin::Print)
    } else if k.len() == 7 && k[0] == 'p' && k[1] == 'r' && k[2] == 'i' && k[3] == 'n' && k[4] == 't' && k[5] == 'l' && k[6] == 'n' {
        Some(Builtin::Println)
    } else {
        None
    }
}

/// Distinct built-ins are installed under distinct names.
pub proof fn lemma_word_name_inverse(b: Builtin)
    ensures
        builtin_of_name(word_name(b)) == Some(b),
{
    match b {
        Builtin::Add => {},
        Builtin::Sub => {},
        Builtin::Mul => {},
        Builtin::Div => {},
        Builtin::Modulo => {},
        Builtin::Lt => {},
        Builtin::Gt => {},
        Builtin::Lte => {},
        Builtin::Gte => {},
        Builtin::And => {},
        Builtin::Or => {},
        Builtin::Not => {},
        Builtin::Dup => {},
        Builtin::Swap => {},
        Builtin::Drop => {},
        Builtin::Quote => {},
        Builtin::Cat => {},
        Builtin::Apply => {},
        Builtin::Dip => {},
        Builtin::Cons => {},
        Builtin::Uncons => {},
        Builtin::Over => {},
        Builtin::Dig => {},
        Builtin::Bury => {},
        Builtin::Nip => {},
        Builtin::Ifte => {},
        Builtin::Def => {},
        Builtin::Load => {},
        Builtin::Eq => {},
        Builtin::Head => {},
        Builtin::Tail => {},
        Builtin::Empty => {},
        Builtin::Reset => {},
        Builtin::Iota => {},
        Builtin::Print => {},
        Builtin::Println => {},
    }
}

/// Evaluates one atom taken off the queue: a word is replaced by its
/// definition at the front of the queue, a built-in runs, and any other value
/// is pushed.
pub open spec fn eval_value(a: Value, m: Machine) -> (Machine, Result<Action, Fault>) {
    match a {
        Value::Word(w) => if m.dict.contains_key(w) {
            (m.with_queue(m.dict[w] + m.queue), Ok(Action::Continue))
        } else {
            (m, Err(Fault::UndefinedWord))
        },
        Value::Builtin(b) => run_builtin(b, m),
        _ => (m.push(a), Ok(Action::Continue)),
    }
}

/// One step of evaluation: the front atom of the queue is taken off and
/// evaluated. With an empty queue nothing happens.
pub open spec fn step(m: Machine) -> (Machine, Result<Action, Fault>) {
    if m.queue.len() == 0 {
        (m, Ok(Action::Continue))
    } else {
        eval_value(m.queue[0], m.with_queue(m.queue.drop_first()))
    }
}

} // verus!
