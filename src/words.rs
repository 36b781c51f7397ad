//! The built-in words and the table that binds them.
use vstd::prelude::*;

use crate::atom::{Builtin, JkList, JkProgram, Value};
use crate::error::{Fault, JkError};
use crate::fiber::{outcome, JkFiber, Request};
use crate::dict::JkDict;
use crate::semantics::{
    builtin_of_name, define, has_builtins, kind_name, lemma_word_name_inverse, pop_check, range_to,
    run_builtin, word_name, Kind,
};

verus! {

fn expected(k: &str) -> (e: JkError)
    ensures
        e@ == Fault::Expected(k@),
{
    JkError::Expected(String::from_str(k))
}

impl JkProgram {
    pub fn as_int(self) -> (r: Result<i64, JkError>)
        ensures
            self@ is Int ==> r == Ok::<i64, JkError>(self@->Int_0),
            !(self@ is Int) ==> r is Err && r->Err_0@ == Fault::Expected(kind_name(Kind::Integer)),
    {
        match self {
            JkProgram::JkInt(i) => Ok(i),
            _ => Err(expected("integer")),
        }
    }

    pub fn as_builtin(self) -> (r: Result<Builtin, JkError>)
        ensures
            self@ is Builtin ==> r == Ok::<Builtin, JkError>(self@->Builtin_0),
            !(self@ is Builtin) ==> r is Err && r->Err_0@ == Fault::Expected("builtin"@),
    {
        match self {
            JkProgram::JkBuiltin(b) => Ok(b),
            _ => Err(expected("builtin")),
        }
    }

    /// The decimal text of a float.
    pub fn as_float(self) -> (r: Result<String, JkError>)
        ensures
            self@ is Float ==> r is Ok && r->Ok_0@ == self@->Float_0,
            !(self@ is Float) ==> r is Err && r->Err_0@ == Fault::Expected("float"@),
    {
        match self {
            JkProgram::JkFloat(f) => Ok(f),
            _ => Err(expected("float")),
        }
    }

    pub fn as_quotation(self) -> (r: Result<JkProgram, JkError>)
        ensures
            self@ is Quotation ==> r is Ok && r->Ok_0@ == self@,
            !(self@ is Quotation) ==> r is Err && r->Err_0@ == Fault::Expected(
                kind_name(Kind::Quotation),
            ),
    {
        match self {
            JkProgram::JkQuotation(_) => Ok(self),
            _ => Err(expected("quotation")),
        }
    }

    pub fn as_boolean(self) -> (r: Result<bool, JkError>)
        ensures
            self@ is Bool ==> r == Ok::<bool, JkError>(self@->Bool_0),
            !(self@ is Bool) ==> r is Err && r->Err_0@ == Fault::Expected(kind_name(Kind::Boolean)),
    {
        match self {
            JkProgram::JkBool(b) => Ok(b),
            _ => Err(expected("boolean")),
        }
    }

    pub fn as_string(self) -> (r: Result<String, JkError>)
        ensures
            self@ is Str ==> r is Ok && r->Ok_0@ == self@->Str_0,
            !(self@ is Str) ==> r is Err && r->Err_0@ == Fault::Expected(kind_name(Kind::Text)),
    {
        match self {
            JkProgram::JkString(s) => Ok(s),
            _ => Err(expected("string")),
        }
    }

    pub fn word_as_string(self) -> (r: Result<String, JkError>)
        ensures
            self@ is Word ==> r is Ok && r->Ok_0@ == self@->Word_0,
            !(self@ is Word) ==> r is Err && r->Err_0@ == Fault::Expected("word"@),
    {
        match self {
            JkProgram::JkWord(w) => Ok(w),
            _ => Err(expected("word")),
        }
    }

    pub fn as_list(self) -> (r: Result<JkList, JkError>)
        ensures
            self@ is Quotation ==> r is Ok && r->Ok_0@ == self@->Quotation_0,
            !(self@ is Quotation) ==> r is Err && r->Err_0@ == Fault::Expected(
                kind_name(Kind::Quotation),
            ),
    {
        match self {
            JkProgram::JkQuotation(q) => Ok(q),
            _ => Err(expected("quotation")),
        }
    }

    pub fn assert_number(self) -> (r: Result<JkProgram, JkError>)
        ensures
            (self@ is Int || self@ is Float) ==> r is Ok && r->Ok_0@ == self@,
            !(self@ is Int || self@ is Float) ==> r is Err && r->Err_0@ == Fault::Expected(
                kind_name(Kind::Number),
            ),
    {
        match self {
            JkProgram::JkInt(_) => Ok(self),
            JkProgram::JkFloat(_) => Ok(self),
            _ => Err(expected("number")),
        }
    }
}

fn overflow() -> (e: JkError)
    ensures
        e@ == crate::semantics::overflow(),
{
    JkError::RuntimeError(String::from_str("integer overflow"))
}

fn int_value(r: Option<i64>) -> (v: Result<JkProgram, JkError>)
    ensures
        r is Some ==> v is Ok && v->Ok_0@ == Value::Int(r->0),
        r is None ==> v is Err && v->Err_0@ == crate::semantics::overflow(),
{
    match r {
        Some(i) => Ok(JkProgram::JkInt(i)),
        None => Err(overflow()),
    }
}

pub(crate) fn add(fiber: &mut JkFiber) -> (r: Result<Request, JkError>)
    requires
        old(fiber).wf(),
    ensures
        final(fiber).wf(),
        (final(fiber).view(), outcome(r)) == run_builtin(Builtin::Add, old(fiber).view()),
{
    proof {
        reveal_with_fuel(pop_check, 3);
    }
    let b = fiber.pop()?.assert_number()?;
    let a = fiber.pop()?.assert_number()?;
    match (a, b) {
        (JkProgram::JkInt(a), JkProgram::JkInt(b)) => {
            let v = int_value(a.checked_add(b))?;
            fiber.push(v);
            Ok(Request::Continue)
        },
        (JkProgram::JkFloat(a), JkProgram::JkFloat(b)) => Ok(Request::Float(Builtin::Add, a, b)),
        _ => Err(JkError::TypeError),
    }
}

pub(crate) fn sub(fiber: &mut JkFiber) -> (r: Result<Request, JkError>)
    requires
        old(fiber).wf(),
    ensures
        final(fiber).wf(),
        (final(fiber).view(), outcome(r)) == run_builtin(Builtin::Sub, old(fiber).view()),
{
    proof {
        reveal_with_fuel(pop_check, 3);
    }
    let b = fiber.pop()?.assert_number()?;
    let a = fiber.pop()?.assert_number()?;
    match (a, b) {
        (JkProgram::JkInt(a), JkProgram::JkInt(b)) => {
            let v = int_value(a.checked_sub(b))?;
            fiber.push(v);
            Ok(Request::Continue)
        },
        (JkProgram::JkFloat(a), JkProgram::JkFloat(b)) => Ok(Request::Float(Builtin::Sub, a, b)),
        _ => Err(JkError::TypeError),
    }
}

pub(crate) fn mul(fiber: &mut JkFiber) -> (r: Result<Request, JkError>)
    requires
        old(fiber).wf(),
    ensures
        final(fiber).wf(),
        (final(fiber).view(), outcome(r)) == run_builtin(Builtin::Mul, old(fiber).view()),
{
    proof {
        reveal_with_fuel(pop_check, 3);
    }
    let b = fiber.pop()?.assert_number()?;
    let a = fiber.pop()?.assert_number()?;
    match (a, b) {
        (JkProgram::JkInt(a), JkProgram::JkInt(b)) => {
            let v = int_value(a.checked_mul(b))?;
            fiber.push(v);
            Ok(Request::Continue)
        },
        (JkProgram::JkFloat(a), JkProgram::JkFloat(b)) => Ok(Request::Float(Builtin::Mul, a, b)),
        _ => Err(JkError::TypeError),
    }
}

pub(crate) fn div(fiber: &mut JkFiber) -> (r: Result<Request, JkError>)
    requires
        old(fiber).wf(),
    ensures
        final(fiber).wf(),
        (final(fiber).view(), outcome(r)) == run_builtin(Builtin::Div, old(fiber).view()),
{
    proof {
        reveal_with_fuel(pop_check, 3);
    }
    let b = fiber.pop()?.assert_number()?;
    let a = fiber.pop()?.assert_number()?;
    match (a, b) {
        (JkProgram::JkInt(a), JkProgram::JkInt(b)) => {
            if b == 0 {
                return Err(JkError::DivisionByZero);
            }
            let v = int_value(a.checked_div(b))?;
            fiber.push(v);
            Ok(Request::Continue)
        },
        (JkProgram::JkFloat(a), JkProgram::JkFloat(b)) => Ok(Request::Float(Builtin::Div, a, b)),
        _ => Err(JkError::TypeError),
    }
}

pub(crate) fn modulo(fiber: &mut JkFiber) -> (r: Result<Request, JkError>)
    requires
        old(fiber).wf(),
    ensures
        final(fiber).wf(),
        (final(fiber).view(), outcome(r)) == run_builtin(Builtin::Modulo, old(fiber).view()),
{
    proof {
        reveal_with_fuel(pop_check, 3);
    }
    let b = fiber.pop()?.assert_number()?;
    let a = fiber.pop()?.assert_number()?;
    match (a, b) {
        (JkProgram::JkInt(a), JkProgram::JkInt(b)) => {
            if b == 0 {
                return Err(JkError::DivisionByZero);
            }
            let v = int_value(a.checked_rem(b))?;
            fiber.push(v);
            Ok(Request::Continue)
        },
        (JkProgram::JkFloat(a), JkProgram::JkFloat(b)) => Ok(Request::Float(Builtin::Modulo, a, b)),
        _ => Err(JkError::TypeError),
    }
}

pub(crate) fn lt(fiber: &mut JkFiber) -> (r: Result<Request, JkError>)
    requires
        old(fiber).wf(),
    ensures
        final(fiber).wf(),
        (final(fiber).view(), outcome(r)) == run_builtin(Builtin::Lt, old(fiber).view()),
{
    proof {
        reveal_with_fuel(pop_check, 3);
    }
    let b = fiber.pop()?.assert_number()?;
    let a = fiber.pop()?.assert_number()?;
    match (a, b) {
        (JkProgram::JkInt(a), JkProgram::JkInt(b)) => {
            let v = JkProgram::JkBool(a < b);
            fiber.push(v);
            Ok(Request::Continue)
        },
        (JkProgram::JkFloat(a), JkProgram::JkFloat(b)) => Ok(Request::Float(Builtin::Lt, a, b)),
        _ => Err(JkError::TypeError),
    }
}

pub(crate) fn gt(fiber: &mut JkFiber) -> (r: Result<Request, JkError>)
    requires
        old(fiber).wf(),
    ensures
        final(fiber).wf(),
        (final(fiber).view(), outcome(r)) == run_builtin(Builtin::Gt, old(fiber).view()),
{
    proof {
        reveal_with_fuel(pop_check, 3);
    }
    let b = fiber.pop()?.assert_number()?;
    let a = fiber.pop()?.assert_number()?;
    match (a, b) {
        (JkProgram::JkInt(a), JkProgram::JkInt(b)) => {
            let v = JkProgram::JkBool(a > b);
            fiber.push(v);
            Ok(Request::Continue)
        },
        (JkProgram::JkFloat(a), JkProgram::JkFloat(b)) => Ok(Request::Float(Builtin::Gt, a, b)),
        _ => Err(JkError::TypeError),
    }
}

pub(crate) fn lte(fiber: &mut JkFiber) -> (r: Result<Request, JkError>)
    requires
        old(fiber).wf(),
    ensures
        final(fiber).wf(),
        (final(fiber).view(), outcome(r)) == run_builtin(Builtin::Lte, old(fiber).view()),
{
    proof {
        reveal_with_fuel(pop_check, 3);
    }
    let b = fiber.pop()?.assert_number()?;
    let a = fiber.pop()?.assert_number()?;
    match (a, b) {
        (JkProgram::JkInt(a), JkProgram::JkInt(b)) => {
            let v = JkProgram::JkBool(a <= b);
            fiber.push(v);
            Ok(Request::Continue)
        },
        (JkProgram::JkFloat(a), JkProgram::JkFloat(b)) => Ok(Request::Float(Builtin::Lte, a, b)),
        _ => Err(JkError::TypeError),
    }
}

pub(crate) fn gte(fiber: &mut JkFiber) -> (r: Result<Request, JkError>)
    requires
        old(fiber).wf(),
    ensures
        final(fiber).wf(),
        (final(fiber).view(), outcome(r)) == run_builtin(Builtin::Gte, old(fiber).view()),
{
    proof {
        reveal_with_fuel(pop_check, 3);
    }
    let b = fiber.pop()?.assert_number()?;
    let a = fiber.pop()?.assert_number()?;
    match (a, b) {
        (JkProgram::JkInt(a), JkProgram::JkInt(b)) => {
            let v = JkProgram::JkBool(a >= b);
            fiber.push(v);
            Ok(Request::Continue)
        },
        (JkProgram::JkFloat(a), JkProgram::JkFloat(b)) => Ok(Request::Float(Builtin::Gte, a, b)),
        _ => Err(JkError::TypeError),
    }
}

pub(crate) fn and(fiber: &mut JkFiber) -> (r: Result<Request, JkError>)
    requires
        old(fiber).wf(),
    ensures
        final(fiber).wf(),
        (final(fiber).view(), outcome(r)) == run_builtin(Builtin::And, old(fiber).view()),
{
    proof {
        reveal_with_fuel(pop_check, 3);
    }
    let b = fiber.pop()?.as_boolean()?;
    let a = fiber.pop()?.as_boolean()?;
    fiber.push(JkProgram::JkBool(a && b));
    Ok(Request::Continue)
}

pub(crate) fn or(fiber: &mut JkFiber) -> (r: Result<Request, JkError>)
    requires
        old(fiber).wf(),
    ensures
        final(fiber).wf(),
        (final(fiber).view(), outcome(r)) == run_builtin(Builtin::Or, old(fiber).view()),
{
    proof {
        reveal_with_fuel(pop_check, 3);
    }
    let b = fiber.pop()?.as_boolean()?;
    let a = fiber.pop()?.as_boolean()?;
    fiber.push(JkProgram::JkBool(a || b));
    Ok(Request::Continue)
}

pub(crate) fn not(fiber: &mut JkFiber) -> (r: Result<Request, JkError>)
    requires
        old(fiber).wf(),
    ensures
        final(fiber).wf(),
        (final(fiber).view(), outcome(r)) == run_builtin(Builtin::Not, old(fiber).view()),
{
    proof {
        reveal_with_fuel(pop_check, 2);
    }
    let a = fiber.pop()?.as_boolean()?;
    fiber.push(JkProgram::JkBool(!a));
    Ok(Request::Continue)
}

pub(crate) fn dup(fiber: &mut JkFiber) -> (r: Result<Request, JkError>)
    requires
        old(fiber).wf(),
    ensures
        final(fiber).wf(),
        (final(fiber).view(), outcome(r)) == run_builtin(Builtin::Dup, old(fiber).view()),
{
    proof {
        reveal_with_fuel(pop_check, 2);
    }
    let p = fiber.pop()?;
    fiber.push(p.clone());
    fiber.push(p);
    Ok(Request::Continue)
}

pub(crate) fn swap(fiber: &mut JkFiber) -> (r: Result<Request, JkError>)
    requires
        old(fiber).wf(),
    ensures
        final(fiber).wf(),
        (final(fiber).view(), outcome(r)) == run_builtin(Builtin::Swap, old(fiber).view()),
{
    proof {
        reveal_with_fuel(pop_check, 3);
    }
    let b = fiber.pop()?;
    let a = fiber.pop()?;
    fiber.push(b);
    fiber.push(a);
    Ok(Request::Continue)
}

pub(crate) fn drop(fiber: &mut JkFiber) -> (r: Result<Request, JkError>)
    requires
        old(fiber).wf(),
    ensures
        final(fiber).wf(),
        (final(fiber).view(), outcome(r)) == run_builtin(Builtin::Drop, old(fiber).view()),
{
    proof {
        reveal_with_fuel(pop_check, 2);
    }
    fiber.pop()?;
    Ok(Request::Continue)
}

pub(crate) fn quote(fiber: &mut JkFiber) -> (r: Result<Request, JkError>)
    requires
        old(fiber).wf(),
    ensures
        final(fiber).wf(),
        (final(fiber).view(), outcome(r)) == run_builtin(Builtin::Quote, old(fiber).view()),
{
    proof {
        reveal_with_fuel(pop_check, 2);
    }
    let p = fiber.pop()?;
    fiber.push(JkProgram::JkQuotation(JkList::from_program(p)));
    Ok(Request::Continue)
}

pub(crate) fn cat(fiber: &mut JkFiber) -> (r: Result<Request, JkError>)
    requires
        old(fiber).wf(),
    ensures
        final(fiber).wf(),
        (final(fiber).view(), outcome(r)) == run_builtin(Builtin::Cat, old(fiber).view()),
{
    proof {
        reveal_with_fuel(pop_check, 3);
    }
    let b = fiber.pop()?.as_list()?;
    let mut a = fiber.pop()?.as_list()?;
    a.append(b);
    fiber.push(JkProgram::JkQuotation(a));
    Ok(Request::Continue)
}

pub(crate) fn apply(fiber: &mut JkFiber) -> (r: Result<Request, JkError>)
    requires
        old(fiber).wf(),
    ensures
        final(fiber).wf(),
        (final(fiber).view(), outcome(r)) == run_builtin(Builtin::Apply, old(fiber).view()),
{
    proof {
        reveal_with_fuel(pop_check, 2);
    }
    let q = fiber.pop()?.as_list()?;
    fiber.prepend_queue(q);
    Ok(Request::Continue)
}

pub(crate) fn dip(fiber: &mut JkFiber) -> (r: Result<Request, JkError>)
    requires
        old(fiber).wf(),
    ensures
        final(fiber).wf(),
        (final(fiber).view(), outcome(r)) == run_builtin(Builtin::Dip, old(fiber).view()),
{
    proof {
        reveal_with_fuel(pop_check, 3);
    }
    let mut b = fiber.pop()?.as_list()?;
    let a = fiber.pop()?;
    b.push_back(a);
    fiber.prepend_queue(b);
    Ok(Request::Continue)
}

pub(crate) fn cons(fiber: &mut JkFiber) -> (r: Result<Request, JkError>)
    requires
        old(fiber).wf(),
    ensures
        final(fiber).wf(),
        (final(fiber).view(), outcome(r)) == run_builtin(Builtin::Cons, old(fiber).view()),
{
    proof {
        reveal_with_fuel(pop_check, 3);
    }
    let mut b = fiber.pop()?.as_list()?;
    let a = fiber.pop()?;
    b.push_front(a);
    fiber.push(JkProgram::JkQuotation(b));
    Ok(Request::Continue)
}

pub(crate) fn uncons(fiber: &mut JkFiber) -> (r: Result<Request, JkError>)
    requires
        old(fiber).wf(),
    ensures
        final(fiber).wf(),
        (final(fiber).view(), outcome(r)) == run_builtin(Builtin::Uncons, old(fiber).view()),
{
    proof {
        reveal_with_fuel(pop_check, 2);
    }
    let mut b = fiber.pop()?.as_list()?;
    let a = match b.pop_front() {
        Some(a) => a,
        None => return Err(JkError::RuntimeError(String::from_str("[] uncons"))),
    };
    fiber.push(a);
    fiber.push(JkProgram::JkQuotation(b));
    Ok(Request::Continue)
}

pub(crate) fn over(fiber: &mut JkFiber) -> (r: Result<Request, JkError>)
    requires
        old(fiber).wf(),
    ensures
        final(fiber).wf(),
        (final(fiber).view(), outcome(r)) == run_builtin(Builtin::Over, old(fiber).view()),
{
    proof {
        reveal_with_fuel(pop_check, 3);
    }
    let b = fiber.pop()?;
    let a = fiber.pop()?;
    fiber.push(a.clone());
    fiber.push(b);
    fiber.push(a);
    Ok(Request::Continue)
}

pub(crate) fn dig(fiber: &mut JkFiber) -> (r: Result<Request, JkError>)
    requires
        old(fiber).wf(),
    ensures
        final(fiber).wf(),
        (final(fiber).view(), outcome(r)) == run_builtin(Builtin::Dig, old(fiber).view()),
{
    proof {
        reveal_with_fuel(pop_check, 4);
    }
    let c = fiber.pop()?;
    let b = fiber.pop()?;
    let a = fiber.pop()?;
    fiber.push(b);
    fiber.push(c);
    fiber.push(a);
    Ok(Request::Continue)
}

pub(crate) fn bury(fiber: &mut JkFiber) -> (r: Result<Request, JkError>)
    requires
        old(fiber).wf(),
    ensures
        final(fiber).wf(),
        (final(fiber).view(), outcome(r)) == run_builtin(Builtin::Bury, old(fiber).view()),
{
    proof {
        reveal_with_fuel(pop_check, 4);
    }
    let c = fiber.pop()?;
    let b = fiber.pop()?;
    let a = fiber.pop()?;
    fiber.push(c);
    fiber.push(a);
    fiber.push(b);
    Ok(Request::Continue)
}

pub(crate) fn nip(fiber: &mut JkFiber) -> (r: Result<Request, JkError>)
    requires
        old(fiber).wf(),
    ensures
        final(fiber).wf(),
        (final(fiber).view(), outcome(r)) == run_builtin(Builtin::Nip, old(fiber).view()),
{
    proof {
        reveal_with_fuel(pop_check, 3);
    }
    let b = fiber.pop()?;
    fiber.pop()?;
    fiber.push(b);
    Ok(Request::Continue)
}

pub(crate) fn ifte(fiber: &mut JkFiber) -> (r: Result<Request, JkError>)
    requires
        old(fiber).wf(),
    ensures
        final(fiber).wf(),
        (final(fiber).view(), outcome(r)) == run_builtin(Builtin::Ifte, old(fiber).view()),
{
    proof {
        reveal_with_fuel(pop_check, 4);
    }
    let else_part = fiber.pop()?.as_list()?;
    let then_part = fiber.pop()?.as_list()?;
    let cond = fiber.pop()?.as_boolean()?;
    if cond {
        fiber.prepend_queue(then_part);
    } else {
        fiber.prepend_queue(else_part);
    }
    Ok(Request::Continue)
}

pub(crate) fn load(fiber: &mut JkFiber) -> (r: Result<Request, JkError>)
    requires
        old(fiber).wf(),
    ensures
        final(fiber).wf(),
        (final(fiber).view(), outcome(r)) == run_builtin(Builtin::Load, old(fiber).view()),
{
    proof {
        reveal_with_fuel(pop_check, 2);
    }
    let path = fiber.pop()?.as_string()?;
    Ok(Request::Load(path))
}

pub(crate) fn eq(fiber: &mut JkFiber) -> (r: Result<Request, JkError>)
    requires
        old(fiber).wf(),
    ensures
        final(fiber).wf(),
        (final(fiber).view(), outcome(r)) == run_builtin(Builtin::Eq, old(fiber).view()),
{
    proof {
        reveal_with_fuel(pop_check, 3);
    }
    let b = fiber.pop()?.as_int()?;
    let a = fiber.pop()?.as_int()?;
    fiber.push(JkProgram::JkBool(a == b));
    Ok(Request::Continue)
}

pub(crate) fn head(fiber: &mut JkFiber) -> (r: Result<Request, JkError>)
    requires
        old(fiber).wf(),
    ensures
        final(fiber).wf(),
        (final(fiber).view(), outcome(r)) == run_builtin(Builtin::Head, old(fiber).view()),
{
    proof {
        reveal_with_fuel(pop_check, 2);
    }
    let mut q = fiber.pop()?.as_list()?;
    let res = match q.pop_front() {
        Some(p) => p,
        None => return Err(JkError::RuntimeError(String::from_str("[] head"))),
    };
    fiber.push(res);
    Ok(Request::Continue)
}

pub(crate) fn tail(fiber: &mut JkFiber) -> (r: Result<Request, JkError>)
    requires
        old(fiber).wf(),
    ensures
        final(fiber).wf(),
        (final(fiber).view(), outcome(r)) == run_builtin(Builtin::Tail, old(fiber).view()),
{
    proof {
        reveal_with_fuel(pop_check, 2);
    }
    let mut q = fiber.pop()?.as_list()?;
    if q.pop_front().is_none() {
        return Err(JkError::RuntimeError(String::from_str("[] tail")));
    }
    fiber.push(JkProgram::JkQuotation(q));
    Ok(Request::Continue)
}

pub(crate) fn empty(fiber: &mut JkFiber) -> (r: Result<Request, JkError>)
    requires
        old(fiber).wf(),
    ensures
        final(fiber).wf(),
        (final(fiber).view(), outcome(r)) == run_builtin(Builtin::Empty, old(fiber).view()),
{
    proof {
        reveal_with_fuel(pop_check, 2);
    }
    let q = fiber.pop()?.as_list()?;
    fiber.push(JkProgram::JkBool(q.size() == 0));
    Ok(Request::Continue)
}

pub(crate) fn reset(fiber: &mut JkFiber) -> (r: Result<Request, JkError>)
    requires
        old(fiber).wf(),
    ensures
        final(fiber).wf(),
        (final(fiber).view(), outcome(r)) == run_builtin(Builtin::Reset, old(fiber).view()),
{
    fiber.clear();
    Ok(Request::Continue)
}

pub(crate) fn jk_print(fiber: &mut JkFiber) -> (r: Result<Request, JkError>)
    requires
        old(fiber).wf(),
    ensures
        final(fiber).wf(),
        (final(fiber).view(), outcome(r)) == run_builtin(Builtin::Print, old(fiber).view()),
{
    proof {
        reveal_with_fuel(pop_check, 2);
    }
    let s = fiber.pop()?.as_string()?;
    Ok(Request::Print(s))
}

pub(crate) fn jk_println(fiber: &mut JkFiber) -> (r: Result<Request, JkError>)
    requires
        old(fiber).wf(),
    ensures
        final(fiber).wf(),
        (final(fiber).view(), outcome(r)) == run_builtin(Builtin::Println, old(fiber).view()),
{
    proof {
        reveal_with_fuel(pop_check, 2);
    }
    let s = fiber.pop()?.as_string()?;
    Ok(Request::PrintLine(s))
}

pub(crate) fn def(fiber: &mut JkFiber) -> (r: Result<Request, JkError>)
    requires
        old(fiber).wf(),
    ensures
        final(fiber).wf(),
        (final(fiber).view(), outcome(r)) == run_builtin(Builtin::Def, old(fiber).view()),
{
    proof {
        reveal_with_fuel(pop_check, 2);
    }
    let mut names = fiber.pop()?.as_list()?;
    let ghost goal = define(names@, fiber.view());
    while names.size() > 0
        invariant
            fiber.wf(),
            define(names@, fiber.view()) == goal,
            goal == run_builtin(Builtin::Def, old(fiber).view()),
        decreases names@.len(),
    {
        let w = match names.pop_back() {
            Some(w) => w,
            None => return Ok(Request::Continue),
        };
        let name = w.word_as_string()?;
        let definition = fiber.pop()?.as_list()?;
        fiber.define_word(name, definition);
    }
    Ok(Request::Continue)
}

pub(crate) fn iota(fiber: &mut JkFiber) -> (r: Result<Request, JkError>)
    requires
        old(fiber).wf(),
    ensures
        final(fiber).wf(),
        (final(fiber).view(), outcome(r)) == run_builtin(Builtin::Iota, old(fiber).view()),
{
    proof {
        reveal_with_fuel(pop_check, 2);
    }
    let n = fiber.pop()?.as_int()?;
    let mut res = JkList::new();
    let mut i: i64 = 0;
    while i < n
        invariant
            0 <= i,
            n > 0 ==> i <= n,
            n <= 0 ==> i == 0,
            res@ == Seq::new(i as nat, |k: int| Value::Int(k as i64)),
        decreases n - i,
    {
        res.push_back(JkProgram::JkInt(i));
        i = i + 1;
        assert(res@ =~= Seq::new(i as nat, |k: int| Value::Int(k as i64)));
    }
    assert(res@ =~= range_to(n));
    fiber.push(JkProgram::JkQuotation(res));
    Ok(Request::Continue)
}

/// Runs one built-in on the fiber.
pub fn call_builtin(b: Builtin, fiber: &mut JkFiber) -> (r: Result<Request, JkError>)
    requires
        old(fiber).wf(),
    ensures
        final(fiber).wf(),
        (final(fiber).view(), outcome(r)) == run_builtin(b, old(fiber).view()),
{
    match b {
        Builtin::Add => self::add(fiber),
        Builtin::Sub => self::sub(fiber),
        Builtin::Mul => self::mul(fiber),
        Builtin::Div => div(fiber),
        Builtin::Modulo => modulo(fiber),
        Builtin::Lt => lt(fiber),
        Builtin::Gt => gt(fiber),
        Builtin::Lte => lte(fiber),
        Builtin::Gte => gte(fiber),
        Builtin::And => and(fiber),
        Builtin::Or => or(fiber),
        Builtin::Not => not(fiber),
        Builtin::Dup => dup(fiber),
        Builtin::Swap => swap(fiber),
        Builtin::Drop => drop(fiber),
        Builtin::Quote => quote(fiber),
        Builtin::Cat => cat(fiber),
        Builtin::Apply => apply(fiber),
        Builtin::Dip => dip(fiber),
        Builtin::Cons => cons(fiber),
        Builtin::Uncons => uncons(fiber),
        Builtin::Over => over(fiber),
        Builtin::Dig => dig(fiber),
        Builtin::Bury => bury(fiber),
        Builtin::Nip => nip(fiber),
        Builtin::Ifte => ifte(fiber),
        Builtin::Def => def(fiber),
        Builtin::Load => load(fiber),
        Builtin::Eq => eq(fiber),
        Builtin::Head => head(fiber),
        Builtin::Tail => tail(fiber),
        Builtin::Empty => empty(fiber),
        Builtin::Reset => reset(fiber),
        Builtin::Iota => iota(fiber),
        Builtin::Print => jk_print(fiber),
        Builtin::Println => jk_println(fiber),
    }
}

/// The name under which a built-in is installed.
pub(crate) fn name_of(b: Builtin) -> (r: &'static str)
    ensures
        r@ == word_name(b),
{
    match b {
        Builtin::Add => {
            proof {
                reveal_strlit("+");
            }
            "+"
        },
        Builtin::Sub => {
            proof {
                reveal_strlit("-");
            }
            "-"
        },
        Builtin::Mul => {
            proof {
                reveal_strlit("*");
            }
            "*"
        },
        Builtin::Div => {
            proof {
                reveal_strlit("/");
            }
            "/"
        },
        Builtin::Modulo => {
            proof {
                reveal_strlit("%");
            }
            "%"
        },
        Builtin::Lt => {
            proof {
                reveal_strlit("<");
            }
            "<"
        },
        Builtin::Gt => {
            proof {
                reveal_strlit(">");
            }
            ">"
        },
        Builtin::Lte => {
            proof {
                reveal_strlit("<=");
            }
            "<="
        },
        Builtin::Gte => {
            proof {
                reveal_strlit(">=");
            }
            ">="
        },
        Builtin::And => {
            proof {
                reveal_strlit("and");
            }
            "and"
        },
        Builtin::Or => {
            proof {
                reveal_strlit("or");
            }
            "or"
        },
        Builtin::Not => {
            proof {
                reveal_strlit("not");
            }
            "not"
        },
        Builtin::Dup => {
            proof {
                reveal_strlit("dup");
            }
            "dup"
        },
        Builtin::Swap => {
            proof {
                reveal_strlit("swap");
            }
            "swap"
        },
        Builtin::Drop => {
            proof {
                reveal_strlit("drop");
            }
            "drop"
        },
        Builtin::Quote => {
            proof {
                reveal_strlit("quote");
            }
            "quote"
        },
        Builtin::Cat => {
            proof {
                reveal_strlit("cat");
            }
            "cat"
        },
        Builtin::Apply => {
            proof {
                reveal_strlit("i");
            }
            "i"
        },
        Builtin::Dip => {
            proof {
                reveal_strlit("dip");
            }
            "dip"
        },
        Builtin::Cons => {
            proof {
                reveal_strlit("cons");
            }
            "cons"
        },
        Builtin::Uncons => {
            proof {
                reveal_strlit("uncons");
            }
            "uncons"
        },
        Builtin::Over => {
            proof {
                reveal_strlit("over");
            }
            "over"
        },
        Builtin::Dig => {
            proof {
                reveal_strlit("dig");
            }
            "dig"
        },
        Builtin::Bury => {
            proof {
                reveal_strlit("bury");
            }
            "bury"
        },
        Builtin::Nip => {
            proof {
                reveal_strlit("nip");
            }
            "nip"
        },
        Builtin::Ifte => {
            proof {
                reveal_strlit("ifte");
            }
            "ifte"
        },
        Builtin::Def => {
            proof {
                reveal_strlit("def");
            }
            "def"
        },
        Builtin::Load => {
            proof {
                reveal_strlit("load");
            }
            "load"
        },
        Builtin::Eq => {
            proof {
                reveal_strlit("=");
            }
            "="
        },
        Builtin::Head => {
            proof {
                reveal_strlit("head");
            }
            "head"
        },
        Builtin::Tail => {
            proof {
                reveal_strlit("tail");
            }
            "tail"
        },
        Builtin::Empty => {
            proof {
                reveal_strlit("empty?");
            }
            "empty?"
        },
        Builtin::Reset => {
            proof {
                reveal_strlit("reset");
            }
            "reset"
        },
        Builtin::Iota => {
            proof {
                reveal_strlit("iota");
            }
            "iota"
        },
        Builtin::Print => {
            proof {
                reveal_strlit("print");
            }
            "print"
        },
        Builtin::Println => {
            proof {
                reveal_strlit("println");
            }
            "println"
        },
    }
}

/// Every built-in, once each.
fn all_builtins() -> (r: Vec<Builtin>)
    ensures
        forall|b: Builtin| #[trigger] r@.contains(b),
{
    let r = vec![
        Builtin::Add,
        Builtin::Sub,
        Builtin::Mul,
        Builtin::Div,
        Builtin::Modulo,
        Builtin::Lt,
        Builtin::Gt,
        Builtin::Lte,
        Builtin::Gte,
        Builtin::And,
        Builtin::Or,
        Builtin::Not,
        Builtin::Dup,
        Builtin::Swap,
        Builtin::Drop,
        Builtin::Quote,
        Builtin::Cat,
        Builtin::Apply,
        Builtin::Dip,
        Builtin::Cons,
        Builtin::Uncons,
        Builtin::Over,
        Builtin::Dig,
        Builtin::Bury,
        Builtin::Nip,
        Builtin::Ifte,
        Builtin::Def,
        Builtin::Load,
        Builtin::Eq,
        Builtin::Head,
        Builtin::Tail,
        Builtin::Empty,
        Builtin::Reset,
        Builtin::Iota,
        Builtin::Print,
        Builtin::Println,
    ];
    assert forall|b: Builtin| #[trigger] r@.contains(b) by {
        match b {
            Builtin::Add => assert(r@[0] == b),
            Builtin::Sub => assert(r@[1] == b),
            Builtin::Mul => assert(r@[2] == b),
            Builtin::Div => assert(r@[3] == b),
            Builtin::Modulo => assert(r@[4] == b),
            Builtin::Lt => assert(r@[5] == b),
            Builtin::Gt => assert(r@[6] == b),
            Builtin::Lte => assert(r@[7] == b),
            Builtin::Gte => assert(r@[8] == b),
            Builtin::And => assert(r@[9] == b),
            Builtin::Or => assert(r@[10] == b),
            Builtin::Not => assert(r@[11] == b),
            Builtin::Dup => assert(r@[12] == b),
            Builtin::Swap => assert(r@[13] == b),
            Builtin::Drop => assert(r@[14] == b),
            Builtin::Quote => assert(r@[15] == b),
            Builtin::Cat => assert(r@[16] == b),
            Builtin::Apply => assert(r@[17] == b),
            Builtin::Dip => assert(r@[18] == b),
            Builtin::Cons => assert(r@[19] == b),
            Builtin::Uncons => assert(r@[20] == b),
            Builtin::Over => assert(r@[21] == b),
            Builtin::Dig => assert(r@[22] == b),
            Builtin::Bury => assert(r@[23] == b),
            Builtin::Nip => assert(r@[24] == b),
            Builtin::Ifte => assert(r@[25] == b),
            Builtin::Def => assert(r@[26] == b),
            Builtin::Load => assert(r@[27] == b),
            Builtin::Eq => assert(r@[28] == b),
            Builtin::Head => assert(r@[29] == b),
            Builtin::Tail => assert(r@[30] == b),
            Builtin::Empty => assert(r@[31] == b),
            Builtin::Reset => assert(r@[32] == b),
            Builtin::Iota => assert(r@[33] == b),
            Builtin::Print => assert(r@[34] == b),
            Builtin::Println => assert(r@[35] == b),
        }
    }
    r
}

/// The word table that a new fiber starts with: every built-in under its name.
pub fn builtin_dict() -> (r: JkDict)
    ensures
        r.wf(),
        has_builtins(r.view()),
        forall|k: Seq<char>| #[trigger] r.view().contains_key(k) ==> builtin_of_name(k) is Some,
{
    let all = all_builtins();
    let mut d = JkDict::new();
    let mut i: usize = 0;
    while i < all.len()
        invariant
            i <= all@.len(),
            d.wf(),
            forall|j: int|
                0 <= j < i ==> #[trigger] d.view().contains_key(word_name(all@[j]))
                    && d.view()[word_name(all@[j])] == seq![Value::Builtin(all@[j])],
            forall|k: Seq<char>| #[trigger] d.view().contains_key(k) ==> builtin_of_name(k) is Some,
        decreases all@.len() - i,
    {
        let b = all[i];
        let ghost before = d.view();
        d.insert(String::from_str(name_of(b)), JkList::from_program(JkProgram::JkBuiltin(b)));
        proof {
            lemma_word_name_inverse(b);
            assert(d.view() == before.insert(word_name(b), seq![Value::Builtin(b)]));
            assert forall|j: int|
                0 <= j < i + 1 implies #[trigger] d.view().contains_key(word_name(all@[j]))
                    && d.view()[word_name(all@[j])] == seq![Value::Builtin(all@[j])] by {
                if j < i {
                    assert(before.contains_key(word_name(all@[j])));
                    lemma_word_name_inverse(all@[j]);
                    if word_name(all@[j]) == word_name(b) {
                        assert(all@[j] == b);
                    }
                }
            }
            assert forall|k: Seq<char>| #[trigger]
                d.view().contains_key(k) implies builtin_of_name(k) is Some by {
                if k != word_name(b) {
                    assert(before.contains_key(k));
                }
            }
        }
        i = i + 1;
    }
    proof {
        assert forall|b: Builtin| #[trigger]
            d.view().contains_key(word_name(b)) && d.view()[word_name(b)] == seq![Value::Builtin(b)] by {
            assert(all@.contains(b));
            let j = choose|j: int| 0 <= j < all@.len() && all@[j] == b;
            assert(d.view().contains_key(word_name(all@[j])));
        }
    }
    d
}

} // verus!
