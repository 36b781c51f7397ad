//! Properties of programs that hold for every machine state.
use vstd::prelude::*;

use crate::atom::{Builtin, Value};
use crate::error::Fault;
use crate::fiber::{Action, Machine};
use crate::grammar::{is_space, parse_items, parse_text};
use crate::semantics::{has_builtins, pop_check, step, word_name};

verus! {

/// The machine after `n` steps; a step that fails still counts, as the
/// evaluation loop goes on after an error.
pub open spec fn run(m: Machine, n: nat) -> Machine
    decreases n,
{
    if n == 0 {
        m
    } else {
        run(step(m).0, (n - 1) as nat)
    }
}

/// The word under which a built-in is installed, as an atom.
pub open spec fn word(b: Builtin) -> Value {
    Value::Word(word_name(b))
}

/// A value that evaluation pushes as it is: neither a word nor a built-in.
pub open spec fn is_plain(v: Value) -> bool {
    !(v is Word) && !(v is Builtin)
}

/// `swap swap` leaves the stack as it was, whatever its top two values.
pub proof fn law_swap_swap(m: Machine, rest: Seq<Value>)
    requires
        has_builtins(m.dict),
        m.stack.len() >= 2,
        m.queue == seq![word(Builtin::Swap), word(Builtin::Swap)] + rest,
    ensures
        run(m, 4) == m.with_queue(rest),
{
    reveal_with_fuel(run, 5);
    reveal_with_fuel(pop_check, 3);
    assert(has_builtins(m.dict) ==> m.dict.contains_key(word_name(Builtin::Swap)));
    let s = m.stack;
    let m1 = step(m).0;
    assert(m1.queue =~= seq![Value::Builtin(Builtin::Swap), word(Builtin::Swap)] + rest);
    let m2 = step(m1).0;
    assert(m2.queue =~= seq![word(Builtin::Swap)] + rest);
    let m3 = step(m2).0;
    assert(m3.queue =~= seq![Value::Builtin(Builtin::Swap)] + rest);
    let m4 = step(m3).0;
    assert(m4.queue =~= rest);
    assert(m4.stack =~= s);
}

/// The absolute value.
pub open spec fn magnitude(a: int) -> int {
    if a < 0 {
        -a
    } else {
        a
    }
}

/// Integer division rounded toward zero.
pub open spec fn trunc_div(a: int, b: int) -> int {
    let q = magnitude(a) / magnitude(b);
    if (a < 0) == (b < 0) {
        q
    } else {
        -q
    }
}

/// `a b /` on two integers pushes their quotient rounded toward zero; with
/// `b` zero it fails with `DivisionByZero`, both operands already taken off.
/// (The one quotient that does not fit, `i64::MIN / -1`, fails otherwise.)
pub proof fn law_integer_division(m: Machine, a: i64, b: i64, rest: Seq<Value>)
    requires
        has_builtins(m.dict),
        m.queue == seq![Value::Int(a), Value::Int(b), word(Builtin::Div)] + rest,
    ensures
        b != 0 && !(a == i64::MIN && b == -1) ==> i64::MIN <= trunc_div(a as int, b as int)
            <= i64::MAX && run(m, 4) == m.with_queue(rest).push(
            Value::Int(trunc_div(a as int, b as int) as i64),
        ) && step(run(m, 3)).1 == Ok::<Action, Fault>(Action::Continue),
        b == 0 ==> run(m, 4) == m.with_queue(rest) && step(run(m, 3)).1 == Err::<Action, Fault>(
            Fault::DivisionByZero,
        ),
{
    reveal_with_fuel(run, 5);
    reveal_with_fuel(pop_check, 3);
    assert(m.dict.contains_key(word_name(Builtin::Div)));
    let m1 = step(m).0;
    assert(m1.queue =~= seq![Value::Int(b), word(Builtin::Div)] + rest);
    let m2 = step(m1).0;
    assert(m2.queue =~= seq![word(Builtin::Div)] + rest);
    let m3 = step(m2).0;
    assert(m3.queue =~= seq![Value::Builtin(Builtin::Div)] + rest);
    assert(m3.stack.drop_last().drop_last() =~= m.stack);
    assert(m3.queue.drop_first() =~= rest);
    if b != 0 && !(a == i64::MIN && b == -1) {
        let x = a as int;
        let d = b as int;
        let q = trunc_div(x, d);
        assert(magnitude(x) / magnitude(d) <= magnitude(x)) by (nonlinear_arith)
            requires
                magnitude(d) >= 1,
                magnitude(x) >= 0,
        ;
        assert(magnitude(x) / magnitude(d) >= 0) by (nonlinear_arith)
            requires
                magnitude(d) >= 1,
                magnitude(x) >= 0,
        ;
        if magnitude(d) >= 2 {
            assert(magnitude(x) / magnitude(d) <= magnitude(x) / 2) by (nonlinear_arith)
                requires
                    magnitude(d) >= 2,
                    magnitude(x) >= 0,
            ;
        }
        assert(i64::MIN <= q <= i64::MAX);
        assert(a.checked_div(b) == Some(q as i64));
    }
}

/// `x dup` leaves `x x` on the stack, and a `drop` after it leaves `x` alone.
pub proof fn law_dup_drop(m: Machine, x: Value, rest: Seq<Value>)
    requires
        has_builtins(m.dict),
        is_plain(x),
        m.queue == seq![x, word(Builtin::Dup), word(Builtin::Drop)] + rest,
    ensures
        run(m, 3).stack == m.stack.push(x).push(x),
        run(m, 5) == m.with_queue(rest).push(x),
{
    reveal_with_fuel(run, 6);
    reveal_with_fuel(pop_check, 2);
    assert(m.dict.contains_key(word_name(Builtin::Dup)));
    assert(m.dict.contains_key(word_name(Builtin::Drop)));
    let m1 = step(m).0;
    assert(m1.queue =~= seq![word(Builtin::Dup), word(Builtin::Drop)] + rest);
    let m2 = step(m1).0;
    assert(m2.queue =~= seq![Value::Builtin(Builtin::Dup), word(Builtin::Drop)] + rest);
    let m3 = step(m2).0;
    assert(m3.queue =~= seq![word(Builtin::Drop)] + rest);
    assert(m3.stack =~= m.stack.push(x).push(x));
    let m4 = step(m3).0;
    assert(m4.queue =~= seq![Value::Builtin(Builtin::Drop)] + rest);
    let m5 = step(m4).0;
    assert(m5.queue =~= rest);
    assert(m5.stack =~= m.stack.push(x));
}

/// `x quote i` pushes `x`, as `x` alone does.
pub proof fn law_quote_apply(m: Machine, x: Value, rest: Seq<Value>)
    requires
        has_builtins(m.dict),
        is_plain(x),
        m.queue == seq![x, word(Builtin::Quote), word(Builtin::Apply)] + rest,
    ensures
        run(m, 6) == m.with_queue(rest).push(x),
{
    reveal_with_fuel(run, 7);
    reveal_with_fuel(pop_check, 2);
    assert(m.dict.contains_key(word_name(Builtin::Quote)));
    assert(m.dict.contains_key(word_name(Builtin::Apply)));
    let m1 = step(m).0;
    assert(m1.queue =~= seq![word(Builtin::Quote), word(Builtin::Apply)] + rest);
    let m2 = step(m1).0;
    assert(m2.queue =~= seq![Value::Builtin(Builtin::Quote), word(Builtin::Apply)] + rest);
    let m3 = step(m2).0;
    assert(m3.queue =~= seq![word(Builtin::Apply)] + rest);
    assert(m3.stack =~= m.stack.push(Value::Quotation(seq![x])));
    let m4 = step(m3).0;
    assert(m4.queue =~= seq![Value::Builtin(Builtin::Apply)] + rest);
    let m5 = step(m4).0;
    assert(m5.queue =~= seq![x] + rest);
    assert(m5.stack =~= m.stack);
    let m6 = step(m5).0;
    assert(m6.queue =~= rest);
}

/// `a q cons uncons` leaves `a q` on the stack: `uncons` undoes `cons`.
pub proof fn law_cons_uncons(m: Machine, a: Value, q: Seq<Value>, rest: Seq<Value>)
    requires
        has_builtins(m.dict),
        is_plain(a),
        m.queue == seq![a, Value::Quotation(q), word(Builtin::Cons), word(Builtin::Uncons)] + rest,
    ensures
        run(m, 6) == m.with_queue(rest).push(a).push(Value::Quotation(q)),
{
    reveal_with_fuel(run, 7);
    reveal_with_fuel(pop_check, 3);
    assert(m.dict.contains_key(word_name(Builtin::Cons)));
    assert(m.dict.contains_key(word_name(Builtin::Uncons)));
    let m1 = step(m).0;
    assert(m1.queue =~= seq![Value::Quotation(q), word(Builtin::Cons), word(Builtin::Uncons)] + rest);
    let m2 = step(m1).0;
    assert(m2.queue =~= seq![word(Builtin::Cons), word(Builtin::Uncons)] + rest);
    let m3 = step(m2).0;
    assert(m3.queue =~= seq![Value::Builtin(Builtin::Cons), word(Builtin::Uncons)] + rest);
    let m4 = step(m3).0;
    assert(m4.queue =~= seq![word(Builtin::Uncons)] + rest);
    assert(m4.stack =~= m.stack.push(Value::Quotation(seq![a] + q)));
    let m5 = step(m4).0;
    assert(m5.queue =~= seq![Value::Builtin(Builtin::Uncons)] + rest);
    let m6 = step(m5).0;
    assert((seq![a] + q).drop_first() =~= q);
    assert(m6.queue =~= rest);
    assert(m6.stack =~= m.stack.push(a).push(Value::Quotation(q)));
}

/// `body [w] def` binds `w` to `body`; the word `w` then evaluates to `body`.
pub proof fn law_define_then_call(m: Machine, body: Seq<Value>, w: Seq<char>, rest: Seq<Value>)
    requires
        has_builtins(m.dict),
        m.queue == seq![
            Value::Quotation(body),
            Value::Quotation(seq![Value::Word(w)]),
            word(Builtin::Def),
            Value::Word(w),
        ] + rest,
    ensures
        run(m, 4) == (Machine {
            dict: m.dict.insert(w, body),
            queue: seq![Value::Word(w)] + rest,
            ..m
        }),
        run(m, 5) == (Machine { dict: m.dict.insert(w, body), queue: body + rest, ..m }),
{
    reveal_with_fuel(run, 6);
    reveal_with_fuel(pop_check, 2);
    reveal_with_fuel(crate::semantics::define, 2);
    assert(m.dict.contains_key(word_name(Builtin::Def)));
    let m1 = step(m).0;
    assert(m1.queue =~= seq![
        Value::Quotation(seq![Value::Word(w)]),
        word(Builtin::Def),
        Value::Word(w),
    ] + rest);
    let m2 = step(m1).0;
    assert(m2.queue =~= seq![word(Builtin::Def), Value::Word(w)] + rest);
    let m3 = step(m2).0;
    assert(m3.queue =~= seq![Value::Builtin(Builtin::Def), Value::Word(w)] + rest);
    let m4 = step(m3).0;
    assert(seq![Value::Word(w)].drop_last() =~= Seq::<Value>::empty());
    assert(m4.queue =~= seq![Value::Word(w)] + rest);
    assert(m4.stack =~= m.stack);
    let m5 = step(m4).0;
    assert(m5.queue =~= body + rest);
}

/// Text made of spaces alone denotes no atoms.
pub proof fn law_blank_text(s: Seq<char>)
    requires
        forall|i: int| 0 <= i < s.len() ==> is_space(#[trigger] s[i]),
    ensures
        parse_text(s) == Some(Seq::<Value>::empty()),
{
    lemma_blank_from(s, 0);
}

proof fn lemma_blank_from(s: Seq<char>, i: int)
    requires
        0 <= i <= s.len(),
        forall|j: int| 0 <= j < s.len() ==> is_space(#[trigger] s[j]),
    ensures
        parse_items(s, i, false) == Some((Seq::<Value>::empty(), s.len() as int)),
    decreases s.len() - i,
{
    if i < s.len() {
        lemma_blank_from(s, i + 1);
    }
}

/// With nothing left in the queue a step changes nothing.
pub proof fn law_empty_queue(m: Machine)
    requires
        m.queue.len() == 0,
    ensures
        step(m) == (m, Ok::<Action, Fault>(Action::Continue)),
{
}

} // verus!
