//! Evaluation of atoms taken off the pending queue.
use vstd::prelude::*;

use crate::atom::JkProgram;
use crate::error::JkError;
use crate::fiber::{outcome, JkFiber, Request};
use crate::semantics::{eval_value, step};
use crate::words::call_builtin;

verus! {

/// Evaluates one atom against the fiber.
pub fn eval_atom(fiber: &mut JkFiber, p: JkProgram) -> (r: Result<Request, JkError>)
    requires
        old(fiber).wf(),
    ensures
        final(fiber).wf(),
        (final(fiber).view(), outcome(r)) == eval_value(p@, old(fiber).view()),
{
    match p {
        JkProgram::JkWord(w) => match fiber.lookup(&w) {
            Some(definition) => {
                fiber.prepend_queue(definition);
                Ok(Request::Continue)
            },
            None => Err(JkError::UndefinedWord),
        },
        JkProgram::JkBuiltin(b) => call_builtin(b, fiber),
        _ => {
            fiber.push(p);
            Ok(Request::Continue)
        },
    }
}

/// Takes the front atom off the queue and evaluates it. Whatever it fails
/// with, the atom stays consumed, so a host that goes on stepping drains the
/// rest of the queue.
pub fn eval_step(fiber: &mut JkFiber) -> (r: Result<Request, JkError>)
    requires
        old(fiber).wf(),
    ensures
        final(fiber).wf(),
        (final(fiber).view(), outcome(r)) == step(old(fiber).view()),
{
    match fiber.pop_queue() {
        Some(p) => eval_atom(fiber, p),
        None => Ok(Request::Continue),
    }
}

} // verus!
