use jiko::JkProgram::{JkBuiltin, JkChar, JkFloat, JkInt};
use jiko::{builtin_dict, eval_step, Builtin, JkError, JkFiber, Request};

/// Appends a line to the queue and steps until the queue is empty, keeping
/// what the steps asked of the host and the errors they raised.
fn run_line(fiber: &mut JkFiber, text: &str) -> (Vec<Request>, Vec<JkError>) {
    fiber.enqueue(text).unwrap();
    let mut requests = Vec::new();
    let mut errors = Vec::new();
    while fiber.pending() > 0 {
        match eval_step(fiber) {
            Ok(Request::Continue) => (),
            Ok(r) => requests.push(r),
            Err(e) => errors.push(e),
        }
    }
    (requests, errors)
}

fn stack_after(text: &str) -> String {
    let mut fiber = JkFiber::new();
    let (_, errors) = run_line(&mut fiber, text);
    assert!(errors.is_empty(), "unexpected errors: {:?}", errors);
    fiber.snapshot()
}

#[test]
fn integer_division_truncates_toward_zero() {
    assert_eq!(stack_after("7 2 /"), "* [3] : []");
    assert_eq!(stack_after("-7 2 /"), "* [-3] : []");
    assert_eq!(stack_after("7 -2 /"), "* [-3] : []");
    assert_eq!(stack_after("-7 -2 /"), "* [3] : []");
}

#[test]
fn division_by_zero_consumes_both_operands() {
    let mut fiber = JkFiber::new();
    let (_, errors) = run_line(&mut fiber, "9 7 0 /");
    assert!(matches!(errors.as_slice(), [JkError::DivisionByZero]));
    assert_eq!(fiber.snapshot(), "* [9] : []");
    let (_, errors) = run_line(&mut fiber, "5 0 %");
    assert!(matches!(errors.as_slice(), [JkError::DivisionByZero]));
    assert_eq!(fiber.snapshot(), "* [9] : []");
}

#[test]
fn arithmetic_and_comparisons() {
    assert_eq!(stack_after("2 3 + 10 4 - 6 7 * 17 5 %"), "* [5, 6, 42, 2] : []");
    assert_eq!(stack_after("-17 5 %"), "* [-2] : []");
    assert_eq!(stack_after("1 2 < 2 1 > 2 2 <= 1 2 >= 3 3 ="), "* [true, true, true, false, true] : []");
    assert_eq!(stack_after("true false and true false or true not"), "* [false, true, false] : []");
}

#[test]
fn integer_overflow_is_a_runtime_error() {
    let mut fiber = JkFiber::new();
    let (_, errors) = run_line(&mut fiber, "9223372036854775807 1 +");
    match errors.as_slice() {
        [JkError::RuntimeError(m)] => assert_eq!(m, "integer overflow"),
        other => panic!("unexpected: {:?}", other),
    }
    assert_eq!(fiber.snapshot(), "* [] : []");
}

#[test]
fn dup_then_drop_restores_the_top() {
    assert_eq!(stack_after("1 5 dup"), "* [1, 5, 5] : []");
    assert_eq!(stack_after("1 5 dup drop"), "* [1, 5] : []");
}

#[test]
fn swap_swap_is_the_identity() {
    assert_eq!(stack_after("1 2 swap"), "* [2, 1] : []");
    assert_eq!(stack_after("1 2 swap swap"), "* [1, 2] : []");
    assert_eq!(stack_after("[a] \"s\" swap swap"), "* [[a], \"s\"] : []");
}

#[test]
fn quote_then_apply_pushes_the_value() {
    assert_eq!(stack_after("7 quote"), "* [[7]] : []");
    assert_eq!(stack_after("7 quote i"), "* [7] : []");
}

#[test]
fn cons_then_uncons_recovers_the_pair() {
    assert_eq!(stack_after("1 [2 3] cons"), "* [[1, 2, 3]] : []");
    assert_eq!(stack_after("1 [2 3] cons uncons"), "* [1, [2, 3]] : []");
}

#[test]
fn def_then_invocation() {
    assert_eq!(stack_after("[dup +] [double] def 5 double"), "* [10] : []");
    assert_eq!(stack_after("[1] [2] [a b] def a b"), "* [1, 2] : []");
    assert_eq!(stack_after("[1] [one] def [2] [one] def one"), "* [2] : []");
}

#[test]
fn undefined_word_leaves_the_stack() {
    let mut fiber = JkFiber::new();
    let (_, errors) = run_line(&mut fiber, "1 2 add");
    assert!(matches!(errors.as_slice(), [JkError::UndefinedWord]));
    assert_eq!(fiber.snapshot(), "* [1, 2] : []");
}

#[test]
fn ifte_takes_the_then_branch() {
    let mut fiber = JkFiber::new();
    let (requests, errors) =
        run_line(&mut fiber, "3 4 < [\"lt\" println] [\"ge\" println] ifte");
    assert!(errors.is_empty());
    match requests.as_slice() {
        [Request::PrintLine(s)] => assert_eq!(s, "lt"),
        other => panic!("unexpected: {:?}", other),
    }
    let (requests, _) = run_line(&mut fiber, "4 3 < [\"lt\" print] [\"ge\" print] ifte");
    match requests.as_slice() {
        [Request::Print(s)] => assert_eq!(s, "ge"),
        other => panic!("unexpected: {:?}", other),
    }
}

#[test]
fn blank_line_changes_nothing() {
    let mut fiber = JkFiber::new();
    run_line(&mut fiber, "1 2");
    let (requests, errors) = run_line(&mut fiber, "");
    assert!(requests.is_empty() && errors.is_empty());
    assert_eq!(fiber.snapshot(), "* [1, 2] : []");
}

#[test]
fn parse_error_leaves_the_fiber() {
    let mut fiber = JkFiber::new();
    run_line(&mut fiber, "1");
    assert!(matches!(fiber.enqueue("[2"), Err(JkError::ParseError)));
    assert_eq!(fiber.pending(), 0);
    assert_eq!(fiber.snapshot(), "* [1] : []");
}

#[test]
fn errors_do_not_stop_the_line() {
    let mut fiber = JkFiber::new();
    let (_, errors) = run_line(&mut fiber, "+ true 1 + 1 1.5 + 4");
    match errors.as_slice() {
        [JkError::StackUnderflow, JkError::Expected(k), JkError::TypeError] => {
            assert_eq!(k, "number")
        }
        other => panic!("unexpected: {:?}", other),
    }
    assert_eq!(fiber.snapshot(), "* [4] : []");
}

#[test]
fn stack_shuffling_words() {
    assert_eq!(stack_after("1 2 over"), "* [1, 2, 1] : []");
    assert_eq!(stack_after("1 2 3 dig"), "* [2, 3, 1] : []");
    assert_eq!(stack_after("1 2 3 bury"), "* [3, 1, 2] : []");
    assert_eq!(stack_after("1 2 nip"), "* [2] : []");
}

#[test]
fn quotation_words() {
    assert_eq!(stack_after("[1] [2 3] cat"), "* [[1, 2, 3]] : []");
    assert_eq!(stack_after("[1 2] head [1 2] tail"), "* [1, [2]] : []");
    assert_eq!(stack_after("[] empty? [1] empty?"), "* [true, false] : []");
    assert_eq!(stack_after("1 2 [10 +] dip"), "* [11, 2] : []");
    assert_eq!(stack_after("[1 2 +] i"), "* [3] : []");
}

#[test]
fn empty_quotation_errors() {
    let mut fiber = JkFiber::new();
    let (_, errors) = run_line(&mut fiber, "[] uncons [] head [] tail");
    let messages: Vec<String> = errors
        .iter()
        .map(|e| match e {
            JkError::RuntimeError(m) => m.clone(),
            other => panic!("unexpected: {:?}", other),
        })
        .collect();
    assert_eq!(messages, vec!["[] uncons", "[] head", "[] tail"]);
    assert_eq!(fiber.snapshot(), "* [] : []");
}

#[test]
fn expected_kinds() {
    let mut fiber = JkFiber::new();
    let (_, errors) = run_line(&mut fiber, "1 i 1 not 1 print [x] [1] def 1 2 =");
    let kinds: Vec<String> = errors
        .iter()
        .map(|e| match e {
            JkError::Expected(k) => k.clone(),
            other => panic!("unexpected: {:?}", other),
        })
        .collect();
    assert_eq!(kinds, vec!["quotation", "boolean", "string", "word"]);
}

#[test]
fn iota_counts_up() {
    assert_eq!(stack_after("3 iota"), "* [[0, 1, 2]] : []");
    assert_eq!(stack_after("0 iota -2 iota"), "* [[], []] : []");
}

#[test]
fn reset_empties_stack_and_queue() {
    assert_eq!(stack_after("[7] [seven] def 1 2 reset 3"), "* [] : []");
    let mut fiber = JkFiber::new();
    run_line(&mut fiber, "[7] [seven] def 1 reset");
    run_line(&mut fiber, "seven");
    assert_eq!(fiber.snapshot(), "* [7] : []");
}

#[test]
fn load_and_float_work_go_to_the_host() {
    let mut fiber = JkFiber::new();
    let (requests, _) = run_line(&mut fiber, "\"lib.jk\" load 1.5 2.25 + 1.0 2.0 <");
    match requests.as_slice() {
        [Request::Load(p), Request::Float(Builtin::Add, a, b), Request::Float(Builtin::Lt, c, d)] => {
            assert_eq!(p, "lib.jk");
            assert_eq!((a.as_str(), b.as_str()), ("1.5", "2.25"));
            assert_eq!((c.as_str(), d.as_str()), ("1.0", "2.0"));
        }
        other => panic!("unexpected: {:?}", other),
    }
    fiber.push(JkFloat("3.75".to_string()));
    assert_eq!(fiber.snapshot(), "* [3.75] : []");
}

#[test]
fn rendering_of_atoms() {
    assert_eq!(JkBuiltin(Builtin::Add).to_text(), "<builtin +>");
    assert_eq!(JkChar('x').to_text(), "'x'");
    assert_eq!(JkInt(-1234).to_text(), "-1234");
    assert_eq!(JkInt(i64::MIN).to_text(), "-9223372036854775808");
    assert_eq!(JkInt(0).to_text(), "0");
    assert_eq!(stack_after("\"a b\" [x [1 true]]"), "* [\"a b\", [x, [1, true]]] : []");
}

#[test]
fn builtin_table_binds_every_word() {
    let dict = builtin_dict();
    for name in ["+", "-", "*", "/", "%", "<", ">", "<=", ">=", "and", "or", "not", "dup", "swap",
        "drop", "quote", "cat", "i", "dip", "cons", "uncons", "over", "dig", "bury", "nip", "ifte",
        "def", "load", "=", "head", "tail", "empty?", "reset", "iota", "print", "println"] {
        let body = dict.get(&name.to_string()).expect(name);
        assert_eq!(body.size(), 1);
    }
    assert!(dict.get(&"add".to_string()).is_none());
    assert_eq!(dict.get(&"dup".to_string()).unwrap().to_text(), "[<builtin dup>]");
}

#[test]
fn queue_splicing_runs_deep_recursion() {
    // A word that re-queues itself a hundred thousand times: recursion grows
    // the queue, not the host stack.
    let mut fiber = JkFiber::new();
    let (_, errors) = run_line(
        &mut fiber,
        "[dup 0 = [drop] [1 - count] ifte] [count] def 100000 count 5",
    );
    assert!(errors.is_empty());
    assert_eq!(fiber.snapshot(), "* [5] : []");
}

#[test]
fn unreadable_file_error_names_the_path() {
    match JkError::unreadable_file("a/b.jk") {
        JkError::RuntimeError(m) => assert_eq!(m, "Couldn't load file \"a/b.jk\""),
        other => panic!("unexpected: {:?}", other),
    }
}
