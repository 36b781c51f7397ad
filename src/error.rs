//! The errors of reading and running programs.
use vstd::prelude::*;

verus! {

/// Everything that can go wrong while reading or running a program.
#[derive(Debug)]
pub enum JkError {
    ParseError,
    FileNotFound,
    StackUnderflow,
    TypeError,
    UndefinedWord,
    Expected(String),
    RuntimeError(String),
    DivisionByZero,
}

/// The mathematical value of a [`JkError`].
pub enum Fault {
    ParseError,
    FileNotFound,
    StackUnderflow,
    TypeError,
    UndefinedWord,
    Expected(Seq<char>),
    RuntimeError(Seq<char>),
    DivisionByZero,
}

impl View for JkError {
    type V = Fault;

    open spec fn view(&self) -> Fault {
        match self {
            JkError::ParseError => Fault::ParseError,
            JkError::FileNotFound => Fault::FileNotFound,
            JkError::StackUnderflow => Fault::StackUnderflow,
            JkError::TypeError => Fault::TypeError,
            JkError::UndefinedWord => Fault::UndefinedWord,
            JkError::Expected(k) => Fault::Expected(k@),
            JkError::RuntimeError(m) => Fault::RuntimeError(m@),
            JkError::DivisionByZero => Fault::DivisionByZero,
        }
    }
}

impl JkError {
    /// The error of a file that exists but could not be read.
    pub fn unreadable_file(path: &str) -> (e: JkError)
        ensures
            e@ == Fault::RuntimeError("Couldn't load file \""@ + path@ + "\""@),
    {
        let mut m = String::from_str("Couldn't load file \"");
        m.append(path);
        m.append("\"");
        JkError::RuntimeError(m)
    }
}

} // verus!
