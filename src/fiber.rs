//! The execution context: stack, pending queue and word table.
use vstd::prelude::*;

use crate::atom::{Builtin, JkList, JkProgram, Value};
use crate::dict::JkDict;
use crate::error::{Fault, JkError};
use crate::grammar::parse_text;
use crate::parser::parse;
use crate::render::show_list;
use crate::semantics::{builtin_of_name, has_builtins};
use crate::words::builtin_dict;

verus! {

/// The state of a fiber as mathematics: its stack (top at the end), its
/// pending queue (next atom at the front) and its word table.
pub struct Machine {
    pub stack: Seq<Value>,
    pub queue: Seq<Value>,
    pub dict: Map<Seq<char>, Seq<Value>>,
}

impl Machine {
    pub open spec fn with_stack(self, s: Seq<Value>) -> Machine {
        Machine { stack: s, ..self }
    }

    pub open spec fn with_queue(self, q: Seq<Value>) -> Machine {
        Machine { queue: q, ..self }
    }

    pub open spec fn push(self, v: Value) -> Machine {
        self.with_stack(self.stack.push(v))
    }
}

/// Work that a step leaves to its host, which the library cannot do itself.
#[derive(Debug)]
pub enum Request {
    /// Nothing to do: evaluation may go on.
    Continue,
    /// Write the text to standard output.
    Print(String),
    /// Write the text and a line break to standard output.
    PrintLine(String),
    /// Read the file at this path, parse it and append it to the queue.
    Load(String),
    /// Apply the arithmetic or comparison word to two floats given as text
    /// (the one pushed first, then the top) and push the result; both are
    /// already off the stack. Dividing by zero, with `/` or `%`, is the host's
    /// `DivisionByZero`.
    Float(Builtin, String, String),
}

/// The mathematical value of a [`Request`].
pub enum Action {
    Continue,
    Print(Seq<char>),
    PrintLine(Seq<char>),
    Load(Seq<char>),
    Float(Builtin, Seq<char>, Seq<char>),
}

impl View for Request {
    type V = Action;

    open spec fn view(&self) -> Action {
        match self {
            Request::Continue => Action::Continue,
            Request::Print(s) => Action::Print(s@),
            Request::PrintLine(s) => Action::PrintLine(s@),
            Request::Load(s) => Action::Load(s@),
            Request::Float(b, x, y) => Action::Float(*b, x@, y@),
        }
    }
}

/// The outcome of a step as mathematics.
pub open spec fn outcome(r: Result<Request, JkError>) -> Result<Action, Fault> {
    match r {
        Ok(q) => Ok(q@),
        Err(e) => Err(e@),
    }
}

/// One execution context: a stack, a pending queue and a word table.
pub struct JkFiber {
    pub(crate) stack: JkList,
    pub(crate) queue: JkList,
    pub(crate) dict: JkDict,
}

impl JkFiber {
    /// A fiber with an empty stack and queue and every built-in defined.
    pub fn new() -> (r: JkFiber)
        ensures
            r.wf(),
            r.view().stack == Seq::<Value>::empty(),
            r.view().queue == Seq::<Value>::empty(),
            has_builtins(r.view().dict),
            forall|k: Seq<char>| #[trigger]
                r.view().dict.contains_key(k) ==> builtin_of_name(k) is Some,
    {
        JkFiber { stack: JkList::new(), queue: JkList::new(), dict: builtin_dict() }
    }

    pub closed spec fn wf(&self) -> bool {
        self.dict.wf()
    }

    pub closed spec fn view(&self) -> Machine {
        Machine { stack: self.stack@, queue: self.queue@, dict: self.dict.view() }
    }

    pub fn push(&mut self, p: JkProgram)
        requires
            old(self).wf(),
        ensures
            final(self).wf(),
            final(self).view() == old(self).view().push(p@),
    {
        self.stack.push_back(p);
    }

    pub fn pop(&mut self) -> (r: Result<JkProgram, JkError>)
        requires
            old(self).wf(),
        ensures
            final(self).wf(),
            old(self).view().stack.len() == 0 ==> r is Err && r->Err_0@ == Fault::StackUnderflow
                && final(self).view() == old(self).view(),
            old(self).view().stack.len() > 0 ==> r is Ok && r->Ok_0@ == old(
                self,
            ).view().stack.last() && final(self).view() == old(self).view().with_stack(
                old(self).view().stack.drop_last(),
            ),
    {
        match self.stack.pop_back() {
            Some(p) => Ok(p),
            None => Err(JkError::StackUnderflow),
        }
    }

    pub fn pop_queue(&mut self) -> (r: Option<JkProgram>)
        requires
            old(self).wf(),
        ensures
            final(self).wf(),
            old(self).view().queue.len() == 0 ==> r is None && final(self).view() == old(
                self,
            ).view(),
            old(self).view().queue.len() > 0 ==> r is Some && r->0@ == old(self).view().queue[0]
                && final(self).view() == old(self).view().with_queue(
                old(self).view().queue.drop_first(),
            ),
    {
        self.queue.pop_front()
    }

    pub fn prepend_queue(&mut self, l: JkList)
        requires
            old(self).wf(),
        ensures
            final(self).wf(),
            final(self).view() == old(self).view().with_queue(l@ + old(self).view().queue),
    {
        self.queue.prepend(l);
    }

    pub fn append_queue(&mut self, l: JkList)
        requires
            old(self).wf(),
        ensures
            final(self).wf(),
            final(self).view() == old(self).view().with_queue(old(self).view().queue + l@),
    {
        self.queue.append(l);
    }

    /// Binds `name` to `body` in the word table.
    pub fn define_word(&mut self, name: String, body: JkList)
        requires
            old(self).wf(),
        ensures
            final(self).wf(),
            final(self).view() == (Machine {
                dict: old(self).view().dict.insert(name@, body@),
                ..old(self).view()
            }),
    {
        self.dict.insert(name, body);
    }

    /// Empties the stack and the queue; the word table stays.
    pub fn clear(&mut self)
        requires
            old(self).wf(),
        ensures
            final(self).wf(),
            final(self).view() == old(self).view().with_stack(Seq::empty()).with_queue(
                Seq::empty(),
            ),
    {
        self.stack = JkList::new();
        self.queue = JkList::new();
    }

    /// A copy of the definition of `w`.
    pub fn lookup(&self, w: &String) -> (r: Option<JkList>)
        requires
            self.wf(),
        ensures
            r is Some == self.view().dict.contains_key(w@),
            r is Some ==> r->0@ == self.view().dict[w@],
    {
        match self.dict.get(w) {
            Some(l) => Some(l.clone()),
            None => None,
        }
    }

    /// The state shown after a line has run: `* <stack> : <queue>`.
    pub fn snapshot(&self) -> (r: String)
        ensures
            r@ == "* "@ + show_list(self.view().stack) + " : "@ + show_list(self.view().queue),
    {
        let mut out = String::from_str("* ");
        self.stack.write_to(&mut out);
        out.append(" : ");
        self.queue.write_to(&mut out);
        out
    }

    /// Parses `text` and appends its atoms to the queue; on a parse error the
    /// fiber is left as it was.
    pub fn enqueue(&mut self, text: &str) -> (r: Result<(), JkError>)
        requires
            old(self).wf(),
        ensures
            final(self).wf(),
            match parse_text(text@) {
                Some(vs) => r is Ok && final(self).view() == old(self).view().with_queue(
                    old(self).view().queue + vs,
                ),
                None => r is Err && r->Err_0@ == Fault::ParseError && final(self).view() == old(
                    self,
                ).view(),
            },
    {
        let parsed = parse(text)?;
        self.append_queue(parsed);
        Ok(())
    }

    /// Number of atoms still waiting in the queue.
    pub fn pending(&self) -> (r: usize)
        ensures
            r == self.view().queue.len(),
    {
        self.queue.size()
    }
}

} // verus!
