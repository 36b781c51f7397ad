//! Atoms, the values of the language, and lists of them.
use std::collections::VecDeque;
use vstd::prelude::*;
use vstd::std_specs::vecdeque::VecDequeAdditionalSpecFns;

use crate::render::{char_text, show, show_items, show_list, write_int};
use crate::words::name_of;

verus! {

/// The native operations of the language, one variant per built-in word.
#[derive(Debug, Clone, Copy, PartialEq, Eq, Structural)]
pub enum Builtin {
    Add,
    Sub,
    Mul,
    Div,
    Modulo,
    Lt,
    Gt,
    Lte,
    Gte,
    And,
    Or,
    Not,
    Dup,
    Swap,
    Drop,
    Quote,
    Cat,
    Apply,
    Dip,
    Cons,
    Uncons,
    Over,
    Dig,
    Bury,
    Nip,
    Ifte,
    Def,
    Load,
    Eq,
    Head,
    Tail,
    Empty,
    Reset,
    Iota,
    Print,
    Println,
}

/// One value of the language.
///
/// A float is kept as the decimal text that denotes it: its arithmetic is
/// carried out by the host, which reads and writes that text.
#[derive(Debug)]
pub enum JkProgram {
    JkBuiltin(Builtin),
    JkInt(i64),
    JkFloat(String),
    JkBool(bool),
    JkChar(char),
    JkWord(String),
    JkString(String),
    JkQuotation(JkList),
}

/// An ordered, double-ended sequence of atoms: stack, pending queue and
/// quotation body alike.
#[derive(Debug)]
pub struct JkList(VecDeque<JkProgram>);

/// The mathematical value of an atom: strings are character sequences and a
/// quotation is the sequence of the values it holds.
pub enum Value {
    Builtin(Builtin),
    Int(i64),
    Float(Seq<char>),
    Bool(bool),
    Char(char),
    Word(Seq<char>),
    Str(Seq<char>),
    Quotation(Seq<Value>),
}

broadcast use vstd::std_specs::vecdeque::axiom_vec_dequeue_index_decreases;

impl View for JkProgram {
    type V = Value;

    open spec fn view(&self) -> Value
        decreases self,
    {
        match self {
            JkProgram::JkBuiltin(b) => Value::Builtin(*b),
            JkProgram::JkInt(i) => Value::Int(*i),
            JkProgram::JkFloat(f) => Value::Float(f@),
            JkProgram::JkBool(b) => Value::Bool(*b),
            JkProgram::JkChar(c) => Value::Char(*c),
            JkProgram::JkWord(w) => Value::Word(w@),
            JkProgram::JkString(s) => Value::Str(s@),
            JkProgram::JkQuotation(q) => Value::Quotation(q.view()),
        }
    }
}

impl View for JkList {
    type V = Seq<Value>;

    closed spec fn view(&self) -> Seq<Value>
        decreases self,
    {
        Seq::new(
            self.0@.len(),
            |i: int|
                if 0 <= i < self.0.len() {
                    self.0[i].view()
                } else {
                    Value::Int(0)
                },
        )
    }
}

impl Clone for JkProgram {
    fn clone(&self) -> (r: Self)
        ensures
            r@ == self@,
        decreases self,
    {
        match self {
            JkProgram::JkBuiltin(b) => JkProgram::JkBuiltin(*b),
            JkProgram::JkInt(i) => JkProgram::JkInt(*i),
            JkProgram::JkFloat(f) => JkProgram::JkFloat(f.clone()),
            JkProgram::JkBool(b) => JkProgram::JkBool(*b),
            JkProgram::JkChar(c) => JkProgram::JkChar(*c),
            JkProgram::JkWord(w) => JkProgram::JkWord(w.clone()),
            JkProgram::JkString(s) => JkProgram::JkString(s.clone()),
            JkProgram::JkQuotation(q) => JkProgram::JkQuotation(q.clone()),
        }
    }
}

impl Clone for JkList {
    fn clone(&self) -> (r: Self)
        ensures
            r@ == self@,
        decreases self,
    {
        let mut v: VecDeque<JkProgram> = VecDeque::new();
        let n = self.0.len();
        let mut i: usize = 0;
        while i < n
            invariant
                n == self.0@.len(),
                i <= n,
                v.len() == i,
                forall|k: int| 0 <= k < i ==> (#[trigger] v[k])@ == self.0[k]@,
            decreases n - i,
        {
            proof {
                broadcast use vstd::std_specs::vecdeque::axiom_vec_dequeue_index_decreases;
                assert(decreases_to!(self => self.0));
                assert(decreases_to!(self.0 => self.0[i as int]));
            }
            let a = self.0[i].clone();
            v.push_back(a);
            i = i + 1;
        }
        let r = JkList(v);
        assert(r@ =~= self@);
        r
    }
}

impl JkList {
    pub fn new() -> (r: JkList)
        ensures
            r@ == Seq::<Value>::empty(),
    {
        let r = JkList(VecDeque::new());
        assert(r@ =~= Seq::<Value>::empty());
        r
    }

    /// A list of one atom.
    pub fn from_program(p: JkProgram) -> (r: JkList)
        ensures
            r@ == seq![p@],
    {
        let mut r = JkList::new();
        r.push_back(p);
        assert(r@ =~= seq![p@]);
        r
    }

    pub fn push_back(&mut self, p: JkProgram)
        ensures
            final(self)@ == old(self)@.push(p@),
    {
        self.0.push_back(p);
        assert(self@ =~= old(self)@.push(p@));
    }

    pub fn push_front(&mut self, p: JkProgram)
        ensures
            final(self)@ == seq![p@] + old(self)@,
    {
        self.0.push_front(p);
        assert(self@ =~= seq![p@] + old(self)@);
    }

    /// Splices `p` before the current contents, keeping the order of both.
    pub fn prepend(&mut self, p: JkList)
        ensures
            final(self)@ == p@ + old(self)@,
    {
        let ghost pv = p@;
        let mut p = p;
        p.0.append(&mut self.0);
        self.0 = p.0;
        assert(self@ =~= pv + old(self)@);
    }

    /// Extends the list at its back with the contents of `p`.
    pub fn append(&mut self, p: JkList)
        ensures
            final(self)@ == old(self)@ + p@,
    {
        let ghost pv = p@;
        let mut p = p;
        self.0.append(&mut p.0);
        assert(self@ =~= old(self)@ + pv);
    }

    pub fn pop_back(&mut self) -> (r: Option<JkProgram>)
        ensures
            old(self)@.len() == 0 ==> r is None && final(self)@ == old(self)@,
            old(self)@.len() > 0 ==> r is Some && r->0@ == old(self)@.last() && final(self)@
                == old(self)@.drop_last(),
    {
        let r = self.0.pop_back();
        assert(self@ =~= old(self)@.drop_last() || old(self)@.len() == 0);
        assert(old(self)@.len() == 0 ==> self@ =~= old(self)@);
        r
    }

    pub fn pop_front(&mut self) -> (r: Option<JkProgram>)
        ensures
            old(self)@.len() == 0 ==> r is None && final(self)@ == old(self)@,
            old(self)@.len() > 0 ==> r is Some && r->0@ == old(self)@[0] && final(self)@
                == old(self)@.drop_first(),
    {
        let r = self.0.pop_front();
        assert(self@ =~= old(self)@.drop_first() || old(self)@.len() == 0);
        assert(old(self)@.len() == 0 ==> self@ =~= old(self)@);
        r
    }

    pub fn size(&self) -> (r: usize)
        ensures
            r == self@.len(),
    {
        self.0.len()
    }
}

impl JkProgram {
    /// Appends how the atom is shown to the user.
    pub fn write_to(&self, out: &mut String)
        ensures
            final(out)@ == old(out)@ + show(self@),
        decreases self,
    {
        match self {
            JkProgram::JkBuiltin(b) => {
                out.append("<builtin ");
                out.append(name_of(*b));
                out.append(">");
            },
            JkProgram::JkInt(i) => write_int(out, *i),
            JkProgram::JkFloat(f) => out.append(f.as_str()),
            JkProgram::JkBool(b) => {
                if *b {
                    out.append("true");
                } else {
                    out.append("false");
                }
            },
            JkProgram::JkChar(c) => {
                out.append("'");
                out.append(char_text(*c).as_str());
                out.append("'");
            },
            JkProgram::JkWord(w) => out.append(w.as_str()),
            JkProgram::JkString(t) => {
                out.append("\"");
                out.append(t.as_str());
                out.append("\"");
            },
            JkProgram::JkQuotation(q) => q.write_to(out),
        }
        proof {
            assert(final(out)@ =~= old(out)@ + show(self@));
        }
    }

    /// How the atom is shown to the user.
    pub fn to_text(&self) -> (r: String)
        ensures
            r@ == show(self@),
    {
        let mut out = String::new();
        self.write_to(&mut out);
        assert(out@ =~= show(self@));
        out
    }
}

impl JkList {
    /// Appends how the list is shown to the user: its atoms between brackets,
    /// separated by commas.
    pub fn write_to(&self, out: &mut String)
        ensures
            final(out)@ == old(out)@ + show_list(self@),
        decreases self,
    {
        out.append("[");
        let n = self.0.len();
        let mut i: usize = 0;
        while i < n
            invariant
                n == self.0@.len(),
                n == self@.len(),
                i <= n,
                out@ == old(out)@ + "["@ + show_items(self@.take(i as int)),
            decreases n - i,
        {
            proof {
                assert(decreases_to!(self => self.0));
                assert(decreases_to!(self.0 => self.0[i as int]));
            }
            let ghost before = out@;
            if i > 0 {
                out.append(", ");
            }
            self.0[i].write_to(out);
            proof {
                let t = self@.take(i + 1);
                assert(self@[i as int] == self.0[i as int]@);
                assert(t.drop_last() =~= self@.take(i as int));
                assert(t.last() == self@[i as int]);
                if i == 0 {
                    assert(t.len() == 1);
                    assert(out@ =~= old(out)@ + "["@ + show_items(t));
                } else {
                    assert(out@ =~= old(out)@ + "["@ + show_items(t));
                }
            }
            i = i + 1;
        }
        out.append("]");
        proof {
            assert(self@.take(n as int) =~= self@);
            assert(out@ =~= old(out)@ + show_list(self@));
        }
    }

    /// How the list is shown to the user.
    pub fn to_text(&self) -> (r: String)
        ensures
            r@ == show_list(self@),
    {
        let mut out = String::new();
        self.write_to(&mut out);
        assert(out@ =~= show_list(self@));
        out
    }
}

} // verus!
