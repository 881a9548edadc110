//! Exceptions: named kinds with an optional message and a traceback, and the
//! table of the built-in kinds.

use std::rc::Rc;
use vstd::prelude::*;
use vstd::string::StringExecFns;
use crate::text::{share, str_eq};

verus! {

/// An exception: the kind's name, the kinds it descends from, and, once
/// raised, a message and the lines of its traceback.
#[derive(Debug)]
pub struct PyException {
    pub name: &'static str,
    pub message: Option<String>,
    pub traceback: Option<Vec<String>>,
    pub super_exceptions: Vec<Rc<PyException>>,
}

/// What an exception is, apart from how its vectors are stored.
pub struct PyExceptionView {
    pub name: Seq<char>,
    pub message: Option<Seq<char>>,
    pub traceback: Option<Seq<Seq<char>>>,
    pub parents: Seq<Rc<PyException>>,
}

impl View for PyException {
    type V = PyExceptionView;

    open spec fn view(&self) -> PyExceptionView {
        PyExceptionView {
            name: self.name@,
            message: match self.message {
                Some(text) => Some(text@),
                None => None,
            },
            traceback: match self.traceback {
                Some(lines) => Some(lines@.map_values(|line: String| line@)),
                None => None,
            },
            parents: self.super_exceptions@,
        }
    }
}

impl PyExceptionView {
    /// The lines of the traceback; none before the first is added.
    pub open spec fn trace_lines(self) -> Seq<Seq<char>> {
        match self.traceback {
            Some(lines) => lines,
            None => Seq::empty(),
        }
    }

    /// The last line of the rendered exception: the kind's name, followed by
    /// the message where there is one.
    pub open spec fn summary(self) -> Seq<char> {
        match self.message {
            Some(text) => self.name + ": "@ + text,
            None => self.name,
        }
    }

    /// The exception as it is shown to the user.
    pub open spec fn rendered(self) -> Seq<char> {
        "Traceback (most recent call last):
"@ + traceback_text(self.trace_lines(), 0) + self.summary()
    }

    /// Whether the two exceptions are of the same kind: kinds are told apart
    /// by name alone.
    pub open spec fn same_kind(self, other: PyExceptionView) -> bool {
        self.name == other.name
    }

    /// A kind as the table of built-in kinds holds it: never raised, so
    /// without message or traceback.
    pub open spec fn kind(name: Seq<char>, parents: Seq<Rc<PyException>>) -> PyExceptionView {
        PyExceptionView { name, message: None, traceback: None, parents }
    }

    /// This exception with `message` in place of its own.
    pub open spec fn with_message(self, message: Seq<char>) -> PyExceptionView {
        PyExceptionView { message: Some(message), ..self }
    }

    /// This exception with `trace` added at the end of its traceback.
    pub open spec fn with_trace(self, trace: Seq<char>) -> PyExceptionView {
        PyExceptionView { traceback: Some(self.trace_lines().push(trace)), ..self }
    }
}

/// The characters that `lines[from..]` contribute to a rendered traceback:
/// each line on a row of its own, behind a tab.
pub open spec fn traceback_text(lines: Seq<Seq<char>>, from: int) -> Seq<char>
    decreases lines.len() - from,
{
    if from < 0 || from >= lines.len() {
        Seq::<char>::empty()
    } else {
        "\n\t"@ + lines[from] + traceback_text(lines, from + 1)
    }
}

impl Clone for PyException {
    fn clone(&self) -> (r: Self)
        ensures
            r@ == self@,
    {
        let traceback = match &self.traceback {
            Some(lines) => Some(clone_lines(lines)),
            None => None,
        };
        let message = match &self.message {
            Some(text) => Some(text.clone()),
            None => None,
        };
        PyException {
            name: self.name,
            message,
            traceback,
            super_exceptions: clone_kinds(&self.super_exceptions),
        }
    }
}

fn clone_lines(lines: &Vec<String>) -> (r: Vec<String>)
    ensures
        r@ == lines@,
{
    let mut copy: Vec<String> = Vec::new();
    let mut i: usize = 0;
    while i < lines.len()
        invariant
            i <= lines.len(),
            copy@ == lines@.take(i as int),
        decreases lines.len() - i,
    {
        copy.push(lines[i].clone());
        assert(copy@ =~= lines@.take(i + 1));
        i += 1;
    }
    assert(copy@ =~= lines@);
    copy
}

fn clone_kinds(kinds: &Vec<Rc<PyException>>) -> (r: Vec<Rc<PyException>>)
    ensures
        r@ == kinds@,
{
    let mut copy: Vec<Rc<PyException>> = Vec::new();
    let mut i: usize = 0;
    while i < kinds.len()
        invariant
            i <= kinds.len(),
            copy@ == kinds@.take(i as int),
        decreases kinds.len() - i,
    {
        copy.push(share(&kinds[i]));
        assert(copy@ =~= kinds@.take(i + 1));
        i += 1;
    }
    assert(copy@ =~= kinds@);
    copy
}

impl PyException {
    /// Whether the exception is of the kind named `kind` or of a kind that
    /// descends from it, through any of its declared parents.
    pub open spec fn descends_from(&self, kind: Seq<char>) -> bool
        decreases self,
    {
        self.name@ == kind || exists|i: int|
            0 <= i < self.super_exceptions@.len() && (#[trigger] self.super_exceptions@[i]).descends_from(kind)
    }

    /// A new kind named `name` that descends from `super_exception`.
    pub fn new(name: &'static str, super_exception: Vec<Rc<PyException>>) -> (r: Rc<PyException>)
        ensures
            r@ == PyExceptionView::kind(name@, super_exception@),
    {
        Rc::new(PyException { name, message: None, traceback: None, super_exceptions: super_exception })
    }

    /// An exception of this kind that carries `message`.
    pub fn instantiate(&self, message: String) -> (r: PyException)
        ensures
            r@ == self@.with_message(message@),
    {
        let mut new_exception = self.clone();
        new_exception.message = Some(message);
        new_exception
    }

    /// An exception of this kind as it stands, without a new message.
    pub fn empty(&self) -> (r: PyException)
        ensures
            r@ == self@,
    {
        self.clone()
    }

    /// Appends `trace` to the traceback.
    pub fn add_trace(&mut self, trace: String)
        ensures
            final(self)@ == old(self)@.with_trace(trace@),
    {
        let ghost before = self@;
        let mut lines = match self.traceback.take() {
            Some(lines) => lines,
            None => Vec::new(),
        };
        lines.push(trace);
        self.traceback = Some(lines);
        assert(self@.traceback.unwrap() =~= before.trace_lines().push(trace@));
    }

    /// Whether `exception` is of the same kind as this one.
    pub fn is_same_type(&self, exception: &PyException) -> (r: bool)
        ensures
            r == self@.same_kind(exception@),
    {
        str_eq(self.name, exception.name)
    }

    /// The exception as it is shown to the user: a header, the traceback
    /// lines, then the kind and the message.
    pub fn to_string(&self) -> (r: String)
        ensures
            r@ == self@.rendered(),
    {
        let mut text = String::from_str("Traceback (most recent call last):\n");
        let ghost shown = self@.trace_lines();
        if let Some(lines) = &self.traceback {
            let mut i: usize = 0;
            while i < lines.len()
                invariant
                    i <= lines.len(),
                    self@.trace_lines() == shown,
                    shown.len() == lines.len(),
                    forall|j: int| 0 <= j < lines.len() ==> shown[j] == (#[trigger] lines@[j])@,
                    text@ + traceback_text(shown, i as int) == "Traceback (most recent call last):\n"@
                        + traceback_text(shown, 0),
                decreases lines.len() - i,
            {
                let ghost before = text@;
                text.append("\n\t");
                text.append(lines[i].as_str());
                assert(text@ + traceback_text(shown, i + 1) =~= before + traceback_text(shown, i as int));
                i += 1;
            }
            assert(text@ =~= text@ + traceback_text(shown, i as int));
        } else {
            assert(text@ =~= text@ + traceback_text(shown, 0));
        }
        let ghost head = text@;
        text.append(self.name);
        if let Some(message) = &self.message {
            text.append(": ");
            text.append(message.as_str());
        }
        assert(text@ =~= head + self@.summary());
        text
    }
}

/// The built-in exception kinds.
#[derive(Debug)]
pub struct Exceptions {
    pub base_exception: Rc<PyException>,
    pub generator_exit: Rc<PyException>,
    pub system_exit: Rc<PyException>,
    pub keyboard_interrupt: Rc<PyException>,
    pub exception: Rc<PyException>,
    pub arithmatic_error: Rc<PyException>,
    pub overflow_error: Rc<PyException>,
    pub zero_division_error: Rc<PyException>,
    pub assertion_error: Rc<PyException>,
    pub attribute_error: Rc<PyException>,
    pub buffer_error: Rc<PyException>,
    pub eof_error: Rc<PyException>,
    pub import_error: Rc<PyException>,
    pub lookup_error: Rc<PyException>,
    pub index_error: Rc<PyException>,
    pub key_error: Rc<PyException>,
    pub memory_error: Rc<PyException>,
    pub name_error: Rc<PyException>,
    pub os_error: Rc<PyException>,
    pub reference_error: Rc<PyException>,
    pub runtime_error: Rc<PyException>,
    pub not_implemented_error: Rc<PyException>,
    pub recursion_error: Rc<PyException>,
    pub stop_async_iteration: Rc<PyException>,
    pub stop_iteration: Rc<PyException>,
    pub syntax_error: Rc<PyException>,
    pub system_error: Rc<PyException>,
    pub type_error: Rc<PyException>,
    pub value_error: Rc<PyException>,
}

impl Exceptions {
    /// The kinds of the table, in declaration order.
    pub open spec fn kinds(self) -> Seq<PyExceptionView> {
        seq![
            self.base_exception@,
            self.generator_exit@,
            self.system_exit@,
            self.keyboard_interrupt@,
            self.exception@,
            self.arithmatic_error@,
            self.overflow_error@,
            self.zero_division_error@,
            self.assertion_error@,
            self.attribute_error@,
            self.buffer_error@,
            self.eof_error@,
            self.import_error@,
            self.lookup_error@,
            self.index_error@,
            self.key_error@,
            self.memory_error@,
            self.name_error@,
            self.os_error@,
            self.reference_error@,
            self.runtime_error@,
            self.not_implemented_error@,
            self.recursion_error@,
            self.stop_async_iteration@,
            self.stop_iteration@,
            self.syntax_error@,
            self.system_error@,
            self.type_error@,
            self.value_error@,
        ]
    }

    /// The table holds the documented hierarchy: each kind under its name,
    /// descending from its documented parents, all of them rooted at
    /// `BaseException`.
    pub open spec fn wf(self) -> bool {
        &&& self.base_exception@ == PyExceptionView::kind("BaseException"@, Seq::<Rc<PyException>>::empty())
        &&& self.generator_exit@ == PyExceptionView::kind("GeneratorExit"@, seq![self.base_exception])
        &&& self.system_exit@ == PyExceptionView::kind("SystemExit"@, seq![self.base_exception])
        &&& self.keyboard_interrupt@ == PyExceptionView::kind("KeyboardInterrupt"@, seq![self.base_exception])
        &&& self.exception@ == PyExceptionView::kind("Exception"@, seq![self.base_exception])
        &&& self.arithmatic_error@ == PyExceptionView::kind("ArithmeticError"@, seq![self.exception])
        &&& self.overflow_error@ == PyExceptionView::kind("OverflowError"@, seq![self.arithmatic_error])
        &&& self.zero_division_error@ == PyExceptionView::kind("ZeroDivisionError"@, seq![self.arithmatic_error])
        &&& self.assertion_error@ == PyExceptionView::kind("AssertionError"@, seq![self.exception])
        &&& self.attribute_error@ == PyExceptionView::kind("AttributeError"@, seq![self.exception])
        &&& self.buffer_error@ == PyExceptionView::kind("BufferError"@, seq![self.exception])
        &&& self.eof_error@ == PyExceptionView::kind("EOFError"@, seq![self.exception])
        &&& self.import_error@ == PyExceptionView::kind("ImportError"@, seq![self.exception])
        &&& self.lookup_error@ == PyExceptionView::kind("LookupError"@, seq![self.exception])
        &&& self.index_error@ == PyExceptionView::kind("IndexError"@, seq![self.lookup_error])
        &&& self.key_error@ == PyExceptionView::kind("KeyError"@, seq![self.lookup_error])
        &&& self.memory_error@ == PyExceptionView::kind("MemoryError"@, seq![self.exception])
        &&& self.name_error@ == PyExceptionView::kind("NameError"@, seq![self.exception])
        &&& self.os_error@ == PyExceptionView::kind("OSError"@, seq![self.exception])
        &&& self.reference_error@ == PyExceptionView::kind("ReferenceError"@, seq![self.exception])
        &&& self.runtime_error@ == PyExceptionView::kind("RuntimeError"@, seq![self.exception])
        &&& self.not_implemented_error@ == PyExceptionView::kind("NotImplementedError"@, seq![self.runtime_error])
        &&& self.recursion_error@ == PyExceptionView::kind("RecursionError"@, seq![self.runtime_error])
        &&& self.stop_async_iteration@ == PyExceptionView::kind("StopAsyncIteration"@, seq![self.exception])
        &&& self.stop_iteration@ == PyExceptionView::kind("StopIteration"@, seq![self.exception])
        &&& self.syntax_error@ == PyExceptionView::kind("SyntaxError"@, seq![self.exception])
        &&& self.system_error@ == PyExceptionView::kind("SystemError"@, seq![self.exception])
        &&& self.type_error@ == PyExceptionView::kind("TypeError"@, seq![self.exception])
        &&& self.value_error@ == PyExceptionView::kind("ValueError"@, seq![self.exception])
    }

    /// No two kinds of the table share a name, so a kind is recognised by
    /// its name.
    pub proof fn lemma_kinds_are_distinct(self, i: int, j: int)
        requires
            self.wf(),
            0 <= i < self.kinds().len(),
            0 <= j < self.kinds().len(),
            i != j,
        ensures
            !self.kinds()[i].same_kind(self.kinds()[j]),
    {
        reveal_strlit("BaseException");
        reveal_strlit("GeneratorExit");
        reveal_strlit("SystemExit");
        reveal_strlit("KeyboardInterrupt");
        reveal_strlit("Exception");
        reveal_strlit("ArithmeticError");
        reveal_strlit("OverflowError");
        reveal_strlit("ZeroDivisionError");
        reveal_strlit("AssertionError");
        reveal_strlit("AttributeError");
        reveal_strlit("BufferError");
        reveal_strlit("EOFError");
        reveal_strlit("ImportError");
        reveal_strlit("LookupError");
        reveal_strlit("IndexError");
        reveal_strlit("KeyError");
        reveal_strlit("MemoryError");
        reveal_strlit("NameError");
        reveal_strlit("OSError");
        reveal_strlit("ReferenceError");
        reveal_strlit("RuntimeError");
        reveal_strlit("NotImplementedError");
        reveal_strlit("RecursionError");
        reveal_strlit("StopAsyncIteration");
        reveal_strlit("StopIteration");
        reveal_strlit("SyntaxError");
        reveal_strlit("SystemError");
        reveal_strlit("TypeError");
        reveal_strlit("ValueError");
        let x = self.kinds()[i].name;
        let y = self.kinds()[j].name;
        assert(x.len() != y.len() || x[2] != y[2]);
    }

    /// The kinds of the table, as they are stored.
    pub open spec fn stored(self) -> Seq<Rc<PyException>> {
        seq![
            self.base_exception,
            self.generator_exit,
            self.system_exit,
            self.keyboard_interrupt,
            self.exception,
            self.arithmatic_error,
            self.overflow_error,
            self.zero_division_error,
            self.assertion_error,
            self.attribute_error,
            self.buffer_error,
            self.eof_error,
            self.import_error,
            self.lookup_error,
            self.index_error,
            self.key_error,
            self.memory_error,
            self.name_error,
            self.os_error,
            self.reference_error,
            self.runtime_error,
            self.not_implemented_error,
            self.recursion_error,
            self.stop_async_iteration,
            self.stop_iteration,
            self.syntax_error,
            self.system_error,
            self.type_error,
            self.value_error,
        ]
    }

    /// Every kind of the table is rooted at `BaseException`.
    pub proof fn lemma_kinds_are_rooted(self, i: int)
        requires
            self.wf(),
            0 <= i < self.stored().len(),
        ensures
            self.stored()[i].descends_from("BaseException"@),
    {
        let root = "BaseException"@;
        assert(self.base_exception.descends_from(root));
        assert(self.exception.super_exceptions@[0] == self.base_exception);
        assert(self.exception.descends_from(root));
        assert(self.arithmatic_error.super_exceptions@[0] == self.exception);
        assert(self.arithmatic_error.descends_from(root));
        assert(self.lookup_error.super_exceptions@[0] == self.exception);
        assert(self.lookup_error.descends_from(root));
        assert(self.runtime_error.super_exceptions@[0] == self.exception);
        assert(self.runtime_error.descends_from(root));
        let kind = self.stored()[i];
        if kind.name@ != root {
            assert(kind.super_exceptions@.len() == 1);
            assert(kind.super_exceptions@[0].descends_from(root));
        }
    }

    /// Builds the table of built-in kinds.
    pub fn new() -> (r: Self)
        ensures
            r.wf(),
    {
        let base_exception = PyException::new("BaseException", Vec::new());
        let generator_exit = PyException::new("GeneratorExit", vec![share(&base_exception)]);
        assert(generator_exit@.parents =~= seq![base_exception]);
        let system_exit = PyException::new("SystemExit", vec![share(&base_exception)]);
        assert(system_exit@.parents =~= seq![base_exception]);
        let keyboard_interrupt = PyException::new("KeyboardInterrupt", vec![share(&base_exception)]);
        assert(keyboard_interrupt@.parents =~= seq![base_exception]);
        let exception = PyException::new("Exception", vec![share(&base_exception)]);
        assert(exception@.parents =~= seq![base_exception]);
        let arithmatic_error = PyException::new("ArithmeticError", vec![share(&exception)]);
        assert(arithmatic_error@.parents =~= seq![exception]);
        let overflow_error = PyException::new("OverflowError", vec![share(&arithmatic_error)]);
        assert(overflow_error@.parents =~= seq![arithmatic_error]);
        let zero_division_error = PyException::new("ZeroDivisionError", vec![share(&arithmatic_error)]);
        assert(zero_division_error@.parents =~= seq![arithmatic_error]);
        let assertion_error = PyException::new("AssertionError", vec![share(&exception)]);
        assert(assertion_error@.parents =~= seq![exception]);
        let attribute_error = PyException::new("AttributeError", vec![share(&exception)]);
        assert(attribute_error@.parents =~= seq![exception]);
        let buffer_error = PyException::new("BufferError", vec![share(&exception)]);
        assert(buffer_error@.parents =~= seq![exception]);
        let eof_error = PyException::new("EOFError", vec![share(&exception)]);
        assert(eof_error@.parents =~= seq![exception]);
        let import_error = PyException::new("ImportError", vec![share(&exception)]);
        assert(import_error@.parents =~= seq![exception]);
        let lookup_error = PyException::new("LookupError", vec![share(&exception)]);
        assert(lookup_error@.parents =~= seq![exception]);
        let index_error = PyException::new("IndexError", vec![share(&lookup_error)]);
        assert(index_error@.parents =~= seq![lookup_error]);
        let key_error = PyException::new("KeyError", vec![share(&lookup_error)]);
        assert(key_error@.parents =~= seq![lookup_error]);
        let memory_error = PyException::new("MemoryError", vec![share(&exception)]);
        assert(memory_error@.parents =~= seq![exception]);
        let name_error = PyException::new("NameError", vec![share(&exception)]);
        assert(name_error@.parents =~= seq![exception]);
        let os_error = PyException::new("OSError", vec![share(&exception)]);
        assert(os_error@.parents =~= seq![exception]);
        let reference_error = PyException::new("ReferenceError", vec![share(&exception)]);
        assert(reference_error@.parents =~= seq![exception]);
        let runtime_error = PyException::new("RuntimeError", vec![share(&exception)]);
        assert(runtime_error@.parents =~= seq![exception]);
        let not_implemented_error = PyException::new("NotImplementedError", vec![share(&runtime_error)]);
        assert(not_implemented_error@.parents =~= seq![runtime_error]);
        let recursion_error = PyException::new("RecursionError", vec![share(&runtime_error)]);
        assert(recursion_error@.parents =~= seq![runtime_error]);
        let stop_async_iteration = PyException::new("StopAsyncIteration", vec![share(&exception)]);
        assert(stop_async_iteration@.parents =~= seq![exception]);
        let stop_iteration = PyException::new("StopIteration", vec![share(&exception)]);
        assert(stop_iteration@.parents =~= seq![exception]);
        let syntax_error = PyException::new("SyntaxError", vec![share(&exception)]);
        assert(syntax_error@.parents =~= seq![exception]);
        let system_error = PyException::new("SystemError", vec![share(&exception)]);
        assert(system_error@.parents =~= seq![exception]);
        let type_error = PyException::new("TypeError", vec![share(&exception)]);
        assert(type_error@.parents =~= seq![exception]);
        let value_error = PyException::new("ValueError", vec![share(&exception)]);
        assert(value_error@.parents =~= seq![exception]);
        Exceptions {
            base_exception,
            generator_exit,
            system_exit,
            keyboard_interrupt,
            exception,
            arithmatic_error,
            overflow_error,
            zero_division_error,
            assertion_error,
            attribute_error,
            buffer_error,
            eof_error,
            import_error,
            lookup_error,
            index_error,
            key_error,
            memory_error,
            name_error,
            os_error,
            reference_error,
            runtime_error,
            not_implemented_error,
            recursion_error,
            stop_async_iteration,
            stop_iteration,
            syntax_error,
            system_error,
            type_error,
            value_error,
        }
    }
}

} // verus!
