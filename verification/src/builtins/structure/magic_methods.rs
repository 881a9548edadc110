//! The magic methods: the named protocol hooks that a class may define, and
//! the table that holds a class's native implementations of them.

use vstd::prelude::*;
use crate::builtins::structure::native::PyInternalFunction;
use crate::text::str_eq;

verus! {

/// A magic method. The arithmetic ones come in a forward and a reflected
/// form, told apart by `right`.
#[derive(Clone, Copy, Debug, PartialEq, Eq, Structural)]
pub enum PyMagicMethod {
    New,
    Init,
    Str,
    Repr,
    Add { right: bool },
    Sub { right: bool },
    Mul { right: bool },
    TrueDiv { right: bool },
    Pow { right: bool },
    Int,
    Bytes,
    Bool,
    Float,
    Iter,
    Next,
    Eq,
    Ne,
    Lt,
    Le,
    Gt,
    Ge,
    Contains,
}

impl PyMagicMethod {
    /// The attribute name under which the method is looked up, such as
    /// `__add__` or `__radd__`.
    pub open spec fn name(self) -> Seq<char> {
        match self {
            PyMagicMethod::New => "__new__"@,
            PyMagicMethod::Init => "__init__"@,
            PyMagicMethod::Str => "__str__"@,
            PyMagicMethod::Repr => "__repr__"@,
            PyMagicMethod::Add { right: false } => "__add__"@,
            PyMagicMethod::Add { right: true } => "__radd__"@,
            PyMagicMethod::Sub { right: false } => "__sub__"@,
            PyMagicMethod::Sub { right: true } => "__rsub__"@,
            PyMagicMethod::Mul { right: false } => "__mul__"@,
            PyMagicMethod::Mul { right: true } => "__rmul__"@,
            PyMagicMethod::TrueDiv { right: false } => "__truediv__"@,
            PyMagicMethod::TrueDiv { right: true } => "__rtruediv__"@,
            PyMagicMethod::Pow { right: false } => "__pow__"@,
            PyMagicMethod::Pow { right: true } => "__rpow__"@,
            PyMagicMethod::Int => "__int__"@,
            PyMagicMethod::Bytes => "__bytes__"@,
            PyMagicMethod::Bool => "__bool__"@,
            PyMagicMethod::Float => "__float__"@,
            PyMagicMethod::Iter => "__iter__"@,
            PyMagicMethod::Next => "__next__"@,
            PyMagicMethod::Eq => "__eq__"@,
            PyMagicMethod::Ne => "__ne__"@,
            PyMagicMethod::Lt => "__lt__"@,
            PyMagicMethod::Le => "__le__"@,
            PyMagicMethod::Gt => "__gt__"@,
            PyMagicMethod::Ge => "__ge__"@,
            PyMagicMethod::Contains => "__contains__"@,
        }
    }

    /// The name of the operation, the same for both directions, as error
    /// messages show it.
    pub open spec fn title(self) -> Seq<char> {
        match self {
            PyMagicMethod::New => "New"@,
            PyMagicMethod::Init => "Init"@,
            PyMagicMethod::Str => "Str"@,
            PyMagicMethod::Repr => "Repr"@,
            PyMagicMethod::Add { .. } => "Add"@,
            PyMagicMethod::Sub { .. } => "Sub"@,
            PyMagicMethod::Mul { .. } => "Mul"@,
            PyMagicMethod::TrueDiv { .. } => "TrueDiv"@,
            PyMagicMethod::Pow { .. } => "Pow"@,
            PyMagicMethod::Int => "Int"@,
            PyMagicMethod::Bytes => "Bytes"@,
            PyMagicMethod::Bool => "Bool"@,
            PyMagicMethod::Float => "Float"@,
            PyMagicMethod::Iter => "Iter"@,
            PyMagicMethod::Next => "Next"@,
            PyMagicMethod::Eq => "Eq"@,
            PyMagicMethod::Ne => "Ne"@,
            PyMagicMethod::Lt => "Lt"@,
            PyMagicMethod::Le => "Le"@,
            PyMagicMethod::Gt => "Gt"@,
            PyMagicMethod::Ge => "Ge"@,
            PyMagicMethod::Contains => "Contains"@,
        }
    }

    /// Whether the method is a binary arithmetic operator.
    pub open spec fn is_arithmetic(self) -> bool {
        self is Add || self is Sub || self is Mul || self is TrueDiv || self is Pow
    }

    /// Whether the method is an equality or ordering comparison.
    pub open spec fn is_comparison(self) -> bool {
        self is Eq || self is Ne || self is Lt || self is Le || self is Gt || self is Ge
    }

    /// The reflected form of an arithmetic operator: the same operation with
    /// `right` set.
    pub open spec fn right_handed(self) -> PyMagicMethod
        recommends
            self.is_arithmetic(),
    {
        match self {
            PyMagicMethod::Add { .. } => PyMagicMethod::Add { right: true },
            PyMagicMethod::Sub { .. } => PyMagicMethod::Sub { right: true },
            PyMagicMethod::Mul { .. } => PyMagicMethod::Mul { right: true },
            PyMagicMethod::TrueDiv { .. } => PyMagicMethod::TrueDiv { right: true },
            PyMagicMethod::Pow { .. } => PyMagicMethod::Pow { right: true },
            other => other,
        }
    }

    /// The comparison that holds of `(b, a)` exactly when this one holds of
    /// `(a, b)`: the orderings swap direction, equality and inequality are
    /// their own mirrors.
    pub open spec fn mirrored(self) -> PyMagicMethod
        recommends
            self.is_comparison(),
    {
        match self {
            PyMagicMethod::Lt => PyMagicMethod::Gt,
            PyMagicMethod::Le => PyMagicMethod::Ge,
            PyMagicMethod::Gt => PyMagicMethod::Lt,
            PyMagicMethod::Ge => PyMagicMethod::Le,
            other => other,
        }
    }

    /// Every magic method, each direction of an arithmetic operator counted
    /// on its own, in declaration order.
    pub open spec fn every() -> Seq<PyMagicMethod> {
        seq![
            PyMagicMethod::New,
            PyMagicMethod::Init,
            PyMagicMethod::Str,
            PyMagicMethod::Repr,
            PyMagicMethod::Add { right: false },
            PyMagicMethod::Add { right: true },
            PyMagicMethod::Sub { right: false },
            PyMagicMethod::Sub { right: true },
            PyMagicMethod::Mul { right: false },
            PyMagicMethod::Mul { right: true },
            PyMagicMethod::TrueDiv { right: false },
            PyMagicMethod::TrueDiv { right: true },
            PyMagicMethod::Pow { right: false },
            PyMagicMethod::Pow { right: true },
            PyMagicMethod::Int,
            PyMagicMethod::Bytes,
            PyMagicMethod::Bool,
            PyMagicMethod::Float,
            PyMagicMethod::Iter,
            PyMagicMethod::Next,
            PyMagicMethod::Eq,
            PyMagicMethod::Ne,
            PyMagicMethod::Lt,
            PyMagicMethod::Le,
            PyMagicMethod::Gt,
            PyMagicMethod::Ge,
            PyMagicMethod::Contains,
        ]
    }

    /// No magic method is missing from `every()`.
    pub proof fn lemma_every_is_complete(m: PyMagicMethod)
        ensures
            Self::every().contains(m),
    {
        let all = Self::every();
        match m {
            PyMagicMethod::New => { assert(all[0] == m); }
            PyMagicMethod::Init => { assert(all[1] == m); }
            PyMagicMethod::Str => { assert(all[2] == m); }
            PyMagicMethod::Repr => { assert(all[3] == m); }
            PyMagicMethod::Add { right: false } => { assert(all[4] == m); }
            PyMagicMethod::Add { right: true } => { assert(all[5] == m); }
            PyMagicMethod::Sub { right: false } => { assert(all[6] == m); }
            PyMagicMethod::Sub { right: true } => { assert(all[7] == m); }
            PyMagicMethod::Mul { right: false } => { assert(all[8] == m); }
            PyMagicMethod::Mul { right: true } => { assert(all[9] == m); }
            PyMagicMethod::TrueDiv { right: false } => { assert(all[10] == m); }
            PyMagicMethod::TrueDiv { right: true } => { assert(all[11] == m); }
            PyMagicMethod::Pow { right: false } => { assert(all[12] == m); }
            PyMagicMethod::Pow { right: true } => { assert(all[13] == m); }
            PyMagicMethod::Int => { assert(all[14] == m); }
            PyMagicMethod::Bytes => { assert(all[15] == m); }
            PyMagicMethod::Bool => { assert(all[16] == m); }
            PyMagicMethod::Float => { assert(all[17] == m); }
            PyMagicMethod::Iter => { assert(all[18] == m); }
            PyMagicMethod::Next => { assert(all[19] == m); }
            PyMagicMethod::Eq => { assert(all[20] == m); }
            PyMagicMethod::Ne => { assert(all[21] == m); }
            PyMagicMethod::Lt => { assert(all[22] == m); }
            PyMagicMethod::Le => { assert(all[23] == m); }
            PyMagicMethod::Gt => { assert(all[24] == m); }
            PyMagicMethod::Ge => { assert(all[25] == m); }
            PyMagicMethod::Contains => { assert(all[26] == m); }
        }
    }

    /// Two different magic methods have different attribute names.
    pub proof fn lemma_names_are_distinct(a: PyMagicMethod, b: PyMagicMethod)
        requires
            a != b,
        ensures
            a.name() != b.name(),
    {
        reveal_strlit("__new__");
        reveal_strlit("__init__");
        reveal_strlit("__str__");
        reveal_strlit("__repr__");
        reveal_strlit("__add__");
        reveal_strlit("__radd__");
        reveal_strlit("__sub__");
        reveal_strlit("__rsub__");
        reveal_strlit("__mul__");
        reveal_strlit("__rmul__");
        reveal_strlit("__truediv__");
        reveal_strlit("__rtruediv__");
        reveal_strlit("__pow__");
        reveal_strlit("__rpow__");
        reveal_strlit("__int__");
        reveal_strlit("__bytes__");
        reveal_strlit("__bool__");
        reveal_strlit("__float__");
        reveal_strlit("__iter__");
        reveal_strlit("__next__");
        reveal_strlit("__eq__");
        reveal_strlit("__ne__");
        reveal_strlit("__lt__");
        reveal_strlit("__le__");
        reveal_strlit("__gt__");
        reveal_strlit("__ge__");
        reveal_strlit("__contains__");
        let x = a.name();
        let y = b.name();
        assert(x.len() != y.len() || x[2] != y[2] || x[3] != y[3]);
    }

    /// The method whose attribute name is `name`, if there is one.
    pub open spec fn named(name: Seq<char>) -> Option<PyMagicMethod> {
        if exists|m: PyMagicMethod| m.name() == name {
            Some(choose|m: PyMagicMethod| m.name() == name)
        } else {
            None
        }
    }

    /// Looking a method up by its own attribute name finds that method.
    pub proof fn lemma_named_round_trip(m: PyMagicMethod)
        ensures
            Self::named(m.name()) == Some(m),
    {
        let found = choose|x: PyMagicMethod| x.name() == m.name();
        if found != m {
            Self::lemma_names_are_distinct(found, m);
        }
    }

    /// The native implementation that `methods` holds for this method.
    pub fn get_method(&self, methods: &PyMagicMethods) -> (r: Option<PyInternalFunction>)
        ensures
            r == methods.slot(*self),
    {
        match self {
            PyMagicMethod::New => methods.__new__,
            PyMagicMethod::Init => methods.__init__,
            PyMagicMethod::Str => methods.__str__,
            PyMagicMethod::Repr => methods.__repr__,
            PyMagicMethod::Add { right: false } => methods.__add__,
            PyMagicMethod::Add { right: true } => methods.__radd__,
            PyMagicMethod::Sub { right: false } => methods.__sub__,
            PyMagicMethod::Sub { right: true } => methods.__rsub__,
            PyMagicMethod::Mul { right: false } => methods.__mul__,
            PyMagicMethod::Mul { right: true } => methods.__rmul__,
            PyMagicMethod::TrueDiv { right: false } => methods.__truediv__,
            PyMagicMethod::TrueDiv { right: true } => methods.__rtruediv__,
            PyMagicMethod::Pow { right: false } => methods.__pow__,
            PyMagicMethod::Pow { right: true } => methods.__rpow__,
            PyMagicMethod::Int => methods.__int__,
            PyMagicMethod::Bytes => methods.__bytes__,
            PyMagicMethod::Bool => methods.__bool__,
            PyMagicMethod::Float => methods.__float__,
            PyMagicMethod::Iter => methods.__iter__,
            PyMagicMethod::Next => methods.__next__,
            PyMagicMethod::Eq => methods.__eq__,
            PyMagicMethod::Ne => methods.__ne__,
            PyMagicMethod::Lt => methods.__lt__,
            PyMagicMethod::Le => methods.__le__,
            PyMagicMethod::Gt => methods.__gt__,
            PyMagicMethod::Ge => methods.__ge__,
            PyMagicMethod::Contains => methods.__contains__,
        }
    }

    /// The slot of `methods` that belongs to this method, for writing.
    pub fn get_method_mut<'a>(&self, methods: &'a mut PyMagicMethods) -> (r: &'a mut Option<PyInternalFunction>)
        ensures
            *r == old(methods).slot(*self),
            *final(methods) == old(methods).with_slot(*self, *final(r)),
    {
        match self {
            PyMagicMethod::New => &mut methods.__new__,
            PyMagicMethod::Init => &mut methods.__init__,
            PyMagicMethod::Str => &mut methods.__str__,
            PyMagicMethod::Repr => &mut methods.__repr__,
            PyMagicMethod::Add { right: false } => &mut methods.__add__,
            PyMagicMethod::Add { right: true } => &mut methods.__radd__,
            PyMagicMethod::Sub { right: false } => &mut methods.__sub__,
            PyMagicMethod::Sub { right: true } => &mut methods.__rsub__,
            PyMagicMethod::Mul { right: false } => &mut methods.__mul__,
            PyMagicMethod::Mul { right: true } => &mut methods.__rmul__,
            PyMagicMethod::TrueDiv { right: false } => &mut methods.__truediv__,
            PyMagicMethod::TrueDiv { right: true } => &mut methods.__rtruediv__,
            PyMagicMethod::Pow { right: false } => &mut methods.__pow__,
            PyMagicMethod::Pow { right: true } => &mut methods.__rpow__,
            PyMagicMethod::Int => &mut methods.__int__,
            PyMagicMethod::Bytes => &mut methods.__bytes__,
            PyMagicMethod::Bool => &mut methods.__bool__,
            PyMagicMethod::Float => &mut methods.__float__,
            PyMagicMethod::Iter => &mut methods.__iter__,
            PyMagicMethod::Next => &mut methods.__next__,
            PyMagicMethod::Eq => &mut methods.__eq__,
            PyMagicMethod::Ne => &mut methods.__ne__,
            PyMagicMethod::Lt => &mut methods.__lt__,
            PyMagicMethod::Le => &mut methods.__le__,
            PyMagicMethod::Gt => &mut methods.__gt__,
            PyMagicMethod::Ge => &mut methods.__ge__,
            PyMagicMethod::Contains => &mut methods.__contains__,
        }
    }

    /// The attribute name of the method.
    pub fn as_str(&self) -> (r: &'static str)
        ensures
            r@ == self.name(),
    {
        match self {
            PyMagicMethod::New => "__new__",
            PyMagicMethod::Init => "__init__",
            PyMagicMethod::Str => "__str__",
            PyMagicMethod::Repr => "__repr__",
            PyMagicMethod::Add { right: false } => "__add__",
            PyMagicMethod::Add { right: true } => "__radd__",
            PyMagicMethod::Sub { right: false } => "__sub__",
            PyMagicMethod::Sub { right: true } => "__rsub__",
            PyMagicMethod::Mul { right: false } => "__mul__",
            PyMagicMethod::Mul { right: true } => "__rmul__",
            PyMagicMethod::TrueDiv { right: false } => "__truediv__",
            PyMagicMethod::TrueDiv { right: true } => "__rtruediv__",
            PyMagicMethod::Pow { right: false } => "__pow__",
            PyMagicMethod::Pow { right: true } => "__rpow__",
            PyMagicMethod::Int => "__int__",
            PyMagicMethod::Bytes => "__bytes__",
            PyMagicMethod::Bool => "__bool__",
            PyMagicMethod::Float => "__float__",
            PyMagicMethod::Iter => "__iter__",
            PyMagicMethod::Next => "__next__",
            PyMagicMethod::Eq => "__eq__",
            PyMagicMethod::Ne => "__ne__",
            PyMagicMethod::Lt => "__lt__",
            PyMagicMethod::Le => "__le__",
            PyMagicMethod::Gt => "__gt__",
            PyMagicMethod::Ge => "__ge__",
            PyMagicMethod::Contains => "__contains__",
        }
    }

    /// The attribute name of the method, owned.
    pub fn to_string(&self) -> (r: String)
        ensures
            r@ == self.name(),
    {
        self.as_str().to_owned()
    }

    /// The name of the operation as error messages show it.
    pub fn display_name(&self) -> (r: &'static str)
        ensures
            r@ == self.title(),
    {
        match self {
            PyMagicMethod::New => "New",
            PyMagicMethod::Init => "Init",
            PyMagicMethod::Str => "Str",
            PyMagicMethod::Repr => "Repr",
            PyMagicMethod::Add { .. } => "Add",
            PyMagicMethod::Sub { .. } => "Sub",
            PyMagicMethod::Mul { .. } => "Mul",
            PyMagicMethod::TrueDiv { .. } => "TrueDiv",
            PyMagicMethod::Pow { .. } => "Pow",
            PyMagicMethod::Int => "Int",
            PyMagicMethod::Bytes => "Bytes",
            PyMagicMethod::Bool => "Bool",
            PyMagicMethod::Float => "Float",
            PyMagicMethod::Iter => "Iter",
            PyMagicMethod::Next => "Next",
            PyMagicMethod::Eq => "Eq",
            PyMagicMethod::Ne => "Ne",
            PyMagicMethod::Lt => "Lt",
            PyMagicMethod::Le => "Le",
            PyMagicMethod::Gt => "Gt",
            PyMagicMethod::Ge => "Ge",
            PyMagicMethod::Contains => "Contains",
        }
    }

    /// Every magic method, in the order of `every()`.
    pub fn all() -> (r: Vec<PyMagicMethod>)
        ensures
            r@ == Self::every(),
    {
        let r = vec![
            PyMagicMethod::New,
            PyMagicMethod::Init,
            PyMagicMethod::Str,
            PyMagicMethod::Repr,
            PyMagicMethod::Add { right: false },
            PyMagicMethod::Add { right: true },
            PyMagicMethod::Sub { right: false },
            PyMagicMethod::Sub { right: true },
            PyMagicMethod::Mul { right: false },
            PyMagicMethod::Mul { right: true },
            PyMagicMethod::TrueDiv { right: false },
            PyMagicMethod::TrueDiv { right: true },
            PyMagicMethod::Pow { right: false },
            PyMagicMethod::Pow { right: true },
            PyMagicMethod::Int,
            PyMagicMethod::Bytes,
            PyMagicMethod::Bool,
            PyMagicMethod::Float,
            PyMagicMethod::Iter,
            PyMagicMethod::Next,
            PyMagicMethod::Eq,
            PyMagicMethod::Ne,
            PyMagicMethod::Lt,
            PyMagicMethod::Le,
            PyMagicMethod::Gt,
            PyMagicMethod::Ge,
            PyMagicMethod::Contains,
        ];
        assert(r@ =~= Self::every());
        r
    }

    /// The method whose attribute name is `name`, if there is one.
    #[must_use]
    pub fn from_string(name: &str) -> (r: Option<PyMagicMethod>)
        ensures
            r == Self::named(name@),
    {
        let all = Self::all();
        let mut i: usize = 0;
        while i < all.len()
            invariant
                i <= all.len(),
                all@ == Self::every(),
                forall|j: int| 0 <= j < i ==> (#[trigger] all@[j]).name() != name@,
            decreases all.len() - i,
        {
            let candidate = all[i];
            if str_eq(candidate.as_str(), name) {
                proof {
                    let found = choose|m: PyMagicMethod| m.name() == name@;
                    if found != candidate {
                        Self::lemma_names_are_distinct(found, candidate);
                    }
                }
                return Some(candidate);
            }
            i += 1;
        }
        proof {
            assert forall|m: PyMagicMethod| m.name() != name@ by {
                Self::lemma_every_is_complete(m);
                let j = choose|j: int| 0 <= j < all@.len() && all@[j] == m;
                assert(all@[j].name() != name@);
            }
        }
        None
    }

    /// Turns an arithmetic operator into its reflected form.
    pub fn make_right_handed(&mut self)
        requires
            old(self).is_arithmetic(),
        ensures
            *final(self) == old(self).right_handed(),
    {
        match self {
            PyMagicMethod::Add { right } => *right = true,
            PyMagicMethod::Sub { right } => *right = true,
            PyMagicMethod::Mul { right } => *right = true,
            PyMagicMethod::TrueDiv { right } => *right = true,
            PyMagicMethod::Pow { right } => *right = true,
            _ => {},
        }
    }
}

/// The comparison to try on the right operand, with the operands swapped,
/// when the left operand declines `op`.
pub fn flip_to_right_hand_op(op: &PyMagicMethod) -> (r: PyMagicMethod)
    requires
        op.is_comparison(),
    ensures
        r == op.mirrored(),
{
    match op {
        PyMagicMethod::Lt => PyMagicMethod::Gt,
        PyMagicMethod::Le => PyMagicMethod::Ge,
        PyMagicMethod::Gt => PyMagicMethod::Lt,
        PyMagicMethod::Ge => PyMagicMethod::Le,
        other => *other,
    }
}

/// The native implementations of a class's magic methods, one optional slot
/// for each method.
#[derive(Clone, Copy, Debug)]
pub struct PyMagicMethods {
    pub __new__: Option<PyInternalFunction>,
    pub __init__: Option<PyInternalFunction>,
    pub __str__: Option<PyInternalFunction>,
    pub __repr__: Option<PyInternalFunction>,
    pub __add__: Option<PyInternalFunction>,
    pub __radd__: Option<PyInternalFunction>,
    pub __sub__: Option<PyInternalFunction>,
    pub __rsub__: Option<PyInternalFunction>,
    pub __mul__: Option<PyInternalFunction>,
    pub __rmul__: Option<PyInternalFunction>,
    pub __truediv__: Option<PyInternalFunction>,
    pub __rtruediv__: Option<PyInternalFunction>,
    pub __pow__: Option<PyInternalFunction>,
    pub __rpow__: Option<PyInternalFunction>,
    pub __int__: Option<PyInternalFunction>,
    pub __bytes__: Option<PyInternalFunction>,
    pub __bool__: Option<PyInternalFunction>,
    pub __float__: Option<PyInternalFunction>,
    pub __iter__: Option<PyInternalFunction>,
    pub __next__: Option<PyInternalFunction>,
    pub __eq__: Option<PyInternalFunction>,
    pub __ne__: Option<PyInternalFunction>,
    pub __lt__: Option<PyInternalFunction>,
    pub __le__: Option<PyInternalFunction>,
    pub __gt__: Option<PyInternalFunction>,
    pub __ge__: Option<PyInternalFunction>,
    pub __contains__: Option<PyInternalFunction>,
}

impl PyMagicMethods {
    /// What the table holds for `m`.
    pub open spec fn slot(self, m: PyMagicMethod) -> Option<PyInternalFunction> {
        match m {
            PyMagicMethod::New => self.__new__,
            PyMagicMethod::Init => self.__init__,
            PyMagicMethod::Str => self.__str__,
            PyMagicMethod::Repr => self.__repr__,
            PyMagicMethod::Add { right: false } => self.__add__,
            PyMagicMethod::Add { right: true } => self.__radd__,
            PyMagicMethod::Sub { right: false } => self.__sub__,
            PyMagicMethod::Sub { right: true } => self.__rsub__,
            PyMagicMethod::Mul { right: false } => self.__mul__,
            PyMagicMethod::Mul { right: true } => self.__rmul__,
            PyMagicMethod::TrueDiv { right: false } => self.__truediv__,
            PyMagicMethod::TrueDiv { right: true } => self.__rtruediv__,
            PyMagicMethod::Pow { right: false } => self.__pow__,
            PyMagicMethod::Pow { right: true } => self.__rpow__,
            PyMagicMethod::Int => self.__int__,
            PyMagicMethod::Bytes => self.__bytes__,
            PyMagicMethod::Bool => self.__bool__,
            PyMagicMethod::Float => self.__float__,
            PyMagicMethod::Iter => self.__iter__,
            PyMagicMethod::Next => self.__next__,
            PyMagicMethod::Eq => self.__eq__,
            PyMagicMethod::Ne => self.__ne__,
            PyMagicMethod::Lt => self.__lt__,
            PyMagicMethod::Le => self.__le__,
            PyMagicMethod::Gt => self.__gt__,
            PyMagicMethod::Ge => self.__ge__,
            PyMagicMethod::Contains => self.__contains__,
        }
    }

    /// The table with the slot of `m` replaced by `f`.
    pub open spec fn with_slot(self, m: PyMagicMethod, f: Option<PyInternalFunction>) -> PyMagicMethods {
        match m {
            PyMagicMethod::New => (PyMagicMethods { __new__: f, ..self }),
            PyMagicMethod::Init => (PyMagicMethods { __init__: f, ..self }),
            PyMagicMethod::Str => (PyMagicMethods { __str__: f, ..self }),
            PyMagicMethod::Repr => (PyMagicMethods { __repr__: f, ..self }),
            PyMagicMethod::Add { right: false } => (PyMagicMethods { __add__: f, ..self }),
            PyMagicMethod::Add { right: true } => (PyMagicMethods { __radd__: f, ..self }),
            PyMagicMethod::Sub { right: false } => (PyMagicMethods { __sub__: f, ..self }),
            PyMagicMethod::Sub { right: true } => (PyMagicMethods { __rsub__: f, ..self }),
            PyMagicMethod::Mul { right: false } => (PyMagicMethods { __mul__: f, ..self }),
            PyMagicMethod::Mul { right: true } => (PyMagicMethods { __rmul__: f, ..self }),
            PyMagicMethod::TrueDiv { right: false } => (PyMagicMethods { __truediv__: f, ..self }),
            PyMagicMethod::TrueDiv { right: true } => (PyMagicMethods { __rtruediv__: f, ..self }),
            PyMagicMethod::Pow { right: false } => (PyMagicMethods { __pow__: f, ..self }),
            PyMagicMethod::Pow { right: true } => (PyMagicMethods { __rpow__: f, ..self }),
            PyMagicMethod::Int => (PyMagicMethods { __int__: f, ..self }),
            PyMagicMethod::Bytes => (PyMagicMethods { __bytes__: f, ..self }),
            PyMagicMethod::Bool => (PyMagicMethods { __bool__: f, ..self }),
            PyMagicMethod::Float => (PyMagicMethods { __float__: f, ..self }),
            PyMagicMethod::Iter => (PyMagicMethods { __iter__: f, ..self }),
            PyMagicMethod::Next => (PyMagicMethods { __next__: f, ..self }),
            PyMagicMethod::Eq => (PyMagicMethods { __eq__: f, ..self }),
            PyMagicMethod::Ne => (PyMagicMethods { __ne__: f, ..self }),
            PyMagicMethod::Lt => (PyMagicMethods { __lt__: f, ..self }),
            PyMagicMethod::Le => (PyMagicMethods { __le__: f, ..self }),
            PyMagicMethod::Gt => (PyMagicMethods { __gt__: f, ..self }),
            PyMagicMethod::Ge => (PyMagicMethods { __ge__: f, ..self }),
            PyMagicMethod::Contains => (PyMagicMethods { __contains__: f, ..self }),
        }
    }

    /// Writing one slot changes that slot and no other.
    pub proof fn lemma_with_slot(self, m: PyMagicMethod, f: Option<PyInternalFunction>, other: PyMagicMethod)
        ensures
            self.with_slot(m, f).slot(other) == (if other == m { f } else { self.slot(other) }),
    {
    }

    /// The native implementation held for `magic_method`.
    pub fn get_method(&self, magic_method: &PyMagicMethod) -> (r: Option<PyInternalFunction>)
        ensures
            r == self.slot(*magic_method),
    {
        magic_method.get_method(self)
    }

    /// Stores `new_method` as the implementation of `magic_method`; every
    /// other slot stays as it was.
    pub fn set_method(&mut self, magic_method: &PyMagicMethod, new_method: PyInternalFunction)
        ensures
            *final(self) == old(self).with_slot(*magic_method, Some(new_method)),
            forall|m: PyMagicMethod|
                final(self).slot(m) == (if m == *magic_method {
                    Some(new_method)
                } else {
                    old(self).slot(m)
                }),
    {
        let ghost before = *self;
        let slot = magic_method.get_method_mut(self);
        *slot = Some(new_method);
        proof {
            assert forall|m: PyMagicMethod|
                before.with_slot(*magic_method, Some(new_method)).slot(m) == (if m == *magic_method {
                    Some(new_method)
                } else {
                    before.slot(m)
                }) by {
                before.lemma_with_slot(*magic_method, Some(new_method), m);
            }
        }
    }
}

/// The table with every slot empty.
pub open spec fn empty_methods() -> PyMagicMethods {
    PyMagicMethods {
        __new__: None,
        __init__: None,
        __str__: None,
        __repr__: None,
        __add__: None,
        __radd__: None,
        __sub__: None,
        __rsub__: None,
        __mul__: None,
        __rmul__: None,
        __truediv__: None,
        __rtruediv__: None,
        __pow__: None,
        __rpow__: None,
        __int__: None,
        __bytes__: None,
        __bool__: None,
        __float__: None,
        __iter__: None,
        __next__: None,
        __eq__: None,
        __ne__: None,
        __lt__: None,
        __le__: None,
        __gt__: None,
        __ge__: None,
        __contains__: None,
    }
}

/// The table with every slot empty.
pub fn py_magic_methods_defaults() -> (r: PyMagicMethods)
    ensures
        r == empty_methods(),
        forall|m: PyMagicMethod| r.slot(m) is None,
{
    PyMagicMethods {
        __new__: None,
        __init__: None,
        __str__: None,
        __repr__: None,
        __add__: None,
        __radd__: None,
        __sub__: None,
        __rsub__: None,
        __mul__: None,
        __rmul__: None,
        __truediv__: None,
        __rtruediv__: None,
        __pow__: None,
        __rpow__: None,
        __int__: None,
        __bytes__: None,
        __bool__: None,
        __float__: None,
        __iter__: None,
        __next__: None,
        __eq__: None,
        __ne__: None,
        __lt__: None,
        __le__: None,
        __gt__: None,
        __ge__: None,
        __contains__: None,
    }
}

impl Default for PyMagicMethods {
    fn default() -> (r: Self)
        ensures
            r == empty_methods(),
    {
        py_magic_methods_defaults()
    }
}

} // verus!
