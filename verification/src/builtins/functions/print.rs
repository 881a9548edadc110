//! `print`.

use vstd::prelude::*;
use vstd::string::StringExecFns;
use crate::builtins::function_utils::raise_type_error;
use crate::builtins::outcome::{carried_out, join3, views};
use crate::builtins::semantics::{joined, print, print_parts};
use crate::builtins::structure::pyobject::{FuncReturnType, PyImmutableObject, PyObject};
use crate::builtins::types::pyfloat::FloatHost;
use crate::builtins::types::str::py_str_tmp;
use crate::pyarena::PyArena;

verus! {

/// The texts of `parts[from..]`, with one space between each two.
pub fn join_with_spaces(parts: &Vec<String>) -> (r: String)
    ensures
        r@ == joined(parts@.map_values(|part: String| part@), 0),
{
    let ghost texts = parts@.map_values(|part: String| part@);
    let mut line = String::new();
    let mut i: usize = parts.len();
    while i > 0
        invariant
            i <= parts.len(),
            texts == parts@.map_values(|part: String| part@),
            line@ == joined(texts, i as int),
        decreases i,
    {
        i -= 1;
        let mut head = parts[i].clone();
        if i + 1 < parts.len() {
            head.append(" ");
            head.append(line.as_str());
        }
        assert(texts[i as int] == parts@[i as int]@);
        assert(head@ =~= joined(texts, i as int));
        line = head;
    }
    line
}

/// Prints its arguments on one line: what `str()` makes of each, with one
/// space between each two. The line is added to the arena's output.
pub fn py_print<H: FloatHost>(arena: &mut PyArena, host: &H, args: &[PyObject], fuel: usize) -> (r: FuncReturnType)
    requires
        old(arena).wf(),
    ensures
        carried_out(
            old(arena),
            final(arena),
            print(old(arena).world_of(host), views(args@), old(arena)@, fuel as nat),
            r,
        ),
    decreases fuel, 4int, 0int,
{
    let ghost w = arena.world_of(host);
    let ghost start = arena@;
    let ghost expected = print_parts(w, views(args@), 0, Seq::empty(), start, fuel as nat);
    let mut strs: Vec<String> = Vec::new();
    let mut i: usize = 0;
    assert(strs@.map_values(|part: String| part@) =~= Seq::empty());
    while i < args.len()
        invariant
            i <= args.len(),
            arena.wf(),
            arena.world_of(host) == w,
            w == old(arena).world_of(host),
            start == old(arena)@,
            expected == print_parts(w, views(args@), 0, Seq::empty(), start, fuel as nat),
            expected is Some ==> expected == print_parts(
                w,
                views(args@),
                i as int,
                strs@.map_values(|part: String| part@),
                arena@,
                fuel as nat,
            ),
        decreases args.len() - i,
    {
        let ghost before = arena@;
        let ghost done = strs@.map_values(|part: String| part@);
        assert(views(args@)[i as int] == args@[i as int]@);
        let text = py_str_tmp(&args[i], arena, host, fuel);
        match text {
            Err(error) => {
                return Err(error);
            },
            Ok(PyObject::Immutable(PyImmutableObject::Str(text))) => {
                strs.push(text);
                assert(strs@.map_values(|part: String| part@) =~= done.push(text@));
            },
            Ok(other) => {
                let name = other.class_name(arena);
                return Err(
                    raise_type_error(arena, join3("__str__ returned non-string (type ", name.as_str(), ")")),
                );
            },
        }
        i += 1;
    }
    let line = join_with_spaces(&strs);
    arena.print_line(line);
    Ok(arena.statics.none().clone())
}

} // verus!
