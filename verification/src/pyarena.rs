//! Frames and the arena.
//!
//! A frame binds names to cells. A cell holds one value and is overwritten in
//! place, so whoever holds the cell of a name sees the name's later values.
//! A name that name resolution gave a slot is also reached through the
//! frame's fixed slot array, which leads to the same cell.

use ahash::AHashMap;
use vstd::prelude::*;
use crate::builtins::globals::Globals;
use crate::builtins::statics::Statics;
use crate::builtins::structure::pyexception::Exceptions;
use crate::builtins::types::pyfloat::{model_of, FloatHost, FloatModel};
use crate::builtins::structure::pyobject::{Heap, PyMutableObject, PyObject, PyObjectView, PyPointer};
use crate::names::{names_get, names_insert, names_new, names_remove, slot_names};
use crate::parser::Variable;

verus! {

/// A cell of a frame: the shared place of a binding.
#[derive(Clone, Copy, Debug, PartialEq, Eq, Structural)]
pub struct FrameRef {
    pub cell: usize,
}

/// A frame: the names bound in one scope.
#[derive(Debug)]
pub struct Frame {
    pub locals: AHashMap<String, usize>,
    pub fast_locals: Vec<Option<usize>>,
    pub cells: Vec<PyObject>,
}

/// What a frame is: for each bound name its cell, for each slot of the fixed
/// array its cell once it has one, and what each cell holds.
pub struct FrameView {
    pub names: Map<Seq<char>, usize>,
    pub fast: Seq<Option<usize>>,
    pub cells: Seq<PyObjectView>,
}

impl FrameView {
    /// Every cell that a name or a slot leads to exists.
    pub open spec fn wf(self) -> bool {
        &&& self.cells.len() <= usize::MAX
        &&& forall|name: Seq<char>|
            #![trigger self.names.contains_key(name)]
            #![trigger self.names[name]]
            self.names.contains_key(name) ==> self.names[name] < self.cells.len()
        &&& forall|slot: int|
            #![trigger self.fast[slot]]
            0 <= slot < self.fast.len() && self.fast[slot] is Some ==> self.fast[slot].unwrap()
                < self.cells.len()
    }

    /// Whether a variable with the slot `slot` can be used with this frame:
    /// the slot, if it has one, lies within the fixed array.
    pub open spec fn admits(self, slot: Option<usize>) -> bool {
        slot matches Some(place) ==> place < self.fast.len()
    }

    /// The cell of the variable: that of its slot where it has a slot, else
    /// that of its name.
    pub open spec fn cell_of(self, name: Seq<char>, slot: Option<usize>) -> Option<usize> {
        match slot {
            Some(place) => if place < self.fast.len() {
                self.fast[place as int]
            } else {
                None
            },
            None => if self.names.contains_key(name) {
                Some(self.names[name])
            } else {
                None
            },
        }
    }

    /// What the variable is bound to, if it is bound.
    pub open spec fn value_of(self, name: Seq<char>, slot: Option<usize>) -> Option<PyObjectView> {
        match self.cell_of(name, slot) {
            Some(cell) => Some(self.cells[cell as int]),
            None => None,
        }
    }

    /// The cell that `name` has once it is bound by name: its own where it
    /// has one, else a new one.
    pub open spec fn cell_for_name(self, name: Seq<char>) -> usize {
        if self.names.contains_key(name) {
            self.names[name]
        } else {
            self.cells.len() as usize
        }
    }

    /// The frame after `name` was bound to `value` by name: the cell of the
    /// name is overwritten where it has one, else a new cell is made for it.
    pub open spec fn bound_by_name(self, name: Seq<char>, value: PyObjectView) -> FrameView {
        if self.names.contains_key(name) {
            FrameView { cells: self.cells.update(self.names[name] as int, value), ..self }
        } else {
            FrameView {
                names: self.names.insert(name, self.cells.len() as usize),
                cells: self.cells.push(value),
                ..self
            }
        }
    }

    /// The frame after the variable was bound to `value`. A slot that has a
    /// cell gets the cell overwritten. A slot without one takes the cell of
    /// the name, which is bound by name. A variable without a slot is bound
    /// by name.
    pub open spec fn bound(self, name: Seq<char>, slot: Option<usize>, value: PyObjectView) -> FrameView {
        match slot {
            Some(place) => match self.fast[place as int] {
                Some(cell) => FrameView { cells: self.cells.update(cell as int, value), ..self },
                None => FrameView {
                    fast: self.fast.update(place as int, Some(self.cell_for_name(name))),
                    ..self.bound_by_name(name, value)
                },
            },
            None => self.bound_by_name(name, value),
        }
    }

    /// The frame after `name` was removed from its names. The cells stay.
    pub open spec fn without(self, name: Seq<char>) -> FrameView {
        FrameView { names: self.names.remove(name), ..self }
    }

    /// A bound variable reads back what it was bound to.
    pub proof fn lemma_bound_reads_back(self, name: Seq<char>, slot: Option<usize>, value: PyObjectView)
        requires
            self.wf(),
            self.admits(slot),
            self.cells.len() < usize::MAX,
        ensures
            self.bound(name, slot, value).wf(),
            self.bound(name, slot, value).value_of(name, slot) == Some(value),
    {
        let after = self.bound(name, slot, value);
        match slot {
            Some(place) => {
                assert(place < self.fast.len());
                match self.fast[place as int] {
                    Some(cell) => {
                        assert(cell < self.cells.len());
                        assert(after.cells[cell as int] == value);
                        assert(after.cell_of(name, slot) == Some(cell));
                    },
                    None => {
                        if self.names.contains_key(name) {
                            assert(self.names[name] < self.cells.len());
                        }
                        assert(after.cell_of(name, slot) == Some(self.cell_for_name(name)));
                    },
                }
            },
            None => {
                if self.names.contains_key(name) {
                    assert(self.names[name] < self.cells.len());
                }
            },
        }
    }

    /// Binding a variable that has a cell overwrites the cell in place: the
    /// variable keeps its cell, no name or slot changes, and whoever holds
    /// the cell sees the new value.
    pub proof fn lemma_rebinding_keeps_the_cell(
        self,
        name: Seq<char>,
        slot: Option<usize>,
        value: PyObjectView,
    )
        requires
            self.wf(),
            self.admits(slot),
            self.cell_of(name, slot) is Some,
        ensures
            self.bound(name, slot, value).names == self.names,
            self.bound(name, slot, value).fast == self.fast,
            self.bound(name, slot, value).cell_of(name, slot) == self.cell_of(name, slot),
            self.bound(name, slot, value).cells == self.cells.update(
                self.cell_of(name, slot).unwrap() as int,
                value,
            ),
    {
    }
}

impl View for Frame {
    type V = FrameView;

    open spec fn view(&self) -> FrameView {
        FrameView {
            names: slot_names(self.locals),
            fast: self.fast_locals@,
            cells: self.cells@.map_values(|value: PyObject| value@),
        }
    }
}

impl Frame {
    /// Every cell that a name or a slot leads to exists.
    pub open spec fn wf(&self) -> bool {
        self@.wf()
    }

    /// A frame without bindings, with `fast_locals_size` empty slots.
    pub fn new(fast_locals_size: usize) -> (r: Self)
        ensures
            r.wf(),
            r@ == Self::new_view(fast_locals_size),
    {
        let mut fast_locals: Vec<Option<usize>> = Vec::new();
        let mut i: usize = 0;
        while i < fast_locals_size
            invariant
                i <= fast_locals_size,
                fast_locals@ == Seq::new(i as nat, |j: int| None::<usize>),
            decreases fast_locals_size - i,
        {
            fast_locals.push(None);
            assert(fast_locals@ =~= Seq::new((i + 1) as nat, |j: int| None::<usize>));
            i += 1;
        }
        let frame = Frame { locals: names_new(), fast_locals, cells: Vec::new() };
        assert(frame@.cells =~= Seq::empty());
        frame
    }

    /// The frame without bindings that has `fast_locals_size` empty slots.
    pub open spec fn new_view(fast_locals_size: usize) -> FrameView {
        FrameView {
            names: Map::empty(),
            fast: Seq::new(fast_locals_size as nat, |i: int| None::<usize>),
            cells: Seq::empty(),
        }
    }

    /// Binds each exposed global by name.
    pub fn add_globals(self, globals: &Globals) -> (r: Self)
        requires
            self.wf(),
        ensures
            r.wf(),
            r@ == Globals::bound_into(self@, globals.exposed(), 0),
    {
        let exposed_globals = globals.create_exposed_globals();
        let mut frame = self;
        let mut i: usize = 0;
        while i < exposed_globals.len()
            invariant
                i <= exposed_globals.len(),
                frame.wf(),
                exposed_globals@.len() == globals.exposed().len(),
                forall|j: int|
                    0 <= j < exposed_globals@.len() ==> (#[trigger] exposed_globals@[j]).0@
                        == globals.exposed()[j].0 && exposed_globals@[j].1 == globals.exposed()[j].1,
                Globals::bound_into(frame@, globals.exposed(), i as int) == Globals::bound_into(
                    self@,
                    globals.exposed(),
                    0,
                ),
            decreases exposed_globals.len() - i,
        {
            let name = exposed_globals[i].0.clone();
            let value = exposed_globals[i].1.clone();
            frame.set_local(name, value);
            i += 1;
        }
        frame
    }

    /// Binds `name` to `value` by name and returns the cell of the binding.
    fn set_and_return_local(&mut self, name: String, value: PyObject) -> (r: FrameRef)
        requires
            old(self).wf(),
        ensures
            final(self).wf(),
            final(self)@ == old(self)@.bound_by_name(name@, value@),
            r.cell == old(self)@.cell_for_name(name@),
    {
        match names_get(&self.locals, name.as_str()) {
            Some(cell) => {
                assert(self@.names.contains_key(name@));
                assert(self@.names[name@] == cell);
                assert(cell < self@.cells.len());
                let ghost before = self@;
                self.cells.set(cell, value);
                proof {
                    let after = self@;
                    assert(after.cells =~= before.cells.update(cell as int, value@));
                    assert(self.cells@.len() == self.cells.len());
                    assert forall|other: Seq<char>| after.names.contains_key(other) implies after.names[other]
                        < after.cells.len() by {
                        assert(before.names.contains_key(other));
                    }
                    assert forall|slot: int|
                        0 <= slot < after.fast.len() && (#[trigger] after.fast[slot]) is Some implies after.fast[slot].unwrap()
                        < after.cells.len() by {
                        assert(after.fast[slot] == before.fast[slot]);
                    }
                }
                FrameRef { cell }
            },
            None => {
                let cell = self.cells.len();
                let ghost before = self@;
                self.cells.push(value);
                names_insert(&mut self.locals, name, cell);
                proof {
                    let after = self@;
                    assert(after.cells =~= before.cells.push(value@));
                    assert(self.cells@.len() == self.cells.len());
                    assert forall|other: Seq<char>| after.names.contains_key(other) implies after.names[other]
                        < after.cells.len() by {
                        if other != name@ {
                            assert(before.names.contains_key(other));
                        }
                    }
                    assert forall|slot: int|
                        0 <= slot < after.fast.len() && (#[trigger] after.fast[slot]) is Some implies after.fast[slot].unwrap()
                        < after.cells.len() by {
                        assert(after.fast[slot] == before.fast[slot]);
                    }
                }
                FrameRef { cell }
            },
        }
    }

    /// Binds `name` to `value` by name.
    fn set_local(&mut self, name: String, value: PyObject)
        requires
            old(self).wf(),
        ensures
            final(self).wf(),
            final(self)@ == old(self)@.bound_by_name(name@, value@),
    {
        let _ = self.set_and_return_local(name, value);
    }

    /// Binds `variable` to `value`. A variable that is bound already keeps
    /// its cell, which is overwritten in place.
    pub fn set(&mut self, variable: &Variable, value: PyObject)
        requires
            old(self).wf(),
            old(self)@.admits(variable.fast_locals_location),
        ensures
            final(self).wf(),
            final(self)@ == old(self)@.bound(variable.name@, variable.fast_locals_location, value@),
    {
        let ghost before = self@;
        if let Some(fast_locals_loc) = variable.fast_locals_location {
            if let Some(cell) = self.fast_locals[fast_locals_loc] {
                assert(before.fast[fast_locals_loc as int] == Some(cell));
                self.cells.set(cell, value);
                assert(self@.cells =~= before.cells.update(cell as int, value@));
            } else {
                let new_fast_local = self.set_and_return_local(variable.name.clone(), value);
                self.fast_locals.set(fast_locals_loc, Some(new_fast_local.cell));
            }
        } else {
            self.set_local(variable.name.clone(), value);
        }
    }

    /// The cell that `variable`'s name is bound to.
    fn get_local(&self, variable: &Variable) -> (r: Option<FrameRef>)
        ensures
            r == match self@.cell_of(variable.name@, None) {
                Some(cell) => Some(FrameRef { cell }),
                None => None,
            },
    {
        match names_get(&self.locals, variable.name.as_str()) {
            Some(cell) => Some(FrameRef { cell }),
            None => None,
        }
    }

    /// The cell of `variable`, if it is bound in this frame.
    pub fn get(&self, variable: &Variable) -> (r: Option<FrameRef>)
        requires
            self@.admits(variable.fast_locals_location),
        ensures
            r == match self@.cell_of(variable.name@, variable.fast_locals_location) {
                Some(cell) => Some(FrameRef { cell }),
                None => None,
            },
    {
        if let Some(fast_locals_loc) = variable.fast_locals_location {
            match self.fast_locals[fast_locals_loc] {
                Some(cell) => Some(FrameRef { cell }),
                None => None,
            }
        } else {
            self.get_local(variable)
        }
    }

    /// What the cell holds.
    pub fn read(&self, place: FrameRef) -> (r: &PyObject)
        requires
            place.cell < self@.cells.len(),
        ensures
            r@ == self@.cells[place.cell as int],
    {
        &self.cells[place.cell]
    }

    /// Overwrites what the cell holds. Every name and slot that leads to the
    /// cell is thereby bound to `value`.
    pub fn write(&mut self, place: FrameRef, value: PyObject)
        requires
            old(self).wf(),
            place.cell < old(self)@.cells.len(),
        ensures
            final(self).wf(),
            final(self)@ == (FrameView {
                cells: old(self)@.cells.update(place.cell as int, value@),
                ..old(self)@
            }),
    {
        let ghost before = self@;
        self.cells.set(place.cell, value);
        assert(self@.cells =~= before.cells.update(place.cell as int, value@));
    }

    /// Removes the binding of the name `key`.
    pub fn remove(&mut self, key: &str)
        requires
            old(self).wf(),
        ensures
            final(self).wf(),
            final(self)@ == old(self)@.without(key@),
    {
        let ghost before = self@;
        names_remove(&mut self.locals, key);
        proof {
            let after = self@;
            assert forall|other: Seq<char>| after.names.contains_key(other) implies after.names[other]
                < after.cells.len() by {
                assert(before.names.contains_key(other));
            }
        }
    }
}

/// The arena: the frames, the heap of mutable objects, the built-in classes,
/// scalars and exception kinds, and the lines printed so far.
#[derive(Debug)]
pub struct PyArena {
    pub frames: Vec<Frame>,
    pub heap: Heap,
    pub globals: Globals,
    pub statics: Statics,
    pub exceptions: Exceptions,
    pub output: Vec<String>,
}

/// What evaluation leaves as it is: the built-in classes, scalars and
/// exception kinds of the arena, and what the floating-point unit computes,
/// where there is one.
pub struct World {
    pub globals: Globals,
    pub statics: Statics,
    pub exceptions: Exceptions,
    pub floats: Option<FloatModel>,
}

/// The part of the arena that evaluation changes: what the frames bind, the
/// objects of the heap, and the lines printed.
pub struct State {
    pub frames: Seq<FrameView>,
    pub heap: Seq<PyMutableObject>,
    pub output: Seq<Seq<char>>,
}

impl State {
    /// The state with `object` added to the heap.
    pub open spec fn allocated(self, object: PyMutableObject) -> State {
        State { heap: self.heap.push(object), ..self }
    }

    /// The state with `line` printed.
    pub open spec fn printed(self, line: Seq<char>) -> State {
        State { output: self.output.push(line), ..self }
    }

    /// The newest frame.
    pub open spec fn current(self) -> FrameView
        recommends
            self.frames.len() > 0,
    {
        self.frames.last()
    }

    /// The state with the newest frame replaced by `frame`.
    pub open spec fn with_current(self, frame: FrameView) -> State
        recommends
            self.frames.len() > 0,
    {
        State { frames: self.frames.update(self.frames.len() - 1, frame), ..self }
    }

    /// Whether every frame can be used with a variable that has the slot
    /// `slot`.
    pub open spec fn admits(self, slot: Option<usize>) -> bool {
        forall|i: int| 0 <= i < self.frames.len() ==> (#[trigger] self.frames[i]).admits(slot)
    }

    /// What the variable is bound to in `frames[..upto]`, the newest frame
    /// that binds it deciding.
    pub open spec fn found_in(self, name: Seq<char>, slot: Option<usize>, upto: int) -> Option<PyObjectView>
        decreases upto,
    {
        if upto <= 0 || upto > self.frames.len() {
            None
        } else if self.frames[upto - 1].value_of(name, slot) is Some {
            self.frames[upto - 1].value_of(name, slot)
        } else {
            self.found_in(name, slot, upto - 1)
        }
    }

    /// What the variable is bound to, the newest frame that binds it
    /// deciding.
    pub open spec fn lookup(self, name: Seq<char>, slot: Option<usize>) -> Option<PyObjectView> {
        self.found_in(name, slot, self.frames.len() as int)
    }
}

impl View for PyArena {
    type V = State;

    open spec fn view(&self) -> State {
        State {
            frames: self.frames@.map_values(|frame: Frame| frame@),
            heap: self.heap@,
            output: self.output@.map_values(|line: String| line@),
        }
    }
}

impl PyArena {
    /// There is a frame, every frame is well formed, and the built-in
    /// classes, scalars and exception kinds are the documented ones.
    pub open spec fn wf(&self) -> bool {
        &&& self.frames@.len() > 0
        &&& forall|i: int| 0 <= i < self.frames@.len() ==> (#[trigger] self.frames@[i]).wf()
        &&& self.globals.wf()
        &&& self.statics.wf()
        &&& self.exceptions.wf()
    }

    /// The built-in classes, scalars and exception kinds of the arena, without
    /// a floating-point unit.
    pub open spec fn world(&self) -> World {
        World { globals: self.globals, statics: self.statics, exceptions: self.exceptions, floats: None }
    }

    /// The world of the arena with `host` as its floating-point unit.
    pub open spec fn world_of<H: FloatHost>(&self, host: &H) -> World {
        World { floats: Some(model_of(host)), ..self.world() }
    }

    /// Whether the two arenas hold the same built-in classes and exception
    /// kinds.
    pub open spec fn same_world(&self, other: &PyArena) -> bool {
        self.world() == other.world()
    }

    /// An arena with one frame, which has `initial_fast_locals_size` slots
    /// and binds the exposed globals.
    pub fn new(initial_fast_locals_size: usize) -> (r: Self)
        ensures
            r.wf(),
            r@.frames.len() == 1,
            r@.frames[0] == Globals::bound_into(
                Frame::new_view(initial_fast_locals_size),
                r.globals.exposed(),
                0,
            ),
            r@.frames[0].fast == Seq::new(initial_fast_locals_size as nat, |i: int| None::<usize>),
            r@.heap.len() == 0,
            r@.output.len() == 0,
    {
        let globals = Globals::new();
        let statics = Statics::new();
        let exceptions = Exceptions::new();
        let top_frame = Frame::new(initial_fast_locals_size).add_globals(&globals);
        proof {
            Globals::lemma_bound_into_keeps_slots(
                Frame::new_view(initial_fast_locals_size),
                globals.exposed(),
                0,
            );
        }
        let frames = vec![top_frame];
        PyArena { frames, heap: Heap::new(), globals, statics, exceptions, output: Vec::new() }
    }

    /// The newest frame.
    pub fn get_current_frame(&self) -> (r: &Frame)
        requires
            self.frames@.len() > 0,
        ensures
            *r == self.frames@.last(),
    {
        &self.frames[self.frames.len() - 1]
    }

    /// The newest frame, for writing. No other frame changes.
    pub fn get_current_frame_mut(&mut self) -> (r: &mut Frame)
        requires
            old(self).frames@.len() > 0,
        ensures
            *r == old(self).frames@.last(),
            final(self).frames@ == old(self).frames@.update(old(self).frames@.len() - 1, *final(r)),
            final(self).heap == old(self).heap,
            final(self).globals == old(self).globals,
            final(self).statics == old(self).statics,
            final(self).exceptions == old(self).exceptions,
            final(self).output == old(self).output,
    {
        let last = self.frames.len() - 1;
        &mut self.frames[last]
    }

    /// The frame `parent_level + 1` levels below the newest, for writing;
    /// `None` where the stack is not that deep. No other frame changes.
    pub fn get_parent_frame_mut(&mut self, parent_level: usize) -> (r: Option<&mut Frame>)
        ensures
            match r {
                Some(frame) => parent_level + 2 <= old(self).frames@.len() && *frame == old(self).frames@[old(
                    self,
                ).frames@.len() - 2 - parent_level] && final(self).frames@ == old(self).frames@.update(
                    old(self).frames@.len() - 2 - parent_level,
                    *final(frame),
                ),
                None => parent_level + 2 > old(self).frames@.len() && final(self).frames@ == old(self).frames@,
            },
            final(self).heap == old(self).heap,
            final(self).globals == old(self).globals,
            final(self).statics == old(self).statics,
            final(self).exceptions == old(self).exceptions,
            final(self).output == old(self).output,
    {
        let depth = self.frames.len();
        if depth < 2 || parent_level > depth - 2 {
            None
        } else {
            Some(&mut self.frames[depth - 2 - parent_level])
        }
    }

    /// The frame `parent_level + 1` levels below the newest; `None` where
    /// the stack is not that deep.
    pub fn get_parent_frame(&self, parent_level: usize) -> (r: Option<&Frame>)
        ensures
            match r {
                Some(frame) => parent_level + 2 <= self.frames@.len() && *frame == self.frames@[self.frames@.len()
                    - 2 - parent_level],
                None => parent_level + 2 > self.frames@.len(),
            },
    {
        let depth = self.frames.len();
        if depth < 2 || parent_level > depth - 2 {
            None
        } else {
            Some(&self.frames[depth - 2 - parent_level])
        }
    }

    /// Whether every frame can be used with `variable`.
    pub fn admits(&self, variable: &Variable) -> (r: bool)
        ensures
            r == self@.admits(variable.fast_locals_location),
    {
        let mut i: usize = 0;
        while i < self.frames.len()
            invariant
                i <= self.frames.len(),
                forall|j: int| 0 <= j < i ==> (#[trigger] self@.frames[j]).admits(variable.fast_locals_location),
            decreases self.frames.len() - i,
        {
            if let Some(place) = variable.fast_locals_location {
                if place >= self.frames[i].fast_locals.len() {
                    assert(!self@.frames[i as int].admits(variable.fast_locals_location));
                    return false;
                }
            }
            assert(self@.frames[i as int].admits(variable.fast_locals_location));
            i += 1;
        }
        true
    }

    /// What `variable` is bound to: the frames are searched from the newest
    /// to the oldest.
    pub fn search_for_var(&self, variable: &Variable) -> (r: Option<&PyObject>)
        requires
            self.wf(),
            self@.admits(variable.fast_locals_location),
        ensures
            match r {
                Some(value) => self@.lookup(variable.name@, variable.fast_locals_location) == Some(value@),
                None => self@.lookup(variable.name@, variable.fast_locals_location) is None,
            },
    {
        let mut i: usize = self.frames.len();
        while i > 0
            invariant
                i <= self.frames.len(),
                self.wf(),
                self@.admits(variable.fast_locals_location),
                self@.lookup(variable.name@, variable.fast_locals_location) == self@.found_in(
                    variable.name@,
                    variable.fast_locals_location,
                    i as int,
                ),
            decreases i,
        {
            let frame = &self.frames[i - 1];
            assert(self@.frames[i - 1] == frame@);
            assert(frame.wf());
            assert(frame@.admits(variable.fast_locals_location));
            if let Some(place) = frame.get(variable) {
                return Some(frame.read(place));
            }
            i -= 1;
        }
        None
    }

    /// The object that `pointer` denotes, if it denotes one.
    pub fn object(&self, pointer: PyPointer) -> (r: Option<&PyMutableObject>)
        ensures
            match r {
                Some(object) => pointer.is_in(self.heap) && *object == self@.heap[pointer.slot as int],
                None => !pointer.is_in(self.heap),
            },
    {
        if pointer.slot < self.heap.objects.len() {
            Some(pointer.borrow(&self.heap))
        } else {
            None
        }
    }

    /// Stores `object` in the heap and returns the value that denotes it.
    pub fn allocate(&mut self, object: PyMutableObject) -> (r: PyObject)
        requires
            old(self).wf(),
        ensures
            final(self).wf(),
            final(self).same_world(old(self)),
            final(self)@ == old(self)@.allocated(object),
            r@ == PyObjectView::Mutable(PyPointer { slot: old(self)@.heap.len() as usize }),
    {
        PyObject::new_mutable(object, &mut self.heap)
    }

    /// Adds `line` to the lines printed.
    pub fn print_line(&mut self, line: String)
        requires
            old(self).wf(),
        ensures
            final(self).wf(),
            final(self).same_world(old(self)),
            final(self)@ == old(self)@.printed(line@),
    {
        self.output.push(line);
        assert(self@.output =~= old(self)@.output.push(line@));
    }
}

} // verus!
