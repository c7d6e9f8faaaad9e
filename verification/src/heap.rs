use crate::array::JvmArray;
use crate::object::{assigned, JvmObject, ObjectView};
use crate::typevalues::JvmValue;
use vstd::prelude::*;

verus! {

/// What the heap holds: arrays and objects, each known by its position,
/// which is its handle.
pub struct HeapView {
    pub arrays: Seq<Seq<Option<JvmValue>>>,
    pub objects: Seq<ObjectView>,
}

/// The arrays and objects that the running program has made. A handle, once
/// given out, names the same array or object for good.
#[derive(Debug)]
pub struct Heap {
    arrays: Vec<JvmArray>,
    objects: Vec<JvmObject>,
}

impl View for Heap {
    type V = HeapView;

    closed spec fn view(&self) -> HeapView {
        HeapView {
            arrays: self.arrays@.map_values(|a: JvmArray| a@),
            objects: self.objects@.map_values(|o: JvmObject| o@),
        }
    }
}

impl HeapView {
    /// Whether `handle` names an array.
    pub open spec fn has_array(self, handle: usize) -> bool {
        handle < self.arrays.len()
    }

    /// Whether `handle` names an object.
    pub open spec fn has_object(self, handle: usize) -> bool {
        handle < self.objects.len()
    }

    /// The heap with one more array, whose handle is the number of arrays
    /// before.
    pub open spec fn with_array(self, array: Seq<Option<JvmValue>>) -> HeapView {
        HeapView { arrays: self.arrays.push(array), ..self }
    }

    /// The heap with one more object, whose handle is the number of objects
    /// before.
    pub open spec fn with_object(self, object: ObjectView) -> HeapView {
        HeapView { objects: self.objects.push(object), ..self }
    }

    /// The heap after `value` is written to slot `index` of the array
    /// `handle`.
    pub open spec fn with_slot(self, handle: usize, index: usize, value: JvmValue) -> HeapView {
        HeapView {
            arrays: self.arrays.update(
                handle as int,
                self.arrays[handle as int].update(index as int, Some(value)),
            ),
            ..self
        }
    }

    /// The heap after `value` is stored in the field `name` of the object
    /// `handle`.
    pub open spec fn with_field(self, handle: usize, name: String, value: JvmValue) -> HeapView {
        HeapView {
            objects: self.objects.update(
                handle as int,
                assigned(self.objects[handle as int], name, value),
            ),
            ..self
        }
    }
}

impl Heap {
    /// A heap without arrays and objects.
    pub fn new() -> (r: Self)
        ensures
            r@ == (HeapView { arrays: Seq::empty(), objects: Seq::empty() }),
    {
        let r = Heap { arrays: Vec::new(), objects: Vec::new() };
        assert(r@.arrays =~= Seq::empty());
        assert(r@.objects =~= Seq::empty());
        r
    }

    /// Takes an array in and gives out its handle.
    pub fn allocate_array(&mut self, array: JvmArray) -> (handle: usize)
        ensures
            handle == old(self)@.arrays.len(),
            final(self)@ == old(self)@.with_array(array@),
    {
        let handle = self.arrays.len();
        self.arrays.push(array);
        assert(self@.arrays =~= old(self)@.arrays.push(array@));
        assert(self@.objects =~= old(self)@.objects);
        handle
    }

    /// Takes an object in and gives out its handle.
    pub fn allocate_object(&mut self, object: JvmObject) -> (handle: usize)
        ensures
            handle == old(self)@.objects.len(),
            final(self)@ == old(self)@.with_object(object@),
    {
        let handle = self.objects.len();
        self.objects.push(object);
        assert(self@.objects =~= old(self)@.objects.push(object@));
        assert(self@.arrays =~= old(self)@.arrays);
        handle
    }

    /// The array that `handle` names.
    pub fn array(&self, handle: usize) -> (r: Option<&JvmArray>)
        ensures
            match r {
                Some(a) => self@.has_array(handle) && a@ == self@.arrays[handle as int],
                None => !self@.has_array(handle),
            },
    {
        if handle < self.arrays.len() {
            Some(&self.arrays[handle])
        } else {
            None
        }
    }

    /// The object that `handle` names.
    pub fn object(&self, handle: usize) -> (r: Option<&JvmObject>)
        ensures
            match r {
                Some(o) => self@.has_object(handle) && o@ == self@.objects[handle as int],
                None => !self@.has_object(handle),
            },
    {
        if handle < self.objects.len() {
            Some(&self.objects[handle])
        } else {
            None
        }
    }

    /// Writes `value` to slot `index` of the array `handle`.
    pub fn store(&mut self, handle: usize, index: usize, value: JvmValue)
        requires
            old(self)@.has_array(handle),
            index < old(self)@.arrays[handle as int].len(),
        ensures
            final(self)@ == old(self)@.with_slot(handle, index, value),
    {
        self.arrays[handle].set_at(index, value);
        assert(self@.arrays =~= old(self)@.with_slot(handle, index, value).arrays);
        assert(self@.objects =~= old(self)@.objects);
    }

    /// Stores `value` in the field `name` of the object `handle`.
    pub fn put_field(&mut self, handle: usize, name: &String, value: JvmValue)
        requires
            old(self)@.has_object(handle),
        ensures
            final(self)@ == old(self)@.with_field(handle, *name, value),
    {
        self.objects[handle].assign_field(name, value);
        assert(self@.objects =~= old(self)@.with_field(handle, *name, value).objects);
        assert(self@.arrays =~= old(self)@.arrays);
    }
}

} // verus!
