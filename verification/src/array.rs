use crate::typevalues::JvmValue;
use vstd::prelude::*;

verus! {

/// The element types that an array of primitives can have, by type code.
#[derive(Clone, Copy, Debug, PartialEq, Eq, Structural)]
pub enum JvmArrayType {
    Boolean,
    Char,
    Float,
    Double,
    Byte,
    Short,
    Integer,
    Long,
}

impl JvmArrayType {
    /// The element type that a type code stands for.
    pub open spec fn of(code: u8) -> Option<JvmArrayType> {
        if code == 0x4 {
            Some(JvmArrayType::Boolean)
        } else if code == 0x5 {
            Some(JvmArrayType::Char)
        } else if code == 0x6 {
            Some(JvmArrayType::Float)
        } else if code == 0x7 {
            Some(JvmArrayType::Double)
        } else if code == 0x8 {
            Some(JvmArrayType::Byte)
        } else if code == 0x9 {
            Some(JvmArrayType::Short)
        } else if code == 0x10 {
            Some(JvmArrayType::Integer)
        } else if code == 0x11 {
            Some(JvmArrayType::Long)
        } else {
            None
        }
    }

    pub fn from_u8(code: u8) -> (r: Option<JvmArrayType>)
        ensures
            r == JvmArrayType::of(code),
    {
        if code == 0x4 {
            Some(JvmArrayType::Boolean)
        } else if code == 0x5 {
            Some(JvmArrayType::Char)
        } else if code == 0x6 {
            Some(JvmArrayType::Float)
        } else if code == 0x7 {
            Some(JvmArrayType::Double)
        } else if code == 0x8 {
            Some(JvmArrayType::Byte)
        } else if code == 0x9 {
            Some(JvmArrayType::Short)
        } else if code == 0x10 {
            Some(JvmArrayType::Integer)
        } else if code == 0x11 {
            Some(JvmArrayType::Long)
        } else {
            None
        }
    }
}

/// An array of the heap: a fixed number of slots, each empty until it is
/// first written.
#[derive(Debug)]
pub struct JvmArray {
    values: Vec<Option<JvmValue>>,
}

impl View for JvmArray {
    type V = Seq<Option<JvmValue>>;

    closed spec fn view(&self) -> Seq<Option<JvmValue>> {
        self.values@
    }
}

impl JvmArray {
    /// An array of `dimension` empty slots.
    pub fn new(dimension: usize) -> (r: Self)
        ensures
            r@ == Seq::new(dimension as nat, |i: int| None::<JvmValue>),
    {
        let mut values: Vec<Option<JvmValue>> = Vec::new();
        let mut i: usize = 0;
        while i < dimension
            invariant
                i <= dimension,
                values@ == Seq::new(i as nat, |k: int| None::<JvmValue>),
            decreases dimension - i,
        {
            values.push(None);
            i = i + 1;
            assert(values@ =~= Seq::new(i as nat, |k: int| None::<JvmValue>));
        }
        JvmArray { values }
    }

    /// An array of `dimension` slots that all hold `value`.
    pub fn filled(dimension: usize, value: &JvmValue) -> (r: Self)
        ensures
            r@ == Seq::new(dimension as nat, |i: int| Some(*value)),
    {
        let mut values: Vec<Option<JvmValue>> = Vec::new();
        let mut i: usize = 0;
        while i < dimension
            invariant
                i <= dimension,
                values@ == Seq::new(i as nat, |k: int| Some(*value)),
            decreases dimension - i,
        {
            values.push(Some(value.clone()));
            i = i + 1;
            assert(values@ =~= Seq::new(i as nat, |k: int| Some(*value)));
        }
        JvmArray { values }
    }

    /// The number of slots.
    pub fn dimension(&self) -> (r: usize)
        ensures
            r == self@.len(),
    {
        self.values.len()
    }

    /// Whether `index` names a slot of this array.
    pub fn inbounds(&self, index: usize) -> (r: bool)
        ensures
            r == (index < self@.len()),
    {
        index < self.values.len()
    }

    /// Writes `value` to the slot `index`.
    pub fn set_at(&mut self, index: usize, value: JvmValue)
        requires
            index < old(self)@.len(),
        ensures
            final(self)@ == old(self)@.update(index as int, Some(value)),
    {
        self.values[index] = Some(value);
    }

    /// What the slot `index` holds.
    pub fn get_at(&self, index: usize) -> (r: &Option<JvmValue>)
        requires
            index < self@.len(),
        ensures
            *r == self@[index as int],
    {
        &self.values[index]
    }
}

} // verus!
