use crate::bytes::utf8_string;
use crate::error::FatalErrorType;
use vstd::prelude::*;
use vstd::std_specs::cmp::PartialEqSpecImpl;
use vstd::utf8::{decode_utf8, valid_utf8};

verus! {

/// The primitive types, with `Void` for no value and `Invalid` for what
/// could not be read as a type.
#[derive(Clone, Copy, Debug, PartialEq, Eq, Structural)]
pub enum JvmPrimitiveType {
    Void,
    Byte,
    Char,
    Double,
    Float,
    Integer,
    LongInteger,
    Short,
    Boolean,
    Invalid,
}

/// What a reference points at: nothing, or an array or an object of the heap,
/// named by its handle.
#[derive(Clone, Copy, Debug, PartialEq, Eq, Structural)]
pub enum JvmReferenceTargetType {
    Null,
    Array(usize),
    Object(usize),
}

/// The static type of a reference.
#[derive(Debug, PartialEq, Eq)]
pub enum JvmReferenceType {
    Null,
    /// Element type and length.
    Array(Box<JvmType>, u64),
    Class(String),
    Interface(String),
}

/// A type as a descriptor names it.
#[derive(Debug, PartialEq, Eq)]
pub enum JvmType {
    Primitive(JvmPrimitiveType),
    Reference(JvmReferenceType),
}

/// A value on an operand stack, in a local variable, a field or an array slot:
/// the type, the payload (a number or a target), and the access flags of the
/// place it came from.
#[derive(Debug)]
pub enum JvmValue {
    Primitive(JvmPrimitiveType, u64, u16),
    Reference(JvmReferenceType, JvmReferenceTargetType, u16),
}

impl Clone for JvmReferenceType {
    fn clone(&self) -> (r: Self)
        ensures
            r == *self,
        decreases self,
    {
        match self {
            JvmReferenceType::Null => JvmReferenceType::Null,
            JvmReferenceType::Array(inner, len) => {
                let element: JvmType = match &**inner {
                    JvmType::Primitive(p) => JvmType::Primitive(*p),
                    JvmType::Reference(r) => JvmType::Reference(r.clone()),
                };
                JvmReferenceType::Array(Box::new(element), *len)
            },
            JvmReferenceType::Class(name) => JvmReferenceType::Class(name.clone()),
            JvmReferenceType::Interface(name) => JvmReferenceType::Interface(name.clone()),
        }
    }
}

impl Clone for JvmType {
    fn clone(&self) -> (r: Self)
        ensures
            r == *self,
    {
        match self {
            JvmType::Primitive(p) => JvmType::Primitive(*p),
            JvmType::Reference(r) => JvmType::Reference(r.clone()),
        }
    }
}

impl Clone for JvmValue {
    fn clone(&self) -> (r: Self)
        ensures
            r == *self,
    {
        match self {
            JvmValue::Primitive(t, v, access) => JvmValue::Primitive(*t, *v, *access),
            JvmValue::Reference(t, target, access) => JvmValue::Reference(
                t.clone(),
                *target,
                *access,
            ),
        }
    }
}

impl Default for JvmType {
    fn default() -> (r: Self)
        ensures
            r == JvmType::Primitive(JvmPrimitiveType::Invalid),
    {
        JvmType::Primitive(JvmPrimitiveType::Invalid)
    }
}

/// The null reference.
pub open spec fn null_value() -> JvmValue {
    JvmValue::Reference(JvmReferenceType::Null, JvmReferenceTargetType::Null, 0)
}

/// Makes the null reference.
pub fn create_null_value() -> (r: JvmValue)
    ensures
        r == null_value(),
{
    JvmValue::Reference(JvmReferenceType::Null, JvmReferenceTargetType::Null, 0)
}

/// The value that a method without a result hands to its caller.
pub open spec fn void_value() -> JvmValue {
    JvmValue::Primitive(JvmPrimitiveType::Void, 0, 0)
}

/// A 32-bit integer as a value; `bits` is its two's-complement pattern.
pub open spec fn int_value(bits: u32) -> JvmValue {
    JvmValue::Primitive(JvmPrimitiveType::Integer, bits as u64, 0)
}

/// A 32-bit float as a value; `bits` is its IEEE-754 pattern.
pub open spec fn float_value(bits: u32) -> JvmValue {
    JvmValue::Primitive(JvmPrimitiveType::Float, bits as u64, 0)
}

impl JvmValue {
    /// Equality of values: primitives are equal when kind and payload agree,
    /// references when they have the same target. Access flags and the static
    /// type of a reference play no part.
    pub open spec fn same(self, other: JvmValue) -> bool {
        match (self, other) {
            (JvmValue::Primitive(t, v, _), JvmValue::Primitive(ot, ov, _)) => t == ot && v == ov,
            (JvmValue::Reference(_, target, _), JvmValue::Reference(_, otarget, _)) => target
                == otarget,
            _ => false,
        }
    }

    pub open spec fn spec_is_void(&self) -> bool {
        self matches JvmValue::Primitive(JvmPrimitiveType::Void, _, _)
    }

    /// Whether this is the marker that a method returned no value.
    #[verifier::when_used_as_spec(spec_is_void)]
    pub fn is_void(&self) -> (r: bool)
        ensures
            r == self.spec_is_void(),
    {
        match self {
            JvmValue::Primitive(JvmPrimitiveType::Void, _, _) => true,
            _ => false,
        }
    }

    /// The low 32 bits of a primitive's payload: the pattern that the
    /// integer and float instructions work on.
    pub open spec fn low_bits(payload: u64) -> u32 {
        (payload % 0x1_0000_0000) as u32
    }
}

impl PartialEq for JvmValue {
    fn eq(&self, other: &Self) -> (r: bool) {
        match self {
            JvmValue::Primitive(t, v, _) => match other {
                JvmValue::Primitive(ot, ov, _) => *t == *ot && *v == *ov,
                _ => false,
            },
            JvmValue::Reference(_, target, _) => match other {
                JvmValue::Reference(_, otarget, _) => *target == *otarget,
                _ => false,
            },
        }
    }
}

impl PartialEqSpecImpl for JvmValue {
    open spec fn obeys_eq_spec() -> bool {
        true
    }

    open spec fn eq_spec(&self, other: &Self) -> bool {
        self.same(*other)
    }
}

/// The primitive type that a descriptor letter names.
pub open spec fn primitive_of(b: u8) -> Option<JvmPrimitiveType> {
    if b == 86 {
        Some(JvmPrimitiveType::Void)
    } else if b == 66 {
        Some(JvmPrimitiveType::Byte)
    } else if b == 67 {
        Some(JvmPrimitiveType::Char)
    } else if b == 70 {
        Some(JvmPrimitiveType::Float)
    } else if b == 68 {
        Some(JvmPrimitiveType::Double)
    } else if b == 73 {
        Some(JvmPrimitiveType::Integer)
    } else if b == 74 {
        Some(JvmPrimitiveType::LongInteger)
    } else if b == 83 {
        Some(JvmPrimitiveType::Short)
    } else if b == 90 {
        Some(JvmPrimitiveType::Boolean)
    } else {
        None
    }
}

pub fn primitive_for(b: u8) -> (r: Option<JvmPrimitiveType>)
    ensures
        r == primitive_of(b),
{
    if b == 86 {
        Some(JvmPrimitiveType::Void)
    } else if b == 66 {
        Some(JvmPrimitiveType::Byte)
    } else if b == 67 {
        Some(JvmPrimitiveType::Char)
    } else if b == 70 {
        Some(JvmPrimitiveType::Float)
    } else if b == 68 {
        Some(JvmPrimitiveType::Double)
    } else if b == 73 {
        Some(JvmPrimitiveType::Integer)
    } else if b == 74 {
        Some(JvmPrimitiveType::LongInteger)
    } else if b == 83 {
        Some(JvmPrimitiveType::Short)
    } else if b == 90 {
        Some(JvmPrimitiveType::Boolean)
    } else {
        None
    }
}

/// The position of the first byte `b` at or after `i`.
pub open spec fn position_of(d: Seq<u8>, i: int, b: u8) -> Option<int>
    decreases d.len() - i,
{
    if i < 0 || i >= d.len() {
        None
    } else if d[i] == b {
        Some(i)
    } else {
        position_of(d, i + 1, b)
    }
}

/// The position of the first `;` at or after `i`.
pub open spec fn semicolon_from(d: Seq<u8>, i: int) -> Option<int> {
    position_of(d, i, 59)
}

pub fn find_byte(d: &[u8], i: usize, b: u8) -> (r: Option<usize>)
    ensures
        match r {
            Some(j) => position_of(d@, i as int, b) == Some(j as int) && i <= j < d@.len(),
            None => position_of(d@, i as int, b) is None,
        },
        d@.len() <= usize::MAX,
{
    let mut j: usize = i;
    while j < d.len()
        invariant
            i <= j,
            position_of(d@, i as int, b) == position_of(d@, j as int, b),
        decreases d.len() - j,
    {
        if d[j] == b {
            return Some(j);
        }
        j = j + 1;
    }
    None
}

pub fn find_semicolon(d: &[u8], i: usize) -> (r: Option<usize>)
    ensures
        match r {
            Some(j) => semicolon_from(d@, i as int) == Some(j as int) && i <= j < d@.len(),
            None => semicolon_from(d@, i as int) is None,
        },
{
    find_byte(d, i, 59)
}

/// Why the type descriptor that starts at `i` cannot be read: the letter at
/// fault, `L` for a class name that does not end or is not text, 0 where the
/// descriptor ends too early. `None` for a descriptor that can be read.
pub open spec fn type_fault(d: Seq<u8>, i: int) -> Option<u8>
    decreases d.len() - i,
{
    if i < 0 || i >= d.len() {
        Some(0u8)
    } else if primitive_of(d[i]) is Some {
        None
    } else if d[i] == 76 {
        match semicolon_from(d, i + 1) {
            Some(j) => if valid_utf8(d.subrange(i + 1, j)) {
                None
            } else {
                Some(76u8)
            },
            None => Some(76u8),
        }
    } else if d[i] == 91 {
        type_fault(d, i + 1)
    } else {
        Some(d[i])
    }
}

/// Whether `t` is the type that the descriptor starting at `i` names: a
/// letter for a primitive, `L`name`;` for a class, `[` and an element type
/// for an array (whose length a descriptor does not give: 0).
pub open spec fn describes(t: JvmType, d: Seq<u8>, i: int) -> bool
    decreases d.len() - i,
{
    if i < 0 || i >= d.len() {
        false
    } else if primitive_of(d[i]) is Some {
        t == JvmType::Primitive(primitive_of(d[i]).unwrap())
    } else if d[i] == 76 {
        match semicolon_from(d, i + 1) {
            Some(j) => t matches JvmType::Reference(JvmReferenceType::Class(name)) && name@
                == decode_utf8(d.subrange(i + 1, j)),
            None => false,
        }
    } else if d[i] == 91 {
        t matches JvmType::Reference(JvmReferenceType::Array(inner, len)) && len == 0 && describes(
            *inner,
            d,
            i + 1,
        )
    } else {
        false
    }
}

/// The number of bytes that the type descriptor starting at `i` takes up.
pub open spec fn type_len(d: Seq<u8>, i: int) -> Option<int>
    decreases d.len() - i,
{
    if i < 0 || i >= d.len() {
        None
    } else if primitive_of(d[i]) is Some {
        Some(1)
    } else if d[i] == 76 {
        match semicolon_from(d, i + 1) {
            Some(j) => Some(j - i + 1),
            None => None,
        }
    } else if d[i] == 91 {
        match type_len(d, i + 1) {
            Some(n) => Some(n + 1),
            None => None,
        }
    } else {
        None
    }
}

/// Steps over the type descriptor starting at `i`: the position just behind it.
pub fn skip_type(d: &[u8], i: usize) -> (r: Option<usize>)
    ensures
        match r {
            Some(j) => type_len(d@, i as int) == Some(j - i) && i < j <= d@.len(),
            None => type_len(d@, i as int) is None,
        },
    decreases d@.len() - i,
{
    if i >= d.len() {
        return None;
    }
    let b = d[i];
    if primitive_for(b).is_some() {
        Some(i + 1)
    } else if b == 76 {
        match find_semicolon(d, i + 1) {
            Some(j) => Some(j + 1),
            None => None,
        }
    } else if b == 91 {
        skip_type(d, i + 1)
    } else {
        None
    }
}

impl JvmType {
    /// Reads the type descriptor that starts at `i` in `d`.
    pub fn from_descriptor(d: &[u8], i: usize) -> (r: Result<JvmType, FatalErrorType>)
        ensures
            r is Ok <==> type_fault(d@, i as int) is None,
            r matches Ok(t) ==> describes(t, d@, i as int),
            r matches Err(e) ==> e == FatalErrorType::InvalidFieldType(
                type_fault(d@, i as int).unwrap(),
            ),
        decreases d@.len() - i,
    {
        if i >= d.len() {
            return Err(FatalErrorType::InvalidFieldType(0));
        }
        let b = d[i];
        match primitive_for(b) {
            Some(p) => Ok(JvmType::Primitive(p)),
            None => {
                if b == 76 {
                    match find_semicolon(d, i + 1) {
                        Some(j) => match utf8_string(d, i + 1, j) {
                            Some(name) => Ok(JvmType::Reference(JvmReferenceType::Class(name))),
                            None => Err(FatalErrorType::InvalidFieldType(76)),
                        },
                        None => Err(FatalErrorType::InvalidFieldType(76)),
                    }
                } else if b == 91 {
                    match JvmType::from_descriptor(d, i + 1) {
                        Ok(inner) => Ok(
                            JvmType::Reference(JvmReferenceType::Array(Box::new(inner), 0)),
                        ),
                        Err(e) => Err(e),
                    }
                } else {
                    Err(FatalErrorType::InvalidFieldType(b))
                }
            },
        }
    }

    /// Reads a whole type descriptor.
    pub fn from(d: &[u8]) -> (r: Result<JvmType, FatalErrorType>)
        ensures
            r is Ok <==> type_fault(d@, 0) is None,
            r matches Ok(t) ==> describes(t, d@, 0),
            r matches Err(e) ==> e == FatalErrorType::InvalidFieldType(type_fault(d@, 0).unwrap()),
    {
        JvmType::from_descriptor(d, 0)
    }

    pub open spec fn spec_is_void(&self) -> bool {
        *self == JvmType::Primitive(JvmPrimitiveType::Void)
    }

    /// Whether this is the type of a method without a result.
    #[verifier::when_used_as_spec(spec_is_void)]
    pub fn is_void(&self) -> (r: bool)
        ensures
            r == self.spec_is_void(),
    {
        match self {
            JvmType::Primitive(JvmPrimitiveType::Void) => true,
            _ => false,
        }
    }

    /// The value that a field of this type holds before anything is stored
    /// in it: zero for a primitive, the null reference otherwise.
    pub open spec fn default_value(self, access: u16) -> JvmValue {
        match self {
            JvmType::Primitive(p) => JvmValue::Primitive(p, 0, access),
            JvmType::Reference(_) => JvmValue::Reference(
                JvmReferenceType::Null,
                JvmReferenceTargetType::Null,
                access,
            ),
        }
    }

    pub fn initial_value(&self, access: u16) -> (r: JvmValue)
        ensures
            r == self.default_value(access),
    {
        match self {
            JvmType::Primitive(p) => JvmValue::Primitive(*p, 0, access),
            JvmType::Reference(_) => JvmValue::Reference(
                JvmReferenceType::Null,
                JvmReferenceTargetType::Null,
                access,
            ),
        }
    }
}

} // verus!
