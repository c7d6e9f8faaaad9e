use crate::array::{JvmArray, JvmArrayType};
use crate::class::Class;
use crate::constant::Constant;
use crate::error::{ExceptionKind, FatalErrorType};
use crate::frame::{Frame, FrameView};
use crate::heap::{Heap, HeapView};
use crate::instruction::{below, drop_top, int_of, integer_bits, peek, wrap, OpcodeResult};
use crate::methodarea::{AreaView, MethodArea};
use crate::typevalues::{
    int_value, null_value, JvmPrimitiveType, JvmReferenceTargetType, JvmReferenceType, JvmType,
    JvmValue,
};
use vstd::prelude::*;

verus! {

/// What a value says about being an array reference.
pub enum ArrayRef {
    /// A reference to the array with this handle, whose elements are
    /// declared to be characters or not.
    Array(usize, bool),
    /// The null reference.
    Null,
    /// Anything else.
    Other,
}

/// Reads a value as an array reference.
pub open spec fn array_ref(v: JvmValue) -> ArrayRef {
    match v {
        JvmValue::Reference(
            JvmReferenceType::Array(element, _),
            JvmReferenceTargetType::Array(handle),
            _,
        ) => ArrayRef::Array(handle, *element == JvmType::Primitive(JvmPrimitiveType::Char)),
        JvmValue::Reference(JvmReferenceType::Null, JvmReferenceTargetType::Null, _) => {
            ArrayRef::Null
        },
        _ => ArrayRef::Other,
    }
}

pub fn as_array_ref(v: &JvmValue) -> (r: ArrayRef)
    ensures
        r == array_ref(*v),
{
    match v {
        JvmValue::Reference(
            JvmReferenceType::Array(element, _),
            JvmReferenceTargetType::Array(handle),
            _,
        ) => {
            let chars = match &**element {
                JvmType::Primitive(JvmPrimitiveType::Char) => true,
                _ => false,
            };
            ArrayRef::Array(*handle, chars)
        },
        JvmValue::Reference(JvmReferenceType::Null, JvmReferenceTargetType::Null, _) => {
            ArrayRef::Null
        },
        _ => ArrayRef::Other,
    }
}

/// What an instruction that works on the operand stack and the heap comes
/// to: the way to go on, the activation and the heap.
pub struct HeapEffect {
    pub result: OpcodeResult,
    pub frame: FrameView,
    pub heap: HeapView,
}

/// The instruction stops with `result`; nothing changes.
pub open spec fn stopped(result: OpcodeResult, frame: FrameView, heap: HeapView) -> HeapEffect {
    HeapEffect { result, frame, heap }
}

/// The instruction, `step` bytes long, succeeds with a new stack and heap.
pub open spec fn done(step: usize, stack: Seq<JvmValue>, frame: FrameView, heap: HeapView) -> HeapEffect {
    HeapEffect {
        result: OpcodeResult::Incr(step),
        frame: FrameView { operand_stack: stack, ..frame },
        heap,
    }
}

/// The type of the elements of an array that is made with this type code.
pub open spec fn element_type(kind: JvmArrayType) -> JvmPrimitiveType {
    match kind {
        JvmArrayType::Boolean => JvmPrimitiveType::Boolean,
        JvmArrayType::Char => JvmPrimitiveType::Char,
        JvmArrayType::Float => JvmPrimitiveType::Float,
        JvmArrayType::Double => JvmPrimitiveType::Double,
        JvmArrayType::Byte => JvmPrimitiveType::Byte,
        JvmArrayType::Short => JvmPrimitiveType::Short,
        JvmArrayType::Integer => JvmPrimitiveType::Integer,
        JvmArrayType::Long => JvmPrimitiveType::LongInteger,
    }
}

pub fn element_type_of(kind: JvmArrayType) -> (r: JvmPrimitiveType)
    ensures
        r == element_type(kind),
{
    match kind {
        JvmArrayType::Boolean => JvmPrimitiveType::Boolean,
        JvmArrayType::Char => JvmPrimitiveType::Char,
        JvmArrayType::Float => JvmPrimitiveType::Float,
        JvmArrayType::Double => JvmPrimitiveType::Double,
        JvmArrayType::Byte => JvmPrimitiveType::Byte,
        JvmArrayType::Short => JvmPrimitiveType::Short,
        JvmArrayType::Integer => JvmPrimitiveType::Integer,
        JvmArrayType::Long => JvmPrimitiveType::LongInteger,
    }
}

/// `newarray`: the integer on top is taken off as a length, and a
/// reference to a new array of that many empty slots takes its place. The
/// operand byte `code` says of what primitive type the elements are.
pub open spec fn newarray(frame: FrameView, heap: HeapView, code: u8) -> HeapEffect {
    let stack = frame.operand_stack;
    if stack.len() == 0 {
        stopped(
            OpcodeResult::Fatal(FatalErrorType::RequiredStackValueNotFound("newarray")),
            frame,
            heap,
        )
    } else if int_of(peek(stack, 0)) is None {
        stopped(OpcodeResult::Fatal(FatalErrorType::WrongType("newarray", "integer")), frame, heap)
    } else {
        let len = int_of(peek(stack, 0)).unwrap();
        match JvmArrayType::of(code) {
            Some(kind) => if len >= 0x8000_0000 {
                stopped(OpcodeResult::Exception(ExceptionKind::NegativeArraySize), frame, heap)
            } else {
                done(
                    2,
                    below(stack, 1).push(
                        JvmValue::Reference(
                            JvmReferenceType::Array(
                                Box::new(JvmType::Primitive(element_type(kind))),
                                len as u64,
                            ),
                            JvmReferenceTargetType::Array(heap.arrays.len() as usize),
                            0,
                        ),
                    ),
                    frame,
                    heap.with_array(Seq::new(len as nat, |i: int| None::<JvmValue>)),
                )
            },
            None => stopped(
                OpcodeResult::Fatal(FatalErrorType::WrongType("newarray", "JvmArrayType")),
                frame,
                heap,
            ),
        }
    }
}

pub fn execute_newarray(code: u8, frame: &mut Frame, heap: &mut Heap) -> (r: OpcodeResult)
    ensures
        (HeapEffect { result: r, frame: final(frame)@, heap: final(heap)@ }) == newarray(
            old(frame)@,
            old(heap)@,
            code,
        ),
{
    let n = frame.operand_stack.len();
    if n == 0 {
        return OpcodeResult::Fatal(FatalErrorType::RequiredStackValueNotFound("newarray"));
    }
    let len = match integer_bits(&frame.operand_stack[n - 1]) {
        Some(len) => len,
        None => {
            return OpcodeResult::Fatal(FatalErrorType::WrongType("newarray", "integer"));
        },
    };
    match JvmArrayType::from_u8(code) {
        Some(kind) => {
            if len >= 0x8000_0000 {
                return OpcodeResult::Exception(ExceptionKind::NegativeArraySize);
            }
            let handle = heap.allocate_array(JvmArray::new(len as usize));
            drop_top(&mut frame.operand_stack, 1);
            frame.operand_stack.push(
                JvmValue::Reference(
                    JvmReferenceType::Array(
                        Box::new(JvmType::Primitive(element_type_of(kind))),
                        len as u64,
                    ),
                    JvmReferenceTargetType::Array(handle),
                    0,
                ),
            );
            OpcodeResult::Incr(2)
        },
        None => OpcodeResult::Fatal(FatalErrorType::WrongType("newarray", "JvmArrayType")),
    }
}

/// `anewarray`: the integer on top is taken off as a length, and a
/// reference to a new array of that many null references takes its place.
/// The element class, named in slot `index` of the constant pool of
/// `class`, must be loaded first.
pub open spec fn anewarray(
    frame: FrameView,
    heap: HeapView,
    area: AreaView,
    class: &Class,
    index: u16,
) -> HeapEffect {
    let stack = frame.operand_stack;
    let cp = &class.constant_pool;
    if stack.len() == 0 {
        stopped(
            OpcodeResult::Fatal(FatalErrorType::RequiredStackValueNotFound("anewarray")),
            frame,
            heap,
        )
    } else if int_of(peek(stack, 0)) is None {
        stopped(
            OpcodeResult::Fatal(FatalErrorType::WrongType("anewarray", "integer primitive")),
            frame,
            heap,
        )
    } else if index < cp@.len() && cp@[index as int] is Class {
        match cp.class_name(index as int) {
            None => stopped(
                OpcodeResult::Fatal(
                    FatalErrorType::WrongType("anewarray", "symbolic reference to class."),
                ),
                frame,
                heap,
            ),
            Some(name) => {
                let len = int_of(peek(stack, 0)).unwrap();
                if area.class_id(name@) is None {
                    stopped(OpcodeResult::Load(name), frame, heap)
                } else if len >= 0x8000_0000 {
                    stopped(OpcodeResult::Exception(ExceptionKind::NegativeArraySize), frame, heap)
                } else {
                    done(
                        3,
                        below(stack, 1).push(
                            JvmValue::Reference(
                                JvmReferenceType::Array(
                                    Box::new(JvmType::Reference(JvmReferenceType::Class(name))),
                                    len as u64,
                                ),
                                JvmReferenceTargetType::Array(heap.arrays.len() as usize),
                                0,
                            ),
                        ),
                        frame,
                        heap.with_array(Seq::new(len as nat, |i: int| Some(null_value()))),
                    )
                }
            },
        }
    } else if index < cp@.len() && cp@[index as int] is InterfaceMethodref {
        stopped(
            OpcodeResult::Fatal(
                FatalErrorType::NotImplemented("execute_anewarray of interface/method references."),
            ),
            frame,
            heap,
        )
    } else {
        stopped(
            OpcodeResult::Fatal(
                FatalErrorType::WrongType(
                    "anewarray",
                    "reference to class, interface/method or array.",
                ),
            ),
            frame,
            heap,
        )
    }
}

pub fn execute_anewarray(
    index: u16,
    class: &Class,
    area: &MethodArea,
    frame: &mut Frame,
    heap: &mut Heap,
) -> (r: OpcodeResult)
    ensures
        (HeapEffect { result: r, frame: final(frame)@, heap: final(heap)@ }) == anewarray(
            old(frame)@,
            old(heap)@,
            area@,
            class,
            index,
        ),
{
    let n = frame.operand_stack.len();
    if n == 0 {
        return OpcodeResult::Fatal(FatalErrorType::RequiredStackValueNotFound("anewarray"));
    }
    let len = match integer_bits(&frame.operand_stack[n - 1]) {
        Some(len) => len,
        None => {
            return OpcodeResult::Fatal(
                FatalErrorType::WrongType("anewarray", "integer primitive"),
            );
        },
    };
    let cp = class.get_constant_pool_ref();
    if (index as usize) < cp.constant_pool_count() as usize {
        match cp.get_constant_ref(index as usize) {
            Constant::Class(_, _) => {
                return match cp.class_name_at(index as usize) {
                    None => OpcodeResult::Fatal(
                        FatalErrorType::WrongType("anewarray", "symbolic reference to class."),
                    ),
                    Some(name) => {
                        if area.class_id(name).is_none() {
                            OpcodeResult::Load(name.clone())
                        } else if len >= 0x8000_0000 {
                            OpcodeResult::Exception(ExceptionKind::NegativeArraySize)
                        } else {
                            let null = crate::typevalues::create_null_value();
                            let handle = heap.allocate_array(JvmArray::filled(len as usize, &null));
                            drop_top(&mut frame.operand_stack, 1);
                            frame.operand_stack.push(
                                JvmValue::Reference(
                                    JvmReferenceType::Array(
                                        Box::new(
                                            JvmType::Reference(JvmReferenceType::Class(name.clone())),
                                        ),
                                        len as u64,
                                    ),
                                    JvmReferenceTargetType::Array(handle),
                                    0,
                                ),
                            );
                            OpcodeResult::Incr(3)
                        }
                    },
                };
            },
            Constant::InterfaceMethodref(_, _, _) => {
                return OpcodeResult::Fatal(
                    FatalErrorType::NotImplemented(
                        "execute_anewarray of interface/method references.",
                    ),
                );
            },
            _ => {},
        }
    }
    OpcodeResult::Fatal(
        FatalErrorType::WrongType("anewarray", "reference to class, interface/method or array."),
    )
}

/// `arraylength`: the array reference on top gives way to the length of
/// the array.
pub open spec fn arraylength(frame: FrameView, heap: HeapView) -> (OpcodeResult, FrameView) {
    let stack = frame.operand_stack;
    if stack.len() == 0 {
        (OpcodeResult::Fatal(FatalErrorType::RequiredStackValueNotFound("arraylength")), frame)
    } else {
        match array_ref(peek(stack, 0)) {
            ArrayRef::Array(handle, _) => if heap.has_array(handle) {
                (
                    OpcodeResult::Incr(1),
                    FrameView {
                        operand_stack: below(stack, 1).push(
                            int_value(wrap(heap.arrays[handle as int].len() as int)),
                        ),
                        ..frame
                    },
                )
            } else {
                (
                    OpcodeResult::Fatal(
                        FatalErrorType::WrongType("arraylength", "reference to an array"),
                    ),
                    frame,
                )
            },
            _ => (
                OpcodeResult::Fatal(
                    FatalErrorType::WrongType("arraylength", "reference to an array"),
                ),
                frame,
            ),
        }
    }
}

pub fn execute_arraylength(frame: &mut Frame, heap: &Heap) -> (r: OpcodeResult)
    ensures
        (r, final(frame)@) == arraylength(old(frame)@, heap@),
{
    let n = frame.operand_stack.len();
    if n == 0 {
        return OpcodeResult::Fatal(FatalErrorType::RequiredStackValueNotFound("arraylength"));
    }
    match as_array_ref(&frame.operand_stack[n - 1]) {
        ArrayRef::Array(handle, _) => match heap.array(handle) {
            Some(array) => {
                let len: u64 = (array.dimension() as u64) % 0x1_0000_0000;
                drop_top(&mut frame.operand_stack, 1);
                frame.operand_stack.push(JvmValue::Primitive(JvmPrimitiveType::Integer, len, 0));
                OpcodeResult::Incr(1)
            },
            None => OpcodeResult::Fatal(
                FatalErrorType::WrongType("arraylength", "reference to an array"),
            ),
        },
        _ => OpcodeResult::Fatal(FatalErrorType::WrongType("arraylength", "reference to an array")),
    }
}

/// What a load from an array finds.
pub enum Loaded {
    /// The slot holds this value.
    Value(JvmValue),
    /// The slot is empty.
    Empty,
    /// The instruction stops with this result.
    Stop(OpcodeResult),
}

/// The access to slot `index` of the array that `arrayref` refers to, for
/// an instruction called `what`; `chars` says whether the instruction
/// insists on an array of characters. The access succeeds exactly when the
/// reference is to an array of the heap, of the element type insisted on,
/// and the index is an integer below the array's length; an index at or
/// beyond the length raises `IndexOutOfBounds`, a null reference
/// `NullPointer`.
pub open spec fn slot_access(
    heap: HeapView,
    arrayref: JvmValue,
    index: JvmValue,
    chars: bool,
    what: &'static str,
) -> Result<(usize, usize), OpcodeResult> {
    match array_ref(arrayref) {
        ArrayRef::Array(handle, of_chars) => if chars && !of_chars {
            Err(
                OpcodeResult::Fatal(
                    FatalErrorType::WrongType(what, "reference to an array of characters"),
                ),
            )
        } else if int_of(index) is None {
            Err(OpcodeResult::Fatal(FatalErrorType::WrongType(what, "Integer")))
        } else if !heap.has_array(handle) {
            Err(OpcodeResult::Fatal(FatalErrorType::WrongType(what, "Reference to an array")))
        } else if int_of(index).unwrap() >= heap.arrays[handle as int].len() {
            Err(OpcodeResult::Exception(ExceptionKind::IndexOutOfBounds))
        } else {
            Ok((handle, int_of(index).unwrap() as usize))
        },
        ArrayRef::Null => Err(OpcodeResult::Exception(ExceptionKind::NullPointer)),
        ArrayRef::Other => Err(
            OpcodeResult::Fatal(FatalErrorType::WrongType(what, "Reference to an array")),
        ),
    }
}

pub fn access_slot(
    heap: &Heap,
    arrayref: &JvmValue,
    index: &JvmValue,
    chars: bool,
    what: &'static str,
) -> (r: Result<(usize, usize), OpcodeResult>)
    ensures
        r == slot_access(heap@, *arrayref, *index, chars, what),
{
    match as_array_ref(arrayref) {
        ArrayRef::Array(handle, of_chars) => {
            if chars && !of_chars {
                return Err(
                    OpcodeResult::Fatal(
                        FatalErrorType::WrongType(what, "reference to an array of characters"),
                    ),
                );
            }
            let i = match integer_bits(index) {
                Some(i) => i,
                None => {
                    return Err(OpcodeResult::Fatal(FatalErrorType::WrongType(what, "Integer")));
                },
            };
            match heap.array(handle) {
                None => Err(
                    OpcodeResult::Fatal(FatalErrorType::WrongType(what, "Reference to an array")),
                ),
                Some(array) => {
                    if array.inbounds(i as usize) {
                        Ok((handle, i as usize))
                    } else {
                        Err(OpcodeResult::Exception(ExceptionKind::IndexOutOfBounds))
                    }
                },
            }
        },
        ArrayRef::Null => Err(OpcodeResult::Exception(ExceptionKind::NullPointer)),
        ArrayRef::Other => Err(
            OpcodeResult::Fatal(FatalErrorType::WrongType(what, "Reference to an array")),
        ),
    }
}

/// `caload`: the array reference and the index on top give way to the
/// character in that slot, as an integer.
pub open spec fn caload(frame: FrameView, heap: HeapView) -> (OpcodeResult, FrameView) {
    let stack = frame.operand_stack;
    if stack.len() < 2 {
        (OpcodeResult::Fatal(FatalErrorType::RequiredStackValueNotFound("caload")), frame)
    } else {
        match slot_access(heap, peek(stack, 1), peek(stack, 0), true, "caload") {
            Err(stop) => (stop, frame),
            Ok((handle, i)) => match heap.arrays[handle as int][i as int] {
                Some(JvmValue::Primitive(JvmPrimitiveType::Char, c, access)) => (
                    OpcodeResult::Incr(1),
                    FrameView {
                        operand_stack: below(stack, 2).push(
                            JvmValue::Primitive(JvmPrimitiveType::Integer, c, access),
                        ),
                        ..frame
                    },
                ),
                _ => (
                    OpcodeResult::Fatal(
                        FatalErrorType::WrongType(
                            "caload loaded value from array",
                            "Primitive Character",
                        ),
                    ),
                    frame,
                ),
            },
        }
    }
}

pub fn execute_caload(frame: &mut Frame, heap: &Heap) -> (r: OpcodeResult)
    ensures
        (r, final(frame)@) == caload(old(frame)@, heap@),
{
    let n = frame.operand_stack.len();
    if n < 2 {
        return OpcodeResult::Fatal(FatalErrorType::RequiredStackValueNotFound("caload"));
    }
    match access_slot(heap, &frame.operand_stack[n - 2], &frame.operand_stack[n - 1], true, "caload") {
        Err(stop) => stop,
        Ok((handle, i)) => {
            let array = heap.array(handle).unwrap();
            match array.get_at(i) {
                Some(JvmValue::Primitive(JvmPrimitiveType::Char, c, access)) => {
                    let value = JvmValue::Primitive(JvmPrimitiveType::Integer, *c, *access);
                    drop_top(&mut frame.operand_stack, 2);
                    frame.operand_stack.push(value);
                    OpcodeResult::Incr(1)
                },
                _ => OpcodeResult::Fatal(
                    FatalErrorType::WrongType(
                        "caload loaded value from array",
                        "Primitive Character",
                    ),
                ),
            }
        },
    }
}

/// `aaload`: the array reference and the index on top give way to the
/// value in that slot.
pub open spec fn aaload(frame: FrameView, heap: HeapView) -> (OpcodeResult, FrameView) {
    let stack = frame.operand_stack;
    if stack.len() < 2 {
        (OpcodeResult::Fatal(FatalErrorType::RequiredStackValueNotFound("aaload")), frame)
    } else {
        match slot_access(heap, peek(stack, 1), peek(stack, 0), false, "aaload") {
            Err(stop) => (stop, frame),
            Ok((handle, i)) => match heap.arrays[handle as int][i as int] {
                Some(value) => (
                    OpcodeResult::Incr(1),
                    FrameView { operand_stack: below(stack, 2).push(value), ..frame },
                ),
                None => (
                    OpcodeResult::Fatal(
                        FatalErrorType::WrongType("aaload loaded value from array", "Reference"),
                    ),
                    frame,
                ),
            },
        }
    }
}

pub fn execute_aaload(frame: &mut Frame, heap: &Heap) -> (r: OpcodeResult)
    ensures
        (r, final(frame)@) == aaload(old(frame)@, heap@),
{
    let n = frame.operand_stack.len();
    if n < 2 {
        return OpcodeResult::Fatal(FatalErrorType::RequiredStackValueNotFound("aaload"));
    }
    match access_slot(heap, &frame.operand_stack[n - 2], &frame.operand_stack[n - 1], false, "aaload") {
        Err(stop) => stop,
        Ok((handle, i)) => {
            let array = heap.array(handle).unwrap();
            match array.get_at(i) {
                Some(value) => {
                    let value = value.clone();
                    drop_top(&mut frame.operand_stack, 2);
                    frame.operand_stack.push(value);
                    OpcodeResult::Incr(1)
                },
                None => OpcodeResult::Fatal(
                    FatalErrorType::WrongType("aaload loaded value from array", "Reference"),
                ),
            }
        },
    }
}

/// `aastore`: the array reference, the index and the value on top are
/// taken off, and the value is written to that slot.
pub open spec fn aastore(frame: FrameView, heap: HeapView) -> HeapEffect {
    let stack = frame.operand_stack;
    if stack.len() < 3 {
        stopped(
            OpcodeResult::Fatal(FatalErrorType::RequiredStackValueNotFound("aastore")),
            frame,
            heap,
        )
    } else {
        match slot_access(heap, peek(stack, 2), peek(stack, 1), false, "aastore") {
            Err(stop) => stopped(stop, frame, heap),
            Ok((handle, i)) => done(
                1,
                below(stack, 3),
                frame,
                heap.with_slot(handle, i, peek(stack, 0)),
            ),
        }
    }
}

pub fn execute_aastore(frame: &mut Frame, heap: &mut Heap) -> (r: OpcodeResult)
    ensures
        (HeapEffect { result: r, frame: final(frame)@, heap: final(heap)@ }) == aastore(
            old(frame)@,
            old(heap)@,
        ),
{
    let n = frame.operand_stack.len();
    if n < 3 {
        return OpcodeResult::Fatal(FatalErrorType::RequiredStackValueNotFound("aastore"));
    }
    match access_slot(heap, &frame.operand_stack[n - 3], &frame.operand_stack[n - 2], false, "aastore") {
        Err(stop) => stop,
        Ok((handle, i)) => {
            let value = frame.operand_stack[n - 1].clone();
            heap.store(handle, i, value);
            drop_top(&mut frame.operand_stack, 3);
            OpcodeResult::Incr(1)
        },
    }
}

/// The character that an integer becomes when it is stored in an array of
/// characters.
pub open spec fn char_value(bits: u32) -> JvmValue {
    JvmValue::Primitive(JvmPrimitiveType::Char, bits as u64, 0)
}

/// `castore`: the array reference, the index and the integer on top are
/// taken off, and the integer is written to that slot as a character.
pub open spec fn castore(frame: FrameView, heap: HeapView) -> HeapEffect {
    let stack = frame.operand_stack;
    if stack.len() < 3 {
        stopped(
            OpcodeResult::Fatal(FatalErrorType::RequiredStackValueNotFound("castore")),
            frame,
            heap,
        )
    } else {
        match slot_access(heap, peek(stack, 2), peek(stack, 1), true, "castore") {
            Err(stop) => stopped(stop, frame, heap),
            Ok((handle, i)) => match int_of(peek(stack, 0)) {
                None => stopped(
                    OpcodeResult::Fatal(FatalErrorType::WrongType("castore value", "Character")),
                    frame,
                    heap,
                ),
                Some(bits) => done(
                    1,
                    below(stack, 3),
                    frame,
                    heap.with_slot(handle, i, char_value(bits)),
                ),
            },
        }
    }
}

pub fn execute_castore(frame: &mut Frame, heap: &mut Heap) -> (r: OpcodeResult)
    ensures
        (HeapEffect { result: r, frame: final(frame)@, heap: final(heap)@ }) == castore(
            old(frame)@,
            old(heap)@,
        ),
{
    let n = frame.operand_stack.len();
    if n < 3 {
        return OpcodeResult::Fatal(FatalErrorType::RequiredStackValueNotFound("castore"));
    }
    match access_slot(heap, &frame.operand_stack[n - 3], &frame.operand_stack[n - 2], true, "castore") {
        Err(stop) => stop,
        Ok((handle, i)) => match integer_bits(&frame.operand_stack[n - 1]) {
            None => OpcodeResult::Fatal(FatalErrorType::WrongType("castore value", "Character")),
            Some(bits) => {
                let value = JvmValue::Primitive(JvmPrimitiveType::Char, bits as u64, 0);
                heap.store(handle, i, value);
                drop_top(&mut frame.operand_stack, 3);
                OpcodeResult::Incr(1)
            },
        },
    }
}

/// An access to an array succeeds only at an index below the array's
/// length; at any other index it raises `IndexOutOfBounds`, every time.
pub proof fn lemma_access_within_bounds(
    heap: HeapView,
    arrayref: JvmValue,
    index: JvmValue,
    chars: bool,
    what: &'static str,
)
    ensures
        slot_access(heap, arrayref, index, chars, what) matches Ok((handle, i)) ==> heap.has_array(
            handle,
        ) && i < heap.arrays[handle as int].len() && int_of(index) == Some(i as u32),
        match array_ref(arrayref) {
            ArrayRef::Array(handle, of_chars) => (of_chars || !chars) && int_of(index) is Some
                && heap.has_array(handle) ==> {
                let length = heap.arrays[handle as int].len();
                let outcome = slot_access(heap, arrayref, index, chars, what);
                &&& outcome is Ok <==> int_of(index).unwrap() < length
                &&& int_of(index).unwrap() >= length ==> outcome == Err::<
                    (usize, usize),
                    OpcodeResult,
                >(OpcodeResult::Exception(ExceptionKind::IndexOutOfBounds))
            },
            _ => true,
        },
{
}

/// A store into an array that does not succeed writes nothing: the heap
/// and the activation stay as they were. A store that succeeds changes one
/// slot of one array, at an index below that array's length.
pub proof fn lemma_store_stays_in_bounds(frame: FrameView, heap: HeapView)
    ensures
        !(castore(frame, heap).result is Incr) ==> castore(frame, heap).heap == heap && castore(
            frame,
            heap,
        ).frame == frame,
        !(aastore(frame, heap).result is Incr) ==> aastore(frame, heap).heap == heap && aastore(
            frame,
            heap,
        ).frame == frame,
        castore(frame, heap).result is Incr ==> exists|handle: usize, i: usize, value: JvmValue|
            heap.has_array(handle) && i < heap.arrays[handle as int].len() && castore(
                frame,
                heap,
            ).heap == #[trigger] heap.with_slot(handle, i, value),
        aastore(frame, heap).result is Incr ==> exists|handle: usize, i: usize, value: JvmValue|
            heap.has_array(handle) && i < heap.arrays[handle as int].len() && aastore(
                frame,
                heap,
            ).heap == #[trigger] heap.with_slot(handle, i, value),
{
    let stack = frame.operand_stack;
    if castore(frame, heap).result is Incr {
        let at = slot_access(heap, peek(stack, 2), peek(stack, 1), true, "castore")->Ok_0;
        let value = char_value(int_of(peek(stack, 0)).unwrap());
        assert(castore(frame, heap).heap == heap.with_slot(at.0, at.1, value));
    }
    if aastore(frame, heap).result is Incr {
        let at = slot_access(heap, peek(stack, 2), peek(stack, 1), false, "aastore")->Ok_0;
        assert(aastore(frame, heap).heap == heap.with_slot(at.0, at.1, peek(stack, 0)));
    }
}

} // verus!
