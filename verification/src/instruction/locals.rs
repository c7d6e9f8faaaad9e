use crate::error::FatalErrorType;
use crate::frame::{Frame, FrameView};
use crate::instruction::{below, drop_top, peek, OpcodeResult};
use crate::typevalues::{JvmPrimitiveType, JvmValue};
use vstd::prelude::*;

verus! {

/// The kinds of value that a load or a store can insist on.
#[derive(Clone, Copy, Debug, PartialEq, Eq, Structural)]
pub enum Slot {
    /// Any value.
    Any,
    /// Any primitive.
    Primitive,
    /// A float.
    Float,
    /// A reference.
    Reference,
}

impl Slot {
    /// Whether `v` is of this kind.
    pub open spec fn admits(self, v: JvmValue) -> bool {
        match self {
            Slot::Any => true,
            Slot::Primitive => v is Primitive,
            Slot::Float => v matches JvmValue::Primitive(JvmPrimitiveType::Float, _, _),
            Slot::Reference => v is Reference,
        }
    }

    pub fn accepts(&self, v: &JvmValue) -> (r: bool)
        ensures
            r == self.admits(*v),
    {
        match self {
            Slot::Any => true,
            Slot::Primitive => match v {
                JvmValue::Primitive(_, _, _) => true,
                _ => false,
            },
            Slot::Float => match v {
                JvmValue::Primitive(JvmPrimitiveType::Float, _, _) => true,
                _ => false,
            },
            Slot::Reference => match v {
                JvmValue::Reference(_, _, _) => true,
                _ => false,
            },
        }
    }
}

/// A load: the value of local variable `x`, which must be of the kind
/// `slot`, is pushed.
pub open spec fn load(frame: FrameView, x: usize, slot: Slot, what: &'static str) -> (
    OpcodeResult,
    FrameView,
) {
    if x >= frame.locals.len() {
        (OpcodeResult::Fatal(FatalErrorType::NotEnough(what, x, "locals")), frame)
    } else if !slot.admits(frame.locals[x as int]) {
        (OpcodeResult::Fatal(FatalErrorType::WrongType(what, "Reference")), frame)
    } else {
        (
            OpcodeResult::Incr(1),
            FrameView { operand_stack: frame.operand_stack.push(frame.locals[x as int]), ..frame },
        )
    }
}

pub fn execute_load(x: usize, slot: Slot, what: &'static str, frame: &mut Frame) -> (r:
    OpcodeResult)
    ensures
        (r, final(frame)@) == load(old(frame)@, x, slot, what),
{
    if x >= frame.locals.len() {
        OpcodeResult::Fatal(FatalErrorType::NotEnough(what, x, "locals"))
    } else if !slot.accepts(&frame.locals[x]) {
        OpcodeResult::Fatal(FatalErrorType::WrongType(what, "Reference"))
    } else {
        let v = frame.locals[x].clone();
        frame.operand_stack.push(v);
        OpcodeResult::Incr(1)
    }
}

/// `iload_<x>`: pushes local variable `x`.
pub fn execute_iload_x(x: usize, frame: &mut Frame) -> (r: OpcodeResult)
    ensures
        (r, final(frame)@) == load(old(frame)@, x, Slot::Any, "iload"),
{
    execute_load(x, Slot::Any, "iload", frame)
}

/// `fload_<x>`: pushes local variable `x`.
pub fn execute_fload_x(x: usize, frame: &mut Frame) -> (r: OpcodeResult)
    ensures
        (r, final(frame)@) == load(old(frame)@, x, Slot::Any, "fload"),
{
    execute_load(x, Slot::Any, "fload", frame)
}

/// `aload_<x>`: pushes local variable `x`, which must hold a reference.
pub fn execute_aload_x(x: usize, frame: &mut Frame) -> (r: OpcodeResult)
    ensures
        (r, final(frame)@) == load(old(frame)@, x, Slot::Reference, "aload"),
{
    execute_load(x, Slot::Reference, "aload", frame)
}

/// A store: the value on top of the operand stack, which must be of the
/// kind `slot`, is taken off and becomes local variable `x`; the
/// instruction is `step` bytes long.
pub open spec fn store(
    frame: FrameView,
    x: usize,
    slot: Slot,
    what: &'static str,
    expected: &'static str,
    step: usize,
) -> (OpcodeResult, FrameView) {
    if x >= frame.locals.len() {
        (OpcodeResult::Fatal(FatalErrorType::NotEnough(what, x, "locals")), frame)
    } else if frame.operand_stack.len() == 0 {
        (OpcodeResult::Fatal(FatalErrorType::RequiredStackValueNotFound(what)), frame)
    } else if !slot.admits(peek(frame.operand_stack, 0)) {
        (OpcodeResult::Fatal(FatalErrorType::WrongType(what, expected)), frame)
    } else {
        (
            OpcodeResult::Incr(step),
            FrameView {
                operand_stack: below(frame.operand_stack, 1),
                locals: frame.locals.update(x as int, peek(frame.operand_stack, 0)),
                ..frame
            },
        )
    }
}

pub fn execute_store(
    x: usize,
    slot: Slot,
    what: &'static str,
    expected: &'static str,
    step: usize,
    frame: &mut Frame,
) -> (r: OpcodeResult)
    ensures
        (r, final(frame)@) == store(old(frame)@, x, slot, what, expected, step),
{
    let n = frame.operand_stack.len();
    if x >= frame.locals.len() {
        OpcodeResult::Fatal(FatalErrorType::NotEnough(what, x, "locals"))
    } else if n == 0 {
        OpcodeResult::Fatal(FatalErrorType::RequiredStackValueNotFound(what))
    } else if !slot.accepts(&frame.operand_stack[n - 1]) {
        OpcodeResult::Fatal(FatalErrorType::WrongType(what, expected))
    } else {
        let top = frame.operand_stack[n - 1].clone();
        drop_top(&mut frame.operand_stack, 1);
        frame.locals[x] = top;
        OpcodeResult::Incr(step)
    }
}

/// `istore_<x>`: stores the primitive on top in local variable `x`.
pub fn execute_istore_x(x: usize, frame: &mut Frame) -> (r: OpcodeResult)
    ensures
        (r, final(frame)@) == store(
            old(frame)@,
            x,
            Slot::Primitive,
            "istore",
            "integer primitive",
            1,
        ),
{
    execute_store(x, Slot::Primitive, "istore", "integer primitive", 1, frame)
}

/// `fstore_<x>`: stores the float on top in local variable `x`.
pub fn execute_fstore_x(x: usize, frame: &mut Frame) -> (r: OpcodeResult)
    ensures
        (r, final(frame)@) == store(old(frame)@, x, Slot::Float, "fstore", "float primitive", 1),
{
    execute_store(x, Slot::Float, "fstore", "float primitive", 1, frame)
}

/// `fstore`: stores the float on top in the local variable that the
/// operand byte names.
pub fn execute_fstore(index: usize, frame: &mut Frame) -> (r: OpcodeResult)
    ensures
        (r, final(frame)@) == store(
            old(frame)@,
            index,
            Slot::Float,
            "fstore",
            "float primitive",
            2,
        ),
{
    execute_store(index, Slot::Float, "fstore", "float primitive", 2, frame)
}

/// `astore_<x>`: stores the reference on top in local variable `x`.
pub fn execute_astore_x(x: usize, frame: &mut Frame) -> (r: OpcodeResult)
    ensures
        (r, final(frame)@) == store(old(frame)@, x, Slot::Reference, "astore", "reference", 1),
{
    execute_store(x, Slot::Reference, "astore", "reference", 1, frame)
}

} // verus!
