use crate::error::{ExceptionKind, FatalErrorType};
use crate::frame::FrameView;
use crate::typevalues::{JvmPrimitiveType, JvmValue};
use vstd::prelude::*;

pub mod arithmetic;
pub mod arrays;
pub mod constants;
pub mod dispatch;
pub mod fields;
pub mod invoke;
pub mod locals;
pub mod objects;

verus! {

/// The operations on 32-bit floats that the interpreter leaves to its host.
#[derive(Clone, Copy, Debug, PartialEq, Eq, Structural)]
pub enum FloatOperation {
    Add,
    Subtract,
    Multiply,
    Divide,
    /// Compare; the result is the integer -1, 0 or 1.
    Compare,
}

/// What executing one instruction in one activation comes to.
#[derive(Debug, PartialEq)]
pub enum OpcodeResult {
    /// The program raised an exception.
    Exception(ExceptionKind),
    /// Go on with the instruction this many bytes further on.
    Incr(usize),
    /// Go on with the instruction this many bytes back.
    Decr(usize),
    /// The method returns this value.
    Value(JvmValue),
    /// The run cannot go on.
    Fatal(FatalErrorType),
    /// Call the method at this position of the class with this handle; the
    /// flag says whether an object reference comes before the arguments.
    /// The instruction is three bytes long.
    Invoke(usize, usize, bool),
    /// The class with this handle must be initialized first; then the
    /// instruction is executed again.
    Initialize(usize),
    /// The class of this name must be loaded first; then the instruction is
    /// executed again.
    Load(String),
    /// The host must carry out this operation on the two bit patterns and
    /// hand in the result, which takes the place of the two operands.
    Float(FloatOperation, u32, u32),
}

/// The low 32 bits of a payload.
pub open spec fn low32(payload: u64) -> u32 {
    (payload % 0x1_0000_0000) as u32
}

pub fn low_bits(payload: u64) -> (r: u32)
    ensures
        r == low32(payload),
{
    (payload % 0x1_0000_0000) as u32
}

/// The number that a 32-bit pattern stands for in two's complement.
pub open spec fn signed(bits: u32) -> int {
    if bits < 0x8000_0000 {
        bits as int
    } else {
        bits as int - 0x1_0000_0000
    }
}

pub fn to_signed(bits: u32) -> (r: i64)
    ensures
        r as int == signed(bits),
{
    if bits < 0x8000_0000 {
        bits as i64
    } else {
        bits as i64 - 0x1_0000_0000
    }
}

/// The 32-bit pattern that stands for `n` in two's complement, for `n`
/// reduced to 32 bits.
pub open spec fn wrap(n: int) -> u32 {
    (n % 0x1_0000_0000) as u32
}

/// The distance that a signed 16-bit branch offset, stored big-endian in
/// `hi` and `lo`, stands for.
pub open spec fn branch_offset(hi: u8, lo: u8) -> int {
    let raw = hi as int * 256 + lo as int;
    if raw < 0x8000 {
        raw
    } else {
        raw - 0x1_0000
    }
}

/// The jump over `offset` bytes, forwards or backwards.
pub open spec fn jump(offset: int) -> OpcodeResult {
    if offset < 0 {
        OpcodeResult::Decr((-offset) as usize)
    } else {
        OpcodeResult::Incr(offset as usize)
    }
}

/// The jump that a signed 16-bit branch offset asks for.
pub fn branch(hi: u8, lo: u8) -> (r: OpcodeResult)
    ensures
        r == jump(branch_offset(hi, lo)),
{
    let raw: u32 = hi as u32 * 256 + lo as u32;
    if raw < 0x8000 {
        OpcodeResult::Incr(raw as usize)
    } else {
        OpcodeResult::Decr((0x1_0000 - raw) as usize)
    }
}

/// The bit pattern of an integer value; `None` for any other value.
pub open spec fn int_of(v: JvmValue) -> Option<u32> {
    match v {
        JvmValue::Primitive(JvmPrimitiveType::Integer, payload, _) => Some(low32(payload)),
        _ => None,
    }
}

pub fn integer_bits(v: &JvmValue) -> (r: Option<u32>)
    ensures
        r == int_of(*v),
{
    match v {
        JvmValue::Primitive(JvmPrimitiveType::Integer, payload, _) => Some(low_bits(*payload)),
        _ => None,
    }
}

/// The bit pattern of a float value; `None` for any other value.
pub open spec fn float_of(v: JvmValue) -> Option<u32> {
    match v {
        JvmValue::Primitive(JvmPrimitiveType::Float, payload, _) => Some(low32(payload)),
        _ => None,
    }
}

pub fn float_bits(v: &JvmValue) -> (r: Option<u32>)
    ensures
        r == float_of(*v),
{
    match v {
        JvmValue::Primitive(JvmPrimitiveType::Float, payload, _) => Some(low_bits(*payload)),
        _ => None,
    }
}

/// An instruction that only works on the operand stack: where it succeeds,
/// the activation goes on `step` bytes further with the new stack; where it
/// fails, the activation is left as it was.
pub open spec fn on_stack(
    frame: FrameView,
    outcome: Result<Seq<JvmValue>, FatalErrorType>,
    step: usize,
) -> (OpcodeResult, FrameView) {
    match outcome {
        Ok(stack) => (OpcodeResult::Incr(step), FrameView { operand_stack: stack, ..frame }),
        Err(e) => (OpcodeResult::Fatal(e), frame),
    }
}

/// The operand stack without its top `n` values.
pub open spec fn below(stack: Seq<JvmValue>, n: int) -> Seq<JvmValue> {
    stack.subrange(0, stack.len() - n)
}

/// The value `n` places below the top of the operand stack (0: the top).
pub open spec fn peek(stack: Seq<JvmValue>, n: int) -> JvmValue {
    stack[stack.len() - 1 - n]
}

/// Takes the top `n` values off the operand stack.
pub fn drop_top(stack: &mut Vec<JvmValue>, n: usize)
    requires
        n <= old(stack)@.len(),
    ensures
        final(stack)@ == below(old(stack)@, n as int),
{
    let keep = stack.len() - n;
    stack.truncate(keep);
}

} // verus!
