use crate::frame::{Frame, FrameView};
use crate::instruction::OpcodeResult;
use crate::typevalues::{float_value, int_value, null_value, JvmPrimitiveType, JvmValue};
use vstd::prelude::*;

verus! {

/// The activation after `value` was pushed on its operand stack.
pub open spec fn pushed(frame: FrameView, value: JvmValue) -> FrameView {
    FrameView { operand_stack: frame.operand_stack.push(value), ..frame }
}

/// `aconst_null`: pushes the null reference.
pub fn execute_aconst_null(frame: &mut Frame) -> (r: OpcodeResult)
    ensures
        r == OpcodeResult::Incr(1),
        final(frame)@ == pushed(old(frame)@, null_value()),
{
    frame.operand_stack.push(crate::typevalues::create_null_value());
    OpcodeResult::Incr(1)
}

/// The bit pattern of the integer that `iconst_<x>` pushes, for `x` from
/// -1 to 5.
pub open spec fn small_int(x: int) -> u32 {
    if x < 0 {
        0xffff_ffffu32
    } else {
        x as u32
    }
}

/// `iconst_<x>`: pushes the integer `x`.
pub fn execute_iconst_x(x: i32, frame: &mut Frame) -> (r: OpcodeResult)
    requires
        -1 <= x <= 5,
    ensures
        r == OpcodeResult::Incr(1),
        final(frame)@ == pushed(old(frame)@, int_value(small_int(x as int))),
{
    let bits: u32 = if x < 0 {
        0xffff_ffff
    } else {
        x as u32
    };
    frame.operand_stack.push(JvmValue::Primitive(JvmPrimitiveType::Integer, bits as u64, 0));
    OpcodeResult::Incr(1)
}

/// The bit pattern of the float 0.0.
pub open spec fn float_zero() -> u32 {
    0
}

/// The bit pattern of the float 1.0.
pub open spec fn float_one() -> u32 {
    0x3f80_0000
}

/// `fconst_0`, `fconst_1`: pushes the float with the given bit pattern.
pub fn execute_fconst(bits: u32, frame: &mut Frame) -> (r: OpcodeResult)
    ensures
        r == OpcodeResult::Incr(1),
        final(frame)@ == pushed(old(frame)@, float_value(bits)),
{
    frame.operand_stack.push(JvmValue::Primitive(JvmPrimitiveType::Float, bits as u64, 0));
    OpcodeResult::Incr(1)
}

/// `bipush`: pushes the operand byte as an integer between 0 and 255.
pub fn execute_bipush(operand: u8, frame: &mut Frame) -> (r: OpcodeResult)
    ensures
        r == OpcodeResult::Incr(2),
        final(frame)@ == pushed(old(frame)@, int_value(operand as u32)),
{
    frame.operand_stack.push(
        JvmValue::Primitive(JvmPrimitiveType::Integer, operand as u32 as u64, 0),
    );
    OpcodeResult::Incr(2)
}

} // verus!
