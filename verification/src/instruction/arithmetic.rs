use crate::error::FatalErrorType;
use crate::frame::Frame;
use crate::instruction::{
    below, branch, branch_offset, drop_top, float_bits, float_of, int_of, integer_bits, jump,
    on_stack, peek, signed, to_signed, wrap, FloatOperation, OpcodeResult,
};
use crate::opcodes::ComparisonType;
use crate::typevalues::{int_value, JvmPrimitiveType, JvmValue};
use vstd::prelude::*;

verus! {

/// `pop`: the operand stack without its top value.
pub open spec fn pop(stack: Seq<JvmValue>) -> Result<Seq<JvmValue>, FatalErrorType> {
    if stack.len() >= 1 {
        Ok(below(stack, 1))
    } else {
        Err(FatalErrorType::NotEnough("pop", 1, "stack operands"))
    }
}

pub fn execute_pop(frame: &mut Frame) -> (r: OpcodeResult)
    ensures
        (r, final(frame)@) == on_stack(old(frame)@, pop(old(frame)@.operand_stack), 1),
{
    if frame.operand_stack.len() >= 1 {
        drop_top(&mut frame.operand_stack, 1);
        OpcodeResult::Incr(1)
    } else {
        OpcodeResult::Fatal(FatalErrorType::NotEnough("pop", 1, "stack operands"))
    }
}

/// `dup`: the operand stack with its top value once more on top.
pub open spec fn dup(stack: Seq<JvmValue>) -> Result<Seq<JvmValue>, FatalErrorType> {
    if stack.len() >= 1 {
        Ok(stack.push(stack.last()))
    } else {
        Err(FatalErrorType::NotEnough("dup", 1, "stack operands"))
    }
}

pub fn execute_dup(frame: &mut Frame) -> (r: OpcodeResult)
    ensures
        (r, final(frame)@) == on_stack(old(frame)@, dup(old(frame)@.operand_stack), 1),
{
    let n = frame.operand_stack.len();
    if n >= 1 {
        let top = frame.operand_stack[n - 1].clone();
        frame.operand_stack.push(top);
        OpcodeResult::Incr(1)
    } else {
        OpcodeResult::Fatal(FatalErrorType::NotEnough("dup", 1, "stack operands"))
    }
}

/// `iadd`: the two integers on top give way to their sum, reduced to 32
/// bits.
pub open spec fn iadd(stack: Seq<JvmValue>) -> Result<Seq<JvmValue>, FatalErrorType> {
    if stack.len() >= 2 && int_of(peek(stack, 0)) is Some && int_of(peek(stack, 1)) is Some {
        Ok(
            below(stack, 2).push(
                int_value(wrap(int_of(peek(stack, 1)).unwrap() + int_of(peek(stack, 0)).unwrap())),
            ),
        )
    } else {
        Err(FatalErrorType::WrongType("Iadd", "Integer"))
    }
}

pub fn execute_iadd(frame: &mut Frame) -> (r: OpcodeResult)
    ensures
        (r, final(frame)@) == on_stack(old(frame)@, iadd(old(frame)@.operand_stack), 1),
{
    let n = frame.operand_stack.len();
    if n >= 2 {
        match (integer_bits(&frame.operand_stack[n - 1]), integer_bits(&frame.operand_stack[n - 2])) {
            (Some(b), Some(a)) => {
                let sum: u64 = (a as u64 + b as u64) % 0x1_0000_0000;
                drop_top(&mut frame.operand_stack, 2);
                frame.operand_stack.push(JvmValue::Primitive(JvmPrimitiveType::Integer, sum, 0));
                return OpcodeResult::Incr(1);
            },
            _ => {},
        }
    }
    OpcodeResult::Fatal(FatalErrorType::WrongType("Iadd", "Integer"))
}

/// `imul`: the two integers on top give way to their product, reduced to
/// 32 bits.
pub open spec fn imul(stack: Seq<JvmValue>) -> Result<Seq<JvmValue>, FatalErrorType> {
    if stack.len() >= 2 && int_of(peek(stack, 0)) is Some && int_of(peek(stack, 1)) is Some {
        Ok(
            below(stack, 2).push(
                int_value(wrap(int_of(peek(stack, 1)).unwrap() * int_of(peek(stack, 0)).unwrap())),
            ),
        )
    } else {
        Err(FatalErrorType::WrongType("Imul", "Integer"))
    }
}

pub fn execute_imul(frame: &mut Frame) -> (r: OpcodeResult)
    ensures
        (r, final(frame)@) == on_stack(old(frame)@, imul(old(frame)@.operand_stack), 1),
{
    let n = frame.operand_stack.len();
    if n >= 2 {
        match (integer_bits(&frame.operand_stack[n - 1]), integer_bits(&frame.operand_stack[n - 2])) {
            (Some(b), Some(a)) => {
                assert(a as u64 * b as u64 <= 0xffff_ffff * 0xffff_ffff) by (nonlinear_arith)
                    requires
                        a <= 0xffff_ffff,
                        b <= 0xffff_ffff,
                ;
                let product: u64 = (a as u64 * b as u64) % 0x1_0000_0000;
                drop_top(&mut frame.operand_stack, 2);
                frame.operand_stack.push(
                    JvmValue::Primitive(JvmPrimitiveType::Integer, product, 0),
                );
                return OpcodeResult::Incr(1);
            },
            _ => {},
        }
    }
    OpcodeResult::Fatal(FatalErrorType::WrongType("Imul", "Integer"))
}

/// An operation on the two floats on top of the operand stack: the request
/// to the host to carry it out. The activation stays as it is until the
/// host hands in the result.
pub open spec fn float_request(stack: Seq<JvmValue>, operation: FloatOperation) -> OpcodeResult {
    if stack.len() >= 2 && float_of(peek(stack, 0)) is Some && float_of(peek(stack, 1)) is Some {
        OpcodeResult::Float(
            operation,
            float_of(peek(stack, 1)).unwrap(),
            float_of(peek(stack, 0)).unwrap(),
        )
    } else {
        OpcodeResult::Fatal(FatalErrorType::WrongType("float operation", "Float"))
    }
}

pub fn execute_float(operation: FloatOperation, frame: &Frame) -> (r: OpcodeResult)
    ensures
        r == float_request(frame@.operand_stack, operation),
{
    let n = frame.operand_stack.len();
    if n >= 2 {
        match (float_bits(&frame.operand_stack[n - 1]), float_bits(&frame.operand_stack[n - 2])) {
            (Some(b), Some(a)) => {
                return OpcodeResult::Float(operation, a, b);
            },
            _ => {},
        }
    }
    OpcodeResult::Fatal(FatalErrorType::WrongType("float operation", "Float"))
}

/// `fadd`.
pub fn execute_fadd(frame: &Frame) -> (r: OpcodeResult)
    ensures
        r == float_request(frame@.operand_stack, FloatOperation::Add),
{
    execute_float(FloatOperation::Add, frame)
}

/// `fsub`.
pub fn execute_fsub(frame: &Frame) -> (r: OpcodeResult)
    ensures
        r == float_request(frame@.operand_stack, FloatOperation::Subtract),
{
    execute_float(FloatOperation::Subtract, frame)
}

/// `fmul`.
pub fn execute_fmul(frame: &Frame) -> (r: OpcodeResult)
    ensures
        r == float_request(frame@.operand_stack, FloatOperation::Multiply),
{
    execute_float(FloatOperation::Multiply, frame)
}

/// `fdiv`.
pub fn execute_fdiv(frame: &Frame) -> (r: OpcodeResult)
    ensures
        r == float_request(frame@.operand_stack, FloatOperation::Divide),
{
    execute_float(FloatOperation::Divide, frame)
}

/// `fcmpl`, `fcmpg`.
pub fn execute_fcmp(frame: &Frame) -> (r: OpcodeResult)
    ensures
        r == float_request(frame@.operand_stack, FloatOperation::Compare),
{
    execute_float(FloatOperation::Compare, frame)
}

/// The value that takes the place of the two operands of a float
/// operation, given the bit pattern that the host handed in: a float for
/// the arithmetic operations; for a comparison the integer handed in, which
/// must be -1, 0 or 1.
pub open spec fn float_result(operation: FloatOperation, bits: u32) -> Option<JvmValue> {
    match operation {
        FloatOperation::Compare => if bits == 0 || bits == 1 || bits == 0xffff_ffff {
            Some(int_value(bits))
        } else {
            None
        },
        _ => Some(crate::typevalues::float_value(bits)),
    }
}

/// The operand stack after the host handed in the result `bits` of the
/// float operation that the instruction at hand asked for.
pub open spec fn float_finish(stack: Seq<JvmValue>, operation: FloatOperation, bits: u32) -> Result<
    Seq<JvmValue>,
    FatalErrorType,
> {
    if float_request(stack, operation) is Float && float_result(operation, bits) is Some {
        Ok(below(stack, 2).push(float_result(operation, bits).unwrap()))
    } else {
        Err(FatalErrorType::WrongType("float operation", "Float"))
    }
}

/// Takes in the result of a float operation.
pub fn finish_float(operation: FloatOperation, bits: u32, frame: &mut Frame) -> (r: OpcodeResult)
    ensures
        (r, final(frame)@) == on_stack(
            old(frame)@,
            float_finish(old(frame)@.operand_stack, operation, bits),
            1,
        ),
{
    let value = match operation {
        FloatOperation::Compare => if bits == 0 || bits == 1 || bits == 0xffff_ffff {
            JvmValue::Primitive(JvmPrimitiveType::Integer, bits as u64, 0)
        } else {
            return OpcodeResult::Fatal(FatalErrorType::WrongType("float operation", "Float"));
        },
        _ => JvmValue::Primitive(JvmPrimitiveType::Float, bits as u64, 0),
    };
    match execute_float(operation, frame) {
        OpcodeResult::Float(_, _, _) => {
            drop_top(&mut frame.operand_stack, 2);
            frame.operand_stack.push(value);
            OpcodeResult::Incr(1)
        },
        _ => OpcodeResult::Fatal(FatalErrorType::WrongType("float operation", "Float")),
    }
}

/// `if<cond>`: the integer on top is taken off and compared with 0; where
/// the comparison holds, the branch is taken, else the next instruction
/// follows.
pub open spec fn if_zero(
    stack: Seq<JvmValue>,
    comparison: ComparisonType,
    hi: u8,
    lo: u8,
) -> Result<(Seq<JvmValue>, OpcodeResult), FatalErrorType> {
    if stack.len() >= 1 && int_of(peek(stack, 0)) is Some {
        Ok(
            (
                below(stack, 1),
                if comparison.holds(signed(int_of(peek(stack, 0)).unwrap()), 0) {
                    jump(branch_offset(hi, lo))
                } else {
                    OpcodeResult::Incr(3)
                },
            ),
        )
    } else {
        Err(FatalErrorType::WrongType("if", "Integer"))
    }
}

/// `if_icmp<cond>`: the two integers on top are taken off and compared;
/// where the comparison holds, the branch is taken, else the next
/// instruction follows.
pub open spec fn if_compare(
    stack: Seq<JvmValue>,
    comparison: ComparisonType,
    hi: u8,
    lo: u8,
) -> Result<(Seq<JvmValue>, OpcodeResult), FatalErrorType> {
    if stack.len() >= 2 && int_of(peek(stack, 0)) is Some && int_of(peek(stack, 1)) is Some {
        Ok(
            (
                below(stack, 2),
                if comparison.holds(
                    signed(int_of(peek(stack, 1)).unwrap()),
                    signed(int_of(peek(stack, 0)).unwrap()),
                ) {
                    jump(branch_offset(hi, lo))
                } else {
                    OpcodeResult::Incr(3)
                },
            ),
        )
    } else {
        Err(FatalErrorType::WrongType("If_icmp", "Integer"))
    }
}

/// A conditional branch: where the operands are in order, the new stack
/// and the way to go on; else the error, and the activation as it was.
pub open spec fn on_branch(
    frame: crate::frame::FrameView,
    outcome: Result<(Seq<JvmValue>, OpcodeResult), FatalErrorType>,
) -> (OpcodeResult, crate::frame::FrameView) {
    match outcome {
        Ok((stack, next)) => (next, crate::frame::FrameView { operand_stack: stack, ..frame }),
        Err(e) => (OpcodeResult::Fatal(e), frame),
    }
}

pub fn execute_if(comparison: ComparisonType, hi: u8, lo: u8, frame: &mut Frame) -> (r: OpcodeResult)
    ensures
        (r, final(frame)@) == on_branch(
            old(frame)@,
            if_zero(old(frame)@.operand_stack, comparison, hi, lo),
        ),
{
    let n = frame.operand_stack.len();
    if n >= 1 {
        match integer_bits(&frame.operand_stack[n - 1]) {
            Some(bits) => {
                drop_top(&mut frame.operand_stack, 1);
                return if comparison.compare(to_signed(bits), 0) {
                    branch(hi, lo)
                } else {
                    OpcodeResult::Incr(3)
                };
            },
            None => {},
        }
    }
    OpcodeResult::Fatal(FatalErrorType::WrongType("if", "Integer"))
}

pub fn execute_icmp(comparison: ComparisonType, hi: u8, lo: u8, frame: &mut Frame) -> (r:
    OpcodeResult)
    ensures
        (r, final(frame)@) == on_branch(
            old(frame)@,
            if_compare(old(frame)@.operand_stack, comparison, hi, lo),
        ),
{
    let n = frame.operand_stack.len();
    if n >= 2 {
        match (integer_bits(&frame.operand_stack[n - 1]), integer_bits(&frame.operand_stack[n - 2])) {
            (Some(right), Some(left)) => {
                drop_top(&mut frame.operand_stack, 2);
                return if comparison.compare(to_signed(left), to_signed(right)) {
                    branch(hi, lo)
                } else {
                    OpcodeResult::Incr(3)
                };
            },
            _ => {},
        }
    }
    OpcodeResult::Fatal(FatalErrorType::WrongType("If_icmp", "Integer"))
}

} // verus!
