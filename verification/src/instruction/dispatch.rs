use crate::debug::DebugLevel;
use crate::error::FatalErrorType;
use crate::frame::{Frame, FrameView};
use crate::heap::{Heap, HeapView};
use crate::instruction::arithmetic::{
    dup, execute_dup, execute_fadd, execute_fcmp, execute_fdiv, execute_fmul, execute_fsub,
    execute_iadd, execute_icmp, execute_if, execute_imul, execute_pop, float_request, iadd,
    if_compare, if_zero, imul, on_branch, pop,
};
use crate::instruction::arrays::{
    aaload, aastore, anewarray, arraylength, caload, castore, execute_aaload, execute_aastore,
    execute_anewarray, execute_arraylength, execute_caload, execute_castore, execute_newarray,
    newarray, HeapEffect,
};
use crate::instruction::constants::{
    execute_aconst_null, execute_bipush, execute_fconst, execute_iconst_x, float_one, float_zero,
    pushed, small_int,
};
use crate::instruction::fields::{
    execute_getfield, execute_getstatic, execute_putfield, execute_putstatic, getfield, getstatic,
    lemma_with_static_keeps_classes, putfield, putstatic, static_slot, AreaEffect, StaticSlot,
};
use crate::instruction::invoke::{
    execute_invokespecial, execute_invokestatic, execute_invokevirtual, invokespecial,
    invokestatic, invokevirtual,
};
use crate::instruction::locals::{
    execute_aload_x, execute_astore_x, execute_fload_x, execute_fstore, execute_fstore_x,
    execute_iload_x, execute_istore_x, load, store, Slot,
};
use crate::instruction::objects::{execute_ldc, execute_new, ldc, new_object};
use crate::instruction::{
    below, branch, branch_offset, drop_top, jump, on_stack, peek, FloatOperation, OpcodeResult,
};
use crate::methodarea::{same_hierarchy, AreaView, MethodArea};
use crate::opcodes::{ComparisonType, OperandCode};
use crate::typevalues::{float_value, int_value, null_value, void_value, JvmPrimitiveType, JvmValue};
use vstd::prelude::*;

verus! {

/// One instruction as fetched: what it does, and the two bytes that follow
/// its instruction byte (0 where the instruction is shorter).
#[derive(Clone, Copy, Debug, PartialEq, Eq, Structural)]
pub struct Instruction {
    pub code: OperandCode,
    pub hi: u8,
    pub lo: u8,
}

impl Instruction {
    /// The two operand bytes as one big-endian number.
    pub open spec fn index(self) -> u16 {
        (self.hi as int * 256 + self.lo as int) as u16
    }

    pub fn operand(&self) -> (r: u16)
        ensures
            r == self.index(),
    {
        self.hi as u16 * 256 + self.lo as u16
    }

    /// The first operand byte as the number of a local variable.
    pub open spec fn variable(self) -> usize {
        self.hi as usize
    }

    /// The first operand byte as a number between 0 and 255.
    pub open spec fn byte(self) -> u32 {
        self.hi as u32
    }

    pub fn local_variable(&self) -> (r: usize)
        ensures
            r == self.variable(),
    {
        self.hi as usize
    }
}

/// The number of bytes that an instruction takes up.
pub open spec fn width(code: OperandCode) -> int {
    match code {
        OperandCode::Bipush | OperandCode::Ldc | OperandCode::Fstore | OperandCode::NewArray => 2,
        OperandCode::If_icmpeq
        | OperandCode::If_icmpne
        | OperandCode::If_icmplt
        | OperandCode::If_icmpge
        | OperandCode::If_icmpgt
        | OperandCode::If_icmple
        | OperandCode::Goto
        | OperandCode::GetStatic
        | OperandCode::PutStatic
        | OperandCode::GetField
        | OperandCode::PutField
        | OperandCode::Invokevirtual
        | OperandCode::Invokespecial
        | OperandCode::Invokestatic
        | OperandCode::New
        | OperandCode::ANewArray
        | OperandCode::Ifeq
        | OperandCode::Ifne
        | OperandCode::Iflt
        | OperandCode::Ifge
        | OperandCode::Ifgt
        | OperandCode::Ifle => 3,
        _ => 1,
    }
}

pub fn instruction_width(code: OperandCode) -> (r: usize)
    ensures
        r == width(code),
{
    match code {
        OperandCode::Bipush | OperandCode::Ldc | OperandCode::Fstore | OperandCode::NewArray => 2,
        OperandCode::If_icmpeq
        | OperandCode::If_icmpne
        | OperandCode::If_icmplt
        | OperandCode::If_icmpge
        | OperandCode::If_icmpgt
        | OperandCode::If_icmple
        | OperandCode::Goto
        | OperandCode::GetStatic
        | OperandCode::PutStatic
        | OperandCode::GetField
        | OperandCode::PutField
        | OperandCode::Invokevirtual
        | OperandCode::Invokespecial
        | OperandCode::Invokestatic
        | OperandCode::New
        | OperandCode::ANewArray
        | OperandCode::Ifeq
        | OperandCode::Ifne
        | OperandCode::Iflt
        | OperandCode::Ifge
        | OperandCode::Ifgt
        | OperandCode::Ifle => 3,
        _ => 1,
    }
}

/// The instruction at offset `pc` of `code`. There is none where `pc` lies
/// behind the code or the instruction runs over its end, and none for an
/// instruction byte that the interpreter does not know.
pub open spec fn decoded(code: Seq<u8>, pc: usize) -> Result<Instruction, FatalErrorType> {
    if pc >= code.len() {
        Err(FatalErrorType::InvalidProgramCounter(pc))
    } else {
        match OperandCode::of(code[pc as int]) {
            None => Err(FatalErrorType::UnknownOpcode(code[pc as int])),
            Some(op) => if pc + width(op) > code.len() {
                Err(FatalErrorType::InvalidProgramCounter(pc))
            } else {
                Ok(
                    Instruction {
                        code: op,
                        hi: if width(op) >= 2 {
                            code[pc + 1]
                        } else {
                            0
                        },
                        lo: if width(op) >= 3 {
                            code[pc + 2]
                        } else {
                            0
                        },
                    },
                )
            },
        }
    }
}

pub fn decode(code: &[u8], pc: usize) -> (r: Result<Instruction, FatalErrorType>)
    ensures
        r == decoded(code@, pc),
{
    if pc >= code.len() {
        return Err(FatalErrorType::InvalidProgramCounter(pc));
    }
    match OperandCode::from_u8(code[pc]) {
        None => Err(FatalErrorType::UnknownOpcode(code[pc])),
        Some(op) => {
            let w = instruction_width(op);
            if w > code.len() - pc {
                Err(FatalErrorType::InvalidProgramCounter(pc))
            } else {
                Ok(
                    Instruction {
                        code: op,
                        hi: if w >= 2 {
                            code[pc + 1]
                        } else {
                            0
                        },
                        lo: if w >= 3 {
                            code[pc + 2]
                        } else {
                            0
                        },
                    },
                )
            }
        },
    }
}

/// What executing one instruction comes to: the way to go on, and the
/// activation, the method area and the heap afterwards.
pub struct Effect {
    pub result: OpcodeResult,
    pub frame: FrameView,
    pub area: AreaView,
    pub heap: HeapView,
}

/// An instruction that leaves the method area and the heap alone.
pub open spec fn local(pair: (OpcodeResult, FrameView), area: AreaView, heap: HeapView) -> Effect {
    Effect { result: pair.0, frame: pair.1, area, heap }
}

/// An instruction that leaves the method area alone.
pub open spec fn on_heap(e: HeapEffect, area: AreaView) -> Effect {
    Effect { result: e.result, frame: e.frame, area, heap: e.heap }
}

/// An instruction that leaves the heap alone.
pub open spec fn on_area(e: AreaEffect, heap: HeapView) -> Effect {
    Effect { result: e.result, frame: e.frame, area: e.area, heap }
}

/// The number of the local variable, or the constant, that a one-byte
/// instruction has in its name.
pub open spec fn numbered(code: OperandCode) -> int {
    match code {
        OperandCode::Iconst_m1 => -1,
        OperandCode::Iconst_1
        | OperandCode::Iload_1
        | OperandCode::Fload_1
        | OperandCode::Aload_1
        | OperandCode::Istore_1
        | OperandCode::Fstore_1
        | OperandCode::Astore_1 => 1,
        OperandCode::Iconst_2
        | OperandCode::Iload_2
        | OperandCode::Fload_2
        | OperandCode::Aload_2
        | OperandCode::Istore_2
        | OperandCode::Fstore_2
        | OperandCode::Astore_2 => 2,
        OperandCode::Iconst_3
        | OperandCode::Iload_3
        | OperandCode::Fload_3
        | OperandCode::Aload_3
        | OperandCode::Istore_3
        | OperandCode::Fstore_3
        | OperandCode::Astore_3 => 3,
        OperandCode::Iconst_4 => 4,
        OperandCode::Iconst_5 => 5,
        _ => 0,
    }
}

/// The number of the local variable that a one-byte load or store has in
/// its name.
pub open spec fn slot_number(code: OperandCode) -> usize {
    if numbered(code) < 0 {
        0
    } else {
        numbered(code) as usize
    }
}

pub fn slot_number_of(code: OperandCode) -> (r: usize)
    ensures
        r == slot_number(code),
{
    let n = number_of(code);
    if n < 0 {
        0
    } else {
        n as usize
    }
}

pub fn number_of(code: OperandCode) -> (r: i32)
    ensures
        r == numbered(code),
        -1 <= r <= 5,
{
    match code {
        OperandCode::Iconst_m1 => -1,
        OperandCode::Iconst_1
        | OperandCode::Iload_1
        | OperandCode::Fload_1
        | OperandCode::Aload_1
        | OperandCode::Istore_1
        | OperandCode::Fstore_1
        | OperandCode::Astore_1 => 1,
        OperandCode::Iconst_2
        | OperandCode::Iload_2
        | OperandCode::Fload_2
        | OperandCode::Aload_2
        | OperandCode::Istore_2
        | OperandCode::Fstore_2
        | OperandCode::Astore_2 => 2,
        OperandCode::Iconst_3
        | OperandCode::Iload_3
        | OperandCode::Fload_3
        | OperandCode::Aload_3
        | OperandCode::Istore_3
        | OperandCode::Fstore_3
        | OperandCode::Astore_3 => 3,
        OperandCode::Iconst_4 => 4,
        OperandCode::Iconst_5 => 5,
        _ => 0,
    }
}

/// The comparison that a conditional branch makes.
pub open spec fn comparison(code: OperandCode) -> ComparisonType {
    match code {
        OperandCode::If_icmpeq | OperandCode::Ifeq => ComparisonType::Equal,
        OperandCode::If_icmpne | OperandCode::Ifne => ComparisonType::NotEqual,
        OperandCode::If_icmplt | OperandCode::Iflt => ComparisonType::LessThan,
        OperandCode::If_icmpge | OperandCode::Ifge => ComparisonType::GreaterThanOrEqual,
        OperandCode::If_icmpgt | OperandCode::Ifgt => ComparisonType::GreaterThan,
        _ => ComparisonType::LessThanOrEqual,
    }
}

pub fn comparison_of(code: OperandCode) -> (r: ComparisonType)
    ensures
        r == comparison(code),
{
    match code {
        OperandCode::If_icmpeq | OperandCode::Ifeq => ComparisonType::Equal,
        OperandCode::If_icmpne | OperandCode::Ifne => ComparisonType::NotEqual,
        OperandCode::If_icmplt | OperandCode::Iflt => ComparisonType::LessThan,
        OperandCode::If_icmpge | OperandCode::Ifge => ComparisonType::GreaterThanOrEqual,
        OperandCode::If_icmpgt | OperandCode::Ifgt => ComparisonType::GreaterThan,
        _ => ComparisonType::LessThanOrEqual,
    }
}

/// The float operation that a float instruction asks for.
pub open spec fn float_operation(code: OperandCode) -> Option<FloatOperation> {
    match code {
        OperandCode::Fadd => Some(FloatOperation::Add),
        OperandCode::Fsub => Some(FloatOperation::Subtract),
        OperandCode::Fmul => Some(FloatOperation::Multiply),
        OperandCode::Fdiv => Some(FloatOperation::Divide),
        OperandCode::Fcmplt | OperandCode::Fcmpgt => Some(FloatOperation::Compare),
        _ => None,
    }
}

pub fn float_operation_of(code: OperandCode) -> (r: Option<FloatOperation>)
    ensures
        r == float_operation(code),
{
    match code {
        OperandCode::Fadd => Some(FloatOperation::Add),
        OperandCode::Fsub => Some(FloatOperation::Subtract),
        OperandCode::Fmul => Some(FloatOperation::Multiply),
        OperandCode::Fdiv => Some(FloatOperation::Divide),
        OperandCode::Fcmplt | OperandCode::Fcmpgt => Some(FloatOperation::Compare),
        _ => None,
    }
}

/// `ireturn`: the method returns the value on top of the operand stack.
pub open spec fn ireturn(frame: FrameView) -> (OpcodeResult, FrameView) {
    if frame.operand_stack.len() == 0 {
        (OpcodeResult::Fatal(FatalErrorType::RequiredStackValueNotFound("ireturn")), frame)
    } else {
        (
            OpcodeResult::Value(peek(frame.operand_stack, 0)),
            FrameView { operand_stack: below(frame.operand_stack, 1), ..frame },
        )
    }
}

pub fn execute_ireturn(frame: &mut Frame) -> (r: OpcodeResult)
    ensures
        (r, final(frame)@) == ireturn(old(frame)@),
{
    let n = frame.operand_stack.len();
    if n == 0 {
        OpcodeResult::Fatal(FatalErrorType::RequiredStackValueNotFound("ireturn"))
    } else {
        let value = frame.operand_stack[n - 1].clone();
        drop_top(&mut frame.operand_stack, 1);
        OpcodeResult::Value(value)
    }
}

/// What the instruction `ins` comes to when it is executed in the
/// activation `frame`, by a thread whose classes under initialization are
/// `initializing`. The activation must be one of a loaded class.
pub open spec fn opcode_effect(
    ins: Instruction,
    frame: FrameView,
    area: AreaView,
    heap: HeapView,
    initializing: Seq<String>,
) -> Effect {
    if frame.class is None || !area.has_class(frame.class.unwrap()) {
        local((OpcodeResult::Fatal(FatalErrorType::ClassNoName), frame), area, heap)
    } else {
        let current = area.entry(frame.class.unwrap());
        let stack = frame.operand_stack;
        match ins.code {
            OperandCode::Aconst_null => local(
                (OpcodeResult::Incr(1), pushed(frame, null_value())),
                area,
                heap,
            ),
            OperandCode::Iconst_m1
            | OperandCode::Iconst_0
            | OperandCode::Iconst_1
            | OperandCode::Iconst_2
            | OperandCode::Iconst_3
            | OperandCode::Iconst_4
            | OperandCode::Iconst_5 => local(
                (OpcodeResult::Incr(1), pushed(frame, int_value(small_int(numbered(ins.code))))),
                area,
                heap,
            ),
            OperandCode::Fconst_0 => local(
                (OpcodeResult::Incr(1), pushed(frame, float_value(float_zero()))),
                area,
                heap,
            ),
            OperandCode::Fconst_1 => local(
                (OpcodeResult::Incr(1), pushed(frame, float_value(float_one()))),
                area,
                heap,
            ),
            OperandCode::Bipush => local(
                (OpcodeResult::Incr(2), pushed(frame, int_value(ins.byte()))),
                area,
                heap,
            ),
            OperandCode::Ldc => on_heap(ldc(frame, area, heap, current, ins.hi), area),
            OperandCode::Iload_0
            | OperandCode::Iload_1
            | OperandCode::Iload_2
            | OperandCode::Iload_3 => local(
                load(frame, slot_number(ins.code), Slot::Any, "iload"),
                area,
                heap,
            ),
            OperandCode::Fload_0
            | OperandCode::Fload_1
            | OperandCode::Fload_2
            | OperandCode::Fload_3 => local(
                load(frame, slot_number(ins.code), Slot::Any, "fload"),
                area,
                heap,
            ),
            OperandCode::Aload_0
            | OperandCode::Aload_1
            | OperandCode::Aload_2
            | OperandCode::Aload_3 => local(
                load(frame, slot_number(ins.code), Slot::Reference, "aload"),
                area,
                heap,
            ),
            OperandCode::AaLoad => local(aaload(frame, heap), area, heap),
            OperandCode::CaLoad => local(caload(frame, heap), area, heap),
            OperandCode::Fstore => local(
                store(frame, ins.variable(), Slot::Float, "fstore", "float primitive", 2),
                area,
                heap,
            ),
            OperandCode::Istore_0
            | OperandCode::Istore_1
            | OperandCode::Istore_2
            | OperandCode::Istore_3 => local(
                store(
                    frame,
                    slot_number(ins.code),
                    Slot::Primitive,
                    "istore",
                    "integer primitive",
                    1,
                ),
                area,
                heap,
            ),
            OperandCode::Fstore_0
            | OperandCode::Fstore_1
            | OperandCode::Fstore_2
            | OperandCode::Fstore_3 => local(
                store(
                    frame,
                    slot_number(ins.code),
                    Slot::Float,
                    "fstore",
                    "float primitive",
                    1,
                ),
                area,
                heap,
            ),
            OperandCode::Astore_0
            | OperandCode::Astore_1
            | OperandCode::Astore_2
            | OperandCode::Astore_3 => local(
                store(frame, slot_number(ins.code), Slot::Reference, "astore", "reference", 1),
                area,
                heap,
            ),
            OperandCode::AaStore => on_heap(aastore(frame, heap), area),
            OperandCode::CaStore => on_heap(castore(frame, heap), area),
            OperandCode::Pop => local(on_stack(frame, pop(stack), 1), area, heap),
            OperandCode::Dup => local(on_stack(frame, dup(stack), 1), area, heap),
            OperandCode::Iadd => local(on_stack(frame, iadd(stack), 1), area, heap),
            OperandCode::Imul => local(on_stack(frame, imul(stack), 1), area, heap),
            OperandCode::Fadd
            | OperandCode::Fsub
            | OperandCode::Fmul
            | OperandCode::Fdiv
            | OperandCode::Fcmplt
            | OperandCode::Fcmpgt => local(
                (float_request(stack, float_operation(ins.code).unwrap()), frame),
                area,
                heap,
            ),
            OperandCode::If_icmpeq
            | OperandCode::If_icmpne
            | OperandCode::If_icmplt
            | OperandCode::If_icmpge
            | OperandCode::If_icmpgt
            | OperandCode::If_icmple => local(
                on_branch(frame, if_compare(stack, comparison(ins.code), ins.hi, ins.lo)),
                area,
                heap,
            ),
            OperandCode::Ifeq
            | OperandCode::Ifne
            | OperandCode::Iflt
            | OperandCode::Ifge
            | OperandCode::Ifgt
            | OperandCode::Ifle => local(
                on_branch(frame, if_zero(stack, comparison(ins.code), ins.hi, ins.lo)),
                area,
                heap,
            ),
            OperandCode::Goto => local((jump(branch_offset(ins.hi, ins.lo)), frame), area, heap),
            OperandCode::Ireturn => local(ireturn(frame), area, heap),
            OperandCode::Return => local((OpcodeResult::Value(void_value()), frame), area, heap),
            OperandCode::GetStatic => local(
                getstatic(frame, area, current, ins.index(), initializing),
                area,
                heap,
            ),
            OperandCode::PutStatic => on_area(
                putstatic(frame, area, current, ins.index(), initializing),
                heap,
            ),
            OperandCode::GetField => local(
                getfield(frame, area, heap, current, ins.index()),
                area,
                heap,
            ),
            OperandCode::PutField => on_heap(
                putfield(frame, area, heap, current, ins.index()),
                area,
            ),
            OperandCode::Invokevirtual => local(
                (invokevirtual(frame, area, heap, current, ins.index()), frame),
                area,
                heap,
            ),
            OperandCode::Invokespecial => local(
                (invokespecial(frame, area, current, ins.index()), frame),
                area,
                heap,
            ),
            OperandCode::Invokestatic => local(
                (invokestatic(frame, area, current, ins.index(), initializing), frame),
                area,
                heap,
            ),
            OperandCode::New => on_heap(
                new_object(frame, area, heap, current, ins.index(), initializing),
                area,
            ),
            OperandCode::NewArray => on_heap(newarray(frame, heap, ins.hi), area),
            OperandCode::ANewArray => on_heap(
                anewarray(frame, heap, area, &current.class, ins.index()),
                area,
            ),
            OperandCode::ArrayLength => local(arraylength(frame, heap), area, heap),
        }
    }
}

/// Executes one instruction in the activation `frame`.
pub fn execute_opcode(
    ins: Instruction,
    frame: &mut Frame,
    area: &mut MethodArea,
    heap: &mut Heap,
    initializing: &Vec<String>,
    debug_level: DebugLevel,
) -> (r: OpcodeResult)
    ensures
        (Effect { result: r, frame: final(frame)@, area: final(area)@, heap: final(heap)@ })
            == opcode_effect(ins, old(frame)@, old(area)@, old(heap)@, initializing@),
{
    let id = match frame.class {
        Some(id) => id,
        None => {
            return OpcodeResult::Fatal(FatalErrorType::ClassNoName);
        },
    };
    if area.loaded(id).is_none() {
        return OpcodeResult::Fatal(FatalErrorType::ClassNoName);
    }
    if let OperandCode::PutStatic = ins.code {
        return execute_putstatic(ins.operand(), area, id, initializing, frame);
    }
    let current = area.loaded(id).unwrap();
    match ins.code {
        OperandCode::Aconst_null => execute_aconst_null(frame),
        OperandCode::Iconst_m1
        | OperandCode::Iconst_0
        | OperandCode::Iconst_1
        | OperandCode::Iconst_2
        | OperandCode::Iconst_3
        | OperandCode::Iconst_4
        | OperandCode::Iconst_5 => execute_iconst_x(number_of(ins.code), frame),
        OperandCode::Fconst_0 => execute_fconst(0, frame),
        OperandCode::Fconst_1 => execute_fconst(0x3f80_0000, frame),
        OperandCode::Bipush => execute_bipush(ins.hi, frame),
        OperandCode::Ldc => execute_ldc(ins.hi, area, heap, current, debug_level, frame),
        OperandCode::Iload_0
        | OperandCode::Iload_1
        | OperandCode::Iload_2
        | OperandCode::Iload_3 => execute_iload_x(slot_number_of(ins.code), frame),
        OperandCode::Fload_0
        | OperandCode::Fload_1
        | OperandCode::Fload_2
        | OperandCode::Fload_3 => execute_fload_x(slot_number_of(ins.code), frame),
        OperandCode::Aload_0
        | OperandCode::Aload_1
        | OperandCode::Aload_2
        | OperandCode::Aload_3 => execute_aload_x(slot_number_of(ins.code), frame),
        OperandCode::AaLoad => execute_aaload(frame, heap),
        OperandCode::CaLoad => execute_caload(frame, heap),
        OperandCode::Fstore => execute_fstore(ins.local_variable(), frame),
        OperandCode::Istore_0
        | OperandCode::Istore_1
        | OperandCode::Istore_2
        | OperandCode::Istore_3 => execute_istore_x(slot_number_of(ins.code), frame),
        OperandCode::Fstore_0
        | OperandCode::Fstore_1
        | OperandCode::Fstore_2
        | OperandCode::Fstore_3 => execute_fstore_x(slot_number_of(ins.code), frame),
        OperandCode::Astore_0
        | OperandCode::Astore_1
        | OperandCode::Astore_2
        | OperandCode::Astore_3 => execute_astore_x(slot_number_of(ins.code), frame),
        OperandCode::AaStore => execute_aastore(frame, heap),
        OperandCode::CaStore => execute_castore(frame, heap),
        OperandCode::Pop => execute_pop(frame),
        OperandCode::Dup => execute_dup(frame),
        OperandCode::Iadd => execute_iadd(frame),
        OperandCode::Imul => execute_imul(frame),
        OperandCode::Fadd => execute_fadd(frame),
        OperandCode::Fsub => execute_fsub(frame),
        OperandCode::Fmul => execute_fmul(frame),
        OperandCode::Fdiv => execute_fdiv(frame),
        OperandCode::Fcmplt | OperandCode::Fcmpgt => execute_fcmp(frame),
        OperandCode::If_icmpeq
        | OperandCode::If_icmpne
        | OperandCode::If_icmplt
        | OperandCode::If_icmpge
        | OperandCode::If_icmpgt
        | OperandCode::If_icmple => execute_icmp(comparison_of(ins.code), ins.hi, ins.lo, frame),
        OperandCode::Ifeq
        | OperandCode::Ifne
        | OperandCode::Iflt
        | OperandCode::Ifge
        | OperandCode::Ifgt
        | OperandCode::Ifle => execute_if(comparison_of(ins.code), ins.hi, ins.lo, frame),
        OperandCode::Goto => branch(ins.hi, ins.lo),
        OperandCode::Ireturn => execute_ireturn(frame),
        OperandCode::Return => OpcodeResult::Value(
            JvmValue::Primitive(JvmPrimitiveType::Void, 0, 0),
        ),
        OperandCode::GetStatic => execute_getstatic(
            ins.operand(),
            area,
            current,
            initializing,
            frame,
        ),
        OperandCode::PutStatic => OpcodeResult::Fatal(FatalErrorType::ClassNoName),
        OperandCode::GetField => execute_getfield(ins.operand(), area, heap, current, frame),
        OperandCode::PutField => execute_putfield(ins.operand(), area, heap, current, frame),
        OperandCode::Invokevirtual => execute_invokevirtual(
            ins.operand(),
            area,
            heap,
            current,
            frame,
        ),
        OperandCode::Invokespecial => execute_invokespecial(ins.operand(), area, current, frame),
        OperandCode::Invokestatic => execute_invokestatic(
            ins.operand(),
            area,
            current,
            initializing,
            frame,
        ),
        OperandCode::New => execute_new(
            ins.operand(),
            area,
            heap,
            current,
            initializing,
            debug_level,
            frame,
        ),
        OperandCode::NewArray => execute_newarray(ins.hi, frame, heap),
        OperandCode::ANewArray => execute_anewarray(
            ins.operand(),
            &current.class,
            area,
            frame,
            heap,
        ),
        OperandCode::ArrayLength => execute_arraylength(frame, heap),
    }
}

} // verus!

verus! {

/// What every instruction leaves alone: the class and the method of its
/// activation, where the activation stands and whether it is an
/// initializer's; which classes are loaded, and what they are called; and,
/// where the instruction stops to have something done first, the whole
/// activation.
pub open spec fn kept(before: FrameView, area: AreaView, e: Effect) -> bool {
    &&& e.frame.class == before.class
    &&& e.frame.method == before.method
    &&& e.frame.pc == before.pc
    &&& e.frame.initializer == before.initializer
    &&& same_hierarchy(area, e.area)
    &&& (e.result is Load || e.result is Initialize || e.result is Float || e.result is Invoke
        || e.result is Fatal || e.result is Exception) ==> e.frame == before
}

/// Instructions that work on constants, local variables and the operand
/// stack keep what `kept` names.
pub proof fn lemma_plain_instructions_keep(
    ins: Instruction,
    frame: FrameView,
    area: AreaView,
    heap: HeapView,
    initializing: Seq<String>,
)
    requires
        match ins.code {
            OperandCode::Aconst_null
            | OperandCode::Iconst_m1
            | OperandCode::Iconst_0
            | OperandCode::Iconst_1
            | OperandCode::Iconst_2
            | OperandCode::Iconst_3
            | OperandCode::Iconst_4
            | OperandCode::Iconst_5
            | OperandCode::Fconst_0
            | OperandCode::Fconst_1
            | OperandCode::Bipush
            | OperandCode::Iload_0
            | OperandCode::Iload_1
            | OperandCode::Iload_2
            | OperandCode::Iload_3
            | OperandCode::Fload_0
            | OperandCode::Fload_1
            | OperandCode::Fload_2
            | OperandCode::Fload_3
            | OperandCode::Aload_0
            | OperandCode::Aload_1
            | OperandCode::Aload_2
            | OperandCode::Aload_3
            | OperandCode::Fstore
            | OperandCode::Istore_0
            | OperandCode::Istore_1
            | OperandCode::Istore_2
            | OperandCode::Istore_3
            | OperandCode::Fstore_0
            | OperandCode::Fstore_1
            | OperandCode::Fstore_2
            | OperandCode::Fstore_3
            | OperandCode::Astore_0
            | OperandCode::Astore_1
            | OperandCode::Astore_2
            | OperandCode::Astore_3
            | OperandCode::Pop
            | OperandCode::Dup
            | OperandCode::Iadd
            | OperandCode::Imul
            | OperandCode::Fadd
            | OperandCode::Fsub
            | OperandCode::Fmul
            | OperandCode::Fdiv
            | OperandCode::Goto
            | OperandCode::Ireturn
            | OperandCode::Return => true,
            _ => false,
        },
    ensures
        kept(frame, area, opcode_effect(ins, frame, area, heap, initializing)),
{
}

/// Branches and comparisons keep what `kept` names.
pub proof fn lemma_branches_keep(
    ins: Instruction,
    frame: FrameView,
    area: AreaView,
    heap: HeapView,
    initializing: Seq<String>,
)
    requires
        match ins.code {
            OperandCode::If_icmpeq
            | OperandCode::If_icmpne
            | OperandCode::If_icmplt
            | OperandCode::If_icmpge
            | OperandCode::If_icmpgt
            | OperandCode::If_icmple
            | OperandCode::Ifeq
            | OperandCode::Ifne
            | OperandCode::Iflt
            | OperandCode::Ifge
            | OperandCode::Ifgt
            | OperandCode::Ifle
            | OperandCode::Fcmplt
            | OperandCode::Fcmpgt => true,
            _ => false,
        },
    ensures
        kept(frame, area, opcode_effect(ins, frame, area, heap, initializing)),
{
}

/// Instructions on arrays keep what `kept` names.
pub proof fn lemma_array_instructions_keep(
    ins: Instruction,
    frame: FrameView,
    area: AreaView,
    heap: HeapView,
    initializing: Seq<String>,
)
    requires
        match ins.code {
            OperandCode::AaLoad
            | OperandCode::CaLoad
            | OperandCode::AaStore
            | OperandCode::CaStore
            | OperandCode::NewArray
            | OperandCode::ANewArray
            | OperandCode::ArrayLength => true,
            _ => false,
        },
    ensures
        kept(frame, area, opcode_effect(ins, frame, area, heap, initializing)),
{
}

/// Instructions on fields keep what `kept` names.
pub proof fn lemma_field_instructions_keep(
    ins: Instruction,
    frame: FrameView,
    area: AreaView,
    heap: HeapView,
    initializing: Seq<String>,
)
    requires
        match ins.code {
            OperandCode::GetStatic
            | OperandCode::PutStatic
            | OperandCode::GetField
            | OperandCode::PutField => true,
            _ => false,
        },
    ensures
        kept(frame, area, opcode_effect(ins, frame, area, heap, initializing)),
{
    if frame.class is Some && area.has_class(frame.class.unwrap()) {
        let current = area.entry(frame.class.unwrap());
        if ins.code is PutStatic {
            match static_slot(area, current, ins.index(), initializing) {
                StaticSlot::At(id, position) => {
                    if frame.operand_stack.len() > 0 {
                        lemma_with_static_keeps_classes(
                            area,
                            id,
                            position,
                            peek(frame.operand_stack, 0),
                        );
                    }
                },
                _ => {},
            }
        }
    }
}

/// Instructions that make objects, push constants of the pool or call
/// methods keep what `kept` names.
pub proof fn lemma_object_instructions_keep(
    ins: Instruction,
    frame: FrameView,
    area: AreaView,
    heap: HeapView,
    initializing: Seq<String>,
)
    requires
        match ins.code {
            OperandCode::New
            | OperandCode::Ldc
            | OperandCode::Invokevirtual
            | OperandCode::Invokespecial
            | OperandCode::Invokestatic => true,
            _ => false,
        },
    ensures
        kept(frame, area, opcode_effect(ins, frame, area, heap, initializing)),
{
}

/// No instruction changes which class and method its activation belongs
/// to, where the activation stands, which classes are loaded or what a
/// loaded class holds; and an instruction that stops to have something
/// done first, or fails, leaves its activation as it was.
pub proof fn lemma_instructions_keep(
    ins: Instruction,
    frame: FrameView,
    area: AreaView,
    heap: HeapView,
    initializing: Seq<String>,
)
    ensures
        kept(frame, area, opcode_effect(ins, frame, area, heap, initializing)),
{
    match ins.code {
        OperandCode::If_icmpeq
        | OperandCode::If_icmpne
        | OperandCode::If_icmplt
        | OperandCode::If_icmpge
        | OperandCode::If_icmpgt
        | OperandCode::If_icmple
        | OperandCode::Ifeq
        | OperandCode::Ifne
        | OperandCode::Iflt
        | OperandCode::Ifge
        | OperandCode::Ifgt
        | OperandCode::Ifle
        | OperandCode::Fcmplt
        | OperandCode::Fcmpgt => {
            lemma_branches_keep(ins, frame, area, heap, initializing);
        },
        OperandCode::AaLoad
        | OperandCode::CaLoad
        | OperandCode::AaStore
        | OperandCode::CaStore
        | OperandCode::NewArray
        | OperandCode::ANewArray
        | OperandCode::ArrayLength => {
            lemma_array_instructions_keep(ins, frame, area, heap, initializing);
        },
        OperandCode::GetStatic
        | OperandCode::PutStatic
        | OperandCode::GetField
        | OperandCode::PutField => {
            lemma_field_instructions_keep(ins, frame, area, heap, initializing);
        },
        OperandCode::New
        | OperandCode::Ldc
        | OperandCode::Invokevirtual
        | OperandCode::Invokespecial
        | OperandCode::Invokestatic => {
            lemma_object_instructions_keep(ins, frame, area, heap, initializing);
        },
        _ => {
            lemma_plain_instructions_keep(ins, frame, area, heap, initializing);
        },
    }
}

} // verus!
