use vstd::prelude::*;

verus! {

/// The instructions that the interpreter knows.
#[allow(non_camel_case_types)]
#[derive(Clone, Copy, Debug, PartialEq, Eq, Structural)]
pub enum OperandCode {
    Aconst_null,
    Iconst_m1,
    Iconst_0,
    Iconst_1,
    Iconst_2,
    Iconst_3,
    Iconst_4,
    Iconst_5,
    Fconst_0,
    Fconst_1,
    Bipush,
    Ldc,
    Iload_0,
    Iload_1,
    Iload_2,
    Iload_3,
    Fload_0,
    Fload_1,
    Fload_2,
    Fload_3,
    Aload_0,
    Aload_1,
    Aload_2,
    Aload_3,
    AaLoad,
    CaLoad,
    Fstore,
    Istore_0,
    Istore_1,
    Istore_2,
    Istore_3,
    Fstore_0,
    Fstore_1,
    Fstore_2,
    Fstore_3,
    Astore_0,
    Astore_1,
    Astore_2,
    Astore_3,
    AaStore,
    CaStore,
    Pop,
    Dup,
    Iadd,
    Fadd,
    Fsub,
    Imul,
    Fmul,
    Fdiv,
    If_icmpeq,
    If_icmpne,
    If_icmplt,
    If_icmpge,
    If_icmpgt,
    If_icmple,
    Goto,
    Ireturn,
    Return,
    GetStatic,
    PutStatic,
    GetField,
    PutField,
    Invokevirtual,
    Invokespecial,
    Invokestatic,
    New,
    NewArray,
    ANewArray,
    ArrayLength,
    Fcmplt,
    Fcmpgt,
    Ifeq,
    Ifne,
    Iflt,
    Ifge,
    Ifgt,
    Ifle,
}

/// The six ways to compare two integers.
#[derive(Clone, Copy, Debug, PartialEq, Eq, Structural)]
pub enum ComparisonType {
    Equal,
    NotEqual,
    LessThan,
    LessThanOrEqual,
    GreaterThan,
    GreaterThanOrEqual,
}

impl ComparisonType {
    /// Whether the comparison holds of `left` and `right`.
    pub open spec fn holds(self, left: int, right: int) -> bool {
        match self {
            ComparisonType::Equal => left == right,
            ComparisonType::NotEqual => left != right,
            ComparisonType::LessThan => left < right,
            ComparisonType::LessThanOrEqual => left <= right,
            ComparisonType::GreaterThan => left > right,
            ComparisonType::GreaterThanOrEqual => left >= right,
        }
    }

    pub fn compare(&self, left: i64, right: i64) -> (r: bool)
        ensures
            r == self.holds(left as int, right as int),
    {
        match self {
            ComparisonType::Equal => left == right,
            ComparisonType::NotEqual => left != right,
            ComparisonType::LessThan => left < right,
            ComparisonType::LessThanOrEqual => left <= right,
            ComparisonType::GreaterThan => left > right,
            ComparisonType::GreaterThanOrEqual => left >= right,
        }
    }
}

impl OperandCode {
    /// The instruction that an instruction byte stands for.
    pub open spec fn of(code: u8) -> Option<OperandCode> {
        if code == 0x1 {
            Some(OperandCode::Aconst_null)
        } else if code == 0x2 {
            Some(OperandCode::Iconst_m1)
        } else if code == 0x3 {
            Some(OperandCode::Iconst_0)
        } else if code == 0x4 {
            Some(OperandCode::Iconst_1)
        } else if code == 0x5 {
            Some(OperandCode::Iconst_2)
        } else if code == 0x6 {
            Some(OperandCode::Iconst_3)
        } else if code == 0x7 {
            Some(OperandCode::Iconst_4)
        } else if code == 0x8 {
            Some(OperandCode::Iconst_5)
        } else if code == 0xb {
            Some(OperandCode::Fconst_0)
        } else if code == 0xc {
            Some(OperandCode::Fconst_1)
        } else if code == 0x10 {
            Some(OperandCode::Bipush)
        } else if code == 0x12 {
            Some(OperandCode::Ldc)
        } else if code == 0x1a {
            Some(OperandCode::Iload_0)
        } else if code == 0x1b {
            Some(OperandCode::Iload_1)
        } else if code == 0x1c {
            Some(OperandCode::Iload_2)
        } else if code == 0x1d {
            Some(OperandCode::Iload_3)
        } else if code == 0x22 {
            Some(OperandCode::Fload_0)
        } else if code == 0x23 {
            Some(OperandCode::Fload_1)
        } else if code == 0x24 {
            Some(OperandCode::Fload_2)
        } else if code == 0x25 {
            Some(OperandCode::Fload_3)
        } else if code == 0x2a {
            Some(OperandCode::Aload_0)
        } else if code == 0x2b {
            Some(OperandCode::Aload_1)
        } else if code == 0x2c {
            Some(OperandCode::Aload_2)
        } else if code == 0x2d {
            Some(OperandCode::Aload_3)
        } else if code == 0x32 {
            Some(OperandCode::AaLoad)
        } else if code == 0x34 {
            Some(OperandCode::CaLoad)
        } else if code == 0x38 {
            Some(OperandCode::Fstore)
        } else if code == 0x3b {
            Some(OperandCode::Istore_0)
        } else if code == 0x3c {
            Some(OperandCode::Istore_1)
        } else if code == 0x3d {
            Some(OperandCode::Istore_2)
        } else if code == 0x3e {
            Some(OperandCode::Istore_3)
        } else if code == 0x43 {
            Some(OperandCode::Fstore_0)
        } else if code == 0x44 {
            Some(OperandCode::Fstore_1)
        } else if code == 0x45 {
            Some(OperandCode::Fstore_2)
        } else if code == 0x46 {
            Some(OperandCode::Fstore_3)
        } else if code == 0x4b {
            Some(OperandCode::Astore_0)
        } else if code == 0x4c {
            Some(OperandCode::Astore_1)
        } else if code == 0x4d {
            Some(OperandCode::Astore_2)
        } else if code == 0x4e {
            Some(OperandCode::Astore_3)
        } else if code == 0x53 {
            Some(OperandCode::AaStore)
        } else if code == 0x55 {
            Some(OperandCode::CaStore)
        } else if code == 0x57 {
            Some(OperandCode::Pop)
        } else if code == 0x59 {
            Some(OperandCode::Dup)
        } else if code == 0x60 {
            Some(OperandCode::Iadd)
        } else if code == 0x62 {
            Some(OperandCode::Fadd)
        } else if code == 0x66 {
            Some(OperandCode::Fsub)
        } else if code == 0x68 {
            Some(OperandCode::Imul)
        } else if code == 0x6a {
            Some(OperandCode::Fmul)
        } else if code == 0x6e {
            Some(OperandCode::Fdiv)
        } else if code == 0x9f {
            Some(OperandCode::If_icmpeq)
        } else if code == 0xa0 {
            Some(OperandCode::If_icmpne)
        } else if code == 0xa1 {
            Some(OperandCode::If_icmplt)
        } else if code == 0xa2 {
            Some(OperandCode::If_icmpge)
        } else if code == 0xa3 {
            Some(OperandCode::If_icmpgt)
        } else if code == 0xa4 {
            Some(OperandCode::If_icmple)
        } else if code == 0xa7 {
            Some(OperandCode::Goto)
        } else if code == 0xac {
            Some(OperandCode::Ireturn)
        } else if code == 0xb1 {
            Some(OperandCode::Return)
        } else if code == 0xb2 {
            Some(OperandCode::GetStatic)
        } else if code == 0xb3 {
            Some(OperandCode::PutStatic)
        } else if code == 0xb4 {
            Some(OperandCode::GetField)
        } else if code == 0xb5 {
            Some(OperandCode::PutField)
        } else if code == 0xb6 {
            Some(OperandCode::Invokevirtual)
        } else if code == 0xb7 {
            Some(OperandCode::Invokespecial)
        } else if code == 0xb8 {
            Some(OperandCode::Invokestatic)
        } else if code == 0xbb {
            Some(OperandCode::New)
        } else if code == 0xbc {
            Some(OperandCode::NewArray)
        } else if code == 0xbd {
            Some(OperandCode::ANewArray)
        } else if code == 0xbe {
            Some(OperandCode::ArrayLength)
        } else if code == 0x95 {
            Some(OperandCode::Fcmplt)
        } else if code == 0x96 {
            Some(OperandCode::Fcmpgt)
        } else if code == 0x99 {
            Some(OperandCode::Ifeq)
        } else if code == 0x9a {
            Some(OperandCode::Ifne)
        } else if code == 0x9b {
            Some(OperandCode::Iflt)
        } else if code == 0x9c {
            Some(OperandCode::Ifge)
        } else if code == 0x9d {
            Some(OperandCode::Ifgt)
        } else if code == 0x9e {
            Some(OperandCode::Ifle)
        } else {
            None
        }
    }

    pub fn from_u8(code: u8) -> (r: Option<OperandCode>)
        ensures
            r == OperandCode::of(code),
    {
        if code == 0x1 {
            Some(OperandCode::Aconst_null)
        } else if code == 0x2 {
            Some(OperandCode::Iconst_m1)
        } else if code == 0x3 {
            Some(OperandCode::Iconst_0)
        } else if code == 0x4 {
            Some(OperandCode::Iconst_1)
        } else if code == 0x5 {
            Some(OperandCode::Iconst_2)
        } else if code == 0x6 {
            Some(OperandCode::Iconst_3)
        } else if code == 0x7 {
            Some(OperandCode::Iconst_4)
        } else if code == 0x8 {
            Some(OperandCode::Iconst_5)
        } else if code == 0xb {
            Some(OperandCode::Fconst_0)
        } else if code == 0xc {
            Some(OperandCode::Fconst_1)
        } else if code == 0x10 {
            Some(OperandCode::Bipush)
        } else if code == 0x12 {
            Some(OperandCode::Ldc)
        } else if code == 0x1a {
            Some(OperandCode::Iload_0)
        } else if code == 0x1b {
            Some(OperandCode::Iload_1)
        } else if code == 0x1c {
            Some(OperandCode::Iload_2)
        } else if code == 0x1d {
            Some(OperandCode::Iload_3)
        } else if code == 0x22 {
            Some(OperandCode::Fload_0)
        } else if code == 0x23 {
            Some(OperandCode::Fload_1)
        } else if code == 0x24 {
            Some(OperandCode::Fload_2)
        } else if code == 0x25 {
            Some(OperandCode::Fload_3)
        } else if code == 0x2a {
            Some(OperandCode::Aload_0)
        } else if code == 0x2b {
            Some(OperandCode::Aload_1)
        } else if code == 0x2c {
            Some(OperandCode::Aload_2)
        } else if code == 0x2d {
            Some(OperandCode::Aload_3)
        } else if code == 0x32 {
            Some(OperandCode::AaLoad)
        } else if code == 0x34 {
            Some(OperandCode::CaLoad)
        } else if code == 0x38 {
            Some(OperandCode::Fstore)
        } else if code == 0x3b {
            Some(OperandCode::Istore_0)
        } else if code == 0x3c {
            Some(OperandCode::Istore_1)
        } else if code == 0x3d {
            Some(OperandCode::Istore_2)
        } else if code == 0x3e {
            Some(OperandCode::Istore_3)
        } else if code == 0x43 {
            Some(OperandCode::Fstore_0)
        } else if code == 0x44 {
            Some(OperandCode::Fstore_1)
        } else if code == 0x45 {
            Some(OperandCode::Fstore_2)
        } else if code == 0x46 {
            Some(OperandCode::Fstore_3)
        } else if code == 0x4b {
            Some(OperandCode::Astore_0)
        } else if code == 0x4c {
            Some(OperandCode::Astore_1)
        } else if code == 0x4d {
            Some(OperandCode::Astore_2)
        } else if code == 0x4e {
            Some(OperandCode::Astore_3)
        } else if code == 0x53 {
            Some(OperandCode::AaStore)
        } else if code == 0x55 {
            Some(OperandCode::CaStore)
        } else if code == 0x57 {
            Some(OperandCode::Pop)
        } else if code == 0x59 {
            Some(OperandCode::Dup)
        } else if code == 0x60 {
            Some(OperandCode::Iadd)
        } else if code == 0x62 {
            Some(OperandCode::Fadd)
        } else if code == 0x66 {
            Some(OperandCode::Fsub)
        } else if code == 0x68 {
            Some(OperandCode::Imul)
        } else if code == 0x6a {
            Some(OperandCode::Fmul)
        } else if code == 0x6e {
            Some(OperandCode::Fdiv)
        } else if code == 0x9f {
            Some(OperandCode::If_icmpeq)
        } else if code == 0xa0 {
            Some(OperandCode::If_icmpne)
        } else if code == 0xa1 {
            Some(OperandCode::If_icmplt)
        } else if code == 0xa2 {
            Some(OperandCode::If_icmpge)
        } else if code == 0xa3 {
            Some(OperandCode::If_icmpgt)
        } else if code == 0xa4 {
            Some(OperandCode::If_icmple)
        } else if code == 0xa7 {
            Some(OperandCode::Goto)
        } else if code == 0xac {
            Some(OperandCode::Ireturn)
        } else if code == 0xb1 {
            Some(OperandCode::Return)
        } else if code == 0xb2 {
            Some(OperandCode::GetStatic)
        } else if code == 0xb3 {
            Some(OperandCode::PutStatic)
        } else if code == 0xb4 {
            Some(OperandCode::GetField)
        } else if code == 0xb5 {
            Some(OperandCode::PutField)
        } else if code == 0xb6 {
            Some(OperandCode::Invokevirtual)
        } else if code == 0xb7 {
            Some(OperandCode::Invokespecial)
        } else if code == 0xb8 {
            Some(OperandCode::Invokestatic)
        } else if code == 0xbb {
            Some(OperandCode::New)
        } else if code == 0xbc {
            Some(OperandCode::NewArray)
        } else if code == 0xbd {
            Some(OperandCode::ANewArray)
        } else if code == 0xbe {
            Some(OperandCode::ArrayLength)
        } else if code == 0x95 {
            Some(OperandCode::Fcmplt)
        } else if code == 0x96 {
            Some(OperandCode::Fcmpgt)
        } else if code == 0x99 {
            Some(OperandCode::Ifeq)
        } else if code == 0x9a {
            Some(OperandCode::Ifne)
        } else if code == 0x9b {
            Some(OperandCode::Iflt)
        } else if code == 0x9c {
            Some(OperandCode::Ifge)
        } else if code == 0x9d {
            Some(OperandCode::Ifgt)
        } else if code == 0x9e {
            Some(OperandCode::Ifle)
        } else {
            None
        }
    }
}

} // verus!
