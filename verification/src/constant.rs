use vstd::prelude::*;

verus! {

/// Marks the constant-pool texts that name an attribute the virtual machine
/// itself must understand.
#[derive(Clone, Copy, Debug, PartialEq, Eq, Structural)]
pub enum Utf8Reserved {
    Code,
    ConstantValue,
    StackMapTable,
    BoostrapMethods,
    NestHost,
    NestMembers,
    NotReserved,
}

/// One entry of a class's constant pool. The first field of each entry is
/// its tag byte as found in the class file.
#[derive(Debug, PartialEq, Eq)]
pub enum Constant {
    Class(u8, u16),
    Fieldref(u8, u16, u16),
    Methodref(u8, u16, u16),
    InterfaceMethodref(u8, u16, u16),
    String(u8, u16),
    Integer(u8, u32),
    Float(u8, u32),
    Long(u8, u64),
    Double(u8, u64),
    NameAndType(u8, u16, u16),
    /// Tag, reserved-word marker, length in bytes, text.
    Utf8(u8, Utf8Reserved, u16, String),
    MethodHandle(u8, u8, u16),
    MethodType(u8, u16),
    InvokeDynamic(u8, u16, u16),
    Module(),
    Package(),
    /// A slot that holds nothing: slot 0, and the slot behind a `Long` or a
    /// `Double`.
    Default(),
}

impl Clone for Constant {
    fn clone(&self) -> (r: Self)
        ensures
            r == *self,
    {
        match self {
            Constant::Class(t, a) => Constant::Class(*t, *a),
            Constant::Fieldref(t, a, b) => Constant::Fieldref(*t, *a, *b),
            Constant::Methodref(t, a, b) => Constant::Methodref(*t, *a, *b),
            Constant::InterfaceMethodref(t, a, b) => Constant::InterfaceMethodref(*t, *a, *b),
            Constant::String(t, a) => Constant::String(*t, *a),
            Constant::Integer(t, v) => Constant::Integer(*t, *v),
            Constant::Float(t, v) => Constant::Float(*t, *v),
            Constant::Long(t, v) => Constant::Long(*t, *v),
            Constant::Double(t, v) => Constant::Double(*t, *v),
            Constant::NameAndType(t, a, b) => Constant::NameAndType(*t, *a, *b),
            Constant::Utf8(t, r, l, s) => Constant::Utf8(*t, *r, *l, s.clone()),
            Constant::MethodHandle(t, k, i) => Constant::MethodHandle(*t, *k, *i),
            Constant::MethodType(t, d) => Constant::MethodType(*t, *d),
            Constant::InvokeDynamic(t, a, b) => Constant::InvokeDynamic(*t, *a, *b),
            Constant::Module() => Constant::Module(),
            Constant::Package() => Constant::Package(),
            Constant::Default() => Constant::Default(),
        }
    }
}

/// The marker that belongs to a text.
pub open spec fn reserved_word(text: Seq<char>) -> Utf8Reserved {
    if text == "Code"@ {
        Utf8Reserved::Code
    } else if text == "StackMapTable"@ {
        Utf8Reserved::StackMapTable
    } else if text == "ConstantValue"@ {
        Utf8Reserved::ConstantValue
    } else {
        Utf8Reserved::NotReserved
    }
}

pub fn reserved_for(text: &String) -> (r: Utf8Reserved)
    ensures
        r == reserved_word(text@),
{
    let code = String::from_str("Code");
    let stack_map_table = String::from_str("StackMapTable");
    let constant_value = String::from_str("ConstantValue");
    if *text == code {
        Utf8Reserved::Code
    } else if *text == stack_map_table {
        Utf8Reserved::StackMapTable
    } else if *text == constant_value {
        Utf8Reserved::ConstantValue
    } else {
        Utf8Reserved::NotReserved
    }
}

} // verus!
