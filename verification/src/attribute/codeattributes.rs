use crate::bytes::{be16, be32, fits, read_u16, read_u32};
use crate::exceptions::{table_parses, table_rows, ExceptionTable};
use vstd::prelude::*;

verus! {

/// The content of a `Code` attribute, taken apart: limits, the place of the
/// instructions within `bytes`, and the exception table.
#[derive(Debug)]
pub struct CodeAttribute {
    pub bytes: Vec<u8>,
    pub code_offset: usize,
    pub max_stack: u16,
    pub max_locals: u16,
    pub code_length: u32,
    pub exceptions_table_count: u16,
    pub exceptions: ExceptionTable,
}

/// Whether the content of an attribute reads as that of a `Code` attribute:
/// eight bytes of limits and length, the instructions, an exception table.
pub open spec fn code_parses(b: Seq<u8>) -> bool {
    &&& fits(b, 0, 8)
    &&& fits(b, 8, be32(b, 4))
    &&& table_parses(b, 8 + be32(b, 4))
}

/// The instructions held by the content `b` of a `Code` attribute.
pub open spec fn code_of(b: Seq<u8>) -> Seq<u8> {
    b.subrange(8, 8 + be32(b, 4))
}

impl CodeAttribute {
    /// Takes the content of a `Code` attribute apart.
    pub fn from(bytes: Vec<u8>) -> (r: Option<CodeAttribute>)
        ensures
            r is Some <==> code_parses(bytes@),
            r matches Some(c) ==> {
                &&& c.bytes@ == bytes@
                &&& c.code_offset == 8
                &&& c.max_stack as int == be16(bytes@, 0)
                &&& c.max_locals as int == be16(bytes@, 2)
                &&& c.code_length as int == be32(bytes@, 4)
                &&& c.exceptions@ == table_rows(bytes@, 8 + be32(bytes@, 4))
                &&& c.exceptions_table_count as nat == c.exceptions@.len()
            },
    {
        let total: usize = bytes.len();
        let (max_stack, max_locals, code_length) = match (
            read_u16(bytes.as_slice(), 0),
            read_u16(bytes.as_slice(), 2),
            read_u32(bytes.as_slice(), 4),
        ) {
            (Some(s), Some(l), Some(n)) => (s, l, n),
            _ => { return None; },
        };
        if code_length as u64 > (total - 8) as u64 {
            return None;
        }
        let exceptions = match ExceptionTable::from(bytes.as_slice(), 8 + code_length as usize) {
            Some(t) => t,
            None => { return None; },
        };
        let exceptions_table_count = exceptions.exceptions_table_count();
        Some(
            CodeAttribute {
                bytes,
                code_offset: 8,
                max_stack,
                max_locals,
                code_length,
                exceptions_table_count,
                exceptions,
            },
        )
    }
}

} // verus!
