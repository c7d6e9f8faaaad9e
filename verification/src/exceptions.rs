use crate::bytes::{be16, fits, read_u16};
use vstd::prelude::*;

verus! {

/// One row of a method's exception table.
#[derive(Clone, Copy, Debug, Default, PartialEq, Eq, Structural)]
pub struct Exception {
    pub start_pc: u16,
    pub end_pc: u16,
    pub handler_pc: u16,
    pub catch_type: u16,
}

/// The row that the eight bytes at `off` encode.
pub open spec fn exception_at(b: Seq<u8>, off: int) -> Exception {
    Exception {
        start_pc: be16(b, off) as u16,
        end_pc: be16(b, off + 2) as u16,
        handler_pc: be16(b, off + 4) as u16,
        catch_type: be16(b, off + 6) as u16,
    }
}

impl Exception {
    /// The number of bytes that a row takes up in a class file.
    pub fn byte_len(&self) -> (r: usize)
        ensures
            r == 8,
    {
        8
    }

    /// Reads the row at `off`; fails when fewer than eight bytes are there.
    pub fn from(bytes: &[u8], off: usize) -> (r: Option<Exception>)
        ensures
            r == (if fits(bytes@, off as int, 8) {
                Some(exception_at(bytes@, off as int))
            } else {
                None
            }),
    {
        if bytes.len() < 8 || off > bytes.len() - 8 {
            return None;
        }
        match (
            read_u16(bytes, off),
            read_u16(bytes, off + 2),
            read_u16(bytes, off + 4),
            read_u16(bytes, off + 6),
        ) {
            (Some(start_pc), Some(end_pc), Some(handler_pc), Some(catch_type)) => Some(
                Exception { start_pc, end_pc, handler_pc, catch_type },
            ),
            _ => None,
        }
    }
}

/// Whether an exception table can be read at `base`: a count, then that many
/// rows of eight bytes.
pub open spec fn table_parses(b: Seq<u8>, base: int) -> bool {
    fits(b, base, 2) && fits(b, base, 2 + 8 * be16(b, base))
}

/// The rows of the exception table at `base`.
pub open spec fn table_rows(b: Seq<u8>, base: int) -> Seq<Exception> {
    Seq::new(be16(b, base) as nat, |i: int| exception_at(b, base + 2 + 8 * i))
}

/// The exception table of a method's code.
#[derive(Debug)]
pub struct ExceptionTable {
    byte_len: usize,
    exceptions: Vec<Exception>,
}

impl View for ExceptionTable {
    type V = Seq<Exception>;

    closed spec fn view(&self) -> Seq<Exception> {
        self.exceptions@
    }
}

impl ExceptionTable {
    #[verifier::type_invariant]
    spec fn counted(&self) -> bool {
        self.exceptions@.len() <= 0xffff
    }

    pub closed spec fn spec_byte_len(&self) -> usize {
        self.byte_len
    }

    /// A table without rows.
    pub fn empty() -> (r: Self)
        ensures
            r@ == Seq::<Exception>::empty(),
            r.spec_byte_len() == 0,
    {
        ExceptionTable { byte_len: 0, exceptions: Vec::new() }
    }

    #[verifier::when_used_as_spec(spec_byte_len)]
    pub fn byte_len(&self) -> (r: usize)
        ensures
            r == self.spec_byte_len(),
    {
        self.byte_len
    }

    pub fn exceptions_table_count(&self) -> (r: u16)
        ensures
            r as nat == self@.len(),
    {
        proof {
            use_type_invariant(self);
        }
        self.exceptions.len() as u16
    }

    /// The row at `index`.
    pub fn get(&self, index: usize) -> (r: Exception)
        requires
            index < self@.len(),
        ensures
            r == self@[index as int],
    {
        self.exceptions[index]
    }

    /// Reads the exception table whose count is stored at `base`.
    pub fn from(bytes: &[u8], base: usize) -> (r: Option<ExceptionTable>)
        ensures
            r is Some <==> table_parses(bytes@, base as int),
            r matches Some(t) ==> t@ == table_rows(bytes@, base as int) && t.spec_byte_len() == 2
                + 8 * be16(bytes@, base as int),
    {
        let total: usize = bytes.len();
        let count: usize = match read_u16(bytes, base) {
            Some(c) => c as usize,
            None => { return None; },
        };
        if total - base - 2 < 8 * count {
            return None;
        }
        let mut exceptions: Vec<Exception> = Vec::new();
        let mut i: usize = 0;
        while i < count
            invariant
                i <= count,
                count == be16(bytes@, base as int),
                count <= 0xffff,
                fits(bytes@, base as int, 2 + 8 * count),
                bytes@.len() == total,
                exceptions@.len() == i,
                forall|j: int|
                    0 <= j < i ==> #[trigger] exceptions@[j] == exception_at(
                        bytes@,
                        base + 2 + 8 * j,
                    ),
            decreases count - i,
        {
            match Exception::from(bytes, base + 2 + 8 * i) {
                Some(e) => {
                    exceptions.push(e);
                },
                None => {
                    return None;
                },
            }
            i = i + 1;
        }
        assert(exceptions@ =~= table_rows(bytes@, base as int));
        Some(ExceptionTable { byte_len: 2 + 8 * count, exceptions })
    }
}

} // verus!
