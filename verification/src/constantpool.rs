use crate::bytes::{be16, be32, be64, fits, read_u16, read_u32, read_u64, read_u8, text_of, text_string};
use crate::constant::{reserved_for, reserved_word, Constant};
use vstd::prelude::*;

verus! {

/// The kinds of constant-pool entry, by tag byte.
#[derive(Clone, Copy, Debug, PartialEq, Eq, Structural)]
pub enum ConstantTag {
    Class,
    Fieldref,
    Methodref,
    InterfaceMethodref,
    String,
    Integer,
    Float,
    Long,
    Double,
    NameAndType,
    Utf8,
    MethodHandle,
    MethodType,
    InvokeDynamic,
    Module,
    Package,
}

impl ConstantTag {
    /// The kind that a tag byte stands for.
    pub open spec fn of(tag: u8) -> Option<ConstantTag> {
        if tag == 7 {
            Some(ConstantTag::Class)
        } else if tag == 9 {
            Some(ConstantTag::Fieldref)
        } else if tag == 10 {
            Some(ConstantTag::Methodref)
        } else if tag == 11 {
            Some(ConstantTag::InterfaceMethodref)
        } else if tag == 8 {
            Some(ConstantTag::String)
        } else if tag == 3 {
            Some(ConstantTag::Integer)
        } else if tag == 4 {
            Some(ConstantTag::Float)
        } else if tag == 5 {
            Some(ConstantTag::Long)
        } else if tag == 6 {
            Some(ConstantTag::Double)
        } else if tag == 12 {
            Some(ConstantTag::NameAndType)
        } else if tag == 1 {
            Some(ConstantTag::Utf8)
        } else if tag == 15 {
            Some(ConstantTag::MethodHandle)
        } else if tag == 16 {
            Some(ConstantTag::MethodType)
        } else if tag == 18 {
            Some(ConstantTag::InvokeDynamic)
        } else if tag == 19 {
            Some(ConstantTag::Module)
        } else if tag == 20 {
            Some(ConstantTag::Package)
        } else {
            None
        }
    }

    pub fn from_u8(tag: u8) -> (r: Option<ConstantTag>)
        ensures
            r == ConstantTag::of(tag),
    {
        if tag == 7 {
            Some(ConstantTag::Class)
        } else if tag == 9 {
            Some(ConstantTag::Fieldref)
        } else if tag == 10 {
            Some(ConstantTag::Methodref)
        } else if tag == 11 {
            Some(ConstantTag::InterfaceMethodref)
        } else if tag == 8 {
            Some(ConstantTag::String)
        } else if tag == 3 {
            Some(ConstantTag::Integer)
        } else if tag == 4 {
            Some(ConstantTag::Float)
        } else if tag == 5 {
            Some(ConstantTag::Long)
        } else if tag == 6 {
            Some(ConstantTag::Double)
        } else if tag == 12 {
            Some(ConstantTag::NameAndType)
        } else if tag == 1 {
            Some(ConstantTag::Utf8)
        } else if tag == 15 {
            Some(ConstantTag::MethodHandle)
        } else if tag == 16 {
            Some(ConstantTag::MethodType)
        } else if tag == 18 {
            Some(ConstantTag::InvokeDynamic)
        } else if tag == 19 {
            Some(ConstantTag::Module)
        } else if tag == 20 {
            Some(ConstantTag::Package)
        } else {
            None
        }
    }
}

/// The number of bytes of the class file that the entry starting at `off`
/// takes up, tag included. `None` where the tag is unknown or not supported
/// (module, package), or the entry runs over the end of the bytes.
pub open spec fn entry_size(b: Seq<u8>, off: int) -> Option<int> {
    if !fits(b, off, 1) {
        None
    } else {
        match ConstantTag::of(b[off]) {
            Some(ConstantTag::Class) | Some(ConstantTag::String) | Some(ConstantTag::MethodType) => {
                if fits(b, off, 3) {
                    Some(3)
                } else {
                    None
                }
            },
            Some(ConstantTag::Fieldref) | Some(ConstantTag::Methodref) | Some(
                ConstantTag::InterfaceMethodref,
            ) | Some(ConstantTag::Integer) | Some(ConstantTag::Float) | Some(
                ConstantTag::NameAndType,
            ) | Some(ConstantTag::InvokeDynamic) => {
                if fits(b, off, 5) {
                    Some(5)
                } else {
                    None
                }
            },
            Some(ConstantTag::Long) | Some(ConstantTag::Double) => {
                if fits(b, off, 9) {
                    Some(9)
                } else {
                    None
                }
            },
            Some(ConstantTag::MethodHandle) => {
                if fits(b, off, 4) {
                    Some(4)
                } else {
                    None
                }
            },
            Some(ConstantTag::Utf8) => {
                if fits(b, off, 3) && fits(b, off, 3 + be16(b, off + 1)) {
                    Some(3 + be16(b, off + 1))
                } else {
                    None
                }
            },
            _ => None,
        }
    }
}

/// Whether an entry with this tag takes up two slots of the pool.
pub open spec fn is_wide(tag: u8) -> bool {
    tag == 5 || tag == 6
}

/// Whether `c` is the entry that the bytes at `off` encode.
pub open spec fn constant_at(c: Constant, b: Seq<u8>, off: int) -> bool {
    let tag = b[off];
    match ConstantTag::of(tag) {
        Some(ConstantTag::Class) => c == Constant::Class(tag, be16(b, off + 1) as u16),
        Some(ConstantTag::Fieldref) => c == Constant::Fieldref(
            tag,
            be16(b, off + 1) as u16,
            be16(b, off + 3) as u16,
        ),
        Some(ConstantTag::Methodref) => c == Constant::Methodref(
            tag,
            be16(b, off + 1) as u16,
            be16(b, off + 3) as u16,
        ),
        Some(ConstantTag::InterfaceMethodref) => c == Constant::InterfaceMethodref(
            tag,
            be16(b, off + 1) as u16,
            be16(b, off + 3) as u16,
        ),
        Some(ConstantTag::String) => c == Constant::String(tag, be16(b, off + 1) as u16),
        Some(ConstantTag::Integer) => c == Constant::Integer(tag, be32(b, off + 1) as u32),
        Some(ConstantTag::Float) => c == Constant::Float(tag, be32(b, off + 1) as u32),
        Some(ConstantTag::Long) => c == Constant::Long(tag, be64(b, off + 1) as u64),
        Some(ConstantTag::Double) => c == Constant::Double(tag, be64(b, off + 1) as u64),
        Some(ConstantTag::NameAndType) => c == Constant::NameAndType(
            tag,
            be16(b, off + 1) as u16,
            be16(b, off + 3) as u16,
        ),
        Some(ConstantTag::Utf8) => {
            &&& c matches Constant::Utf8(t, reserved, len, text)
            &&& t == tag
            &&& len as int == be16(b, off + 1)
            &&& text@ == text_of(b.subrange(off + 3, off + 3 + be16(b, off + 1)))
            &&& reserved == reserved_word(text@)
        },
        Some(ConstantTag::MethodHandle) => c == Constant::MethodHandle(
            tag,
            b[off + 1],
            be16(b, off + 2) as u16,
        ),
        Some(ConstantTag::MethodType) => c == Constant::MethodType(tag, be16(b, off + 1) as u16),
        Some(ConstantTag::InvokeDynamic) => c == Constant::InvokeDynamic(
            tag,
            be16(b, off + 1) as u16,
            be16(b, off + 3) as u16,
        ),
        _ => false,
    }
}

/// Where reading stands before slot `i` of the pool whose count is stored at
/// `base`: the offset of the next entry, and whether slot `i` is the unusable
/// slot behind a two-slot entry. `None` as soon as an entry before slot `i`
/// cannot be read.
pub open spec fn cursor(b: Seq<u8>, base: int, i: nat) -> Option<(int, bool)>
    decreases i,
{
    if i <= 1 {
        Some((base + 2, false))
    } else {
        match cursor(b, base, (i - 1) as nat) {
            None => None,
            Some((off, true)) => Some((off, false)),
            Some((off, false)) => match entry_size(b, off) {
                None => None,
                Some(n) => Some((off + n, is_wide(b[off]))),
            },
        }
    }
}

/// Whether a constant pool can be read at `base`: its count is there, and so
/// is every entry that the count announces.
pub open spec fn pool_parses(b: Seq<u8>, base: int) -> bool {
    fits(b, base, 2) && cursor(b, base, be16(b, base) as nat) is Some
}

/// Whether `c` is what slot `i` of the pool at `base` holds: the entry
/// encoded there, or the empty entry for slot 0 and for the slot behind a
/// two-slot entry.
pub open spec fn slot_holds(c: Constant, b: Seq<u8>, base: int, i: int) -> bool {
    if i <= 0 {
        c is Default
    } else {
        match cursor(b, base, i as nat) {
            Some((off, false)) => constant_at(c, b, off),
            _ => c is Default,
        }
    }
}

/// Once an entry cannot be read, no slot behind it can be reached.
pub proof fn lemma_cursor_none_stays(b: Seq<u8>, base: int, i: nat, n: nat)
    requires
        cursor(b, base, i) is None,
        i <= n,
    ensures
        cursor(b, base, n) is None,
    decreases n,
{
    if i < n {
        lemma_cursor_none_stays(b, base, i, (n - 1) as nat);
    }
}

/// Reads the entry at `off` and says how many bytes it takes up.
pub fn parse_constant(bytes: &[u8], off: usize) -> (r: Option<(Constant, usize)>)
    ensures
        r is Some <==> entry_size(bytes@, off as int) is Some,
        r matches Some((c, n)) ==> n as int == entry_size(bytes@, off as int).unwrap()
            && constant_at(c, bytes@, off as int),
{
    let tag = match read_u8(bytes, off) {
        Some(t) => t,
        None => { return None; },
    };
    let avail: usize = bytes.len() - off;
    if avail < 3 {
        return None;
    }
    match ConstantTag::from_u8(tag) {
        Some(ConstantTag::Class) => match read_u16(bytes, off + 1) {
            Some(name_index) => Some((Constant::Class(tag, name_index), 3)),
            None => None,
        },
        Some(ConstantTag::String) => match read_u16(bytes, off + 1) {
            Some(string_index) => Some((Constant::String(tag, string_index), 3)),
            None => None,
        },
        Some(ConstantTag::MethodType) => match read_u16(bytes, off + 1) {
            Some(descriptor_index) => Some((Constant::MethodType(tag, descriptor_index), 3)),
            None => None,
        },
        Some(ConstantTag::Fieldref) => match (read_u16(bytes, off + 1), read_u16(bytes, off + 3)) {
            (Some(a), Some(b)) => Some((Constant::Fieldref(tag, a, b), 5)),
            _ => None,
        },
        Some(ConstantTag::Methodref) => match (read_u16(bytes, off + 1), read_u16(bytes, off + 3)) {
            (Some(a), Some(b)) => Some((Constant::Methodref(tag, a, b), 5)),
            _ => None,
        },
        Some(ConstantTag::InterfaceMethodref) => match (
            read_u16(bytes, off + 1),
            read_u16(bytes, off + 3),
        ) {
            (Some(a), Some(b)) => Some((Constant::InterfaceMethodref(tag, a, b), 5)),
            _ => None,
        },
        Some(ConstantTag::NameAndType) => match (
            read_u16(bytes, off + 1),
            read_u16(bytes, off + 3),
        ) {
            (Some(a), Some(b)) => Some((Constant::NameAndType(tag, a, b), 5)),
            _ => None,
        },
        Some(ConstantTag::InvokeDynamic) => match (
            read_u16(bytes, off + 1),
            read_u16(bytes, off + 3),
        ) {
            (Some(a), Some(b)) => Some((Constant::InvokeDynamic(tag, a, b), 5)),
            _ => None,
        },
        Some(ConstantTag::Integer) => match read_u32(bytes, off + 1) {
            Some(v) => Some((Constant::Integer(tag, v), 5)),
            None => None,
        },
        Some(ConstantTag::Float) => match read_u32(bytes, off + 1) {
            Some(v) => Some((Constant::Float(tag, v), 5)),
            None => None,
        },
        Some(ConstantTag::Long) => match read_u64(bytes, off + 1) {
            Some(v) => Some((Constant::Long(tag, v), 9)),
            None => None,
        },
        Some(ConstantTag::Double) => match read_u64(bytes, off + 1) {
            Some(v) => Some((Constant::Double(tag, v), 9)),
            None => None,
        },
        Some(ConstantTag::MethodHandle) => match (read_u8(bytes, off + 1), read_u16(bytes, off + 2)) {
            (Some(kind), Some(index)) => Some((Constant::MethodHandle(tag, kind, index), 4)),
            _ => None,
        },
        Some(ConstantTag::Utf8) => match read_u16(bytes, off + 1) {
            Some(length) => {
                let len: usize = length as usize;
                if avail - 3 < len {
                    None
                } else {
                    let text = text_string(bytes, off + 3, off + 3 + len);
                    let reserved = reserved_for(&text);
                    Some((Constant::Utf8(tag, reserved, length, text), 3 + len))
                }
            },
            None => None,
        },
        _ => None,
    }
}

/// The constant pool of one class: slot 0 is unused, and the slot behind a
/// `Long` or a `Double` is unusable.
#[derive(Debug)]
pub struct ConstantPool {
    byte_len: usize,
    constants: Vec<Constant>,
}

impl View for ConstantPool {
    type V = Seq<Constant>;

    closed spec fn view(&self) -> Seq<Constant> {
        self.constants@
    }
}

impl ConstantPool {
    #[verifier::type_invariant]
    spec fn counted(&self) -> bool {
        self.constants@.len() <= 0xffff
    }

    /// The number of bytes of the class file that the pool takes up.
    pub closed spec fn spec_byte_len(&self) -> usize {
        self.byte_len
    }

    /// A pool without any slot.
    pub fn empty() -> (r: Self)
        ensures
            r@ == Seq::<Constant>::empty(),
            r.spec_byte_len() == 0,
    {
        ConstantPool { byte_len: 0, constants: Vec::new() }
    }

    pub fn set(&mut self, index: usize, constant: Constant)
        requires
            index < old(self)@.len(),
        ensures
            final(self)@ == old(self)@.update(index as int, constant),
            final(self).spec_byte_len() == old(self).spec_byte_len(),
    {
        proof {
            use_type_invariant(&*self);
        }
        self.constants[index] = constant;
    }

    pub fn get_constant_clone(&self, index: usize) -> (r: Constant)
        requires
            index < self@.len(),
        ensures
            r == self@[index as int],
    {
        self.constants[index].clone()
    }

    pub fn get_constant_ref(&self, index: usize) -> (r: &Constant)
        requires
            index < self@.len(),
        ensures
            *r == self@[index as int],
    {
        &self.constants[index]
    }

    #[verifier::when_used_as_spec(spec_byte_len)]
    pub fn byte_len(&self) -> (r: usize)
        ensures
            r == self.spec_byte_len(),
    {
        self.byte_len
    }

    pub fn constant_pool_count(&self) -> (r: u16)
        ensures
            r as nat == self@.len(),
    {
        proof {
            use_type_invariant(self);
        }
        self.constants.len() as u16
    }

    /// The text in slot `index`, where that slot holds a text.
    pub open spec fn text(&self, index: int) -> Option<String> {
        if 0 <= index < self@.len() {
            match self@[index] {
                Constant::Utf8(_, _, _, text) => Some(text),
                _ => None,
            }
        } else {
            None
        }
    }

    /// The text in slot `index`, where that slot holds a text.
    pub fn utf8(&self, index: usize) -> (r: Option<&String>)
        ensures
            match r {
                Some(text) => self.text(index as int) == Some(*text),
                None => self.text(index as int) is None,
            },
    {
        if index < self.constants.len() {
            match &self.constants[index] {
                Constant::Utf8(_, _, _, text) => Some(text),
                _ => None,
            }
        } else {
            None
        }
    }

    /// The name of the class that slot `index` refers to, where that slot is
    /// a class entry whose name slot holds a text.
    pub open spec fn class_name(&self, index: int) -> Option<String> {
        if 0 <= index < self@.len() {
            match self@[index] {
                Constant::Class(_, name_index) => self.text(name_index as int),
                _ => None,
            }
        } else {
            None
        }
    }

    /// The name of the class that slot `index` refers to.
    pub fn class_name_at(&self, index: usize) -> (r: Option<&String>)
        ensures
            match r {
                Some(text) => self.class_name(index as int) == Some(*text),
                None => self.class_name(index as int) is None,
            },
    {
        if index < self.constants.len() {
            match &self.constants[index] {
                Constant::Class(_, name_index) => self.utf8(*name_index as usize),
                _ => None,
            }
        } else {
            None
        }
    }

    /// Reads the constant pool whose count is stored at `base`.
    ///
    /// Fails exactly when the count or an announced entry is missing from the
    /// bytes, or an entry has an unknown or unsupported tag.
    pub fn from(bytes: &[u8], base: usize) -> (r: Option<ConstantPool>)
        ensures
            r is Some <==> pool_parses(bytes@, base as int),
            r matches Some(pool) ==> {
                &&& base + pool.spec_byte_len() <= bytes@.len()
                &&& pool@.len() == be16(bytes@, base as int)
                &&& base + pool.spec_byte_len() == cursor(
                    bytes@,
                    base as int,
                    be16(bytes@, base as int) as nat,
                ).unwrap().0
                &&& forall|i: int|
                    0 <= i < pool@.len() ==> slot_holds(#[trigger] pool@[i], bytes@, base as int, i)
            },
    {
        let count: usize = match read_u16(bytes, base) {
            Some(c) => c as usize,
            None => { return None; },
        };
        let mut constants: Vec<Constant> = Vec::new();
        let mut off: usize = base + 2;
        let mut skip: bool = false;
        let mut i: usize = 1;
        if count > 0 {
            constants.push(Constant::Default());
        }
        while i < count
            invariant
                1 <= i,
                i <= count || i == 1,
                count == be16(bytes@, base as int),
                count <= 0xffff,
                fits(bytes@, base as int, 2),
                constants@.len() == (if count > 0 { i } else { 0 }),
                cursor(bytes@, base as int, i as nat) == Some((off as int, skip)),
                base + 2 <= off <= bytes@.len(),
                forall|j: int|
                    0 <= j < constants@.len() ==> slot_holds(
                        #[trigger] constants@[j],
                        bytes@,
                        base as int,
                        j,
                    ),
            decreases count - i,
        {
            if skip {
                constants.push(Constant::Default());
                skip = false;
            } else {
                match parse_constant(bytes, off) {
                    Some((c, n)) => {
                        let tag = bytes[off];
                        constants.push(c);
                        off = off + n;
                        skip = tag == 5 || tag == 6;
                    },
                    None => {
                        proof {
                            assert(cursor(bytes@, base as int, (i + 1) as nat) is None);
                            lemma_cursor_none_stays(
                                bytes@,
                                base as int,
                                (i + 1) as nat,
                                count as nat,
                            );
                        }
                        return None;
                    },
                }
            }
            i = i + 1;
        }
        proof {
            if count == 0 {
                assert(i == 1);
                assert(cursor(bytes@, base as int, 1) == Some((base + 2, false)));
                assert(cursor(bytes@, base as int, 0) == Some((base + 2, false)));
            } else {
                assert(i == count);
            }
        }
        Some(ConstantPool { byte_len: off - base, constants })
    }
}

} // verus!
