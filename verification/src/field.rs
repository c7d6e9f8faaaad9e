use crate::attribute::{attributes_at, attributes_end, Attributes};
use crate::bytes::{be16, fits, read_u16};
use crate::constantpool::ConstantPool;
use crate::search::first_index;
use vstd::prelude::*;

verus! {

/// The access flags of a field.
#[derive(Clone, Copy, Debug, PartialEq, Eq, Structural)]
pub enum FieldAccessFlags {
    Public,
    Private,
    Protected,
    Static,
    Final,
    Volatile,
    Transient,
    Synthetic,
    Enum,
}

impl FieldAccessFlags {
    /// The bit of a field's access flags that this flag stands for.
    pub open spec fn bit(self) -> u16 {
        match self {
            FieldAccessFlags::Public => 0x0001,
            FieldAccessFlags::Private => 0x0002,
            FieldAccessFlags::Protected => 0x0004,
            FieldAccessFlags::Static => 0x0008,
            FieldAccessFlags::Final => 0x0010,
            FieldAccessFlags::Volatile => 0x0040,
            FieldAccessFlags::Transient => 0x0080,
            FieldAccessFlags::Synthetic => 0x0100,
            FieldAccessFlags::Enum => 0x0400,
        }
    }

    pub fn mask(&self) -> (r: u16)
        ensures
            r == self.bit(),
    {
        match self {
            FieldAccessFlags::Public => 0x0001,
            FieldAccessFlags::Private => 0x0002,
            FieldAccessFlags::Protected => 0x0004,
            FieldAccessFlags::Static => 0x0008,
            FieldAccessFlags::Final => 0x0010,
            FieldAccessFlags::Volatile => 0x0040,
            FieldAccessFlags::Transient => 0x0080,
            FieldAccessFlags::Synthetic => 0x0100,
            FieldAccessFlags::Enum => 0x0400,
        }
    }
}

/// The declaration of one field of a class.
#[derive(Debug)]
pub struct Field {
    pub byte_len: usize,
    pub access_flags: u16,
    pub name_index: u16,
    pub descriptor_index: u16,
    pub attributes_count: u16,
    pub attributes: Attributes,
}

/// The number of bytes that the field declaration starting at `off` takes
/// up: six of header, then its attribute table.
pub open spec fn field_size(b: Seq<u8>, off: int) -> Option<int> {
    if fits(b, off, 6) {
        match attributes_end(b, off + 6) {
            Some(end) => Some(end - off),
            None => None,
        }
    } else {
        None
    }
}

/// Whether `f` is the field declaration that the bytes at `off` encode.
pub open spec fn field_at(f: Field, b: Seq<u8>, off: int) -> bool {
    &&& f.access_flags as int == be16(b, off)
    &&& f.name_index as int == be16(b, off + 2)
    &&& f.descriptor_index as int == be16(b, off + 4)
    &&& attributes_at(f.attributes, b, off + 6)
    &&& f.attributes_count as nat == f.attributes@.len()
    &&& Some(f.byte_len as int) == field_size(b, off)
}

impl Field {
    pub fn byte_len(&self) -> (r: usize)
        ensures
            r == self.byte_len,
    {
        self.byte_len
    }

    /// Reads the field declaration at `off`.
    pub fn from(bytes: &[u8], off: usize) -> (r: Option<Field>)
        ensures
            r is Some <==> field_size(bytes@, off as int) is Some,
            r matches Some(f) ==> field_at(f, bytes@, off as int),
    {
        let total: usize = bytes.len();
        if total < 6 || off > total - 6 {
            return None;
        }
        match (read_u16(bytes, off), read_u16(bytes, off + 2), read_u16(bytes, off + 4)) {
            (Some(access_flags), Some(name_index), Some(descriptor_index)) => {
                match Attributes::from(bytes, off + 6) {
                    Some(attributes) => {
                        let attributes_count = attributes.attributes_count();
                        let byte_len = 6 + attributes.byte_len();
                        Some(
                            Field {
                                byte_len,
                                access_flags,
                                name_index,
                                descriptor_index,
                                attributes_count,
                                attributes,
                            },
                        )
                    },
                    None => None,
                }
            },
            _ => None,
        }
    }

    /// Whether this field is declared with the given name and descriptor,
    /// both looked up in the constant pool `cp` of the declaring class.
    pub open spec fn is_named(&self, name: Seq<char>, descriptor: Seq<char>, cp: &ConstantPool) -> bool {
        &&& cp.text(self.name_index as int) matches Some(n) && n@ == name
        &&& cp.text(self.descriptor_index as int) matches Some(d) && d@ == descriptor
    }

    pub fn has_name_and_type(&self, name: &String, descriptor: &String, cp: &ConstantPool) -> (r:
        bool)
        ensures
            r == self.is_named(name@, descriptor@, cp),
    {
        match cp.utf8(self.name_index as usize) {
            Some(n) => {
                if *n == *name {
                    match cp.utf8(self.descriptor_index as usize) {
                        Some(d) => *d == *descriptor,
                        None => false,
                    }
                } else {
                    false
                }
            },
            None => false,
        }
    }
}

/// The offset of field `i` of the table whose count is stored at `base` (of
/// the end of the table, for `i` the count).
pub open spec fn field_cursor(b: Seq<u8>, base: int, i: nat) -> Option<int>
    decreases i,
{
    if i == 0 {
        Some(base + 2)
    } else {
        match field_cursor(b, base, (i - 1) as nat) {
            None => None,
            Some(off) => match field_size(b, off) {
                None => None,
                Some(n) => Some(off + n),
            },
        }
    }
}

/// The offset just behind the field table at `base`, where it can be read.
pub open spec fn fields_end(b: Seq<u8>, base: int) -> Option<int> {
    if fits(b, base, 2) {
        field_cursor(b, base, be16(b, base) as nat)
    } else {
        None
    }
}

/// Whether `t` is the field table that the bytes at `base` encode.
pub open spec fn fields_at(t: Fields, b: Seq<u8>, base: int) -> bool {
    &&& fields_end(b, base) is Some
    &&& t@.len() == be16(b, base)
    &&& base + t.spec_byte_len() == fields_end(b, base).unwrap()
    &&& forall|i: int|
        0 <= i < t@.len() ==> field_at(
            #[trigger] t@[i],
            b,
            field_cursor(b, base, i as nat).unwrap(),
        )
}

/// Once an entry cannot be read, no field behind it can be reached.
pub proof fn lemma_field_cursor_none_stays(b: Seq<u8>, base: int, i: nat, n: nat)
    requires
        field_cursor(b, base, i) is None,
        i <= n,
    ensures
        field_cursor(b, base, n) is None,
    decreases n,
{
    if i < n {
        lemma_field_cursor_none_stays(b, base, i, (n - 1) as nat);
    }
}

/// The test that `Fields::position` applies to each field.
pub open spec fn field_named(name: Seq<char>, descriptor: Seq<char>, cp: &ConstantPool) -> spec_fn(
    Field,
) -> bool {
    |f: Field| f.is_named(name, descriptor, cp)
}

/// The field table of a class.
#[derive(Debug)]
pub struct Fields {
    byte_len: usize,
    fields: Vec<Field>,
}

impl View for Fields {
    type V = Seq<Field>;

    closed spec fn view(&self) -> Seq<Field> {
        self.fields@
    }
}

impl Fields {
    #[verifier::type_invariant]
    spec fn counted(&self) -> bool {
        self.fields@.len() <= 0xffff
    }

    pub closed spec fn spec_byte_len(&self) -> usize {
        self.byte_len
    }

    /// A table without fields.
    pub fn empty() -> (r: Self)
        ensures
            r@ == Seq::<Field>::empty(),
            r.spec_byte_len() == 0,
    {
        Fields { byte_len: 0, fields: Vec::new() }
    }

    pub fn set(&mut self, index: usize, field: Field)
        requires
            index < old(self)@.len(),
        ensures
            final(self)@ == old(self)@.update(index as int, field),
            final(self).spec_byte_len() == old(self).spec_byte_len(),
    {
        proof {
            use_type_invariant(&*self);
        }
        self.fields[index] = field;
    }

    pub fn get(&self, index: usize) -> (r: &Field)
        requires
            index < self@.len(),
        ensures
            *r == self@[index as int],
    {
        &self.fields[index]
    }

    #[verifier::when_used_as_spec(spec_byte_len)]
    pub fn byte_len(&self) -> (r: usize)
        ensures
            r == self.spec_byte_len(),
    {
        self.byte_len
    }

    pub fn fields_count(&self) -> (r: u16)
        ensures
            r as nat == self@.len(),
    {
        proof {
            use_type_invariant(self);
        }
        self.fields.len() as u16
    }

    /// The position of the first field declared with the given name and
    /// descriptor.
    pub open spec fn position(&self, name: Seq<char>, descriptor: Seq<char>, cp: &ConstantPool) -> Option<
        int,
    > {
        first_index(self@, field_named(name, descriptor, cp), 0)
    }

    /// The position of the first field declared with the given name and
    /// descriptor.
    pub fn index_of(&self, name: &String, descriptor: &String, cp: &ConstantPool) -> (r: Option<
        usize,
    >)
        ensures
            match r {
                Some(i) => self.position(name@, descriptor@, cp) == Some(i as int) && i
                    < self@.len(),
                None => self.position(name@, descriptor@, cp) is None,
            },
    {
        let mut i: usize = 0;
        while i < self.fields.len()
            invariant
                first_index(self@, field_named(name@, descriptor@, cp), 0) == first_index(
                    self@,
                    field_named(name@, descriptor@, cp),
                    i as int,
                ),
            decreases self.fields.len() - i,
        {
            if self.fields[i].has_name_and_type(name, descriptor, cp) {
                return Some(i);
            }
            i = i + 1;
        }
        None
    }

    /// The first field declared with the given name and descriptor.
    pub fn get_field_ref(&self, name: &String, descriptor: &String, cp: &ConstantPool) -> (r:
        Option<&Field>)
        ensures
            match r {
                Some(f) => self.position(name@, descriptor@, cp) is Some && *f == self@[self.position(
                    name@,
                    descriptor@,
                    cp,
                ).unwrap()],
                None => self.position(name@, descriptor@, cp) is None,
            },
    {
        match self.index_of(name, descriptor, cp) {
            Some(i) => Some(&self.fields[i]),
            None => None,
        }
    }

    /// Whether some field is declared with the given name and descriptor.
    pub fn contains_field_with_name_and_type(
        &self,
        name: &String,
        descriptor: &String,
        cp: &ConstantPool,
    ) -> (r: bool)
        ensures
            r == self.position(name@, descriptor@, cp).is_some(),
    {
        self.index_of(name, descriptor, cp).is_some()
    }

    /// Reads the field table whose count is stored at `base`.
    pub fn from(bytes: &[u8], base: usize) -> (r: Option<Fields>)
        ensures
            r is Some <==> fields_end(bytes@, base as int) is Some,
            r matches Some(t) ==> fields_at(t, bytes@, base as int) && base + t.spec_byte_len() <= bytes@.len(),
    {
        let count: usize = match read_u16(bytes, base) {
            Some(c) => c as usize,
            None => { return None; },
        };
        let mut fields: Vec<Field> = Vec::new();
        let mut off: usize = base + 2;
        let mut i: usize = 0;
        while i < count
            invariant
                i <= count,
                count == be16(bytes@, base as int),
                count <= 0xffff,
                fits(bytes@, base as int, 2),
                bytes@.len() <= usize::MAX,
                fields@.len() == i,
                field_cursor(bytes@, base as int, i as nat) == Some(off as int),
                base + 2 <= off <= bytes@.len(),
                forall|j: int|
                    0 <= j < i ==> field_at(
                        #[trigger] fields@[j],
                        bytes@,
                        field_cursor(bytes@, base as int, j as nat).unwrap(),
                    ),
            decreases count - i,
        {
            match Field::from(bytes, off) {
                Some(f) => {
                    off = off + f.byte_len;
                    fields.push(f);
                },
                None => {
                    proof {
                        assert(field_cursor(bytes@, base as int, (i + 1) as nat) is None);
                        lemma_field_cursor_none_stays(
                            bytes@,
                            base as int,
                            (i + 1) as nat,
                            count as nat,
                        );
                    }
                    return None;
                },
            }
            i = i + 1;
        }
        Some(Fields { byte_len: off - base, fields })
    }
}

} // verus!
