use crate::bytes::{be16, be32, fits, read_u16, read_u32};
use vstd::prelude::*;
use vstd::slice::{slice_subrange, slice_to_vec};

pub mod codeattributes;

verus! {

/// One attribute of a class, field or method: the slot of its name in the
/// constant pool, and its content as raw bytes.
#[derive(Debug)]
pub struct Attribute {
    pub byte_len: usize,
    pub attribute_name_index: u16,
    pub attribute_length: u32,
    pub info: Vec<u8>,
}

/// The number of bytes that the attribute starting at `off` takes up: six of
/// header and as many of content as the header announces. `None` where the
/// bytes end before that.
pub open spec fn attribute_size(b: Seq<u8>, off: int) -> Option<int> {
    if fits(b, off, 6) && fits(b, off, 6 + be32(b, off + 2)) {
        Some(6 + be32(b, off + 2))
    } else {
        None
    }
}

/// Whether `a` is the attribute that the bytes at `off` encode.
pub open spec fn attribute_at(a: Attribute, b: Seq<u8>, off: int) -> bool {
    &&& a.attribute_name_index as int == be16(b, off)
    &&& a.attribute_length as int == be32(b, off + 2)
    &&& a.info@ == b.subrange(off + 6, off + 6 + be32(b, off + 2))
    &&& a.byte_len as int == 6 + be32(b, off + 2)
}

impl Attribute {
    /// An attribute with `attribute_count` bytes of content, all zero.
    pub fn new(attribute_count: usize) -> (r: Attribute)
        ensures
            r.info@ == Seq::new(attribute_count as nat, |i: int| 0u8),
            r.byte_len == 0,
            r.attribute_name_index == 0,
            r.attribute_length == 0,
    {
        let mut info: Vec<u8> = Vec::new();
        let mut i: usize = 0;
        while i < attribute_count
            invariant
                i <= attribute_count,
                info@ == Seq::new(i as nat, |k: int| 0u8),
            decreases attribute_count - i,
        {
            info.push(0);
            i = i + 1;
            assert(info@ =~= Seq::new(i as nat, |k: int| 0u8));
        }
        Attribute { byte_len: 0, attribute_name_index: 0, attribute_length: 0, info }
    }

    pub fn byte_len(&self) -> (r: usize)
        ensures
            r == self.byte_len,
    {
        self.byte_len
    }

    /// Whether two attributes have the same header and content.
    pub open spec fn agrees(&self, other: &Attribute) -> bool {
        &&& self.byte_len == other.byte_len
        &&& self.attribute_name_index == other.attribute_name_index
        &&& self.attribute_length == other.attribute_length
        &&& self.info@ == other.info@
    }

    /// A copy with the same header and content.
    pub fn duplicate(&self) -> (r: Attribute)
        ensures
            self.agrees(&r),
    {
        Attribute {
            byte_len: self.byte_len,
            attribute_name_index: self.attribute_name_index,
            attribute_length: self.attribute_length,
            info: slice_to_vec(self.info.as_slice()),
        }
    }

    /// Reads the attribute at `off`.
    pub fn from(bytes: &[u8], off: usize) -> (r: Option<Attribute>)
        ensures
            r is Some <==> attribute_size(bytes@, off as int) is Some,
            r matches Some(a) ==> attribute_at(a, bytes@, off as int),
    {
        let total: usize = bytes.len();
        if total < 6 || off > total - 6 {
            return None;
        }
        match (read_u16(bytes, off), read_u32(bytes, off + 2)) {
            (Some(attribute_name_index), Some(attribute_length)) => {
                if attribute_length as u64 > (total - off - 6) as u64 {
                    return None;
                }
                let len: usize = attribute_length as usize;
                let info = slice_to_vec(slice_subrange(bytes, off + 6, off + 6 + len));
                Some(
                    Attribute { byte_len: 6 + len, attribute_name_index, attribute_length, info },
                )
            },
            _ => None,
        }
    }
}

/// The offset of attribute `i` of the table whose count is stored at `base`
/// (of the end of the table, for `i` the count). `None` as soon as an
/// attribute before it runs over the end of the bytes.
pub open spec fn attribute_cursor(b: Seq<u8>, base: int, i: nat) -> Option<int>
    decreases i,
{
    if i == 0 {
        Some(base + 2)
    } else {
        match attribute_cursor(b, base, (i - 1) as nat) {
            None => None,
            Some(off) => match attribute_size(b, off) {
                None => None,
                Some(n) => Some(off + n),
            },
        }
    }
}

/// The offset just behind the attribute table at `base`, where that table
/// can be read.
pub open spec fn attributes_end(b: Seq<u8>, base: int) -> Option<int> {
    if fits(b, base, 2) {
        attribute_cursor(b, base, be16(b, base) as nat)
    } else {
        None
    }
}

/// Whether `t` is the attribute table that the bytes at `base` encode.
pub open spec fn attributes_at(t: Attributes, b: Seq<u8>, base: int) -> bool {
    &&& attributes_end(b, base) is Some
    &&& t@.len() == be16(b, base)
    &&& base + t.spec_byte_len() == attributes_end(b, base).unwrap()
    &&& forall|i: int|
        0 <= i < t@.len() ==> attribute_at(
            #[trigger] t@[i],
            b,
            attribute_cursor(b, base, i as nat).unwrap(),
        )
}

/// Once an entry cannot be read, no attribute behind it can be reached.
pub proof fn lemma_attribute_cursor_none_stays(b: Seq<u8>, base: int, i: nat, n: nat)
    requires
        attribute_cursor(b, base, i) is None,
        i <= n,
    ensures
        attribute_cursor(b, base, n) is None,
    decreases n,
{
    if i < n {
        lemma_attribute_cursor_none_stays(b, base, i, (n - 1) as nat);
    }
}

/// A table of attributes.
#[derive(Debug)]
pub struct Attributes {
    byte_len: usize,
    attributes: Vec<Attribute>,
}

impl View for Attributes {
    type V = Seq<Attribute>;

    closed spec fn view(&self) -> Seq<Attribute> {
        self.attributes@
    }
}

impl Attributes {
    #[verifier::type_invariant]
    spec fn counted(&self) -> bool {
        self.attributes@.len() <= 0xffff
    }

    pub closed spec fn spec_byte_len(&self) -> usize {
        self.byte_len
    }

    pub open spec fn spec_len(&self) -> usize {
        self@.len() as usize
    }

    /// A table without attributes.
    pub fn empty() -> (r: Self)
        ensures
            r@ == Seq::<Attribute>::empty(),
            r.spec_byte_len() == 0,
    {
        Attributes { byte_len: 0, attributes: Vec::new() }
    }

    pub fn set(&mut self, index: usize, attribute: Attribute)
        requires
            index < old(self)@.len(),
        ensures
            final(self)@ == old(self)@.update(index as int, attribute),
            final(self).spec_byte_len() == old(self).spec_byte_len(),
    {
        proof {
            use_type_invariant(&*self);
        }
        self.attributes[index] = attribute;
    }

    pub fn get_ref(&self, index: usize) -> (r: &Attribute)
        requires
            index < self@.len(),
        ensures
            *r == self@[index as int],
    {
        &self.attributes[index]
    }

    pub fn get(&self, index: usize) -> (r: Attribute)
        requires
            index < self@.len(),
        ensures
            self@[index as int].agrees(&r),
    {
        self.attributes[index].duplicate()
    }

    #[verifier::when_used_as_spec(spec_len)]
    pub fn len(&self) -> (r: usize)
        ensures
            r == self@.len(),
            r == self.spec_len(),
    {
        proof {
            use_type_invariant(self);
        }
        self.attributes.len()
    }

    #[verifier::when_used_as_spec(spec_byte_len)]
    pub fn byte_len(&self) -> (r: usize)
        ensures
            r == self.spec_byte_len(),
    {
        self.byte_len
    }

    pub fn attributes_count(&self) -> (r: u16)
        ensures
            r as nat == self@.len(),
    {
        proof {
            use_type_invariant(self);
        }
        self.attributes.len() as u16
    }

    /// Reads the attribute table whose count is stored at `base`.
    pub fn from(bytes: &[u8], base: usize) -> (r: Option<Attributes>)
        ensures
            r is Some <==> attributes_end(bytes@, base as int) is Some,
            r matches Some(t) ==> attributes_at(t, bytes@, base as int) && base + t.spec_byte_len() <= bytes@.len(),
    {
        let count: usize = match read_u16(bytes, base) {
            Some(c) => c as usize,
            None => { return None; },
        };
        let mut attributes: Vec<Attribute> = Vec::new();
        let mut off: usize = base + 2;
        let mut i: usize = 0;
        while i < count
            invariant
                i <= count,
                count == be16(bytes@, base as int),
                count <= 0xffff,
                fits(bytes@, base as int, 2),
                bytes@.len() <= usize::MAX,
                attributes@.len() == i,
                attribute_cursor(bytes@, base as int, i as nat) == Some(off as int),
                base + 2 <= off <= bytes@.len(),
                forall|j: int|
                    0 <= j < i ==> attribute_at(
                        #[trigger] attributes@[j],
                        bytes@,
                        attribute_cursor(bytes@, base as int, j as nat).unwrap(),
                    ),
            decreases count - i,
        {
            match Attribute::from(bytes, off) {
                Some(a) => {
                    off = off + a.byte_len;
                    attributes.push(a);
                },
                None => {
                    proof {
                        assert(attribute_cursor(bytes@, base as int, (i + 1) as nat) is None);
                        lemma_attribute_cursor_none_stays(
                            bytes@,
                            base as int,
                            (i + 1) as nat,
                            count as nat,
                        );
                    }
                    return None;
                },
            }
            i = i + 1;
        }
        Some(Attributes { byte_len: off - base, attributes })
    }
}

} // verus!
