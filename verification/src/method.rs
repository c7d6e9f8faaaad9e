use crate::attribute::{attributes_at, Attribute, Attributes};
use crate::bytes::{be16, be32, fits, read_u16, read_u32};
use crate::constant::{Constant, Utf8Reserved};
use crate::constantpool::ConstantPool;
use crate::exceptions::{table_parses, table_rows, Exception, ExceptionTable};
use crate::field::field_size;
use crate::search::first_index;
use crate::typevalues::{
    describes, find_byte, position_of, skip_type, type_fault, type_len, JvmPrimitiveType, JvmType,
};
use vstd::prelude::*;
use vstd::slice::slice_subrange;
use vstd::utf8::encode_utf8;

verus! {

/// The access flags of a method.
#[derive(Clone, Copy, Debug, PartialEq, Eq, Structural)]
pub enum MethodAccessFlags {
    Public,
    Private,
    Protected,
    Static,
    Final,
    Synchronized,
    Bridge,
    VarArgs,
    Native,
    Abstract,
    Strict,
    Synthetic,
}

impl MethodAccessFlags {
    /// The bit of a method's access flags that this flag stands for.
    pub open spec fn bit(self) -> u16 {
        match self {
            MethodAccessFlags::Public => 0x0001,
            MethodAccessFlags::Private => 0x0002,
            MethodAccessFlags::Protected => 0x0004,
            MethodAccessFlags::Static => 0x0008,
            MethodAccessFlags::Final => 0x0010,
            MethodAccessFlags::Synchronized => 0x0020,
            MethodAccessFlags::Bridge => 0x0040,
            MethodAccessFlags::VarArgs => 0x0080,
            MethodAccessFlags::Native => 0x0100,
            MethodAccessFlags::Abstract => 0x0400,
            MethodAccessFlags::Strict => 0x0800,
            MethodAccessFlags::Synthetic => 0x1000,
        }
    }

    pub fn mask(&self) -> (r: u16)
        ensures
            r == self.bit(),
    {
        match self {
            MethodAccessFlags::Public => 0x0001,
            MethodAccessFlags::Private => 0x0002,
            MethodAccessFlags::Protected => 0x0004,
            MethodAccessFlags::Static => 0x0008,
            MethodAccessFlags::Final => 0x0010,
            MethodAccessFlags::Synchronized => 0x0020,
            MethodAccessFlags::Bridge => 0x0040,
            MethodAccessFlags::VarArgs => 0x0080,
            MethodAccessFlags::Native => 0x0100,
            MethodAccessFlags::Abstract => 0x0400,
            MethodAccessFlags::Strict => 0x0800,
            MethodAccessFlags::Synthetic => 0x1000,
        }
    }
}

/// The number of parameters that the parameter list starting at `i` (behind
/// the opening bracket, or behind a parameter) still holds. Counting stops
/// at the closing bracket, at the end, and at what is no type descriptor.
pub open spec fn count_parameters(d: Seq<u8>, i: int) -> nat
    decreases d.len() - i,
{
    if i < 0 || i >= d.len() || d[i] == 41 {
        0
    } else {
        match type_len(d, i) {
            Some(n) => if n > 0 && i + n <= d.len() {
                1 + count_parameters(d, i + n)
            } else {
                0
            },
            None => 0,
        }
    }
}

/// The number of parameters that a method descriptor declares: one for each
/// type descriptor between its brackets, whatever the type.
pub open spec fn parameter_count(d: Seq<u8>) -> nat {
    if d.len() > 0 && d[0] == 40 {
        count_parameters(d, 1)
    } else {
        0
    }
}

/// Whether `t` is the return type that a method descriptor declares: the
/// type named behind the closing bracket, or `Invalid` where there is no
/// closing bracket or no readable type behind it.
pub open spec fn gives_back(t: JvmType, d: Seq<u8>) -> bool {
    match position_of(d, 0, 41) {
        Some(k) => if type_fault(d, k + 1) is None {
            describes(t, d, k + 1)
        } else {
            t == JvmType::Primitive(JvmPrimitiveType::Invalid)
        },
        None => t == JvmType::Primitive(JvmPrimitiveType::Invalid),
    }
}

/// Counts the parameters that a method descriptor declares.
pub fn count_descriptor_parameters(d: &[u8]) -> (r: usize)
    ensures
        r == parameter_count(d@),
{
    if d.len() == 0 || d[0] != 40 {
        return 0;
    }
    let mut count: usize = 0;
    let mut i: usize = 1;
    while i < d.len() && d[i] != 41
        invariant
            1 <= i <= d@.len(),
            count < i,
            parameter_count(d@) == count + count_parameters(d@, i as int),
        decreases d@.len() - i,
    {
        match skip_type(d, i) {
            Some(j) => {
                count = count + 1;
                i = j;
            },
            None => {
                return count;
            },
        }
    }
    count
}

/// Reads the return type that a method descriptor declares.
pub fn descriptor_return_type(d: &[u8]) -> (r: JvmType)
    ensures
        gives_back(r, d@),
{
    match find_byte(d, 0, 41) {
        Some(k) => match JvmType::from_descriptor(d, k + 1) {
            Ok(t) => t,
            Err(_) => JvmType::Primitive(JvmPrimitiveType::Invalid),
        },
        None => JvmType::Primitive(JvmPrimitiveType::Invalid),
    }
}

/// Whether an attribute is named `Code` in the constant pool `cp`.
pub open spec fn is_code(a: Attribute, cp: &ConstantPool) -> bool {
    &&& 0 <= a.attribute_name_index < cp@.len()
    &&& cp@[a.attribute_name_index as int] matches Constant::Utf8(_, reserved, _, _)
    &&& reserved == Utf8Reserved::Code
}

/// The test that picks a method's `Code` attribute.
pub open spec fn code_named(cp: &ConstantPool) -> spec_fn(Attribute) -> bool {
    |a: Attribute| is_code(a, cp)
}

/// The position of the first attribute named `Code`.
pub open spec fn code_position(attributes: Seq<Attribute>, cp: &ConstantPool) -> Option<int> {
    first_index(attributes, code_named(cp), 0)
}

/// The operand-stack limit and the number of local variables that the first
/// `Code` attribute announces; both 0 where there is none, or it is shorter
/// than the four bytes they take.
pub open spec fn limits(attributes: Seq<Attribute>, cp: &ConstantPool) -> (int, int) {
    match code_position(attributes, cp) {
        Some(i) => if fits(attributes[i].info@, 0, 4) {
            (be16(attributes[i].info@, 0), be16(attributes[i].info@, 2))
        } else {
            (0, 0)
        },
        None => (0, 0),
    }
}

/// The instructions of the first `Code` attribute, where it has as many
/// bytes as its header announces.
pub open spec fn instructions(attributes: Seq<Attribute>, cp: &ConstantPool) -> Option<Seq<u8>> {
    match code_position(attributes, cp) {
        Some(i) => {
            let info = attributes[i].info@;
            if fits(info, 0, 8) && fits(info, 8, be32(info, 4)) {
                Some(info.subrange(8, 8 + be32(info, 4)))
            } else {
                None
            }
        },
        None => None,
    }
}

/// The exception table of the first `Code` attribute, where the attribute
/// has as many bytes of code as its header announces and a readable
/// exception table behind them.
pub open spec fn handlers(attributes: Seq<Attribute>, cp: &ConstantPool) -> Option<Seq<Exception>> {
    match code_position(attributes, cp) {
        Some(i) => {
            let info = attributes[i].info@;
            if fits(info, 0, 8) && fits(info, 8, be32(info, 4)) && table_parses(
                info,
                8 + be32(info, 4),
            ) {
                Some(table_rows(info, 8 + be32(info, 4)))
            } else {
                None
            }
        },
        None => None,
    }
}

/// The bytes of the descriptor in slot `index` of `cp`.
pub open spec fn descriptor_bytes(cp: &ConstantPool, index: int) -> Option<Seq<u8>> {
    match cp.text(index) {
        Some(text) => Some(encode_utf8(text@)),
        None => None,
    }
}

/// The declaration of one method of a class, with what the interpreter needs
/// of its descriptor and of its code at hand.
#[derive(Debug)]
pub struct Method {
    pub byte_len: usize,
    pub access_flags: u16,
    pub name_index: u16,
    pub class_index: u16,
    pub descriptor_index: u16,
    pub attributes_count: u16,
    pub max_stack: usize,
    pub max_locals: usize,
    pub parameter_count: usize,
    pub return_type: JvmType,
    pub attributes: Attributes,
}

/// Whether `m` is the method declaration that the bytes at `off` encode, in
/// a class whose constant pool is `cp`.
pub open spec fn method_at(m: Method, b: Seq<u8>, off: int, cp: &ConstantPool) -> bool {
    &&& m.access_flags as int == be16(b, off)
    &&& m.name_index as int == be16(b, off + 2)
    &&& m.descriptor_index as int == be16(b, off + 4)
    &&& m.class_index == 0
    &&& attributes_at(m.attributes, b, off + 6)
    &&& m.attributes_count as nat == m.attributes@.len()
    &&& Some(m.byte_len as int) == field_size(b, off)
    &&& (m.max_stack as int, m.max_locals as int) == limits(m.attributes@, cp)
    &&& match descriptor_bytes(cp, m.descriptor_index as int) {
        Some(d) => m.parameter_count as nat == parameter_count(d) && gives_back(m.return_type, d),
        None => m.parameter_count == 0 && m.return_type == JvmType::Primitive(
            JvmPrimitiveType::Invalid,
        ),
    }
}

impl Method {
    /// The position of the first attribute named `Code`.
    pub fn code_index(&self, cp: &ConstantPool) -> (r: Option<usize>)
        ensures
            match r {
                Some(i) => code_position(self.attributes@, cp) == Some(i as int) && i
                    < self.attributes@.len(),
                None => code_position(self.attributes@, cp) is None,
            },
    {
        let mut i: usize = 0;
        while i < self.attributes.len()
            invariant
                first_index(self.attributes@, code_named(cp), 0) == first_index(
                    self.attributes@,
                    code_named(cp),
                    i as int,
                ),
            decreases self.attributes.len() - i,
        {
            let attribute = self.attributes.get_ref(i);
            let index = attribute.attribute_name_index as usize;
            if index < cp.constant_pool_count() as usize {
                match cp.get_constant_ref(index) {
                    Constant::Utf8(_, Utf8Reserved::Code, _, _) => {
                        return Some(i);
                    },
                    _ => {},
                }
            }
            i = i + 1;
        }
        None
    }

    /// The instructions of this method: those of its first `Code` attribute.
    /// A method without one (native, abstract), or with one that is cut
    /// short, has none.
    pub fn get_code(&self, cp: &ConstantPool) -> (r: Option<&[u8]>)
        ensures
            match r {
                Some(code) => instructions(self.attributes@, cp) == Some(code@),
                None => instructions(self.attributes@, cp) is None,
            },
    {
        match self.code_index(cp) {
            Some(i) => {
                let attribute = self.attributes.get_ref(i);
                let info = attribute.info.as_slice();
                match read_u32(info, 4) {
                    Some(code_length) => {
                        if code_length as u64 <= (info.len() - 8) as u64 {
                            Some(slice_subrange(info, 8, 8 + code_length as usize))
                        } else {
                            None
                        }
                    },
                    None => None,
                }
            },
            None => None,
        }
    }

    /// The exception table of this method: that of its first `Code`
    /// attribute.
    pub fn get_exception_table(&self, cp: &ConstantPool) -> (r: Option<ExceptionTable>)
        ensures
            match r {
                Some(table) => handlers(self.attributes@, cp) == Some(table@),
                None => handlers(self.attributes@, cp) is None,
            },
    {
        match self.code_index(cp) {
            Some(i) => {
                let attribute = self.attributes.get_ref(i);
                let info = attribute.info.as_slice();
                match read_u32(info, 4) {
                    Some(code_length) => {
                        if code_length as u64 <= (info.len() - 8) as u64 {
                            ExceptionTable::from(info, 8 + code_length as usize)
                        } else {
                            None
                        }
                    },
                    None => None,
                }
            },
            None => None,
        }
    }

    pub fn byte_len(&self) -> (r: usize)
        ensures
            r == self.byte_len,
    {
        self.byte_len
    }

    /// Whether this method is declared with the given name and descriptor,
    /// both looked up in the constant pool `cp` of the declaring class.
    pub open spec fn is_named(&self, name: Seq<char>, descriptor: Seq<char>, cp: &ConstantPool) -> bool {
        &&& cp.text(self.name_index as int) matches Some(n) && n@ == name
        &&& cp.text(self.descriptor_index as int) matches Some(d) && d@ == descriptor
    }

    pub fn has_name_and_type(&self, name: &String, descriptor: &String, cp: &ConstantPool) -> (r:
        bool)
        ensures
            r == self.is_named(name@, descriptor@, cp),
    {
        match cp.utf8(self.name_index as usize) {
            Some(n) => {
                if *n == *name {
                    match cp.utf8(self.descriptor_index as usize) {
                        Some(d) => *d == *descriptor,
                        None => false,
                    }
                } else {
                    false
                }
            },
            None => false,
        }
    }

    /// Reads the method declaration at `off`, in a class whose constant
    /// pool is `cp`.
    pub fn from(bytes: &[u8], off: usize, cp: &ConstantPool) -> (r: Option<Method>)
        ensures
            r is Some <==> field_size(bytes@, off as int) is Some,
            r matches Some(m) ==> method_at(m, bytes@, off as int, cp),
    {
        let total: usize = bytes.len();
        if total < 6 || off > total - 6 {
            return None;
        }
        let (access_flags, name_index, descriptor_index) = match (
            read_u16(bytes, off),
            read_u16(bytes, off + 2),
            read_u16(bytes, off + 4),
        ) {
            (Some(a), Some(n), Some(d)) => (a, n, d),
            _ => { return None; },
        };
        let attributes = match Attributes::from(bytes, off + 6) {
            Some(a) => a,
            None => { return None; },
        };
        let attributes_count = attributes.attributes_count();
        let byte_len = 6 + attributes.byte_len();
        let (parameter_count, return_type) = match cp.utf8(descriptor_index as usize) {
            Some(text) => {
                let d = text.as_str().as_bytes();
                (count_descriptor_parameters(d), descriptor_return_type(d))
            },
            None => (0, JvmType::Primitive(JvmPrimitiveType::Invalid)),
        };
        let mut m = Method {
            byte_len,
            access_flags,
            name_index,
            class_index: 0,
            descriptor_index,
            attributes_count,
            max_stack: 0,
            max_locals: 0,
            parameter_count,
            return_type,
            attributes,
        };
        match m.code_index(cp) {
            Some(i) => {
                let info = m.attributes.get_ref(i).info.as_slice();
                match (read_u16(info, 0), read_u16(info, 2)) {
                    (Some(s), Some(l)) => {
                        m.max_stack = s as usize;
                        m.max_locals = l as usize;
                    },
                    _ => {},
                }
            },
            None => {},
        }
        Some(m)
    }
}

/// The offset of method `i` of the table whose count is stored at `base`
/// (of the end of the table, for `i` the count).
pub open spec fn method_cursor(b: Seq<u8>, base: int, i: nat) -> Option<int>
    decreases i,
{
    if i == 0 {
        Some(base + 2)
    } else {
        match method_cursor(b, base, (i - 1) as nat) {
            None => None,
            Some(off) => match field_size(b, off) {
                None => None,
                Some(n) => Some(off + n),
            },
        }
    }
}

/// The offset just behind the method table at `base`, where it can be read.
pub open spec fn methods_end(b: Seq<u8>, base: int) -> Option<int> {
    if fits(b, base, 2) {
        method_cursor(b, base, be16(b, base) as nat)
    } else {
        None
    }
}

/// Whether `t` is the method table that the bytes at `base` encode, in a
/// class whose constant pool is `cp`.
pub open spec fn methods_at(t: Methods, b: Seq<u8>, base: int, cp: &ConstantPool) -> bool {
    &&& methods_end(b, base) is Some
    &&& t@.len() == be16(b, base)
    &&& base + t.spec_byte_len() == methods_end(b, base).unwrap()
    &&& forall|i: int|
        0 <= i < t@.len() ==> method_at(
            #[trigger] t@[i],
            b,
            method_cursor(b, base, i as nat).unwrap(),
            cp,
        )
}

/// Once an entry cannot be read, no method behind it can be reached.
pub proof fn lemma_method_cursor_none_stays(b: Seq<u8>, base: int, i: nat, n: nat)
    requires
        method_cursor(b, base, i) is None,
        i <= n,
    ensures
        method_cursor(b, base, n) is None,
    decreases n,
{
    if i < n {
        lemma_method_cursor_none_stays(b, base, i, (n - 1) as nat);
    }
}

/// The test that `Methods::position` applies to each method.
pub open spec fn method_named(name: Seq<char>, descriptor: Seq<char>, cp: &ConstantPool) -> spec_fn(
    Method,
) -> bool {
    |m: Method| m.is_named(name, descriptor, cp)
}

/// The method table of a class.
#[derive(Debug)]
pub struct Methods {
    byte_len: usize,
    methods: Vec<Method>,
}

impl View for Methods {
    type V = Seq<Method>;

    closed spec fn view(&self) -> Seq<Method> {
        self.methods@
    }
}

impl Methods {
    #[verifier::type_invariant]
    spec fn counted(&self) -> bool {
        self.methods@.len() <= 0xffff
    }

    pub closed spec fn spec_byte_len(&self) -> usize {
        self.byte_len
    }

    /// A table without methods.
    pub fn empty() -> (r: Self)
        ensures
            r@ == Seq::<Method>::empty(),
            r.spec_byte_len() == 0,
    {
        Methods { byte_len: 0, methods: Vec::new() }
    }

    pub fn set(&mut self, index: usize, method: Method)
        requires
            index < old(self)@.len(),
        ensures
            final(self)@ == old(self)@.update(index as int, method),
            final(self).spec_byte_len() == old(self).spec_byte_len(),
    {
        proof {
            use_type_invariant(&*self);
        }
        self.methods[index] = method;
    }

    pub fn get(&self, index: usize) -> (r: &Method)
        requires
            index < self@.len(),
        ensures
            *r == self@[index as int],
    {
        &self.methods[index]
    }

    pub fn methods_count(&self) -> (r: u16)
        ensures
            r as nat == self@.len(),
    {
        proof {
            use_type_invariant(self);
        }
        self.methods.len() as u16
    }

    #[verifier::when_used_as_spec(spec_byte_len)]
    pub fn byte_len(&self) -> (r: usize)
        ensures
            r == self.spec_byte_len(),
    {
        self.byte_len
    }

    /// The position of the first method declared with the given name and
    /// descriptor.
    pub open spec fn position(&self, name: Seq<char>, descriptor: Seq<char>, cp: &ConstantPool) -> Option<
        int,
    > {
        first_index(self@, method_named(name, descriptor, cp), 0)
    }

    /// The position of the first method declared with the given name and
    /// descriptor.
    pub fn index_of(&self, name: &String, descriptor: &String, cp: &ConstantPool) -> (r: Option<
        usize,
    >)
        ensures
            match r {
                Some(i) => self.position(name@, descriptor@, cp) == Some(i as int) && i
                    < self@.len(),
                None => self.position(name@, descriptor@, cp) is None,
            },
    {
        let mut i: usize = 0;
        while i < self.methods.len()
            invariant
                first_index(self@, method_named(name@, descriptor@, cp), 0) == first_index(
                    self@,
                    method_named(name@, descriptor@, cp),
                    i as int,
                ),
            decreases self.methods.len() - i,
        {
            if self.methods[i].has_name_and_type(name, descriptor, cp) {
                return Some(i);
            }
            i = i + 1;
        }
        None
    }

    /// The first method declared with the given name and descriptor.
    pub fn get_by_name_and_type(
        &self,
        method_name: &String,
        method_type: &String,
        cp: &ConstantPool,
    ) -> (r: Option<&Method>)
        ensures
            match r {
                Some(m) => self.position(method_name@, method_type@, cp) is Some && *m
                    == self@[self.position(method_name@, method_type@, cp).unwrap()],
                None => self.position(method_name@, method_type@, cp) is None,
            },
    {
        match self.index_of(method_name, method_type, cp) {
            Some(i) => Some(&self.methods[i]),
            None => None,
        }
    }

    /// Reads the method table whose count is stored at `base`, in a class
    /// whose constant pool is `cp`.
    pub fn from(bytes: &[u8], base: usize, cp: &ConstantPool) -> (r: Option<Methods>)
        ensures
            r is Some <==> methods_end(bytes@, base as int) is Some,
            r matches Some(t) ==> methods_at(t, bytes@, base as int, cp) && base + t.spec_byte_len() <= bytes@.len(),
    {
        let count: usize = match read_u16(bytes, base) {
            Some(c) => c as usize,
            None => { return None; },
        };
        let mut methods: Vec<Method> = Vec::new();
        let mut off: usize = base + 2;
        let mut i: usize = 0;
        while i < count
            invariant
                i <= count,
                count == be16(bytes@, base as int),
                count <= 0xffff,
                fits(bytes@, base as int, 2),
                bytes@.len() <= usize::MAX,
                methods@.len() == i,
                method_cursor(bytes@, base as int, i as nat) == Some(off as int),
                base + 2 <= off <= bytes@.len(),
                forall|j: int|
                    0 <= j < i ==> method_at(
                        #[trigger] methods@[j],
                        bytes@,
                        method_cursor(bytes@, base as int, j as nat).unwrap(),
                        cp,
                    ),
            decreases count - i,
        {
            match Method::from(bytes, off, cp) {
                Some(m) => {
                    off = off + m.byte_len;
                    methods.push(m);
                },
                None => {
                    proof {
                        assert(method_cursor(bytes@, base as int, (i + 1) as nat) is None);
                        lemma_method_cursor_none_stays(
                            bytes@,
                            base as int,
                            (i + 1) as nat,
                            count as nat,
                        );
                    }
                    return None;
                },
            }
            i = i + 1;
        }
        Some(Methods { byte_len: off - base, methods })
    }
}

/// A method table has no more methods than can be counted.
pub proof fn lemma_methods_fit(methods: Methods)
    ensures
        methods@.len() <= usize::MAX,
{
    broadcast use vstd::std_specs::vec::axiom_spec_len;

    assert(methods.methods.len() == methods@.len());
}

/// Walks over the methods of a table, in order.
pub struct MethodIterator<'a> {
    curr: usize,
    max: usize,
    methods: &'a Methods,
}

impl<'a> MethodIterator<'a> {
    /// The number of methods handed out so far.
    pub closed spec fn position(&self) -> int {
        self.curr as int
    }

    /// The table that is walked over.
    pub closed spec fn table(&self) -> Seq<Method> {
        self.methods@
    }

    #[verifier::type_invariant]
    spec fn bounded(&self) -> bool {
        self.curr <= self.max && self.max == self.methods@.len()
    }

    pub fn new(methods: &'a Methods) -> (r: Self)
        ensures
            r.position() == 0,
            r.table() == methods@,
    {
        MethodIterator { curr: 0, max: methods.methods_count() as usize, methods }
    }

    /// The next method, until all have been handed out.
    pub fn next(&mut self) -> (r: Option<&'a Method>)
        ensures
            final(self).table() == old(self).table(),
            match r {
                Some(m) => old(self).position() < old(self).table().len() && *m == old(
                    self,
                ).table()[old(self).position()] && final(self).position() == old(self).position()
                    + 1,
                None => old(self).position() >= old(self).table().len() && final(self).position()
                    == old(self).position(),
            },
    {
        proof {
            use_type_invariant(&*self);
        }
        if self.curr < self.max {
            self.curr += 1;
            Some(self.methods.get(self.curr - 1))
        } else {
            None
        }
    }
}

} // verus!
