use crate::attribute::{attributes_at, attributes_end, Attributes};
use crate::bytes::{be16, be32, fits, read_u16, read_u32};
use crate::constant::Constant;
use crate::constantpool::{cursor, pool_parses, slot_holds, ConstantPool};
use crate::field::{fields_at, fields_end, Fields};
use crate::method::{methods_at, methods_end, Method, Methods};
use crate::methodarea::{Ancestry, AreaView, MethodArea};
use vstd::prelude::*;

verus! {

/// The access flags of a class.
#[derive(Clone, Copy, Debug, PartialEq, Eq, Structural)]
pub enum ClassAccessFlags {
    Public,
    Final,
    Super,
    Interface,
    Abstract,
    Synthetic,
    Annotation,
    Enum,
}

impl ClassAccessFlags {
    /// The bit of a class's access flags that this flag stands for.
    pub open spec fn bit(self) -> u16 {
        match self {
            ClassAccessFlags::Public => 0x0001,
            ClassAccessFlags::Final => 0x0010,
            ClassAccessFlags::Super => 0x0020,
            ClassAccessFlags::Interface => 0x0200,
            ClassAccessFlags::Abstract => 0x0400,
            ClassAccessFlags::Synthetic => 0x1000,
            ClassAccessFlags::Annotation => 0x2000,
            ClassAccessFlags::Enum => 0x4000,
        }
    }

    pub fn mask(&self) -> (r: u16)
        ensures
            r == self.bit(),
    {
        match self {
            ClassAccessFlags::Public => 0x0001,
            ClassAccessFlags::Final => 0x0010,
            ClassAccessFlags::Super => 0x0020,
            ClassAccessFlags::Interface => 0x0200,
            ClassAccessFlags::Abstract => 0x0400,
            ClassAccessFlags::Synthetic => 0x1000,
            ClassAccessFlags::Annotation => 0x2000,
            ClassAccessFlags::Enum => 0x4000,
        }
    }
}

/// How far the initialization of a loaded class has come.
#[derive(Clone, Copy, Debug, PartialEq, Eq, Structural)]
pub enum ClassInitializationStatus {
    VerifiedPreparedNotInitialized,
    BeingInitialized,
    Initialized,
    Error,
}

/// One class, as read from its class file.
#[derive(Debug)]
pub struct Class {
    pub magic: u32,
    pub minor_version: u16,
    pub major_version: u16,
    pub constant_pool_count: u16,
    pub constant_pool: ConstantPool,
    pub access_flags: u16,
    pub this_class: u16,
    pub super_class: u16,
    pub interfaces_count: u16,
    pub interfaces: Vec<u16>,
    pub fields_count: u16,
    pub fields: Fields,
    pub methods_count: u16,
    pub methods: Methods,
    pub attributes_count: u16,
    pub attributes: Attributes,
}

/// The number that every class file starts with.
pub open spec fn class_magic() -> int {
    0xCAFEBABE
}

/// The offset just behind the constant pool of a class file.
pub open spec fn after_pool(b: Seq<u8>) -> int {
    cursor(b, 8, be16(b, 8) as nat).unwrap().0
}

/// The offset of the field table of a class file.
pub open spec fn fields_base(b: Seq<u8>) -> int {
    after_pool(b) + 8 + 2 * be16(b, after_pool(b) + 6)
}

/// The offset of the method table of a class file.
pub open spec fn methods_base(b: Seq<u8>) -> int {
    fields_end(b, fields_base(b)).unwrap()
}

/// The offset of the attribute table of a class file.
pub open spec fn attributes_base(b: Seq<u8>) -> int {
    methods_end(b, methods_base(b)).unwrap()
}

/// Whether the bytes are a class file that can be read: the magic number,
/// the two version numbers, a constant pool, the class's flags and names,
/// its interface list, and its tables of fields, methods and attributes,
/// none of them cut short.
pub open spec fn class_parses(b: Seq<u8>) -> bool {
    &&& fits(b, 0, 8)
    &&& be32(b, 0) == class_magic()
    &&& pool_parses(b, 8)
    &&& fits(b, after_pool(b), 8)
    &&& fits(b, after_pool(b) + 8, 2 * be16(b, after_pool(b) + 6))
    &&& fields_end(b, fields_base(b)) is Some
    &&& methods_end(b, methods_base(b)) is Some
    &&& attributes_end(b, attributes_base(b)) is Some
}

/// Whether `pool` is the constant pool that a class file holds.
pub open spec fn pool_at(pool: ConstantPool, b: Seq<u8>) -> bool {
    &&& pool@.len() == be16(b, 8)
    &&& 8 + pool.spec_byte_len() == after_pool(b)
    &&& forall|i: int| 0 <= i < pool@.len() ==> slot_holds(#[trigger] pool@[i], b, 8, i)
}

/// Whether `c` is the class that the bytes of a class file encode.
pub open spec fn class_at(c: Class, b: Seq<u8>) -> bool {
    &&& c.magic as int == be32(b, 0)
    &&& c.minor_version as int == be16(b, 4)
    &&& c.major_version as int == be16(b, 6)
    &&& pool_at(c.constant_pool, b)
    &&& c.constant_pool_count as nat == c.constant_pool@.len()
    &&& c.access_flags as int == be16(b, after_pool(b))
    &&& c.this_class as int == be16(b, after_pool(b) + 2)
    &&& c.super_class as int == be16(b, after_pool(b) + 4)
    &&& c.interfaces_count as int == be16(b, after_pool(b) + 6)
    &&& c.interfaces@.len() == c.interfaces_count
    &&& forall|i: int|
        0 <= i < c.interfaces@.len() ==> #[trigger] c.interfaces@[i] as int == be16(
            b,
            after_pool(b) + 8 + 2 * i,
        )
    &&& fields_at(c.fields, b, fields_base(b))
    &&& c.fields_count as nat == c.fields@.len()
    &&& methods_at(c.methods, b, methods_base(b), &c.constant_pool)
    &&& c.methods_count as nat == c.methods@.len()
    &&& attributes_at(c.attributes, b, attributes_base(b))
    &&& c.attributes_count as nat == c.attributes@.len()
}

impl Class {
    /// The constant pool of the class.
    pub fn get_constant_pool_ref(&self) -> (r: &ConstantPool)
        ensures
            *r == self.constant_pool,
    {
        &self.constant_pool
    }

    /// The name of the direct superclass, where the class names one.
    pub open spec fn superclass(&self) -> Option<String> {
        self.constant_pool.class_name(self.super_class as int)
    }

    /// The name of the direct superclass, where the class names one.
    pub fn resolve_superclass(&self) -> (r: Option<String>)
        ensures
            r == self.superclass(),
    {
        match self.constant_pool.class_name_at(self.super_class as usize) {
            Some(name) => Some(name.clone()),
            None => None,
        }
    }

    /// The name of the direct superclass, where the class names one.
    pub fn superclass_name(&self) -> (r: Option<String>)
        ensures
            r == self.superclass(),
    {
        self.resolve_superclass()
    }

    /// The name of this class, where its own class entry leads to a text.
    pub open spec fn name(&self) -> Option<String> {
        self.constant_pool.class_name(self.this_class as int)
    }

    /// The name of the class, where its own class entry leads to a text.
    pub fn get_class_name(&self) -> (r: Option<String>)
        ensures
            r == self.name(),
    {
        match self.constant_pool.class_name_at(self.this_class as usize) {
            Some(name) => Some(name.clone()),
            None => None,
        }
    }

    /// The name and the descriptor that the name-and-type entry in slot
    /// `index` leads to.
    pub open spec fn name_and_type(&self, index: int) -> Option<(String, String)> {
        let cp = &self.constant_pool;
        if 0 <= index < cp@.len() {
            match cp@[index] {
                Constant::NameAndType(_, name_index, descriptor_index) => match (
                    cp.text(name_index as int),
                    cp.text(descriptor_index as int),
                ) {
                    (Some(name), Some(descriptor)) => Some((name, descriptor)),
                    _ => None,
                },
                _ => None,
            }
        } else {
            None
        }
    }

    fn resolve_name_and_type(&self, index: usize) -> (r: Option<(&String, &String)>)
        ensures
            match r {
                Some((name, descriptor)) => self.name_and_type(index as int) == Some(
                    (*name, *descriptor),
                ),
                None => self.name_and_type(index as int) is None,
            },
    {
        let cp = &self.constant_pool;
        if index < cp.constant_pool_count() as usize {
            match cp.get_constant_ref(index) {
                Constant::NameAndType(_, name_index, descriptor_index) => match (
                    cp.utf8(*name_index as usize),
                    cp.utf8(*descriptor_index as usize),
                ) {
                    (Some(name), Some(descriptor)) => Some((name, descriptor)),
                    _ => None,
                },
                _ => None,
            }
        } else {
            None
        }
    }

    /// What the field reference in slot `index` names: the class, the
    /// field's name and its descriptor. `None` where the slot holds no field
    /// reference, or one of the entries it leads to is of the wrong kind.
    pub open spec fn field_ref(&self, index: int) -> Option<(String, String, String)> {
        let cp = &self.constant_pool;
        if 0 <= index < cp@.len() {
            match cp@[index] {
                Constant::Fieldref(_, class_index, name_and_type_index) => match (
                    cp.class_name(class_index as int),
                    self.name_and_type(name_and_type_index as int),
                ) {
                    (Some(class), Some((name, descriptor))) => Some((class, name, descriptor)),
                    _ => None,
                },
                _ => None,
            }
        } else {
            None
        }
    }

    /// What the field reference in slot `field_ref_index` names: the
    /// class, the field's name and its descriptor.
    pub fn resolve_field_ref(&self, field_ref_index: usize) -> (r: Option<(String, String, String)>)
        ensures
            r == self.field_ref(field_ref_index as int),
    {
        let cp = &self.constant_pool;
        if field_ref_index < cp.constant_pool_count() as usize {
            match cp.get_constant_ref(field_ref_index) {
                Constant::Fieldref(_, class_index, name_and_type_index) => match (
                    cp.class_name_at(*class_index as usize),
                    self.resolve_name_and_type(*name_and_type_index as usize),
                ) {
                    (Some(class), Some((name, descriptor))) => Some(
                        (class.clone(), name.clone(), descriptor.clone()),
                    ),
                    _ => None,
                },
                _ => None,
            }
        } else {
            None
        }
    }

    /// What the method reference in slot `index` names: the method's name,
    /// its descriptor and the class. `None` where the slot holds no method
    /// reference, or one of the entries it leads to is of the wrong kind.
    pub open spec fn method_ref(&self, index: int) -> Option<(String, String, String)> {
        let cp = &self.constant_pool;
        if 0 <= index < cp@.len() {
            match cp@[index] {
                Constant::Methodref(_, class_index, name_and_type_index) => match (
                    cp.class_name(class_index as int),
                    self.name_and_type(name_and_type_index as int),
                ) {
                    (Some(class), Some((name, descriptor))) => Some((name, descriptor, class)),
                    _ => None,
                },
                _ => None,
            }
        } else {
            None
        }
    }

    /// What the method reference in slot `method_ref_index` names: the
    /// method's name, its descriptor and the class.
    pub fn resolve_method_ref(&self, method_ref_index: usize) -> (r: Option<
        (String, String, String),
    >)
        ensures
            r == self.method_ref(method_ref_index as int),
    {
        let cp = &self.constant_pool;
        if method_ref_index < cp.constant_pool_count() as usize {
            match cp.get_constant_ref(method_ref_index) {
                Constant::Methodref(_, class_index, name_and_type_index) => match (
                    cp.class_name_at(*class_index as usize),
                    self.resolve_name_and_type(*name_and_type_index as usize),
                ) {
                    (Some(class), Some((name, descriptor))) => Some(
                        (name.clone(), descriptor.clone(), class.clone()),
                    ),
                    _ => None,
                },
                _ => None,
            }
        } else {
            None
        }
    }

    /// The position, among this class's own methods, of the first one
    /// declared with the given name and descriptor.
    pub open spec fn method_position(&self, name: Seq<char>, descriptor: Seq<char>) -> Option<int> {
        self.methods.position(name, descriptor, &self.constant_pool)
    }

    /// The position, among this class's own fields, of the first one
    /// declared with the given name and descriptor.
    pub open spec fn field_position(&self, name: Seq<char>, descriptor: Seq<char>) -> Option<int> {
        self.fields.position(name, descriptor, &self.constant_pool)
    }

    /// The first of the class's own methods that is declared with the
    /// given name and descriptor.
    pub fn get_method_rc_by_name_and_type(&self, method_name: &String, method_type: &String) -> (r:
        Option<&Method>)
        ensures
            match r {
                Some(m) => self.method_position(method_name@, method_type@) is Some && *m
                    == self.methods@[self.method_position(method_name@, method_type@).unwrap()],
                None => self.method_position(method_name@, method_type@) is None,
            },
    {
        self.methods.get_by_name_and_type(method_name, method_type, &self.constant_pool)
    }

    /// The method table of the class.
    pub fn get_methods_ref(&self) -> (r: &Methods)
        ensures
            *r == self.methods,
    {
        &self.methods
    }

    /// The field table of the class.
    pub fn get_fields_ref(&self) -> (r: &Fields)
        ensures
            *r == self.fields,
    {
        &self.fields
    }

    /// The field table of the class, to be changed.
    pub fn get_mut_fields_ref(&mut self) -> (r: &mut Fields)
        ensures
            *r == old(self).fields,
            *final(self) == (Class { fields: *final(r), ..*old(self) }),
    {
        &mut self.fields
    }

    /// Whether this class is the class `wanted` or, as far as the classes
    /// of `methodarea` show, a subclass of it.
    pub open spec fn descends(&self, wanted: Seq<char>, methodarea: AreaView) -> Ancestry {
        if self.name() matches Some(name) && name@ == wanted {
            Ancestry::Yes
        } else {
            match self.superclass() {
                None => Ancestry::No,
                Some(parent) => match methodarea.class_id(parent@) {
                    None => Ancestry::Missing(parent),
                    Some(p) => methodarea.ancestry(p, wanted, methodarea.classes.len()),
                },
            }
        }
    }

    pub fn is_type_of(&self, wanted: &String, methodarea: &MethodArea) -> (r: Ancestry)
        ensures
            r == self.descends(wanted@, methodarea@),
    {
        let own = match self.constant_pool.class_name_at(self.this_class as usize) {
            Some(name) => *name == *wanted,
            None => false,
        };
        if own {
            Ancestry::Yes
        } else {
            match self.resolve_superclass() {
                None => Ancestry::No,
                Some(parent) => match methodarea.class_id(&parent) {
                    None => Ancestry::Missing(parent),
                    Some(p) => methodarea.is_type_of(p, wanted),
                },
            }
        }
    }

    /// Reads a class from the bytes of its class file.
    ///
    /// Fails exactly on bytes that are no readable class file.
    pub fn load_from_bytes(bytes: Vec<u8>) -> (r: Option<Class>)
        ensures
            r is Some <==> class_parses(bytes@),
            r matches Some(c) ==> class_at(c, bytes@),
    {
        let b = bytes.as_slice();
        let total: usize = b.len();
        let (magic, minor_version, major_version) = match (
            read_u32(b, 0),
            read_u16(b, 4),
            read_u16(b, 6),
        ) {
            (Some(m), Some(minor), Some(major)) => (m, minor, major),
            _ => { return None; },
        };
        if magic != 0xCAFEBABE {
            return None;
        }
        let constant_pool = match ConstantPool::from(b, 8) {
            Some(p) => p,
            None => { return None; },
        };
        let constant_pool_count = constant_pool.constant_pool_count();
        let mut offset: usize = 8 + constant_pool.byte_len();
        if total - offset < 8 {
            return None;
        }
        let (access_flags, this_class, super_class, interfaces_count) = match (
            read_u16(b, offset),
            read_u16(b, offset + 2),
            read_u16(b, offset + 4),
            read_u16(b, offset + 6),
        ) {
            (Some(a), Some(t), Some(s), Some(n)) => (a, t, s, n),
            _ => { return None; },
        };
        offset = offset + 8;
        let count: usize = interfaces_count as usize;
        if total - offset < 2 * count {
            return None;
        }
        let mut interfaces: Vec<u16> = Vec::new();
        let mut i: usize = 0;
        while i < count
            invariant
                i <= count,
                count <= 0xffff,
                b@ == bytes@,
                b@.len() == total,
                offset == after_pool(b@) + 8,
                fits(b@, offset as int, 2 * count),
                interfaces@.len() == i,
                forall|j: int|
                    0 <= j < i ==> #[trigger] interfaces@[j] as int == be16(b@, offset + 2 * j),
            decreases count - i,
        {
            match read_u16(b, offset + 2 * i) {
                Some(v) => {
                    interfaces.push(v);
                },
                None => {
                    return None;
                },
            }
            i = i + 1;
        }
        offset = offset + 2 * count;
        let fields = match Fields::from(b, offset) {
            Some(f) => f,
            None => { return None; },
        };
        let fields_count = fields.fields_count();
        offset = offset + fields.byte_len();
        let methods = match Methods::from(b, offset, &constant_pool) {
            Some(m) => m,
            None => { return None; },
        };
        let methods_count = methods.methods_count();
        offset = offset + methods.byte_len();
        let attributes = match Attributes::from(b, offset) {
            Some(a) => a,
            None => { return None; },
        };
        let attributes_count = attributes.attributes_count();
        Some(
            Class {
                magic,
                minor_version,
                major_version,
                constant_pool_count,
                constant_pool,
                access_flags,
                this_class,
                super_class,
                interfaces_count,
                interfaces,
                fields_count,
                fields,
                methods_count,
                methods,
                attributes_count,
                attributes,
            },
        )
    }
}

} // verus!
