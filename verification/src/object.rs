use crate::class::Class;
use crate::debug::DebugLevel;
use crate::error::FatalErrorType;
use crate::search::first_index;
use crate::typevalues::{
    describes, primitive_of, type_fault, JvmReferenceTargetType, JvmReferenceType, JvmType,
    JvmValue,
};
use vstd::prelude::*;
use vstd::string::StringExecFns;
use vstd::utf8::encode_utf8;

verus! {

/// What an object of the heap holds: its class, by the class's handle in the
/// method area and by name; its fields, by name; and the part that belongs
/// to its superclass, if that was instantiated.
pub struct ObjectView {
    pub spr: Option<Box<ObjectView>>,
    pub class: usize,
    pub class_name: String,
    pub fields: Seq<(String, JvmValue)>,
}

/// An object of the heap.
#[derive(Debug)]
pub struct JvmObject {
    spr: Option<Box<JvmObject>>,
    class: usize,
    class_name: String,
    fields: Vec<(String, JvmValue)>,
    debug_level: DebugLevel,
}

impl View for JvmObject {
    type V = ObjectView;

    closed spec fn view(&self) -> ObjectView
        decreases self,
    {
        ObjectView {
            spr: match self.spr {
                Some(b) => Some(Box::new((*b).view())),
                None => None,
            },
            class: self.class,
            class_name: self.class_name,
            fields: self.fields@,
        }
    }
}

/// The test that a lookup by field name applies to each field.
pub open spec fn field_called(name: Seq<char>) -> spec_fn((String, JvmValue)) -> bool {
    |entry: (String, JvmValue)| entry.0@ == name
}

/// The position of the field `name` in a field table.
pub open spec fn slot_of(fields: Seq<(String, JvmValue)>, name: Seq<char>) -> Option<int> {
    first_index(fields, field_called(name), 0)
}

/// The value that a field table holds for `name`.
pub open spec fn value_of(fields: Seq<(String, JvmValue)>, name: Seq<char>) -> Option<JvmValue> {
    match slot_of(fields, name) {
        Some(i) => Some(fields[i].1),
        None => None,
    }
}

/// The field table after `value` is stored under `name`: in the field's
/// slot where the table has the field, in a new slot at the end otherwise.
pub open spec fn stored(fields: Seq<(String, JvmValue)>, name: String, value: JvmValue) -> Seq<
    (String, JvmValue),
> {
    match slot_of(fields, name@) {
        Some(i) => fields.update(i, (fields[i].0, value)),
        None => fields.push((name, value)),
    }
}

/// The value that a field with this type descriptor and these access flags
/// holds before anything is stored in it: zero of its type for a primitive,
/// the null reference for a class or an array. `None` for what is no type
/// descriptor.
pub open spec fn descriptor_default(d: Seq<u8>, access: u16) -> Option<JvmValue> {
    if type_fault(d, 0) is Some {
        None
    } else if primitive_of(d[0]) is Some {
        Some(JvmValue::Primitive(primitive_of(d[0]).unwrap(), 0, access))
    } else {
        Some(JvmValue::Reference(JvmReferenceType::Null, JvmReferenceTargetType::Null, access))
    }
}

/// The name and first value of field `i` of `class`, for an object whose
/// class is called `class_name`.
pub open spec fn field_default(class: &Class, class_name: String, i: int) -> Result<
    (String, JvmValue),
    FatalErrorType,
> {
    let field = class.fields@[i];
    let cp = &class.constant_pool;
    match cp.text(field.descriptor_index as int) {
        None => Err(
            FatalErrorType::InvalidConstantReference(class_name, "Utf8", field.descriptor_index),
        ),
        Some(descriptor) => match descriptor_default(
            encode_utf8(descriptor@),
            field.access_flags,
        ) {
            None => Err(
                FatalErrorType::InvalidFieldType(
                    type_fault(encode_utf8(descriptor@), 0).unwrap(),
                ),
            ),
            Some(value) => match cp.text(field.name_index as int) {
                None => Err(
                    FatalErrorType::InvalidConstantReference(
                        class_name,
                        "Utf8",
                        field.name_index,
                    ),
                ),
                Some(name) => Ok((name, value)),
            },
        },
    }
}

/// The field table `fields` after the first `n` fields of `class` were
/// given their first values, in order; the first error met, if any.
pub open spec fn with_defaults(
    class: &Class,
    class_name: String,
    fields: Seq<(String, JvmValue)>,
    n: nat,
) -> Result<Seq<(String, JvmValue)>, FatalErrorType>
    decreases n,
{
    if n == 0 {
        Ok(fields)
    } else {
        match with_defaults(class, class_name, fields, (n - 1) as nat) {
            Err(e) => Err(e),
            Ok(sofar) => match field_default(class, class_name, n - 1) {
                Err(e) => Err(e),
                Ok((name, value)) => Ok(stored(sofar, name, value)),
            },
        }
    }
}

/// The number of superclass parts of an object.
pub open spec fn parts(o: ObjectView) -> nat
    decreases o,
{
    match o.spr {
        Some(parent) => 1 + parts(*parent),
        None => 0,
    }
}

/// The value that an object holds for the field `name`: that of its own
/// field table where the table has the field, else that of the nearest
/// superclass part that has it.
pub open spec fn field_value(o: ObjectView, name: Seq<char>) -> Option<JvmValue>
    decreases o,
{
    match value_of(o.fields, name) {
        Some(value) => Some(value),
        None => match o.spr {
            Some(parent) => field_value(*parent, name),
            None => None,
        },
    }
}

/// The object after `value` is stored under the name of a field that the
/// object, or one of its superclass parts, holds: the value goes where the
/// field is, in the object's own table or else in the nearest superclass
/// part that has it.
pub open spec fn with_field_value(o: ObjectView, name: String, value: JvmValue) -> ObjectView
    decreases o,
{
    if slot_of(o.fields, name@) is Some {
        ObjectView { fields: stored(o.fields, name, value), ..o }
    } else {
        match o.spr {
            Some(parent) => ObjectView {
                spr: Some(Box::new(with_field_value(*parent, name, value))),
                ..o
            },
            None => o,
        }
    }
}

/// The object after a `putfield`: the value goes where the field is; an
/// object that does not have the field gets it in its own table.
pub open spec fn assigned(o: ObjectView, name: String, value: JvmValue) -> ObjectView {
    if field_value(o, name@) is Some {
        with_field_value(o, name, value)
    } else {
        ObjectView { fields: stored(o.fields, name, value), ..o }
    }
}

/// The names of the classes of an object and of its superclass parts, from
/// the object's own class upwards, separated by a comma and a blank.
pub open spec fn hierarchy_text(o: ObjectView) -> Seq<char>
    decreases o,
{
    match o.spr {
        Some(s) => o.class_name@ + ", "@ + hierarchy_text(*s),
        None => o.class_name@,
    }
}

/// Whether an object, or one of its superclass parts, is of the class `name`.
pub open spec fn has_type(o: ObjectView, name: Seq<char>) -> bool
    decreases o,
{
    o.class_name@ == name || match o.spr {
        Some(s) => has_type(*s, name),
        None => false,
    }
}

fn slot_index(fields: &Vec<(String, JvmValue)>, name: &String) -> (r: Option<usize>)
    ensures
        match r {
            Some(i) => slot_of(fields@, name@) == Some(i as int) && i < fields@.len(),
            None => slot_of(fields@, name@) is None,
        },
{
    let mut i: usize = 0;
    while i < fields.len()
        invariant
            first_index(fields@, field_called(name@), 0) == first_index(
                fields@,
                field_called(name@),
                i as int,
            ),
        decreases fields.len() - i,
    {
        if fields[i].0 == *name {
            return Some(i);
        }
        i = i + 1;
    }
    None
}

fn store_field(fields: &mut Vec<(String, JvmValue)>, name: &String, value: JvmValue)
    ensures
        final(fields)@ == stored(old(fields)@, *name, value),
{
    match slot_index(fields, name) {
        Some(i) => {
            let key = fields[i].0.clone();
            fields[i] = (key, value);
        },
        None => {
            fields.push((name.clone(), value));
        },
    }
}

impl JvmObject {
    /// A new object of the class with handle `class` and name `class_name`,
    /// without fields and without a superclass part.
    pub fn new(class: usize, class_name: String, debug_level: DebugLevel) -> (r: Self)
        ensures
            r@ == (ObjectView {
                spr: None,
                class,
                class_name,
                fields: Seq::<(String, JvmValue)>::empty(),
            }),
    {
        JvmObject { spr: None, class, class_name, fields: Vec::new(), debug_level }
    }

    /// The handle of the object's class.
    pub fn get_class(&self) -> (r: usize)
        ensures
            r == self@.class,
    {
        self.class
    }

    /// The name of the object's class.
    pub fn class_name(&self) -> (r: &String)
        ensures
            *r == self@.class_name,
    {
        &self.class_name
    }

    /// Stores `value` under `field_name` in the object's own field table.
    pub fn set_field(&mut self, field_name: &String, value: JvmValue)
        ensures
            final(self)@ == (ObjectView {
                fields: stored(old(self)@.fields, *field_name, value),
                ..old(self)@
            }),
    {
        store_field(&mut self.fields, field_name, value);
    }

    /// The value that the object's own field table holds for `field_name`.
    pub fn get_field(&self, field_name: &String) -> (r: Option<JvmValue>)
        ensures
            r == value_of(self@.fields, field_name@),
    {
        match slot_index(&self.fields, field_name) {
            Some(i) => Some(self.fields[i].1.clone()),
            None => None,
        }
    }

    /// The value that the object holds for the field `field_name`, in its
    /// own table or in a superclass part.
    pub fn find_field(&self, field_name: &String) -> (r: Option<JvmValue>)
        ensures
            r == field_value(self@, field_name@),
        decreases self,
    {
        match slot_index(&self.fields, field_name) {
            Some(i) => Some(self.fields[i].1.clone()),
            None => match &self.spr {
                Some(parent) => parent.find_field(field_name),
                None => None,
            },
        }
    }

    fn store_where_held(&mut self, field_name: &String, value: JvmValue)
        ensures
            final(self)@ == with_field_value(old(self)@, *field_name, value),
        decreases parts(old(self)@),
    {
        if slot_index(&self.fields, field_name).is_some() {
            store_field(&mut self.fields, field_name, value);
        } else {
            match &mut self.spr {
                Some(parent) => {
                    parent.store_where_held(field_name, value);
                },
                None => {},
            }
        }
    }

    /// Stores `value` in the field `field_name`: where the object or one
    /// of its superclass parts holds the field, the value goes there; an
    /// object that does not have the field gets it in its own table.
    pub fn assign_field(&mut self, field_name: &String, value: JvmValue)
        ensures
            final(self)@ == assigned(old(self)@, *field_name, value),
    {
        if self.find_field(field_name).is_some() {
            self.store_where_held(field_name, value);
        } else {
            store_field(&mut self.fields, field_name, value);
        }
    }

    /// Makes `parent` the superclass part of this object.
    pub fn set_super(&mut self, parent: JvmObject)
        ensures
            final(self)@ == (ObjectView { spr: Some(Box::new(parent@)), ..old(self)@ }),
    {
        self.spr = Some(Box::new(parent));
    }

    /// The names of the classes of the object and of its superclass parts.
    pub fn hierarchy(&self) -> (r: String)
        ensures
            r@ == hierarchy_text(self@),
        decreases self,
    {
        let mut result = self.class_name.clone();
        match &self.spr {
            Some(parent) => {
                result.append(", ");
                let rest = parent.hierarchy();
                result.append(rest.as_str());
                assert(result@ =~= hierarchy_text(self@));
            },
            None => {},
        }
        result
    }

    /// Whether the object, or one of its superclass parts, is of the class
    /// `wanted`.
    pub fn is_type_of(&self, wanted: &String) -> (r: bool)
        ensures
            r == has_type(self@, wanted@),
        decreases self,
    {
        if self.class_name == *wanted {
            true
        } else {
            match &self.spr {
                Some(parent) => parent.is_type_of(wanted),
                None => false,
            }
        }
    }

    /// Gives every field that `class` declares its first value: zero of its
    /// type for a primitive, the null reference otherwise, each with the
    /// field's access flags.
    ///
    /// Fails, and leaves the object as it was, on the first field whose name
    /// or descriptor is no text of the constant pool, or whose descriptor is
    /// no type descriptor.
    pub fn instantiate(&mut self, class: &Class) -> (r: Result<(), FatalErrorType>)
        ensures
            match with_defaults(
                class,
                old(self)@.class_name,
                old(self)@.fields,
                class.fields@.len(),
            ) {
                Ok(fields) => r is Ok && final(self)@ == (ObjectView { fields, ..old(self)@ }),
                Err(e) => r == Err::<(), FatalErrorType>(e) && final(self)@ == old(self)@,
            },
    {
        let fields = class.get_fields_ref();
        let cp = class.get_constant_pool_ref();
        let count: usize = fields.fields_count() as usize;
        let mut table: Vec<(String, JvmValue)> = Vec::new();
        let mut k: usize = 0;
        while k < self.fields.len()
            invariant
                k <= self.fields@.len(),
                table@ == self.fields@.subrange(0, k as int),
            decreases self.fields@.len() - k,
        {
            table.push((self.fields[k].0.clone(), self.fields[k].1.clone()));
            k = k + 1;
            assert(table@ =~= self.fields@.subrange(0, k as int));
        }
        assert(table@ =~= self.fields@);
        let mut i: usize = 0;
        while i < count
            invariant
                i <= count,
                count == class.fields@.len(),
                *fields == class.fields,
                *cp == class.constant_pool,
                with_defaults(class, self.class_name, self.fields@, i as nat) == Ok::<
                    Seq<(String, JvmValue)>,
                    FatalErrorType,
                >(table@),
            decreases count - i,
        {
            let field = fields.get(i);
            let value = match cp.utf8(field.descriptor_index as usize) {
                Some(descriptor) => {
                    let d = descriptor.as_str().as_bytes();
                    match JvmType::from(d) {
                        Ok(t) => {
                            proof {
                                lemma_default_of_described(t, d@, field.access_flags);
                            }
                            t.initial_value(field.access_flags)
                        },
                        Err(e) => {
                            proof {
                                lemma_with_defaults_error(
                                    class,
                                    self.class_name,
                                    self.fields@,
                                    (i + 1) as nat,
                                    count as nat,
                                );
                            }
                            return Err(e);
                        },
                    }
                },
                None => {
                    proof {
                        lemma_with_defaults_error(
                            class,
                            self.class_name,
                            self.fields@,
                            (i + 1) as nat,
                            count as nat,
                        );
                    }
                    return Err(
                        FatalErrorType::InvalidConstantReference(
                            self.class_name.clone(),
                            "Utf8",
                            field.descriptor_index,
                        ),
                    );
                },
            };
            match cp.utf8(field.name_index as usize) {
                Some(name) => {
                    store_field(&mut table, name, value);
                },
                None => {
                    proof {
                        lemma_with_defaults_error(
                            class,
                            self.class_name,
                            self.fields@,
                            (i + 1) as nat,
                            count as nat,
                        );
                    }
                    return Err(
                        FatalErrorType::InvalidConstantReference(
                            self.class_name.clone(),
                            "Utf8",
                            field.name_index,
                        ),
                    );
                },
            }
            i = i + 1;
        }
        self.fields = table;
        Ok(())
    }
}

/// A type that a descriptor names has the first value that the descriptor
/// promises.
pub proof fn lemma_default_of_described(t: JvmType, d: Seq<u8>, access: u16)
    requires
        type_fault(d, 0) is None,
        describes(t, d, 0),
    ensures
        descriptor_default(d, access) == Some(t.default_value(access)),
{
}

/// An error met while the fields get their first values is the result,
/// however many fields follow.
pub proof fn lemma_with_defaults_error(
    class: &Class,
    class_name: String,
    fields: Seq<(String, JvmValue)>,
    i: nat,
    n: nat,
)
    requires
        with_defaults(class, class_name, fields, i) is Err,
        i <= n,
    ensures
        with_defaults(class, class_name, fields, n) == with_defaults(class, class_name, fields, i),
    decreases n,
{
    if i < n {
        lemma_with_defaults_error(class, class_name, fields, i, (n - 1) as nat);
    }
}

/// A field table holds, for a name, the value that was stored under it
/// last.
pub proof fn lemma_stored_holds(fields: Seq<(String, JvmValue)>, name: String, value: JvmValue)
    ensures
        value_of(stored(fields, name, value), name@) == Some(value),
{
    let p = field_called(name@);
    let after = stored(fields, name, value);
    crate::search::lemma_first_index(fields, p, 0);
    match slot_of(fields, name@) {
        Some(i) => {
            assert(p(after[i]));
            assert forall|j: int| 0 <= j < i implies !p(after[j]) by {
                assert(after[j] == fields[j]);
            }
            crate::search::lemma_first_index_is(after, p, 0, i);
        },
        None => {
            let i = fields.len() as int;
            assert(p(after[i]));
            assert forall|j: int| 0 <= j < i implies !p(after[j]) by {
                assert(after[j] == fields[j]);
            }
            crate::search::lemma_first_index_is(after, p, 0, i);
        },
    }
}

/// Storing a value under one name leaves what a field table holds for
/// every other name.
pub proof fn lemma_stored_keeps(
    fields: Seq<(String, JvmValue)>,
    name: String,
    value: JvmValue,
    other: Seq<char>,
)
    requires
        other != name@,
    ensures
        value_of(stored(fields, name, value), other) == value_of(fields, other),
{
    let q = field_called(other);
    let after = stored(fields, name, value);
    crate::search::lemma_first_index(fields, field_called(name@), 0);
    crate::search::lemma_first_index(fields, q, 0);
    assert forall|j: int| 0 <= j < fields.len() implies q(after[j]) == q(fields[j]) by {}
    match first_index(fields, q, 0) {
        Some(i) => {
            assert(q(after[i]));
            assert forall|j: int| 0 <= j < i implies !q(after[j]) by {
                assert(q(after[j]) == q(fields[j]));
            }
            crate::search::lemma_first_index_is(after, q, 0, i);
            assert(after[i].1 == fields[i].1);
        },
        None => {
            crate::search::lemma_first_index(after, q, 0);
            if first_index(after, q, 0) is Some {
                let k = first_index(after, q, 0).unwrap();
                if k < fields.len() {
                    assert(q(after[k]) == q(fields[k]));
                }
            }
        },
    }
}

/// After the fields of a class got their first values, the field table
/// holds, under the name of each field, the first value of the last field
/// of that name: zero or the null reference, by the field's type, with the
/// field's access flags.
pub proof fn lemma_defaults_are_held(
    class: &Class,
    class_name: String,
    fields: Seq<(String, JvmValue)>,
    n: nat,
    i: int,
)
    requires
        0 <= i < n,
        with_defaults(class, class_name, fields, n) is Ok,
        forall|j: int|
            i < j < n ==> (#[trigger] field_default(class, class_name, j))->Ok_0.0@
                != field_default(class, class_name, i)->Ok_0.0@,
    ensures
        field_default(class, class_name, i) is Ok,
        value_of(
            with_defaults(class, class_name, fields, n)->Ok_0,
            field_default(class, class_name, i)->Ok_0.0@,
        ) == Some(field_default(class, class_name, i)->Ok_0.1),
    decreases n,
{
    let before = with_defaults(class, class_name, fields, (n - 1) as nat)->Ok_0;
    let last = field_default(class, class_name, n - 1)->Ok_0;
    if i == n - 1 {
        lemma_stored_holds(before, last.0, last.1);
    } else {
        lemma_defaults_are_held(class, class_name, fields, (n - 1) as nat, i);
        assert(field_default(class, class_name, n - 1)->Ok_0.0@ != field_default(
            class,
            class_name,
            i,
        )->Ok_0.0@);
        lemma_stored_keeps(before, last.0, last.1, field_default(class, class_name, i)->Ok_0.0@);
    }
}

/// A value that was assigned to a field of an object is the value that
/// the object holds for the field afterwards.
pub proof fn lemma_assigned_is_held(o: ObjectView, name: String, value: JvmValue)
    ensures
        field_value(assigned(o, name, value), name@) == Some(value),
{
    if field_value(o, name@) is Some {
        lemma_with_field_value_is_held(o, name, value);
    } else {
        lemma_stored_holds(o.fields, name, value);
    }
}

/// A value that was stored where an object holds a field is the value that
/// the object holds for the field afterwards.
pub proof fn lemma_with_field_value_is_held(o: ObjectView, name: String, value: JvmValue)
    requires
        field_value(o, name@) is Some,
    ensures
        field_value(with_field_value(o, name, value), name@) == Some(value),
    decreases o,
{
    if slot_of(o.fields, name@) is Some {
        lemma_stored_holds(o.fields, name, value);
    } else {
        match o.spr {
            Some(parent) => {
                lemma_with_field_value_is_held(*parent, name, value);
            },
            None => {},
        }
    }
}

} // verus!
