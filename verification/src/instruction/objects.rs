use crate::class::Class;
use crate::constant::Constant;
use crate::debug::DebugLevel;
use crate::error::FatalErrorType;
use crate::frame::{Frame, FrameView};
use crate::heap::{Heap, HeapView};
use crate::instruction::arrays::{done, stopped, HeapEffect};
use crate::instruction::fields::{is_ready, ready};
use crate::instruction::OpcodeResult;
use crate::methodarea::{AreaView, LoadedClass, LoadedClassView, MethodArea};
use crate::object::{with_defaults, JvmObject, ObjectView};
use crate::typevalues::{
    float_value, int_value, JvmPrimitiveType, JvmReferenceTargetType, JvmReferenceType, JvmValue,
};
use vstd::prelude::*;

verus! {

/// The classes that an object of some class is made of.
pub enum Lineage {
    /// The handles of the class and of its superclasses, the class first.
    /// The root class `java/lang/Object` is left out.
    Ready(Seq<usize>),
    /// A superclass, of this name, is not loaded.
    Missing(String),
    /// The class with this handle is not initialized.
    Unready(usize),
    /// The superclass chain does not end.
    Endless,
}

/// The executable form of `Lineage`.
pub enum Ancestors {
    Ready(Vec<usize>),
    Missing(String),
    Unready(usize),
    Endless,
}

impl View for Ancestors {
    type V = Lineage;

    open spec fn view(&self) -> Lineage {
        match self {
            Ancestors::Ready(chain) => Lineage::Ready(chain@),
            Ancestors::Missing(name) => Lineage::Missing(*name),
            Ancestors::Unready(id) => Lineage::Unready(*id),
            Ancestors::Endless => Lineage::Endless,
        }
    }
}

/// Whether a class of this name is the root class, of which no part is
/// made when an object is made.
pub open spec fn is_root(name: Seq<char>) -> bool {
    name == "java/lang/Object"@
}

/// The classes that an object of the class `id` is made of, found by
/// walking up through at most `fuel` classes. Every class on the way must
/// be loaded, and initialized or under initialization by the thread at
/// hand; the walk stops at the first that is not.
pub open spec fn lineage(area: AreaView, id: usize, initializing: Seq<String>, fuel: nat) -> Lineage
    decreases fuel,
{
    if fuel == 0 {
        Lineage::Endless
    } else if !ready(area, id as int, initializing) {
        Lineage::Unready(id)
    } else {
        match area.classes[id as int].class.superclass() {
            None => Lineage::Ready(seq![id]),
            Some(parent) => if is_root(parent@) {
                Lineage::Ready(seq![id])
            } else {
                match area.class_id(parent@) {
                    None => Lineage::Missing(parent),
                    Some(p) => match lineage(area, p as usize, initializing, (fuel - 1) as nat) {
                        Lineage::Ready(rest) => Lineage::Ready(seq![id] + rest),
                        other => other,
                    },
                }
            },
        }
    }
}

pub fn find_lineage(area: &MethodArea, id: usize, initializing: &Vec<String>, fuel: usize) -> (r:
    Ancestors)
    ensures
        r@ == lineage(area@, id, initializing@, fuel as nat),
    decreases fuel,
{
    if fuel == 0 {
        return Ancestors::Endless;
    }
    if !is_ready(area, id, initializing) {
        return Ancestors::Unready(id);
    }
    let class = &area.loaded(id).unwrap().class;
    match class.resolve_superclass() {
        None => {
            let mut chain: Vec<usize> = Vec::new();
            chain.push(id);
            assert(chain@ =~= seq![id]);
            Ancestors::Ready(chain)
        },
        Some(parent) => {
            let root = String::from_str("java/lang/Object");
            if parent == root {
                let mut chain: Vec<usize> = Vec::new();
                chain.push(id);
                assert(chain@ =~= seq![id]);
                Ancestors::Ready(chain)
            } else {
                match area.class_id(&parent) {
                    None => Ancestors::Missing(parent),
                    Some(p) => match find_lineage(area, p, initializing, fuel - 1) {
                        Ancestors::Ready(mut rest) => {
                            let ghost before = rest@;
                            rest.insert(0, id);
                            assert(rest@ =~= seq![id] + before);
                            Ancestors::Ready(rest)
                        },
                        other => other,
                    },
                }
            }
        },
    }
}

/// The object that is made of the classes `chain[k..]`: its class is
/// `chain[k]`, its fields are those that this class declares, with their
/// first values, and its superclass part is made of the rest of the chain.
/// Where a field cannot be given its first value, no object is made.
pub open spec fn assembled(area: AreaView, chain: Seq<usize>, k: int) -> Result<
    ObjectView,
    FatalErrorType,
>
    decreases chain.len() - k,
{
    if k < 0 || k >= chain.len() || chain[k] >= area.classes.len() {
        Err(FatalErrorType::ClassNoName)
    } else {
        let entry = area.classes[chain[k] as int];
        match with_defaults(
            &entry.class,
            entry.name,
            Seq::<(String, JvmValue)>::empty(),
            entry.class.fields@.len(),
        ) {
            Err(e) => Err(e),
            Ok(fields) => if k + 1 == chain.len() {
                Ok(ObjectView { spr: None, class: chain[k], class_name: entry.name, fields })
            } else {
                match assembled(area, chain, k + 1) {
                    Err(e) => Err(e),
                    Ok(parent) => Ok(
                        ObjectView {
                            spr: Some(Box::new(parent)),
                            class: chain[k],
                            class_name: entry.name,
                            fields,
                        },
                    ),
                }
            },
        }
    }
}

pub fn assemble(area: &MethodArea, chain: &Vec<usize>, k: usize, debug_level: DebugLevel) -> (r:
    Result<JvmObject, FatalErrorType>)
    ensures
        match assembled(area@, chain@, k as int) {
            Ok(object) => r matches Ok(o) && o@ == object,
            Err(e) => r matches Err(f) && f == e,
        },
    decreases chain@.len() - k,
{
    if k >= chain.len() {
        return Err(FatalErrorType::ClassNoName);
    }
    let entry = match area.loaded(chain[k]) {
        Some(entry) => entry,
        None => {
            return Err(FatalErrorType::ClassNoName);
        },
    };
    let mut object = JvmObject::new(chain[k], entry.name.clone(), debug_level);
    match object.instantiate(&entry.class) {
        Err(e) => Err(e),
        Ok(()) => {
            if k + 1 == chain.len() {
                Ok(object)
            } else {
                match assemble(area, chain, k + 1, debug_level) {
                    Err(e) => Err(e),
                    Ok(parent) => {
                        object.set_super(parent);
                        Ok(object)
                    },
                }
            }
        },
    }
}

/// `new`: pushes a reference to a new object of the class that slot
/// `index` names. The object's fields have their first values, and so have
/// those of its superclass parts. The class and its superclasses must be
/// loaded and initialized first; where one is not, the instruction stops
/// to have that done.
pub open spec fn new_object(
    frame: FrameView,
    area: AreaView,
    heap: HeapView,
    current: LoadedClassView,
    index: u16,
    initializing: Seq<String>,
) -> HeapEffect {
    let cp = &current.class.constant_pool;
    if !(index < cp@.len() && cp@[index as int] is Class) {
        stopped(
            OpcodeResult::Fatal(
                FatalErrorType::InvalidConstantReference(current.name, "Classref", index),
            ),
            frame,
            heap,
        )
    } else {
        match cp.class_name(index as int) {
            None => stopped(
                OpcodeResult::Fatal(
                    FatalErrorType::InvalidConstantReference(current.name, "Utf8", index),
                ),
                frame,
                heap,
            ),
            Some(name) => match area.class_id(name@) {
                None => stopped(OpcodeResult::Load(name), frame, heap),
                Some(id) => match lineage(area, id as usize, initializing, area.classes.len()) {
                    Lineage::Missing(parent) => stopped(OpcodeResult::Load(parent), frame, heap),
                    Lineage::Unready(class) => stopped(
                        OpcodeResult::Initialize(class),
                        frame,
                        heap,
                    ),
                    Lineage::Endless => stopped(
                        OpcodeResult::Fatal(FatalErrorType::ClassResolutionFailed(name)),
                        frame,
                        heap,
                    ),
                    Lineage::Ready(chain) => match assembled(area, chain, 0) {
                        Err(e) => stopped(OpcodeResult::Fatal(e), frame, heap),
                        Ok(object) => done(
                            3,
                            frame.operand_stack.push(
                                JvmValue::Reference(
                                    JvmReferenceType::Class(name),
                                    JvmReferenceTargetType::Object(heap.objects.len() as usize),
                                    0,
                                ),
                            ),
                            frame,
                            heap.with_object(object),
                        ),
                    },
                },
            },
        }
    }
}

pub fn execute_new(
    index: u16,
    area: &MethodArea,
    heap: &mut Heap,
    current: &LoadedClass,
    initializing: &Vec<String>,
    debug_level: DebugLevel,
    frame: &mut Frame,
) -> (r: OpcodeResult)
    ensures
        (HeapEffect { result: r, frame: final(frame)@, heap: final(heap)@ }) == new_object(
            old(frame)@,
            area@,
            old(heap)@,
            current@,
            index,
            initializing@,
        ),
{
    let cp = current.class.get_constant_pool_ref();
    let is_class = if (index as usize) < cp.constant_pool_count() as usize {
        match cp.get_constant_ref(index as usize) {
            Constant::Class(_, _) => true,
            _ => false,
        }
    } else {
        false
    };
    if !is_class {
        return OpcodeResult::Fatal(
            FatalErrorType::InvalidConstantReference(current.name.clone(), "Classref", index),
        );
    }
    match cp.class_name_at(index as usize) {
        None => OpcodeResult::Fatal(
            FatalErrorType::InvalidConstantReference(current.name.clone(), "Utf8", index),
        ),
        Some(name) => match area.class_id(name) {
            None => OpcodeResult::Load(name.clone()),
            Some(id) => match find_lineage(area, id, initializing, area.class_count()) {
                Ancestors::Missing(parent) => OpcodeResult::Load(parent),
                Ancestors::Unready(class) => OpcodeResult::Initialize(class),
                Ancestors::Endless => OpcodeResult::Fatal(
                    FatalErrorType::ClassResolutionFailed(name.clone()),
                ),
                Ancestors::Ready(chain) => match assemble(area, &chain, 0, debug_level) {
                    Err(e) => OpcodeResult::Fatal(e),
                    Ok(object) => {
                        let handle = heap.allocate_object(object);
                        frame.operand_stack.push(
                            JvmValue::Reference(
                                JvmReferenceType::Class(name.clone()),
                                JvmReferenceTargetType::Object(handle),
                                0,
                            ),
                        );
                        OpcodeResult::Incr(3)
                    },
                },
            },
        },
    }
}

/// `ldc`: pushes the constant in slot `index`: an integer, a float, or for
/// a string constant a reference to a new object of the class
/// `java/lang/String`, which must be loaded.
pub open spec fn ldc(
    frame: FrameView,
    area: AreaView,
    heap: HeapView,
    current: LoadedClassView,
    index: u8,
) -> HeapEffect {
    let cp = &current.class.constant_pool;
    if index >= cp@.len() {
        stopped(
            OpcodeResult::Fatal(
                FatalErrorType::InvalidConstantReference(current.name, "constant", index as u16),
            ),
            frame,
            heap,
        )
    } else {
        match cp@[index as int] {
            Constant::Integer(_, value) => done(
                2,
                frame.operand_stack.push(int_value(value)),
                frame,
                heap,
            ),
            Constant::Float(_, value) => done(
                2,
                frame.operand_stack.push(float_value(value)),
                frame,
                heap,
            ),
            Constant::String(_, _) => match area.class_id("java/lang/String"@) {
                Some(id) => done(
                    2,
                    frame.operand_stack.push(
                        JvmValue::Reference(
                            JvmReferenceType::Class(area.classes[id].name),
                            JvmReferenceTargetType::Object(heap.objects.len() as usize),
                            0,
                        ),
                    ),
                    frame,
                    heap.with_object(
                        ObjectView {
                            spr: None,
                            class: id as usize,
                            class_name: area.classes[id].name,
                            fields: Seq::empty(),
                        },
                    ),
                ),
                None => stopped(
                    OpcodeResult::Fatal(
                        FatalErrorType::NotImplemented(
                            "string constants while java/lang/String is not loaded",
                        ),
                    ),
                    frame,
                    heap,
                ),
            },
            _ => stopped(
                OpcodeResult::Fatal(
                    FatalErrorType::NotImplemented(
                        "execute_ldc (class, method type or method handle.)",
                    ),
                ),
                frame,
                heap,
            ),
        }
    }
}

pub fn execute_ldc(
    index: u8,
    area: &MethodArea,
    heap: &mut Heap,
    current: &LoadedClass,
    debug_level: DebugLevel,
    frame: &mut Frame,
) -> (r: OpcodeResult)
    ensures
        (HeapEffect { result: r, frame: final(frame)@, heap: final(heap)@ }) == ldc(
            old(frame)@,
            area@,
            old(heap)@,
            current@,
            index,
        ),
{
    let cp = current.class.get_constant_pool_ref();
    if index as usize >= cp.constant_pool_count() as usize {
        return OpcodeResult::Fatal(
            FatalErrorType::InvalidConstantReference(
                current.name.clone(),
                "constant",
                index as u16,
            ),
        );
    }
    match cp.get_constant_ref(index as usize) {
        Constant::Integer(_, value) => {
            frame.operand_stack.push(
                JvmValue::Primitive(JvmPrimitiveType::Integer, *value as u64, 0),
            );
            OpcodeResult::Incr(2)
        },
        Constant::Float(_, value) => {
            frame.operand_stack.push(JvmValue::Primitive(JvmPrimitiveType::Float, *value as u64, 0));
            OpcodeResult::Incr(2)
        },
        Constant::String(_, _) => {
            let string_class = String::from_str("java/lang/String");
            match area.class_id(&string_class) {
                Some(id) => {
                    let entry = area.loaded(id).unwrap();
                    let object = JvmObject::new(id, entry.name.clone(), debug_level);
                    let handle = heap.allocate_object(object);
                    frame.operand_stack.push(
                        JvmValue::Reference(
                            JvmReferenceType::Class(entry.name.clone()),
                            JvmReferenceTargetType::Object(handle),
                            0,
                        ),
                    );
                    OpcodeResult::Incr(2)
                },
                None => OpcodeResult::Fatal(
                    FatalErrorType::NotImplemented(
                        "string constants while java/lang/String is not loaded",
                    ),
                ),
            }
        },
        _ => OpcodeResult::Fatal(
            FatalErrorType::NotImplemented("execute_ldc (class, method type or method handle.)"),
        ),
    }
}

} // verus!
