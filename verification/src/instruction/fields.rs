use crate::error::{ExceptionKind, FatalErrorType};
use crate::frame::{Frame, FrameView};
use crate::heap::{Heap, HeapView};
use crate::instruction::arrays::{done, stopped, HeapEffect};
use crate::instruction::{below, drop_top, peek, OpcodeResult};
use crate::methodarea::{
    init_decision, lemma_field_lookup_deterministic, lemma_same_hierarchy_same_id, same_hierarchy,
    Ancestry, AreaView, InitDecision, LoadedClass, LoadedClassView, Lookup, MethodArea,
};
use crate::object::field_value;
use crate::search::first_index;
use crate::typevalues::{JvmReferenceTargetType, JvmValue};
use vstd::prelude::*;

verus! {

/// The test that a lookup by name applies to each name of a list.
pub open spec fn called(name: Seq<char>) -> spec_fn(String) -> bool {
    |s: String| s@ == name
}

/// Whether the thread whose classes under initialization are `initializing`
/// is initializing the class `name`.
pub open spec fn owns(initializing: Seq<String>, name: Seq<char>) -> bool {
    first_index(initializing, called(name), 0) is Some
}

pub fn is_owner(initializing: &Vec<String>, name: &String) -> (r: bool)
    ensures
        r == owns(initializing@, name@),
{
    let mut i: usize = 0;
    while i < initializing.len()
        invariant
            first_index(initializing@, called(name@), 0) == first_index(
                initializing@,
                called(name@),
                i as int,
            ),
        decreases initializing.len() - i,
    {
        if initializing[i] == *name {
            return true;
        }
        i = i + 1;
    }
    false
}

/// Whether the class `id` can be used by the thread whose classes under
/// initialization are `initializing`: it is initialized, or that thread is
/// initializing it.
pub open spec fn ready(area: AreaView, id: int, initializing: Seq<String>) -> bool {
    0 <= id < area.classes.len() && init_decision(
        area.classes[id].lc,
        owns(initializing, area.classes[id].name@),
    ) == InitDecision::Proceed
}

pub fn is_ready(area: &MethodArea, id: usize, initializing: &Vec<String>) -> (r: bool)
    ensures
        r == ready(area@, id as int, initializing@),
{
    match area.loaded(id) {
        Some(l) => match l.lc {
            crate::class::ClassInitializationStatus::Initialized => true,
            crate::class::ClassInitializationStatus::BeingInitialized => is_owner(
                initializing,
                &l.name,
            ),
            _ => false,
        },
        None => false,
    }
}

/// Where a static field is kept.
pub enum StaticSlot {
    /// In the class with this handle, at this position.
    At(usize, usize),
    /// The instruction stops with this result.
    Stop(OpcodeResult),
}

/// Finds the static field that slot `index` of the constant pool of the
/// class `current` refers to. The class named there and its superclasses,
/// as far as the search goes, must be loaded, and the class that declares
/// the field must be initialized; where one is not, the instruction stops
/// to have that done.
pub open spec fn static_slot(
    area: AreaView,
    current: LoadedClassView,
    index: u16,
    initializing: Seq<String>,
) -> StaticSlot {
    match current.class.field_ref(index as int) {
        None => StaticSlot::Stop(
            OpcodeResult::Fatal(
                FatalErrorType::InvalidConstantReference(current.name, "FieldRef", index),
            ),
        ),
        Some((class_name, field_name, field_type)) => match area.class_id(class_name@) {
            None => StaticSlot::Stop(OpcodeResult::Load(class_name)),
            Some(id) => match area.find_field(id, field_name@, field_type@, area.classes.len()) {
                Lookup::Missing(parent) => StaticSlot::Stop(OpcodeResult::Load(parent)),
                Lookup::Absent => StaticSlot::Stop(
                    OpcodeResult::Fatal(FatalErrorType::FieldNotFound(field_name, class_name)),
                ),
                Lookup::Found(declaring, position) => if !ready(
                    area,
                    declaring as int,
                    initializing,
                ) {
                    StaticSlot::Stop(OpcodeResult::Initialize(declaring))
                } else if position >= area.classes[declaring as int].statics.len() {
                    StaticSlot::Stop(
                        OpcodeResult::Fatal(FatalErrorType::FieldNotFound(field_name, class_name)),
                    )
                } else {
                    StaticSlot::At(declaring, position)
                },
            },
        },
    }
}

pub fn find_static_slot(
    area: &MethodArea,
    current: &LoadedClass,
    index: u16,
    initializing: &Vec<String>,
) -> (r: StaticSlot)
    ensures
        r == static_slot(area@, current@, index, initializing@),
        r matches StaticSlot::At(id, position) ==> area@.has_class(id) && position
            < area@.classes[id as int].statics.len(),
{
    match current.class.resolve_field_ref(index as usize) {
        None => StaticSlot::Stop(
            OpcodeResult::Fatal(
                FatalErrorType::InvalidConstantReference(current.name.clone(), "FieldRef", index),
            ),
        ),
        Some((class_name, field_name, field_type)) => match area.class_id(&class_name) {
            None => StaticSlot::Stop(OpcodeResult::Load(class_name)),
            Some(id) => match area.resolve_field(id, &field_name, &field_type) {
                Lookup::Missing(parent) => StaticSlot::Stop(OpcodeResult::Load(parent)),
                Lookup::Absent => StaticSlot::Stop(
                    OpcodeResult::Fatal(FatalErrorType::FieldNotFound(field_name, class_name)),
                ),
                Lookup::Found(declaring, position) => {
                    if !is_ready(area, declaring, initializing) {
                        StaticSlot::Stop(OpcodeResult::Initialize(declaring))
                    } else {
                        let l = area.loaded(declaring).unwrap();
                        if position >= l.statics.len() {
                            StaticSlot::Stop(
                                OpcodeResult::Fatal(
                                    FatalErrorType::FieldNotFound(field_name, class_name),
                                ),
                            )
                        } else {
                            StaticSlot::At(declaring, position)
                        }
                    }
                },
            },
        },
    }
}

/// `getstatic`: pushes the value of the static field that slot `index`
/// refers to. A field that was never written has no value to push.
pub open spec fn getstatic(
    frame: FrameView,
    area: AreaView,
    current: LoadedClassView,
    index: u16,
    initializing: Seq<String>,
) -> (OpcodeResult, FrameView) {
    match static_slot(area, current, index, initializing) {
        StaticSlot::Stop(stop) => (stop, frame),
        StaticSlot::At(id, position) => match area.classes[id as int].statics[position as int] {
            Some(value) => (
                OpcodeResult::Incr(3),
                FrameView { operand_stack: frame.operand_stack.push(value), ..frame },
            ),
            None => {
                let names = current.class.field_ref(index as int).unwrap();
                (
                    OpcodeResult::Fatal(FatalErrorType::UninitializedField(names.1, names.0)),
                    frame,
                )
            },
        },
    }
}

pub fn execute_getstatic(
    index: u16,
    area: &MethodArea,
    current: &LoadedClass,
    initializing: &Vec<String>,
    frame: &mut Frame,
) -> (r: OpcodeResult)
    ensures
        (r, final(frame)@) == getstatic(old(frame)@, area@, current@, index, initializing@),
{
    match find_static_slot(area, current, index, initializing) {
        StaticSlot::Stop(stop) => stop,
        StaticSlot::At(id, position) => match area.get_static(id, position) {
            Some(value) => {
                frame.operand_stack.push(value);
                OpcodeResult::Incr(3)
            },
            None => {
                let names = current.class.resolve_field_ref(index as usize).unwrap();
                OpcodeResult::Fatal(FatalErrorType::UninitializedField(names.1, names.0))
            },
        },
    }
}

/// What an instruction that works on the operand stack and the method area
/// comes to.
pub struct AreaEffect {
    pub result: OpcodeResult,
    pub frame: FrameView,
    pub area: AreaView,
}

/// `putstatic`: the value on top is taken off and written to the static
/// field that slot `index` refers to.
pub open spec fn putstatic(
    frame: FrameView,
    area: AreaView,
    current: LoadedClassView,
    index: u16,
    initializing: Seq<String>,
) -> AreaEffect {
    match static_slot(area, current, index, initializing) {
        StaticSlot::Stop(stop) => AreaEffect { result: stop, frame, area },
        StaticSlot::At(id, position) => if frame.operand_stack.len() == 0 {
            AreaEffect {
                result: OpcodeResult::Fatal(FatalErrorType::RequiredStackValueNotFound("putstatic")),
                frame,
                area,
            }
        } else {
            AreaEffect {
                result: OpcodeResult::Incr(3),
                frame: FrameView { operand_stack: below(frame.operand_stack, 1), ..frame },
                area: area.with_static(id, position, peek(frame.operand_stack, 0)),
            }
        },
    }
}

pub fn execute_putstatic(
    index: u16,
    area: &mut MethodArea,
    current: usize,
    initializing: &Vec<String>,
    frame: &mut Frame,
) -> (r: OpcodeResult)
    requires
        old(area)@.has_class(current),
    ensures
        (AreaEffect { result: r, frame: final(frame)@, area: final(area)@ }) == putstatic(
            old(frame)@,
            old(area)@,
            old(area)@.classes[current as int],
            index,
            initializing@,
        ),
{
    let slot = find_static_slot(area, area.loaded(current).unwrap(), index, initializing);
    match slot {
        StaticSlot::Stop(stop) => stop,
        StaticSlot::At(id, position) => {
            let n = frame.operand_stack.len();
            if n == 0 {
                OpcodeResult::Fatal(FatalErrorType::RequiredStackValueNotFound("putstatic"))
            } else {
                let value = frame.operand_stack[n - 1].clone();
                drop_top(&mut frame.operand_stack, 1);
                area.put_static(id, position, value);
                OpcodeResult::Incr(3)
            }
        },
    }
}

/// Which object an instance-field instruction works on.
pub enum FieldTarget {
    /// The object with this handle; the field is called this.
    Of(usize, String),
    /// The instruction stops with this result.
    Stop(OpcodeResult),
}

/// Finds the object and the field of an instance-field instruction called
/// `what`: `objectref` must refer to an object of the heap whose class is
/// the class that slot `index` names, or a subclass of it.
pub open spec fn field_target(
    area: AreaView,
    heap: HeapView,
    current: LoadedClassView,
    index: u16,
    objectref: JvmValue,
    what: &'static str,
) -> FieldTarget {
    match current.class.field_ref(index as int) {
        None => FieldTarget::Stop(
            OpcodeResult::Fatal(
                FatalErrorType::InvalidConstantReference(current.name, "FieldRef", index),
            ),
        ),
        Some((class_name, field_name, field_type)) => match objectref {
            JvmValue::Reference(_, JvmReferenceTargetType::Object(handle), _) => if !heap.has_object(
                handle,
            ) {
                FieldTarget::Stop(OpcodeResult::Fatal(FatalErrorType::WrongType(what, "Reference")))
            } else {
                match area.ancestry(
                    heap.objects[handle as int].class as int,
                    class_name@,
                    area.classes.len(),
                ) {
                    Ancestry::Yes => FieldTarget::Of(handle, field_name),
                    Ancestry::No => FieldTarget::Stop(
                        OpcodeResult::Fatal(
                            FatalErrorType::WrongType(what, "object of the field's class"),
                        ),
                    ),
                    Ancestry::Missing(parent) => FieldTarget::Stop(OpcodeResult::Load(parent)),
                }
            },
            JvmValue::Reference(_, JvmReferenceTargetType::Null, _) => FieldTarget::Stop(
                OpcodeResult::Exception(ExceptionKind::NullPointer),
            ),
            _ => FieldTarget::Stop(
                OpcodeResult::Fatal(FatalErrorType::WrongType(what, "Reference")),
            ),
        },
    }
}

pub fn find_field_target(
    area: &MethodArea,
    heap: &Heap,
    current: &LoadedClass,
    index: u16,
    objectref: &JvmValue,
    what: &'static str,
) -> (r: FieldTarget)
    ensures
        r == field_target(area@, heap@, current@, index, *objectref, what),
        r matches FieldTarget::Of(handle, _) ==> heap@.has_object(handle),
{
    match current.class.resolve_field_ref(index as usize) {
        None => FieldTarget::Stop(
            OpcodeResult::Fatal(
                FatalErrorType::InvalidConstantReference(current.name.clone(), "FieldRef", index),
            ),
        ),
        Some((class_name, field_name, _field_type)) => match objectref {
            JvmValue::Reference(_, JvmReferenceTargetType::Object(handle), _) => match heap.object(
                *handle,
            ) {
                None => FieldTarget::Stop(
                    OpcodeResult::Fatal(FatalErrorType::WrongType(what, "Reference")),
                ),
                Some(object) => match area.is_type_of(object.get_class(), &class_name) {
                    Ancestry::Yes => FieldTarget::Of(*handle, field_name),
                    Ancestry::No => FieldTarget::Stop(
                        OpcodeResult::Fatal(
                            FatalErrorType::WrongType(what, "object of the field's class"),
                        ),
                    ),
                    Ancestry::Missing(parent) => FieldTarget::Stop(OpcodeResult::Load(parent)),
                },
            },
            JvmValue::Reference(_, JvmReferenceTargetType::Null, _) => FieldTarget::Stop(
                OpcodeResult::Exception(ExceptionKind::NullPointer),
            ),
            _ => FieldTarget::Stop(
                OpcodeResult::Fatal(FatalErrorType::WrongType(what, "Reference")),
            ),
        },
    }
}

/// `getfield`: the object reference on top gives way to the value that
/// the object, or the nearest of its superclass parts that has the field,
/// holds for the field that slot `index` refers to.
pub open spec fn getfield(
    frame: FrameView,
    area: AreaView,
    heap: HeapView,
    current: LoadedClassView,
    index: u16,
) -> (OpcodeResult, FrameView) {
    let stack = frame.operand_stack;
    if stack.len() == 0 {
        (OpcodeResult::Fatal(FatalErrorType::RequiredStackValueNotFound("getfield")), frame)
    } else {
        match field_target(area, heap, current, index, peek(stack, 0), "execute_getfield") {
            FieldTarget::Stop(stop) => (stop, frame),
            FieldTarget::Of(handle, name) => match field_value(
                heap.objects[handle as int],
                name@,
            ) {
                Some(value) => (
                    OpcodeResult::Incr(3),
                    FrameView { operand_stack: below(stack, 1).push(value), ..frame },
                ),
                None => (
                    OpcodeResult::Fatal(
                        FatalErrorType::FieldNotFound(
                            name,
                            current.class.field_ref(index as int).unwrap().0,
                        ),
                    ),
                    frame,
                ),
            },
        }
    }
}

pub fn execute_getfield(
    index: u16,
    area: &MethodArea,
    heap: &Heap,
    current: &LoadedClass,
    frame: &mut Frame,
) -> (r: OpcodeResult)
    ensures
        (r, final(frame)@) == getfield(old(frame)@, area@, heap@, current@, index),
{
    let n = frame.operand_stack.len();
    if n == 0 {
        return OpcodeResult::Fatal(FatalErrorType::RequiredStackValueNotFound("getfield"));
    }
    match find_field_target(
        area,
        heap,
        current,
        index,
        &frame.operand_stack[n - 1],
        "execute_getfield",
    ) {
        FieldTarget::Stop(stop) => stop,
        FieldTarget::Of(handle, name) => {
            let object = heap.object(handle).unwrap();
            match object.find_field(&name) {
                Some(value) => {
                    drop_top(&mut frame.operand_stack, 1);
                    frame.operand_stack.push(value);
                    OpcodeResult::Incr(3)
                },
                None => {
                    let names = current.class.resolve_field_ref(index as usize).unwrap();
                    OpcodeResult::Fatal(FatalErrorType::FieldNotFound(name, names.0))
                },
            }
        },
    }
}

/// `putfield`: the object reference and the value on top are taken off,
/// and the value is stored in the object under the name of the field that
/// slot `index` refers to: in the object or the superclass part that has
/// the field, or in the object itself where none has it.
pub open spec fn putfield(
    frame: FrameView,
    area: AreaView,
    heap: HeapView,
    current: LoadedClassView,
    index: u16,
) -> HeapEffect {
    let stack = frame.operand_stack;
    if stack.len() < 2 {
        stopped(
            OpcodeResult::Fatal(FatalErrorType::RequiredStackValueNotFound("putfield")),
            frame,
            heap,
        )
    } else {
        match field_target(area, heap, current, index, peek(stack, 1), "execute_putfield") {
            FieldTarget::Stop(stop) => stopped(stop, frame, heap),
            FieldTarget::Of(handle, name) => done(
                3,
                below(stack, 2),
                frame,
                heap.with_field(handle, name, peek(stack, 0)),
            ),
        }
    }
}

pub fn execute_putfield(
    index: u16,
    area: &MethodArea,
    heap: &mut Heap,
    current: &LoadedClass,
    frame: &mut Frame,
) -> (r: OpcodeResult)
    ensures
        (HeapEffect { result: r, frame: final(frame)@, heap: final(heap)@ }) == putfield(
            old(frame)@,
            area@,
            old(heap)@,
            current@,
            index,
        ),
{
    let n = frame.operand_stack.len();
    if n < 2 {
        return OpcodeResult::Fatal(FatalErrorType::RequiredStackValueNotFound("putfield"));
    }
    match find_field_target(
        area,
        heap,
        current,
        index,
        &frame.operand_stack[n - 2],
        "execute_putfield",
    ) {
        FieldTarget::Stop(stop) => stop,
        FieldTarget::Of(handle, name) => {
            let value = frame.operand_stack[n - 1].clone();
            heap.put_field(handle, &name, value);
            drop_top(&mut frame.operand_stack, 2);
            OpcodeResult::Incr(3)
        },
    }
}

/// Writing a static field changes neither which classes are loaded, nor
/// their names, nor how far they are initialized.
pub proof fn lemma_with_static_keeps_classes(area: AreaView, id: usize, field: usize, value: JvmValue)
    requires
        area.has_class(id),
        field < area.classes[id as int].statics.len(),
    ensures
        same_hierarchy(area, area.with_static(id, field, value)),
        forall|i: int|
            0 <= i < area.classes.len() ==> (#[trigger] area.with_static(
                id,
                field,
                value,
            ).classes[i]).lc == area.classes[i].lc,
        forall|i: int|
            0 <= i < area.classes.len() ==> (#[trigger] area.with_static(
                id,
                field,
                value,
            ).classes[i]).statics.len() == area.classes[i].statics.len(),
{
}

/// A value written by `putstatic` is the value that a `getstatic` of the
/// same field, executed next in the same activation, pushes: the operand
/// stack is then as it was before the `putstatic`.
pub proof fn lemma_putstatic_then_getstatic(
    frame: FrameView,
    area: AreaView,
    current: usize,
    index: u16,
    initializing: Seq<String>,
)
    requires
        area.has_class(current),
        putstatic(frame, area, area.entry(current), index, initializing).result
            == OpcodeResult::Incr(3),
    ensures
        ({
            let put = putstatic(frame, area, area.entry(current), index, initializing);
            let get = getstatic(put.frame, put.area, put.area.entry(current), index, initializing);
            &&& get.0 == OpcodeResult::Incr(3)
            &&& get.1.operand_stack == put.frame.operand_stack.push(peek(frame.operand_stack, 0))
            &&& get.1.operand_stack == frame.operand_stack
        }),
{
    let slot = static_slot(area, area.entry(current), index, initializing);
    let id = slot->At_0;
    let position = slot->At_1;
    let value = peek(frame.operand_stack, 0);
    let after = area.with_static(id, position, value);
    lemma_with_static_keeps_classes(area, id, position, value);
    let names = area.entry(current).class.field_ref(index as int).unwrap();
    lemma_same_hierarchy_same_id(area, after, names.0@, 0);
    let named = area.class_id(names.0@).unwrap();
    lemma_field_lookup_deterministic(area, after, named, names.1@, names.2@, area.classes.len());
    assert(after.classes[id as int].name == area.classes[id as int].name);
    assert(after.classes[id as int].lc == area.classes[id as int].lc);
    assert(static_slot(after, after.entry(current), index, initializing) == slot);
    assert(below(frame.operand_stack, 1).push(value) =~= frame.operand_stack);
}

} // verus!
