use crate::error::{ExceptionKind, FatalErrorType};
use crate::frame::{Frame, FrameView};
use crate::heap::{Heap, HeapView};
use crate::instruction::fields::{is_ready, ready};
use crate::instruction::{peek, OpcodeResult};
use crate::methodarea::{AreaView, LoadedClass, LoadedClassView, Lookup, MethodArea};
use crate::typevalues::{JvmReferenceTargetType, JvmValue};
use vstd::prelude::*;

verus! {

/// The method that an invoke instruction names.
pub enum Resolved {
    /// The method at this position of the class with this handle.
    Method(usize, usize),
    /// The instruction stops with this result.
    Stop(OpcodeResult),
}

/// Resolves the method reference in slot `index` of the constant pool of
/// the class `current`: the class named there must be loaded, and the
/// method is looked for in it and then up its superclass chain. With
/// `from_super`, the search starts at the direct superclass of `current`
/// instead, unless the method is called `<init>`.
pub open spec fn resolved(area: AreaView, current: LoadedClassView, index: u16, from_super: bool) -> Resolved {
    match current.class.method_ref(index as int) {
        None => Resolved::Stop(OpcodeResult::Fatal(FatalErrorType::MethodResolutionFailed)),
        Some((name, descriptor, class_name)) => match area.class_id(class_name@) {
            None => Resolved::Stop(OpcodeResult::Load(class_name)),
            Some(named) => {
                let start = if from_super && name@ != "<init>"@ {
                    match current.class.superclass() {
                        None => Err(OpcodeResult::Fatal(FatalErrorType::MethodResolutionFailed)),
                        Some(parent) => match area.class_id(parent@) {
                            None => Err(OpcodeResult::Load(parent)),
                            Some(p) => Ok(p),
                        },
                    }
                } else {
                    Ok(named)
                };
                match start {
                    Err(stop) => Resolved::Stop(stop),
                    Ok(from) => match area.find_method(
                        from,
                        name@,
                        descriptor@,
                        None,
                        area.classes.len(),
                    ) {
                        Lookup::Missing(parent) => Resolved::Stop(OpcodeResult::Load(parent)),
                        Lookup::Absent => Resolved::Stop(
                            OpcodeResult::Fatal(FatalErrorType::MethodResolutionFailed),
                        ),
                        Lookup::Found(class, method) => if area.classes[class as int].class.methods@[method as int].access_flags
                            & 0x0100 != 0 {
                            Resolved::Stop(
                                OpcodeResult::Fatal(FatalErrorType::NotImplemented("Native methods")),
                            )
                        } else {
                            Resolved::Method(class, method)
                        },
                    },
                }
            },
        },
    }
}

pub fn resolve(area: &MethodArea, current: &LoadedClass, index: u16, from_super: bool) -> (r:
    Resolved)
    ensures
        r == resolved(area@, current@, index, from_super),
        r matches Resolved::Method(class, method) ==> area@.has_class(class) && method
            < area@.classes[class as int].class.methods@.len(),
{
    match current.class.resolve_method_ref(index as usize) {
        None => Resolved::Stop(OpcodeResult::Fatal(FatalErrorType::MethodResolutionFailed)),
        Some((name, descriptor, class_name)) => match area.class_id(&class_name) {
            None => Resolved::Stop(OpcodeResult::Load(class_name)),
            Some(named) => {
                let init = String::from_str("<init>");
                let start = if from_super && name != init {
                    match current.class.resolve_superclass() {
                        None => Err(OpcodeResult::Fatal(FatalErrorType::MethodResolutionFailed)),
                        Some(parent) => match area.class_id(&parent) {
                            None => Err(OpcodeResult::Load(parent)),
                            Some(p) => Ok(p),
                        },
                    }
                } else {
                    Ok(named)
                };
                match start {
                    Err(stop) => Resolved::Stop(stop),
                    Ok(from) => match area.resolve_method(from, &name, &descriptor) {
                        Lookup::Missing(parent) => Resolved::Stop(OpcodeResult::Load(parent)),
                        Lookup::Absent => Resolved::Stop(
                            OpcodeResult::Fatal(FatalErrorType::MethodResolutionFailed),
                        ),
                        Lookup::Found(class, method) => {
                            let entry = area.loaded(class).unwrap();
                            if entry.class.get_methods_ref().get(method).access_flags & 0x0100
                                != 0 {
                                Resolved::Stop(
                                    OpcodeResult::Fatal(
                                        FatalErrorType::NotImplemented("Native methods"),
                                    ),
                                )
                            } else {
                                Resolved::Method(class, method)
                            }
                        },
                    },
                }
            },
        },
    }
}

/// The number of parameters of the method at position `method` of the
/// class `class`.
pub open spec fn parameters(area: AreaView, class: usize, method: usize) -> usize {
    area.classes[class as int].class.methods@[method as int].parameter_count
}

/// `invokestatic`: calls the method that slot `index` refers to, with the
/// values on top of the operand stack as arguments. The class that
/// declares the method must be initialized first.
pub open spec fn invokestatic(
    frame: FrameView,
    area: AreaView,
    current: LoadedClassView,
    index: u16,
    initializing: Seq<String>,
) -> OpcodeResult {
    match resolved(area, current, index, false) {
        Resolved::Stop(stop) => stop,
        Resolved::Method(class, method) => if !ready(area, class as int, initializing) {
            OpcodeResult::Initialize(class)
        } else if frame.operand_stack.len() < parameters(area, class, method) {
            OpcodeResult::Fatal(
                FatalErrorType::NotEnough(
                    "invokestatic",
                    parameters(area, class, method),
                    "stack operands",
                ),
            )
        } else {
            OpcodeResult::Invoke(class, method, false)
        },
    }
}

pub fn execute_invokestatic(
    index: u16,
    area: &MethodArea,
    current: &LoadedClass,
    initializing: &Vec<String>,
    frame: &Frame,
) -> (r: OpcodeResult)
    ensures
        r == invokestatic(frame@, area@, current@, index, initializing@),
{
    match resolve(area, current, index, false) {
        Resolved::Stop(stop) => stop,
        Resolved::Method(class, method) => {
            if !is_ready(area, class, initializing) {
                return OpcodeResult::Initialize(class);
            }
            let count = area.loaded(class).unwrap().class.get_methods_ref().get(
                method,
            ).parameter_count;
            if frame.operand_stack.len() < count {
                OpcodeResult::Fatal(FatalErrorType::NotEnough("invokestatic", count, "stack operands"))
            } else {
                OpcodeResult::Invoke(class, method, false)
            }
        },
    }
}

/// `invokespecial`: calls the method that slot `index` refers to, without
/// regard to overriding, on the object whose reference lies below the
/// arguments. Where the current class is flagged `ACC_SUPER` and the method
/// is not called `<init>`, the method is looked for from the direct
/// superclass of the current class upwards.
pub open spec fn invokespecial(
    frame: FrameView,
    area: AreaView,
    current: LoadedClassView,
    index: u16,
) -> OpcodeResult {
    match resolved(area, current, index, current.class.access_flags & 0x0020 != 0) {
        Resolved::Stop(stop) => stop,
        Resolved::Method(class, method) => if frame.operand_stack.len() <= parameters(
            area,
            class,
            method,
        ) {
            OpcodeResult::Fatal(
                FatalErrorType::NotEnough(
                    "invokespecial",
                    parameters(area, class, method),
                    "stack operands",
                ),
            )
        } else if !(peek(frame.operand_stack, parameters(area, class, method) as int)
            is Reference) {
            OpcodeResult::Fatal(FatalErrorType::WrongType("invokespecial", "Reference"))
        } else {
            OpcodeResult::Invoke(class, method, true)
        },
    }
}

pub fn execute_invokespecial(index: u16, area: &MethodArea, current: &LoadedClass, frame: &Frame) -> (r:
    OpcodeResult)
    ensures
        r == invokespecial(frame@, area@, current@, index),
{
    match resolve(area, current, index, current.class.access_flags & 0x0020 != 0) {
        Resolved::Stop(stop) => stop,
        Resolved::Method(class, method) => {
            let count = area.loaded(class).unwrap().class.get_methods_ref().get(
                method,
            ).parameter_count;
            let n = frame.operand_stack.len();
            if n <= count {
                return OpcodeResult::Fatal(
                    FatalErrorType::NotEnough("invokespecial", count, "stack operands"),
                );
            }
            match &frame.operand_stack[n - 1 - count] {
                JvmValue::Reference(_, _, _) => OpcodeResult::Invoke(class, method, true),
                _ => OpcodeResult::Fatal(FatalErrorType::WrongType("invokespecial", "Reference")),
            }
        },
    }
}

/// `invokevirtual`: calls a method on the object whose reference lies
/// below the arguments. The method that slot `index` refers to is resolved
/// first. Where it is private or final, it is the one called. Otherwise
/// the method called is selected by the class of the object: the search
/// goes from that class up its superclass chain, and the first declaration
/// of that name and descriptor that can override is taken: one that is not
/// private and is public or protected, or has package access and is
/// declared in the package of the object's class.
pub open spec fn invokevirtual(
    frame: FrameView,
    area: AreaView,
    heap: HeapView,
    current: LoadedClassView,
    index: u16,
) -> OpcodeResult {
    match resolved(area, current, index, false) {
        Resolved::Stop(stop) => stop,
        Resolved::Method(class, method) => if frame.operand_stack.len() <= parameters(
            area,
            class,
            method,
        ) {
            OpcodeResult::Fatal(
                FatalErrorType::NotEnough(
                    "invokevirtual",
                    parameters(area, class, method),
                    "stack operands",
                ),
            )
        } else {
            match peek(frame.operand_stack, parameters(area, class, method) as int) {
                JvmValue::Reference(_, JvmReferenceTargetType::Object(handle), _) => if !heap.has_object(
                    handle,
                ) {
                    OpcodeResult::Fatal(
                        FatalErrorType::WrongType("execute_invokevirtual", "Reference"),
                    )
                } else if area.classes[class as int].class.methods@[method as int].access_flags
                    & 0x0012 != 0 {
                    OpcodeResult::Invoke(class, method, true)
                } else {
                    let names = current.class.method_ref(index as int).unwrap();
                    match area.find_method(
                        heap.objects[handle as int].class as int,
                        names.0@,
                        names.1@,
                        area.receiver(heap.objects[handle as int].class),
                        area.classes.len(),
                    ) {
                        Lookup::Found(selected, position) => if area.classes[selected as int].class.methods@[position as int].access_flags
                            & 0x0100 != 0 {
                            OpcodeResult::Fatal(FatalErrorType::NotImplemented("Native methods"))
                        } else {
                            OpcodeResult::Invoke(selected, position, true)
                        },
                        Lookup::Missing(parent) => OpcodeResult::Load(parent),
                        Lookup::Absent => OpcodeResult::Fatal(FatalErrorType::MethodSelectionFailed),
                    }
                },
                JvmValue::Reference(_, JvmReferenceTargetType::Null, _) => OpcodeResult::Exception(
                    ExceptionKind::NullPointer,
                ),
                _ => OpcodeResult::Fatal(
                    FatalErrorType::WrongType("execute_invokevirtual", "Reference"),
                ),
            }
        },
    }
}

pub fn execute_invokevirtual(
    index: u16,
    area: &MethodArea,
    heap: &Heap,
    current: &LoadedClass,
    frame: &Frame,
) -> (r: OpcodeResult)
    ensures
        r == invokevirtual(frame@, area@, heap@, current@, index),
{
    match resolve(area, current, index, false) {
        Resolved::Stop(stop) => stop,
        Resolved::Method(class, method) => {
            let declared = area.loaded(class).unwrap().class.get_methods_ref().get(method);
            let count = declared.parameter_count;
            let n = frame.operand_stack.len();
            if n <= count {
                return OpcodeResult::Fatal(
                    FatalErrorType::NotEnough("invokevirtual", count, "stack operands"),
                );
            }
            match &frame.operand_stack[n - 1 - count] {
                JvmValue::Reference(_, JvmReferenceTargetType::Object(handle), _) => {
                    let object = match heap.object(*handle) {
                        Some(object) => object,
                        None => {
                            return OpcodeResult::Fatal(
                                FatalErrorType::WrongType("execute_invokevirtual", "Reference"),
                            );
                        },
                    };
                    if declared.access_flags & 0x0012 != 0 {
                        return OpcodeResult::Invoke(class, method, true);
                    }
                    let names = current.class.resolve_method_ref(index as usize).unwrap();
                    match area.select_method(object.get_class(), &names.0, &names.1) {
                        Lookup::Found(selected, position) => {
                            let chosen = area.loaded(selected).unwrap().class.get_methods_ref().get(
                                position,
                            );
                            if chosen.access_flags & 0x0100 != 0 {
                                OpcodeResult::Fatal(FatalErrorType::NotImplemented("Native methods"))
                            } else {
                                OpcodeResult::Invoke(selected, position, true)
                            }
                        },
                        Lookup::Missing(parent) => OpcodeResult::Load(parent),
                        Lookup::Absent => OpcodeResult::Fatal(FatalErrorType::MethodSelectionFailed),
                    }
                },
                JvmValue::Reference(_, JvmReferenceTargetType::Null, _) => OpcodeResult::Exception(
                    ExceptionKind::NullPointer,
                ),
                _ => OpcodeResult::Fatal(
                    FatalErrorType::WrongType("execute_invokevirtual", "Reference"),
                ),
            }
        },
    }
}

} // verus!
