use crate::classpath::ClassLocation;
use crate::debug::DebugLevel;
use crate::constantpool::ConstantPool;
use crate::error::{ExceptionKind, FatalErrorType};
use crate::exceptions::{Exception, ExceptionTable};
use crate::frame::{Frame, FrameView};
use crate::heap::{Heap, HeapView};
use crate::instruction::arithmetic::{finish_float, float_finish};
use crate::instruction::dispatch::{
    decode, decoded, execute_opcode, float_operation, float_operation_of, kept,
    lemma_instructions_keep, opcode_effect, Effect, Instruction,
};
use crate::instruction::fields::{is_owner, is_ready, owns, ready};
use crate::instruction::{below, FloatOperation, OpcodeResult};
use crate::method::{handlers, instructions, Method};
use crate::search::first_index;
use crate::methodarea::{
    init_decision, same_hierarchy, status_after_failure, status_after_finish,
    status_after_request, AreaView, InitDecision, Located, MethodArea,
};
use crate::stack::Stack;
use crate::typevalues::{null_value, void_value, JvmPrimitiveType, JvmValue};
use vstd::prelude::*;

verus! {

/// One thread of the interpreted program as the interpreter sees it: the
/// names of the classes that it is initializing, innermost last; its call
/// stack, the running activation last; and, before its first activation
/// exists, the class and the method that it is to start with.
pub struct ThreadView {
    pub initializing: Seq<String>,
    pub frames: Seq<FrameView>,
    pub entry: Option<(String, String)>,
}

/// How one step of a thread ended.
#[derive(Debug, PartialEq)]
pub enum StepOutcome {
    /// The step was taken; the thread can take another.
    Running,
    /// The method that the thread started with returned this value.
    Finished(JvmValue),
    /// The run cannot go on.
    Failed(FatalErrorType),
    /// The class of this name must be loaded from this place, and the
    /// result handed to the method area; then the step can be taken.
    NeedClass(String, ClassLocation),
    /// This operation must be carried out on these two bit patterns of
    /// floats, and the result handed to the thread.
    NeedFloat(FloatOperation, u32, u32),
    /// Another thread is initializing the class of this name; the step can
    /// be taken once that has finished.
    Blocked(String),
    /// The thread has nothing to run.
    Idle,
}

/// A thread, the method area and the heap after a step, with how the step
/// ended.
pub struct Machine {
    pub outcome: StepOutcome,
    pub thread: ThreadView,
    pub area: AreaView,
    pub heap: HeapView,
}

/// One thread of the interpreted program.
#[derive(Debug)]
pub struct JvmThread {
    debug_level: DebugLevel,
    initializing_class: Vec<String>,
    stack: Stack,
    entry: Option<(String, String)>,
}

impl View for JvmThread {
    type V = ThreadView;

    closed spec fn view(&self) -> ThreadView {
        ThreadView {
            initializing: self.initializing_class@,
            frames: self.stack@,
            entry: self.entry,
        }
    }
}

/// The local variables of a new activation: the arguments, cut down or
/// filled up with void values to the number that the method asks for.
pub open spec fn sized(arguments: Seq<JvmValue>, max_locals: usize) -> Seq<JvmValue> {
    if arguments.len() >= max_locals {
        arguments.subrange(0, max_locals as int)
    } else {
        arguments + Seq::new((max_locals - arguments.len()) as nat, |i: int| void_value())
    }
}

/// Cuts down or fills up local variables to `max_locals`.
pub fn size_locals(locals: &mut Vec<JvmValue>, max_locals: usize)
    ensures
        final(locals)@ == sized(old(locals)@, max_locals),
{
    if locals.len() >= max_locals {
        locals.truncate(max_locals);
    } else {
        let ghost arguments = locals@;
        while locals.len() < max_locals
            invariant
                arguments.len() <= locals@.len() <= max_locals,
                locals@ == arguments + Seq::new(
                    (locals@.len() - arguments.len()) as nat,
                    |i: int| void_value(),
                ),
            decreases max_locals - locals@.len(),
        {
            let ghost before = locals@;
            locals.push(JvmValue::Primitive(JvmPrimitiveType::Void, 0, 0));
            assert(locals@ =~= arguments + Seq::new(
                (locals@.len() - arguments.len()) as nat,
                |i: int| void_value(),
            ));
        }
    }
}

/// The two activations after the arguments of a call were moved: the
/// calling one without its top `count` operands, the called one with these
/// operands, in their order, in front of its local variables. `None` where
/// the calling activation has fewer than `count` operands.
pub open spec fn moved(count: usize, invoking: FrameView, invoked: FrameView) -> Option<
    (FrameView, FrameView),
> {
    if invoking.operand_stack.len() < count {
        None
    } else {
        Some(
            (
                FrameView { operand_stack: below(invoking.operand_stack, count as int), ..invoking },
                FrameView {
                    locals: invoking.operand_stack.subrange(
                        invoking.operand_stack.len() - count,
                        invoking.operand_stack.len() as int,
                    ) + invoked.locals,
                    ..invoked
                },
            ),
        )
    }
}

/// Moves the arguments of a call of `method` from the operand stack of the
/// calling activation to the local variables of the called one. Where the
/// calling activation has too few operands, nothing is moved.
pub fn move_parameters_to_locals(
    method: &Method,
    invoking_frame: &mut Frame,
    invoked_frame: &mut Frame,
) -> (r: bool)
    ensures
        match moved(method.parameter_count, old(invoking_frame)@, old(invoked_frame)@) {
            Some((invoking, invoked)) => r && final(invoking_frame)@ == invoking
                && final(invoked_frame)@ == invoked,
            None => !r && final(invoking_frame)@ == old(invoking_frame)@ && final(invoked_frame)@
                == old(invoked_frame)@,
        },
{
    move_operands(method.parameter_count, invoking_frame, invoked_frame)
}

/// Moves the top `count` operands of the calling activation to the front
/// of the local variables of the called one.
pub fn move_operands(count: usize, invoking_frame: &mut Frame, invoked_frame: &mut Frame) -> (r:
    bool)
    ensures
        match moved(count, old(invoking_frame)@, old(invoked_frame)@) {
            Some((invoking, invoked)) => r && final(invoking_frame)@ == invoking
                && final(invoked_frame)@ == invoked,
            None => !r && final(invoking_frame)@ == old(invoking_frame)@ && final(invoked_frame)@
                == old(invoked_frame)@,
        },
{
    let n = invoking_frame.operand_stack.len();
    if n < count {
        return false;
    }
    let mut arguments = invoking_frame.operand_stack.split_off(n - count);
    arguments.append(&mut invoked_frame.locals);
    invoked_frame.locals = arguments;
    assert(invoking_frame@.operand_stack =~= below(old(invoking_frame)@.operand_stack, count as int));
    true
}

/// The method of an activation, where the activation is one of a method of
/// a loaded class.
pub open spec fn method_of(area: AreaView, frame: FrameView) -> Option<Method> {
    if frame.class is Some && area.has_class(frame.class.unwrap()) && frame.method
        < area.entry(frame.class.unwrap()).class.methods@.len() {
        Some(area.entry(frame.class.unwrap()).class.methods@[frame.method as int])
    } else {
        None
    }
}

/// The next instruction of an activation, with the operand-stack limit of
/// its method. There is none where the activation is not one of a method
/// of a loaded class, the method has no instructions, or the activation
/// does not stand at an instruction that the interpreter knows.
pub open spec fn fetched(area: AreaView, frame: FrameView) -> Result<
    (Instruction, usize),
    FatalErrorType,
> {
    if frame.class is None || !area.has_class(frame.class.unwrap()) {
        Err(FatalErrorType::ClassNoName)
    } else {
        let entry = area.entry(frame.class.unwrap());
        match method_of(area, frame) {
            None => Err(FatalErrorType::MethodResolutionFailed),
            Some(method) => match instructions(method.attributes@, &entry.class.constant_pool) {
                None => Err(FatalErrorType::MethodExecutionFailed(entry.name)),
                Some(code) => match decoded(code, frame.pc) {
                    Err(e) => Err(e),
                    Ok(ins) => Ok((ins, method.max_stack)),
                },
            },
        }
    }
}

/// Fetches the next instruction of an activation.
pub fn fetch(area: &MethodArea, frame: &Frame) -> (r: Result<(Instruction, usize), FatalErrorType>)
    ensures
        r == fetched(area@, frame@),
{
    let id = match frame.class {
        Some(id) => id,
        None => {
            return Err(FatalErrorType::ClassNoName);
        },
    };
    let entry = match area.loaded(id) {
        Some(entry) => entry,
        None => {
            return Err(FatalErrorType::ClassNoName);
        },
    };
    let methods = entry.class.get_methods_ref();
    if frame.method >= methods.methods_count() as usize {
        return Err(FatalErrorType::MethodResolutionFailed);
    }
    let method = methods.get(frame.method);
    match method.get_code(entry.class.get_constant_pool_ref()) {
        None => Err(FatalErrorType::MethodExecutionFailed(entry.name.clone())),
        Some(code) => match decode(code, frame.pc) {
            Err(e) => Err(e),
            Ok(ins) => Ok((ins, method.max_stack)),
        },
    }
}

/// The first activation of the method at position `method` of the class
/// `class`, with the given arguments as its first local variables.
pub open spec fn activation(
    class: usize,
    method: usize,
    arguments: Seq<JvmValue>,
    max_locals: usize,
    initializer: bool,
) -> FrameView {
    FrameView {
        operand_stack: Seq::empty(),
        class: Some(class),
        locals: sized(arguments, max_locals),
        method,
        pc: 0,
        initializer,
    }
}

/// An activation as `JvmThread::execute_method` starts it: its local
/// variables are cut down or filled up to the number that its method asks
/// for.
pub open spec fn prepared(area: AreaView, frame: FrameView) -> FrameView {
    match method_of(area, frame) {
        Some(method) => FrameView { locals: sized(frame.locals, method.max_locals), ..frame },
        None => frame,
    }
}

/// The thread with other activations.
pub open spec fn with_frames(thread: ThreadView, frames: Seq<FrameView>) -> ThreadView {
    ThreadView { frames, ..thread }
}

/// The step stops with an error, and nothing changes.
pub open spec fn failed(e: FatalErrorType, thread: ThreadView, area: AreaView, heap: HeapView) -> Machine {
    Machine { outcome: StepOutcome::Failed(e), thread, area, heap }
}

/// What asking for the class `name` comes to: a request to the host where
/// the class path knows the class, an error where it does not.
pub open spec fn asked(name: String, area: AreaView) -> StepOutcome {
    match area.located(name@) {
        Located::Loaded(_) => StepOutcome::Running,
        Located::Fetch(place) => StepOutcome::NeedClass(name, place),
        Located::Unavailable => StepOutcome::Failed(FatalErrorType::ClassNotFound(name)),
    }
}

/// What a thread's request to have the class `id` initialized comes to.
///
/// A class that is initialized, or that the thread itself is initializing,
/// needs nothing. A class that another thread is initializing makes the
/// thread wait. A class that nobody has begun to initialize becomes the
/// thread's to initialize: it is marked as being initialized, and its
/// initializer `<clinit>`, if it has one, is the thread's next activation;
/// if it has none, the class is initialized at once.
pub open spec fn initialized(thread: ThreadView, area: AreaView, heap: HeapView, id: usize) -> Machine {
    if !area.has_class(id) {
        failed(FatalErrorType::ClassNoName, thread, area, heap)
    } else {
        let entry = area.entry(id);
        let after = area.with_status(id, status_after_request(entry.lc));
        match init_decision(entry.lc, owns(thread.initializing, entry.name@)) {
            InitDecision::Proceed => Machine { outcome: StepOutcome::Running, thread, area, heap },
            InitDecision::Wait => Machine {
                outcome: StepOutcome::Blocked(entry.name),
                thread,
                area,
                heap,
            },
            InitDecision::Failed => failed(
                FatalErrorType::ClassInstantiationFailed(entry.name),
                thread,
                area,
                heap,
            ),
            InitDecision::Run => match entry.class.method_position("<clinit>"@, "()V"@) {
                Some(m) => Machine {
                    outcome: StepOutcome::Running,
                    thread: ThreadView {
                        initializing: thread.initializing.push(entry.name),
                        frames: thread.frames.push(
                            activation(
                                id,
                                m as usize,
                                Seq::empty(),
                                entry.class.methods@[m].max_locals,
                                true,
                            ),
                        ),
                        ..thread
                    },
                    area: after,
                    heap,
                },
                None => Machine {
                    outcome: StepOutcome::Running,
                    thread,
                    area: after.with_status(id, status_after_finish(after.entry(id).lc)),
                    heap,
                },
            },
        }
    }
}

/// What a thread without an activation does in a step: it starts on the
/// method that it was given to start with. The class must be loaded and
/// initialized first. The method, with the descriptor of a main method,
/// must be public and static and nothing else, and return nothing. Its
/// first local variable holds the null reference in place of the program's
/// arguments.
pub open spec fn entered(thread: ThreadView, area: AreaView, heap: HeapView) -> Machine {
    match thread.entry {
        None => Machine { outcome: StepOutcome::Idle, thread, area, heap },
        Some((class_name, method_name)) => match area.class_id(class_name@) {
            None => Machine { outcome: asked(class_name, area), thread, area, heap },
            Some(id) => if !ready(area, id, thread.initializing) {
                initialized(thread, area, heap, id as usize)
            } else {
                let class = area.classes[id].class;
                match class.method_position(method_name@, "([Ljava/lang/String;)V"@) {
                    None => failed(
                        FatalErrorType::MethodNotFound(method_name, class_name),
                        thread,
                        area,
                        heap,
                    ),
                    Some(m) => if class.methods@[m].access_flags != 0x0009 {
                        failed(FatalErrorType::MainMethodNotPublicStatic, thread, area, heap)
                    } else if !class.methods@[m].return_type.spec_is_void() {
                        failed(FatalErrorType::MainMethodNotVoid, thread, area, heap)
                    } else {
                        Machine {
                            outcome: StepOutcome::Running,
                            thread: ThreadView {
                                entry: None,
                                frames: thread.frames.push(
                                    activation(
                                        id as usize,
                                        m as usize,
                                        seq![null_value()],
                                        class.methods@[m].max_locals,
                                        false,
                                    ),
                                ),
                                ..thread
                            },
                            area,
                            heap,
                        }
                    },
                }
            },
        },
    }
}

/// What the return of `value` from the activation `callee` comes to;
/// `rest` are the activations below it.
///
/// The return from a class initializer ends the initialization of the
/// class: the class is initialized, unless a value was returned, which
/// puts the class in error and ends the run. A method that is declared to
/// return nothing may not return a value either. The return from the
/// thread's first activation ends the thread. Any other return hands the
/// value, unless it is void, to the calling activation, which goes on
/// behind its three-byte invoke instruction.
pub open spec fn returned(
    value: JvmValue,
    callee: FrameView,
    rest: Seq<FrameView>,
    thread: ThreadView,
    area: AreaView,
    heap: HeapView,
) -> Machine {
    let id = callee.class.unwrap();
    if callee.initializer && (callee.class is None || !area.has_class(id)) {
        failed(FatalErrorType::ClassNoName, with_frames(thread, rest), area, heap)
    } else if callee.initializer {
        let ended = ThreadView {
            frames: rest,
            initializing: if thread.initializing.len() > 0 {
                thread.initializing.drop_last()
            } else {
                thread.initializing
            },
            ..thread
        };
        if !value.spec_is_void() {
            Machine {
                outcome: StepOutcome::Failed(FatalErrorType::ClassInitMethodReturnedValue),
                thread: ended,
                area: area.with_status(id, status_after_failure(area.entry(id).lc)),
                heap,
            }
        } else {
            Machine {
                outcome: StepOutcome::Running,
                thread: ended,
                area: area.with_status(id, status_after_finish(area.entry(id).lc)),
                heap,
            }
        }
    } else if method_of(area, callee) matches Some(method) && method.return_type.spec_is_void()
        && !value.spec_is_void() {
        failed(FatalErrorType::VoidMethodReturnedValue, with_frames(thread, rest), area, heap)
    } else if rest.len() == 0 {
        Machine { outcome: StepOutcome::Finished(value), thread: with_frames(thread, rest), area, heap }
    } else {
        let caller = rest.last();
        let stack = if value.spec_is_void() {
            caller.operand_stack
        } else {
            caller.operand_stack.push(value)
        };
        match method_of(area, caller) {
            None => failed(
                FatalErrorType::MethodResolutionFailed,
                with_frames(thread, rest),
                area,
                heap,
            ),
            Some(method) => if caller.pc > usize::MAX - 3 {
                failed(
                    FatalErrorType::InvalidProgramCounter(caller.pc),
                    with_frames(thread, rest),
                    area,
                    heap,
                )
            } else if stack.len() > method.max_stack {
                failed(
                    FatalErrorType::NotEnough("operand stack", method.max_stack, "slots"),
                    with_frames(thread, rest),
                    area,
                    heap,
                )
            } else {
                Machine {
                    outcome: StepOutcome::Running,
                    thread: with_frames(
                        thread,
                        rest.drop_last().push(
                            FrameView {
                                operand_stack: stack,
                                pc: (caller.pc + 3) as usize,
                                ..caller
                            },
                        ),
                    ),
                    area,
                    heap,
                }
            },
        }
    }
}

/// What the call of the method at position `method` of the class `class`
/// from the activation `caller` comes to; `rest` are the activations below
/// it. The arguments, and before them the object reference where there is
/// one, leave the caller's operand stack and become the first local
/// variables of the new activation, which runs next.
pub open spec fn invoked(
    class: usize,
    method: usize,
    receiver: bool,
    caller: FrameView,
    rest: Seq<FrameView>,
    thread: ThreadView,
    area: AreaView,
    heap: HeapView,
) -> Machine {
    let unchanged = with_frames(thread, rest.push(caller));
    if !area.has_class(class) || method >= area.entry(class).class.methods@.len() {
        failed(FatalErrorType::MethodResolutionFailed, unchanged, area, heap)
    } else {
        let target = area.entry(class).class.methods@[method as int];
        if receiver && target.parameter_count == usize::MAX {
            failed(FatalErrorType::InvalidMethodDescriptor, unchanged, area, heap)
        } else {
            let count = if receiver {
                (target.parameter_count + 1) as usize
            } else {
                target.parameter_count
            };
            if caller.operand_stack.len() < count {
                failed(
                    FatalErrorType::NotEnough("invoke", count, "stack operands"),
                    unchanged,
                    area,
                    heap,
                )
            } else {
                Machine {
                    outcome: StepOutcome::Running,
                    thread: with_frames(
                        thread,
                        rest.push(
                            FrameView {
                                operand_stack: below(caller.operand_stack, count as int),
                                ..caller
                            },
                        ).push(
                            activation(
                                class,
                                method,
                                caller.operand_stack.subrange(
                                    caller.operand_stack.len() - count,
                                    caller.operand_stack.len() as int,
                                ),
                                target.max_locals,
                                false,
                            ),
                        ),
                    ),
                    area,
                    heap,
                }
            }
        }
    }
}

/// Whether a class of this name, named in an exception table, stands for
/// exceptions of the kind `kind`: it is the class of that exception, or one
/// of its superclasses.
pub open spec fn covers(name: Seq<char>, kind: ExceptionKind) -> bool {
    ||| name == "java/lang/Throwable"@
    ||| name == "java/lang/Exception"@
    ||| name == "java/lang/RuntimeException"@
    ||| match kind {
        ExceptionKind::NullPointer => name == "java/lang/NullPointerException"@,
        ExceptionKind::IndexOutOfBounds => name == "java/lang/IndexOutOfBoundsException"@ || name
            == "java/lang/ArrayIndexOutOfBoundsException"@,
        ExceptionKind::NegativeArraySize => name == "java/lang/NegativeArraySizeException"@,
    }
}

/// Whether a row of an exception table catches an exception of the kind
/// `kind` that is raised at offset `pc`: the offset lies in the row's
/// range, and the row catches everything or a class that covers the kind.
pub open spec fn catches(row: Exception, pc: usize, kind: ExceptionKind, cp: &ConstantPool) -> bool {
    &&& row.start_pc <= pc < row.end_pc
    &&& (row.catch_type == 0 || (cp.class_name(row.catch_type as int) matches Some(name)
        && covers(name@, kind)))
}

/// The test that the search for a handler applies to each row.
pub open spec fn catching(pc: usize, kind: ExceptionKind, cp: &ConstantPool) -> spec_fn(
    Exception,
) -> bool {
    |row: Exception| catches(row, pc, kind, cp)
}

/// The row of the exception table of an activation's method that handles
/// an exception of the kind `kind` raised where the activation stands: the
/// first row that catches it.
pub open spec fn handler_of(area: AreaView, frame: FrameView, kind: ExceptionKind) -> Option<
    Exception,
> {
    match method_of(area, frame) {
        None => None,
        Some(method) => {
            let cp = &area.entry(frame.class.unwrap()).class.constant_pool;
            match handlers(method.attributes@, cp) {
                None => None,
                Some(rows) => match first_index(rows, catching(frame.pc, kind, cp), 0) {
                    Some(i) => Some(rows[i]),
                    None => None,
                },
            }
        },
    }
}

/// What an exception of the kind `kind`, raised in the running activation,
/// comes to. The activations are gone through from the running one
/// downwards. The first whose method has a handler for the exception goes
/// on at the handler, with nothing on its operand stack but the null
/// reference in place of the exception. An activation without a handler is
/// given up; where it is a class initializer's, the class is in error.
/// Where no activation has a handler, the run ends with the exception.
pub open spec fn thrown(kind: ExceptionKind, thread: ThreadView, area: AreaView, heap: HeapView) -> Machine
    decreases thread.frames.len(),
{
    if thread.frames.len() == 0 {
        failed(FatalErrorType::Exception(kind), thread, area, heap)
    } else {
        let frame = thread.frames.last();
        let rest = thread.frames.drop_last();
        match handler_of(area, frame, kind) {
            Some(row) => if method_of(area, frame).unwrap().max_stack == 0 {
                failed(FatalErrorType::NotEnough("operand stack", 0, "slots"), thread, area, heap)
            } else {
                Machine {
                    outcome: StepOutcome::Running,
                    thread: with_frames(
                        thread,
                        rest.push(
                            FrameView {
                                operand_stack: seq![null_value()],
                                pc: row.handler_pc as usize,
                                ..frame
                            },
                        ),
                    ),
                    area,
                    heap,
                }
            },
            None => if frame.initializer && frame.class is Some && area.has_class(
                frame.class.unwrap(),
            ) {
                thrown(
                    kind,
                    ThreadView {
                        frames: rest,
                        initializing: if thread.initializing.len() > 0 {
                            thread.initializing.drop_last()
                        } else {
                            thread.initializing
                        },
                        ..thread
                    },
                    area.with_status(
                        frame.class.unwrap(),
                        status_after_failure(area.entry(frame.class.unwrap()).lc),
                    ),
                    heap,
                )
            } else {
                thrown(kind, with_frames(thread, rest), area, heap)
            },
        }
    }
}

/// What an instruction's way to go on comes to for the thread: `e` is what
/// the instruction came to in the running activation, `pc` where that
/// activation stood, `limit` the operand-stack limit of its method, and
/// `rest` are the activations below it.
pub open spec fn applied(
    e: Effect,
    pc: usize,
    limit: usize,
    rest: Seq<FrameView>,
    thread: ThreadView,
) -> Machine {
    let stay = with_frames(thread, rest.push(e.frame));
    match e.result {
        OpcodeResult::Incr(n) => if n > usize::MAX - pc {
            failed(FatalErrorType::InvalidProgramCounter(pc), stay, e.area, e.heap)
        } else if e.frame.operand_stack.len() > limit {
            failed(FatalErrorType::NotEnough("operand stack", limit, "slots"), stay, e.area, e.heap)
        } else {
            Machine {
                outcome: StepOutcome::Running,
                thread: with_frames(
                    thread,
                    rest.push(FrameView { pc: (pc + n) as usize, ..e.frame }),
                ),
                area: e.area,
                heap: e.heap,
            }
        },
        OpcodeResult::Decr(n) => if n > pc {
            failed(FatalErrorType::InvalidProgramCounter(pc), stay, e.area, e.heap)
        } else if e.frame.operand_stack.len() > limit {
            failed(FatalErrorType::NotEnough("operand stack", limit, "slots"), stay, e.area, e.heap)
        } else {
            Machine {
                outcome: StepOutcome::Running,
                thread: with_frames(
                    thread,
                    rest.push(FrameView { pc: (pc - n) as usize, ..e.frame }),
                ),
                area: e.area,
                heap: e.heap,
            }
        },
        OpcodeResult::Value(value) => returned(value, e.frame, rest, thread, e.area, e.heap),
        OpcodeResult::Exception(kind) => thrown(kind, stay, e.area, e.heap),
        OpcodeResult::Fatal(error) => failed(error, stay, e.area, e.heap),
        OpcodeResult::Invoke(class, method, receiver) => invoked(
            class,
            method,
            receiver,
            e.frame,
            rest,
            thread,
            e.area,
            e.heap,
        ),
        OpcodeResult::Initialize(class) => initialized(stay, e.area, e.heap, class),
        OpcodeResult::Load(name) => Machine {
            outcome: asked(name, e.area),
            thread: stay,
            area: e.area,
            heap: e.heap,
        },
        OpcodeResult::Float(operation, left, right) => Machine {
            outcome: StepOutcome::NeedFloat(operation, left, right),
            thread: stay,
            area: e.area,
            heap: e.heap,
        },
    }
}

/// One step of a thread: the next instruction of its running activation is
/// executed, and the thread goes on as the instruction says. A thread
/// without an activation starts on the method that it was given.
pub open spec fn step_effect(thread: ThreadView, area: AreaView, heap: HeapView) -> Machine {
    if thread.frames.len() == 0 {
        entered(thread, area, heap)
    } else {
        let frame = thread.frames.last();
        let rest = thread.frames.drop_last();
        match fetched(area, frame) {
            Err(e) => failed(e, with_frames(thread, rest.push(frame)), area, heap),
            Ok((ins, limit)) => applied(
                opcode_effect(ins, frame, area, heap, thread.initializing),
                frame.pc,
                limit,
                rest,
                thread,
            ),
        }
    }
}

/// Up to `fuel` steps of a thread: steps are taken as long as they end
/// with `Running`.
pub open spec fn run_effect(thread: ThreadView, area: AreaView, heap: HeapView, fuel: nat) -> Machine
    decreases fuel,
{
    if fuel == 0 {
        Machine { outcome: StepOutcome::Running, thread, area, heap }
    } else {
        let next = step_effect(thread, area, heap);
        if next.outcome is Running {
            run_effect(next.thread, next.area, next.heap, (fuel - 1) as nat)
        } else {
            next
        }
    }
}

/// What handing in the result `bits` of a float operation comes to: the
/// running activation must stand at a float instruction, whose two
/// operands give way to the result.
pub open spec fn supplied(bits: u32, thread: ThreadView, area: AreaView, heap: HeapView) -> Machine {
    if thread.frames.len() == 0 {
        Machine { outcome: StepOutcome::Idle, thread, area, heap }
    } else {
        let frame = thread.frames.last();
        let rest = thread.frames.drop_last();
        let stay = with_frames(thread, rest.push(frame));
        match fetched(area, frame) {
            Err(e) => failed(e, stay, area, heap),
            Ok((ins, limit)) => match float_operation(ins.code) {
                None => failed(
                    FatalErrorType::WrongType("float operation", "Float"),
                    stay,
                    area,
                    heap,
                ),
                Some(operation) => match float_finish(frame.operand_stack, operation, bits) {
                    Err(e) => failed(e, stay, area, heap),
                    Ok(stack) => applied(
                        Effect {
                            result: OpcodeResult::Incr(1),
                            frame: FrameView { operand_stack: stack, ..frame },
                            area,
                            heap,
                        },
                        frame.pc,
                        limit,
                        rest,
                        thread,
                    ),
                },
            },
        }
    }
}

impl JvmThread {
    /// The level of diagnostic output that the thread was made with.
    pub fn debug_level(&self) -> (r: DebugLevel)
        ensures
            r == self.spec_debug_level(),
    {
        self.debug_level
    }

    /// The level of diagnostic output that the thread was made with.
    pub closed spec fn spec_debug_level(&self) -> DebugLevel {
        self.debug_level
    }

    /// A thread with nothing to run.
    pub fn new(debug_level: DebugLevel) -> (r: Self)
        ensures
            r@ == (ThreadView { initializing: Seq::empty(), frames: Seq::empty(), entry: None }),
            r.spec_debug_level() == debug_level,
    {
        JvmThread {
            debug_level: debug_level,
            initializing_class: Vec::<String>::new(),
            stack: Stack::new(),
            entry: None,
        }
    }

    /// Gives the thread the class and the method to start with. A thread
    /// that has activations keeps them, and starts on the method once they
    /// have returned.
    pub fn launch(&mut self, class_name: &String, method_name: &String)
        ensures
            final(self)@ == (ThreadView { entry: Some((*class_name, *method_name)), ..old(self)@ }),
            final(self).spec_debug_level() == old(self).spec_debug_level(),
    {
        self.entry = Some((class_name.clone(), method_name.clone()));
    }

    /// The number of activations of the thread.
    pub fn depth(&self) -> (r: usize)
        ensures
            r == self@.frames.len(),
    {
        self.stack.depth()
    }

    fn ask(name: String, area: &MethodArea) -> (r: StepOutcome)
        ensures
            r == asked(name, area@),
    {
        match area.locate(&name) {
            Located::Loaded(_) => StepOutcome::Running,
            Located::Fetch(place) => StepOutcome::NeedClass(name, place),
            Located::Unavailable => StepOutcome::Failed(FatalErrorType::ClassNotFound(name)),
        }
    }

    fn make_activation(
        class: usize,
        method: usize,
        arguments: Vec<JvmValue>,
        max_locals: usize,
        initializer: bool,
    ) -> (r: Frame)
        ensures
            r@ == activation(class, method, arguments@, max_locals, initializer),
    {
        let mut locals = arguments;
        size_locals(&mut locals, max_locals);
        Frame { operand_stack: Vec::new(), class: Some(class), locals, method, pc: 0, initializer }
    }

    /// Has the class `id` initialized for this thread, as far as one step
    /// goes: see `initialized`.
    pub fn maybe_initialize_class(&mut self, area: &mut MethodArea, id: usize) -> (r: StepOutcome)
        ensures
            forall|heap: HeapView|
                #[trigger] initialized(old(self)@, old(area)@, heap, id) == (Machine {
                    outcome: r,
                    thread: final(self)@,
                    area: final(area)@,
                    heap,
                }),
            final(self).spec_debug_level() == old(self).spec_debug_level(),
    {
        let (name, own) = match area.loaded(id) {
            Some(entry) => (entry.name.clone(), is_owner(&self.initializing_class, &entry.name)),
            None => {
                return StepOutcome::Failed(FatalErrorType::ClassNoName);
            },
        };
        match area.request_initialization(id, own) {
            InitDecision::Proceed => {
                assert(area@ =~= old(area)@) by {
                    assert(area@.classes =~= old(area)@.classes);
                }
                StepOutcome::Running
            },
            InitDecision::Wait => {
                assert(area@ =~= old(area)@) by {
                    assert(area@.classes =~= old(area)@.classes);
                }
                StepOutcome::Blocked(name)
            },
            InitDecision::Failed => {
                assert(area@ =~= old(area)@) by {
                    assert(area@.classes =~= old(area)@.classes);
                }
                StepOutcome::Failed(FatalErrorType::ClassInstantiationFailed(name))
            },
            InitDecision::Run => {
                let clinit = String::from_str("<clinit>");
                let descriptor = String::from_str("()V");
                let entry = area.loaded(id).unwrap();
                match entry.class.get_methods_ref().index_of(
                    &clinit,
                    &descriptor,
                    entry.class.get_constant_pool_ref(),
                ) {
                    Some(m) => {
                        let max_locals = entry.class.get_methods_ref().get(m).max_locals;
                        let frame = JvmThread::make_activation(id, m, Vec::new(), max_locals, true);
                        self.initializing_class.push(name);
                        self.stack.push(frame);
                        StepOutcome::Running
                    },
                    None => {
                        area.finish_initialization(id);
                        StepOutcome::Running
                    },
                }
            },
        }
    }

    fn enter(&mut self, area: &mut MethodArea) -> (r: StepOutcome)
        requires
            old(self)@.frames.len() == 0,
        ensures
            forall|heap: HeapView|
                #[trigger] entered(old(self)@, old(area)@, heap) == (Machine {
                    outcome: r,
                    thread: final(self)@,
                    area: final(area)@,
                    heap,
                }),
            final(self).spec_debug_level() == old(self).spec_debug_level(),
    {
        let (class_name, method_name) = match &self.entry {
            None => {
                return StepOutcome::Idle;
            },
            Some((class_name, method_name)) => (class_name.clone(), method_name.clone()),
        };
        let id = match area.class_id(&class_name) {
            None => {
                return JvmThread::ask(class_name, area);
            },
            Some(id) => id,
        };
        if !is_ready(area, id, &self.initializing_class) {
            return self.maybe_initialize_class(area, id);
        }
        let main_descriptor = String::from_str("([Ljava/lang/String;)V");
        let entry = area.loaded(id).unwrap();
        let methods = entry.class.get_methods_ref();
        match methods.index_of(&method_name, &main_descriptor, entry.class.get_constant_pool_ref()) {
            None => StepOutcome::Failed(FatalErrorType::MethodNotFound(method_name, class_name)),
            Some(m) => {
                let method = methods.get(m);
                if method.access_flags != 0x0009 {
                    StepOutcome::Failed(FatalErrorType::MainMethodNotPublicStatic)
                } else if !method.return_type.is_void() {
                    StepOutcome::Failed(FatalErrorType::MainMethodNotVoid)
                } else {
                    let mut arguments: Vec<JvmValue> = Vec::new();
                    arguments.push(crate::typevalues::create_null_value());
                    assert(arguments@ =~= seq![null_value()]);
                    let frame = JvmThread::make_activation(
                        id,
                        m,
                        arguments,
                        method.max_locals,
                        false,
                    );
                    self.stack.push(frame);
                    self.entry = None;
                    StepOutcome::Running
                }
            },
        }
    }

    /// Hands the value that a method returned to the activation that
    /// called it, which goes on `step` bytes further: the value is pushed
    /// on the operand stack, unless it is void. Gives back the number of
    /// bytes to go on.
    pub fn handle_invoke_result(value: JvmValue, frame: &mut Frame, step: usize) -> (r: usize)
        ensures
            r == step,
            final(frame)@ == (FrameView {
                operand_stack: if value.spec_is_void() {
                    old(frame)@.operand_stack
                } else {
                    old(frame)@.operand_stack.push(value)
                },
                ..old(frame)@
            }),
    {
        if !value.is_void() {
            frame.operand_stack.push(value);
        }
        step
    }

    fn give_back(
        &mut self,
        value: JvmValue,
        callee: Frame,
        area: &mut MethodArea,
        Ghost(rest): Ghost<Seq<FrameView>>,
        Ghost(before): Ghost<ThreadView>,
    ) -> (r: StepOutcome)
        requires
            old(self)@ == with_frames(before, rest),
        ensures
            forall|heap: HeapView|
                #[trigger] returned(value, callee@, rest, before, old(area)@, heap) == (Machine {
                    outcome: r,
                    thread: final(self)@,
                    area: final(area)@,
                    heap,
                }),
            final(self).spec_debug_level() == old(self).spec_debug_level(),
    {
        if callee.initializer {
            let id = match callee.class {
                Some(id) => id,
                None => {
                    return StepOutcome::Failed(FatalErrorType::ClassNoName);
                },
            };
            if area.loaded(id).is_none() {
                return StepOutcome::Failed(FatalErrorType::ClassNoName);
            }
            if self.initializing_class.len() > 0 {
                self.initializing_class.pop();
            }
            if !value.is_void() {
                area.fail_initialization(id);
                StepOutcome::Failed(FatalErrorType::ClassInitMethodReturnedValue)
            } else {
                area.finish_initialization(id);
                StepOutcome::Running
            }
        } else {
            if !value.is_void() && JvmThread::returns_nothing(area, &callee) {
                return StepOutcome::Failed(FatalErrorType::VoidMethodReturnedValue);
            }
            let mut caller = match self.stack.pop() {
                None => {
                    return StepOutcome::Finished(value);
                },
                Some(caller) => caller,
            };
            let limit = match JvmThread::limit_of(area, &caller) {
                None => {
                    self.stack.push(caller);
                    assert(self@.frames =~= rest);
                    return StepOutcome::Failed(FatalErrorType::MethodResolutionFailed);
                },
                Some(limit) => limit,
            };
            if caller.pc > usize::MAX - 3 {
                let pc = caller.pc;
                self.stack.push(caller);
                assert(self@.frames =~= rest);
                return StepOutcome::Failed(FatalErrorType::InvalidProgramCounter(pc));
            }
            let grows = !value.is_void();
            if grows && caller.operand_stack.len() >= limit || caller.operand_stack.len() > limit {
                self.stack.push(caller);
                assert(self@.frames =~= rest);
                return StepOutcome::Failed(
                    FatalErrorType::NotEnough("operand stack", limit, "slots"),
                );
            }
            let step = JvmThread::handle_invoke_result(value, &mut caller, 3);
            caller.pc = caller.pc + step;
            self.stack.push(caller);
            StepOutcome::Running
        }
    }

    fn returns_nothing(area: &MethodArea, frame: &Frame) -> (r: bool)
        ensures
            r == (method_of(area@, frame@) matches Some(method)
                && method.return_type.spec_is_void()),
    {
        match frame.class {
            None => false,
            Some(id) => match area.loaded(id) {
                None => false,
                Some(entry) => {
                    let methods = entry.class.get_methods_ref();
                    if frame.method < methods.methods_count() as usize {
                        methods.get(frame.method).return_type.is_void()
                    } else {
                        false
                    }
                },
            },
        }
    }

    fn limit_of(area: &MethodArea, frame: &Frame) -> (r: Option<usize>)
        ensures
            match r {
                Some(limit) => method_of(area@, frame@) is Some && limit == method_of(
                    area@,
                    frame@,
                ).unwrap().max_stack,
                None => method_of(area@, frame@) is None,
            },
    {
        match frame.class {
            None => None,
            Some(id) => match area.loaded(id) {
                None => None,
                Some(entry) => {
                    let methods = entry.class.get_methods_ref();
                    if frame.method < methods.methods_count() as usize {
                        Some(methods.get(frame.method).max_stack)
                    } else {
                        None
                    }
                },
            },
        }
    }

    fn call(
        &mut self,
        class: usize,
        method: usize,
        receiver: bool,
        caller: Frame,
        area: &MethodArea,
        Ghost(rest): Ghost<Seq<FrameView>>,
        Ghost(before): Ghost<ThreadView>,
    ) -> (r: StepOutcome)
        requires
            old(self)@ == with_frames(before, rest),
        ensures
            forall|heap: HeapView|
                #[trigger] invoked(class, method, receiver, caller@, rest, before, area@, heap)
                    == (Machine { outcome: r, thread: final(self)@, area: area@, heap }),
            final(self).spec_debug_level() == old(self).spec_debug_level(),
    {
        let mut caller = caller;
        let target = match area.loaded(class) {
            None => None,
            Some(entry) => {
                let methods = entry.class.get_methods_ref();
                if method < methods.methods_count() as usize {
                    Some(methods.get(method))
                } else {
                    None
                }
            },
        };
        let target = match target {
            None => {
                self.stack.push(caller);
                return StepOutcome::Failed(FatalErrorType::MethodResolutionFailed);
            },
            Some(target) => target,
        };
        if receiver && target.parameter_count == usize::MAX {
            self.stack.push(caller);
            return StepOutcome::Failed(FatalErrorType::InvalidMethodDescriptor);
        }
        let count = if receiver {
            target.parameter_count + 1
        } else {
            target.parameter_count
        };
        let mut callee = JvmThread::make_activation(class, method, Vec::new(), 0, false);
        assert(callee@.locals =~= Seq::empty());
        if !move_operands(count, &mut caller, &mut callee) {
            self.stack.push(caller);
            return StepOutcome::Failed(FatalErrorType::NotEnough("invoke", count, "stack operands"));
        }
        size_locals(&mut callee.locals, target.max_locals);
        self.stack.push(caller);
        self.stack.push(callee);
        StepOutcome::Running
    }

    fn covered(name: &String, kind: ExceptionKind) -> (r: bool)
        ensures
            r == covers(name@, kind),
    {
        let throwable = String::from_str("java/lang/Throwable");
        let exception = String::from_str("java/lang/Exception");
        let runtime = String::from_str("java/lang/RuntimeException");
        if *name == throwable || *name == exception || *name == runtime {
            return true;
        }
        match kind {
            ExceptionKind::NullPointer => {
                let own = String::from_str("java/lang/NullPointerException");
                *name == own
            },
            ExceptionKind::IndexOutOfBounds => {
                let general = String::from_str("java/lang/IndexOutOfBoundsException");
                let own = String::from_str("java/lang/ArrayIndexOutOfBoundsException");
                *name == general || *name == own
            },
            ExceptionKind::NegativeArraySize => {
                let own = String::from_str("java/lang/NegativeArraySizeException");
                *name == own
            },
        }
    }

    fn caught(row: &Exception, pc: usize, kind: ExceptionKind, cp: &ConstantPool) -> (r: bool)
        ensures
            r == catches(*row, pc, kind, cp),
    {
        if (row.start_pc as usize) <= pc && pc < row.end_pc as usize {
            if row.catch_type == 0 {
                true
            } else {
                match cp.class_name_at(row.catch_type as usize) {
                    Some(name) => JvmThread::covered(name, kind),
                    None => false,
                }
            }
        } else {
            false
        }
    }

    #[verifier::loop_isolation(false)]
    fn find_handler(area: &MethodArea, frame: &Frame, kind: ExceptionKind) -> (r: Option<Exception>)
        ensures
            r == handler_of(area@, frame@, kind),
    {
        let id = match frame.class {
            Some(id) => id,
            None => {
                return None;
            },
        };
        let entry = match area.loaded(id) {
            Some(entry) => entry,
            None => {
                return None;
            },
        };
        let methods = entry.class.get_methods_ref();
        if frame.method >= methods.methods_count() as usize {
            return None;
        }
        let cp = entry.class.get_constant_pool_ref();
        let table = match methods.get(frame.method).get_exception_table(cp) {
            Some(table) => table,
            None => {
                return None;
            },
        };
        let count: usize = table.exceptions_table_count() as usize;
        let mut i: usize = 0;
        while i < count
            invariant
                count == table@.len(),
                first_index(table@, catching(frame.pc, kind, cp), 0) == first_index(
                    table@,
                    catching(frame.pc, kind, cp),
                    i as int,
                ),
            decreases count - i,
        {
            let row = table.get(i);
            if JvmThread::caught(&row, frame.pc, kind, cp) {
                return Some(row);
            }
            i = i + 1;
        }
        None
    }

    fn throw(&mut self, kind: ExceptionKind, area: &mut MethodArea) -> (r: StepOutcome)
        ensures
            forall|heap: HeapView|
                #[trigger] thrown(kind, old(self)@, old(area)@, heap) == (Machine {
                    outcome: r,
                    thread: final(self)@,
                    area: final(area)@,
                    heap,
                }),
            final(self).spec_debug_level() == old(self).spec_debug_level(),
        decreases old(self)@.frames.len(),
    {
        let ghost before = self@;
        let ghost area_before = area@;
        let mut frame = match self.stack.pop() {
            None => {
                return StepOutcome::Failed(FatalErrorType::Exception(kind));
            },
            Some(frame) => frame,
        };
        let ghost top = frame@;
        let ghost rest = self@.frames;
        match JvmThread::find_handler(area, &frame, kind) {
            Some(row) => {
                let limit = JvmThread::limit_of(area, &frame).unwrap();
                if limit == 0 {
                    self.stack.push(frame);
                    assert(self@.frames =~= before.frames);
                    StepOutcome::Failed(FatalErrorType::NotEnough("operand stack", 0, "slots"))
                } else {
                    let mut operands: Vec<JvmValue> = Vec::new();
                    operands.push(crate::typevalues::create_null_value());
                    assert(operands@ =~= seq![null_value()]);
                    frame.operand_stack = operands;
                    frame.pc = row.handler_pc as usize;
                    self.stack.push(frame);
                    assert(self@ == with_frames(
                        before,
                        rest.push(
                            FrameView {
                                operand_stack: seq![null_value()],
                                pc: row.handler_pc as usize,
                                ..top
                            },
                        ),
                    ));
                    StepOutcome::Running
                }
            },
            None => {
                if frame.initializer {
                    match frame.class {
                        Some(id) => {
                            if area.loaded(id).is_some() {
                                if self.initializing_class.len() > 0 {
                                    self.initializing_class.pop();
                                }
                                area.fail_initialization(id);
                            }
                        },
                        None => {},
                    }
                }
                let ghost mid = self@;
                let ghost area_mid = area@;
                let outcome = self.throw(kind, area);
                assert forall|heap: HeapView|
                    #[trigger] thrown(kind, before, area_before, heap) == (Machine {
                        outcome,
                        thread: self@,
                        area: area@,
                        heap,
                    }) by {
                    assert(thrown(kind, before, area_before, heap) == thrown(
                        kind,
                        mid,
                        area_mid,
                        heap,
                    ));
                }
                outcome
            },
        }
    }

    fn apply(
        &mut self,
        result: OpcodeResult,
        frame: Frame,
        limit: usize,
        area: &mut MethodArea,
        pc: usize,
        Ghost(rest): Ghost<Seq<FrameView>>,
        Ghost(before): Ghost<ThreadView>,
    ) -> (r: StepOutcome)
        requires
            old(self)@ == with_frames(before, rest),
        ensures
            forall|heap: HeapView|
                #[trigger] applied(
                    Effect { result, frame: frame@, area: old(area)@, heap },
                    pc,
                    limit,
                    rest,
                    before,
                ) == (Machine { outcome: r, thread: final(self)@, area: final(area)@, heap }),
            final(self).spec_debug_level() == old(self).spec_debug_level(),
    {
        let mut frame = frame;
        match result {
            OpcodeResult::Incr(n) => {
                if n > usize::MAX - pc {
                    self.stack.push(frame);
                    StepOutcome::Failed(FatalErrorType::InvalidProgramCounter(pc))
                } else if frame.operand_stack.len() > limit {
                    self.stack.push(frame);
                    StepOutcome::Failed(FatalErrorType::NotEnough("operand stack", limit, "slots"))
                } else {
                    frame.pc = pc + n;
                    self.stack.push(frame);
                    StepOutcome::Running
                }
            },
            OpcodeResult::Decr(n) => {
                if n > pc {
                    self.stack.push(frame);
                    StepOutcome::Failed(FatalErrorType::InvalidProgramCounter(pc))
                } else if frame.operand_stack.len() > limit {
                    self.stack.push(frame);
                    StepOutcome::Failed(FatalErrorType::NotEnough("operand stack", limit, "slots"))
                } else {
                    frame.pc = pc - n;
                    self.stack.push(frame);
                    StepOutcome::Running
                }
            },
            OpcodeResult::Value(value) => self.give_back(
                value,
                frame,
                area,
                Ghost(rest),
                Ghost(before),
            ),
            OpcodeResult::Exception(kind) => {
                self.stack.push(frame);
                self.throw(kind, area)
            },
            OpcodeResult::Fatal(error) => {
                self.stack.push(frame);
                StepOutcome::Failed(error)
            },
            OpcodeResult::Invoke(class, method, receiver) => self.call(
                class,
                method,
                receiver,
                frame,
                area,
                Ghost(rest),
                Ghost(before),
            ),
            OpcodeResult::Initialize(class) => {
                self.stack.push(frame);
                self.maybe_initialize_class(area, class)
            },
            OpcodeResult::Load(name) => {
                self.stack.push(frame);
                JvmThread::ask(name, area)
            },
            OpcodeResult::Float(operation, left, right) => {
                self.stack.push(frame);
                StepOutcome::NeedFloat(operation, left, right)
            },
        }
    }

    /// Takes one step: see `step_effect`.
    pub fn step(&mut self, area: &mut MethodArea, heap: &mut Heap) -> (r: StepOutcome)
        ensures
            (Machine { outcome: r, thread: final(self)@, area: final(area)@, heap: final(heap)@ })
                == step_effect(old(self)@, old(area)@, old(heap)@),
            final(self).spec_debug_level() == old(self).spec_debug_level(),
    {
        let ghost before = self@;
        let mut frame = match self.stack.pop() {
            None => {
                return self.enter(area);
            },
            Some(frame) => frame,
        };
        let ghost rest = self@.frames;
        let (ins, limit) = match fetch(area, &frame) {
            Err(e) => {
                self.stack.push(frame);
                assert(self@.frames =~= before.frames);
                return StepOutcome::Failed(e);
            },
            Ok(pair) => pair,
        };
        let pc = frame.pc;
        let result = execute_opcode(
            ins,
            &mut frame,
            area,
            heap,
            &self.initializing_class,
            self.debug_level,
        );
        let ghost effect = Effect { result, frame: frame@, area: area@, heap: heap@ };
        let outcome = self.apply(result, frame, limit, area, pc, Ghost(rest), Ghost(before));
        assert(applied(effect, pc, limit, rest, before) == (Machine {
            outcome,
            thread: self@,
            area: area@,
            heap: heap@,
        }));
        outcome
    }

    /// Takes up to `fuel` steps, as long as they end with `Running`: see
    /// `run_effect`. The outcome `Running` says that the steps were used up.
    pub fn resume(&mut self, area: &mut MethodArea, heap: &mut Heap, fuel: u64) -> (r: StepOutcome)
        ensures
            (Machine { outcome: r, thread: final(self)@, area: final(area)@, heap: final(heap)@ })
                == run_effect(old(self)@, old(area)@, old(heap)@, fuel as nat),
            final(self).spec_debug_level() == old(self).spec_debug_level(),
    {
        let mut left: u64 = fuel;
        while left > 0
            invariant
                self.spec_debug_level() == old(self).spec_debug_level(),
                run_effect(old(self)@, old(area)@, old(heap)@, fuel as nat) == run_effect(
                    self@,
                    area@,
                    heap@,
                    left as nat,
                ),
            decreases left,
        {
            let outcome = self.step(area, heap);
            match outcome {
                StepOutcome::Running => {
                    left = left - 1;
                },
                other => {
                    return other;
                },
            }
        }
        StepOutcome::Running
    }

    /// Starts the thread on the method `method_name` of the class
    /// `class_name` and takes up to `fuel` steps.
    pub fn run(
        &mut self,
        area: &mut MethodArea,
        heap: &mut Heap,
        class_name: &String,
        method_name: &String,
        fuel: u64,
    ) -> (r: StepOutcome)
        ensures
            (Machine { outcome: r, thread: final(self)@, area: final(area)@, heap: final(heap)@ })
                == run_effect(
                ThreadView { entry: Some((*class_name, *method_name)), ..old(self)@ },
                old(area)@,
                old(heap)@,
                fuel as nat,
            ),
            final(self).spec_debug_level() == old(self).spec_debug_level(),
    {
        self.launch(class_name, method_name);
        self.resume(area, heap, fuel)
    }

    /// Runs a method to its end, as far as `fuel` steps go: `frame` becomes
    /// the thread's running activation, with its local variables cut down
    /// or filled up to the number that its method asks for, and up to
    /// `fuel` steps are taken.
    pub fn execute_method(
        &mut self,
        area: &mut MethodArea,
        heap: &mut Heap,
        frame: Frame,
        fuel: u64,
    ) -> (r: StepOutcome)
        ensures
            (Machine { outcome: r, thread: final(self)@, area: final(area)@, heap: final(heap)@ })
                == run_effect(
                with_frames(old(self)@, old(self)@.frames.push(prepared(old(area)@, frame@))),
                old(area)@,
                old(heap)@,
                fuel as nat,
            ),
            final(self).spec_debug_level() == old(self).spec_debug_level(),
    {
        let mut frame = frame;
        match JvmThread::locals_of(area, &frame) {
            Some(max_locals) => {
                size_locals(&mut frame.locals, max_locals);
            },
            None => {},
        }
        self.stack.push(frame);
        self.resume(area, heap, fuel)
    }

    fn locals_of(area: &MethodArea, frame: &Frame) -> (r: Option<usize>)
        ensures
            match r {
                Some(n) => method_of(area@, frame@) is Some && n == method_of(
                    area@,
                    frame@,
                ).unwrap().max_locals,
                None => method_of(area@, frame@) is None,
            },
    {
        match frame.class {
            None => None,
            Some(id) => match area.loaded(id) {
                None => None,
                Some(entry) => {
                    let methods = entry.class.get_methods_ref();
                    if frame.method < methods.methods_count() as usize {
                        Some(methods.get(frame.method).max_locals)
                    } else {
                        None
                    }
                },
            },
        }
    }

    /// Takes in the result of the float operation that the last step asked
    /// for: see `supplied`.
    pub fn supply_float(&mut self, bits: u32, area: &mut MethodArea) -> (r: StepOutcome)
        ensures
            forall|heap: HeapView|
                #[trigger] supplied(bits, old(self)@, old(area)@, heap) == (Machine {
                    outcome: r,
                    thread: final(self)@,
                    area: final(area)@,
                    heap,
                }),
            final(self).spec_debug_level() == old(self).spec_debug_level(),
    {
        let ghost before = self@;
        let mut frame = match self.stack.pop() {
            None => {
                return StepOutcome::Idle;
            },
            Some(frame) => frame,
        };
        let ghost rest = self@.frames;
        let (ins, limit) = match fetch(area, &frame) {
            Err(e) => {
                self.stack.push(frame);
                assert(self@.frames =~= before.frames);
                return StepOutcome::Failed(e);
            },
            Ok(pair) => pair,
        };
        let operation = match float_operation_of(ins.code) {
            None => {
                self.stack.push(frame);
                assert(self@.frames =~= before.frames);
                return StepOutcome::Failed(FatalErrorType::WrongType("float operation", "Float"));
            },
            Some(operation) => operation,
        };
        let pc = frame.pc;
        match finish_float(operation, bits, &mut frame) {
            OpcodeResult::Incr(n) => self.apply(
                OpcodeResult::Incr(n),
                frame,
                limit,
                area,
                pc,
                Ghost(rest),
                Ghost(before),
            ),
            OpcodeResult::Fatal(e) => {
                self.stack.push(frame);
                assert(self@.frames =~= before.frames);
                StepOutcome::Failed(e)
            },
            _ => {
                self.stack.push(frame);
                StepOutcome::Idle
            },
        }
    }
}

/// Of two threads that ask for the same class to be initialized, one
/// initializes it and the other waits: where the first is given the class
/// initializer to run, a second thread that asks before the initializer
/// has finished is blocked, is given nothing to run and changes nothing;
/// and once the class is initialized, the second thread is let through,
/// again without being given the initializer.
pub proof fn lemma_one_thread_initializes(
    first: ThreadView,
    second: ThreadView,
    area: AreaView,
    heap: HeapView,
    id: usize,
)
    requires
        area.has_class(id),
        area.entry(id).lc == crate::class::ClassInitializationStatus::VerifiedPreparedNotInitialized,
        !owns(second.initializing, area.entry(id).name@),
    ensures
        ({
            let begun = initialized(first, area, heap, id);
            let waiting = initialized(second, begun.area, heap, id);
            let done = begun.area.with_status(
                id,
                crate::class::ClassInitializationStatus::Initialized,
            );
            let through = initialized(second, done, heap, id);
            &&& begun.outcome is Running
            &&& begun.area.entry(id).lc
                == crate::class::ClassInitializationStatus::BeingInitialized ==> {
                &&& waiting.outcome == StepOutcome::Blocked(area.entry(id).name)
                &&& waiting.thread == second
                &&& waiting.area == begun.area
            }
            &&& through.outcome is Running
            &&& through.thread == second
            &&& through.area == done
        }),
{
    let begun = initialized(first, area, heap, id);
    let done = begun.area.with_status(id, crate::class::ClassInitializationStatus::Initialized);
    assert(begun.area.entry(id).name == area.entry(id).name);
    assert(done.entry(id).name == area.entry(id).name);
    assert(done.with_status(id, status_after_request(done.entry(id).lc)).classes =~= done.classes);
    if begun.area.entry(id).lc == crate::class::ClassInitializationStatus::BeingInitialized {
        assert(begun.area.with_status(
            id,
            status_after_request(begun.area.entry(id).lc),
        ).classes =~= begun.area.classes);
    }
}

/// Whether an activation is one of a method of a loaded class, and holds no
/// more operands than that method allows.
pub open spec fn within_limit(area: AreaView, frame: FrameView) -> bool {
    match method_of(area, frame) {
        Some(method) => frame.operand_stack.len() <= method.max_stack,
        None => false,
    }
}

/// Whether every activation of a thread holds no more operands than its
/// method allows.
pub open spec fn within_limits(area: AreaView, frames: Seq<FrameView>) -> bool {
    forall|i: int| 0 <= i < frames.len() ==> within_limit(area, #[trigger] frames[i])
}

/// In method areas with the same hierarchy, an activation has the same
/// method.
pub proof fn lemma_same_hierarchy_same_method(a: AreaView, b: AreaView, frame: FrameView)
    requires
        same_hierarchy(a, b),
    ensures
        method_of(a, frame) == method_of(b, frame),
        within_limit(a, frame) == within_limit(b, frame),
{
    if frame.class is Some && a.has_class(frame.class.unwrap()) {
        assert(a.classes[frame.class.unwrap() as int].class == b.classes[frame.class.unwrap() as int].class);
    }
}

/// In method areas with the same hierarchy, the same activations are
/// within their limits.
pub proof fn lemma_same_hierarchy_same_limits(a: AreaView, b: AreaView, frames: Seq<FrameView>)
    requires
        same_hierarchy(a, b),
        within_limits(a, frames),
    ensures
        within_limits(b, frames),
{
    assert forall|i: int| 0 <= i < frames.len() implies within_limit(b, #[trigger] frames[i]) by {
        lemma_same_hierarchy_same_method(a, b, frames[i]);
    }
}

/// A change of how far a class is initialized leaves the hierarchy as it
/// is.
pub proof fn lemma_with_status_keeps_hierarchy(
    area: AreaView,
    id: usize,
    lc: crate::class::ClassInitializationStatus,
)
    requires
        area.has_class(id),
    ensures
        same_hierarchy(area, area.with_status(id, lc)),
{
}

/// A request for initialization leaves the hierarchy as it is, and the
/// thread's activations within their limits.
pub proof fn lemma_initialized_keeps(thread: ThreadView, area: AreaView, heap: HeapView, id: usize)
    requires
        within_limits(area, thread.frames),
    ensures
        same_hierarchy(area, initialized(thread, area, heap, id).area),
        within_limits(
            initialized(thread, area, heap, id).area,
            initialized(thread, area, heap, id).thread.frames,
        ),
{
    let m = initialized(thread, area, heap, id);
    if area.has_class(id) {
        let entry = area.entry(id);
        let after = area.with_status(id, status_after_request(entry.lc));
        lemma_with_status_keeps_hierarchy(area, id, status_after_request(entry.lc));
        lemma_with_status_keeps_hierarchy(after, id, status_after_finish(after.entry(id).lc));
        lemma_same_hierarchy_same_limits(area, m.area, thread.frames);
        lemma_position_is_there(entry.class, "<clinit>"@, "()V"@);
        assert(m.area.classes[id as int].class == entry.class);
        assert forall|i: int| 0 <= i < m.thread.frames.len() implies within_limit(
            m.area,
            #[trigger] m.thread.frames[i],
        ) by {
            if i < thread.frames.len() {
                assert(m.thread.frames[i] == thread.frames[i]);
            }
        }
    }
}

/// The position that a search by name and descriptor finds is one of the
/// class's method table, and can be counted.
pub proof fn lemma_position_is_there(class: crate::class::Class, name: Seq<char>, descriptor: Seq<char>)
    ensures
        class.method_position(name, descriptor) matches Some(m) ==> 0 <= m < class.methods@.len()
            && m <= usize::MAX,
{
    crate::search::lemma_first_index(
        class.methods@,
        crate::method::method_named(name, descriptor, &class.constant_pool),
        0,
    );
    crate::method::lemma_methods_fit(class.methods);
}

/// The return from an activation leaves the hierarchy as it is, and,
/// unless the run ends in failure, the remaining activations within their
/// limits.
pub proof fn lemma_returned_keeps(
    value: JvmValue,
    callee: FrameView,
    rest: Seq<FrameView>,
    thread: ThreadView,
    area: AreaView,
    heap: HeapView,
)
    requires
        within_limits(area, rest),
    ensures
        same_hierarchy(area, returned(value, callee, rest, thread, area, heap).area),
        !(returned(value, callee, rest, thread, area, heap).outcome is Failed) ==> within_limits(
            returned(value, callee, rest, thread, area, heap).area,
            returned(value, callee, rest, thread, area, heap).thread.frames,
        ),
{
    let m = returned(value, callee, rest, thread, area, heap);
    let id = callee.class.unwrap();
    if callee.initializer && callee.class is Some && area.has_class(id) {
        lemma_with_status_keeps_hierarchy(area, id, status_after_failure(area.entry(id).lc));
        lemma_with_status_keeps_hierarchy(area, id, status_after_finish(area.entry(id).lc));
        lemma_same_hierarchy_same_limits(area, m.area, rest);
    } else if !callee.initializer && rest.len() > 0 && !(m.outcome is Failed) {
        assert forall|i: int| 0 <= i < m.thread.frames.len() implies within_limit(
            m.area,
            #[trigger] m.thread.frames[i],
        ) by {
            if i < rest.len() - 1 {
                assert(m.thread.frames[i] == rest[i]);
            }
        }
    }
}

/// An exception leaves the hierarchy as it is, and, where an activation
/// handles it, the remaining activations within their limits.
pub proof fn lemma_thrown_keeps(
    kind: ExceptionKind,
    thread: ThreadView,
    area: AreaView,
    heap: HeapView,
)
    requires
        within_limits(area, thread.frames),
    ensures
        same_hierarchy(area, thrown(kind, thread, area, heap).area),
        !(thrown(kind, thread, area, heap).outcome is Failed) ==> within_limits(
            thrown(kind, thread, area, heap).area,
            thrown(kind, thread, area, heap).thread.frames,
        ),
    decreases thread.frames.len(),
{
    let m = thrown(kind, thread, area, heap);
    if thread.frames.len() > 0 {
        let frame = thread.frames.last();
        let rest = thread.frames.drop_last();
        assert(within_limits(area, rest)) by {
            assert forall|i: int| 0 <= i < rest.len() implies within_limit(
                area,
                #[trigger] rest[i],
            ) by {
                assert(rest[i] == thread.frames[i]);
            }
        }
        match handler_of(area, frame, kind) {
            Some(row) => {
                if !(m.outcome is Failed) {
                    assert forall|i: int| 0 <= i < m.thread.frames.len() implies within_limit(
                        m.area,
                        #[trigger] m.thread.frames[i],
                    ) by {
                        if i < rest.len() {
                            assert(m.thread.frames[i] == rest[i]);
                        }
                    }
                }
            },
            None => {
                if frame.initializer && frame.class is Some && area.has_class(
                    frame.class.unwrap(),
                ) {
                    let id = frame.class.unwrap();
                    let after = area.with_status(id, status_after_failure(area.entry(id).lc));
                    let down = ThreadView {
                        frames: rest,
                        initializing: if thread.initializing.len() > 0 {
                            thread.initializing.drop_last()
                        } else {
                            thread.initializing
                        },
                        ..thread
                    };
                    lemma_with_status_keeps_hierarchy(
                        area,
                        id,
                        status_after_failure(area.entry(id).lc),
                    );
                    lemma_same_hierarchy_same_limits(area, after, rest);
                    lemma_thrown_keeps(kind, down, after, heap);
                    lemma_transitive(area, after, m.area);
                } else {
                    lemma_thrown_keeps(kind, with_frames(thread, rest), area, heap);
                }
            },
        }
    }
}

/// A call leaves the thread's activations within their limits.
pub proof fn lemma_invoked_keeps(
    class: usize,
    method: usize,
    receiver: bool,
    caller: FrameView,
    rest: Seq<FrameView>,
    thread: ThreadView,
    area: AreaView,
    heap: HeapView,
)
    requires
        within_limits(area, rest),
        within_limit(area, caller),
    ensures
        invoked(class, method, receiver, caller, rest, thread, area, heap).area == area,
        within_limits(
            area,
            invoked(class, method, receiver, caller, rest, thread, area, heap).thread.frames,
        ),
{
    let m = invoked(class, method, receiver, caller, rest, thread, area, heap);
    assert forall|i: int| 0 <= i < m.thread.frames.len() implies within_limit(
        area,
        #[trigger] m.thread.frames[i],
    ) by {
        if i < rest.len() {
            assert(m.thread.frames[i] == rest[i]);
        }
    }
}

/// Starting on the method that a thread was given leaves the hierarchy as
/// it is, and the thread's activations within their limits.
pub proof fn lemma_entered_keeps(thread: ThreadView, area: AreaView, heap: HeapView)
    requires
        thread.frames.len() == 0,
        area.classes.len() <= usize::MAX,
    ensures
        same_hierarchy(area, entered(thread, area, heap).area),
        !(entered(thread, area, heap).outcome is Failed) ==> within_limits(
            entered(thread, area, heap).area,
            entered(thread, area, heap).thread.frames,
        ),
{
    let m = entered(thread, area, heap);
    match thread.entry {
        None => {},
        Some((class_name, method_name)) => {
            crate::search::lemma_first_index(
                area.classes,
                crate::methodarea::class_called(class_name@),
                0,
            );
            match area.class_id(class_name@) {
                None => {},
                Some(id) => {
                    if !ready(area, id, thread.initializing) {
                        lemma_initialized_keeps(thread, area, heap, id as usize);
                    } else if !(m.outcome is Failed) {
                        let class = area.classes[id].class;
                        lemma_position_is_there(class, method_name@, "([Ljava/lang/String;)V"@);
                        assert(m.thread.frames.len() == 1);
                        assert(within_limit(m.area, m.thread.frames[0]));
                    }
                },
            }
        },
    }
}

/// A step changes neither which classes are loaded nor what they hold:
/// a loaded class stays as it was loaded. And a step keeps the operand
/// stack of every activation within the limit of its method: where every
/// activation is within its limit before a step, and the step does not
/// end in failure, every activation is within its limit after it.
pub proof fn lemma_step_keeps_classes_and_limits(thread: ThreadView, area: AreaView, heap: HeapView)
    requires
        within_limits(area, thread.frames),
        area.classes.len() <= usize::MAX,
    ensures
        same_hierarchy(area, step_effect(thread, area, heap).area),
        !(step_effect(thread, area, heap).outcome is Failed) ==> within_limits(
            step_effect(thread, area, heap).area,
            step_effect(thread, area, heap).thread.frames,
        ),
{
    if thread.frames.len() == 0 {
        lemma_entered_keeps(thread, area, heap);
    } else {
        let frame = thread.frames.last();
        let rest = thread.frames.drop_last();
        assert(within_limits(area, rest)) by {
            assert forall|i: int| 0 <= i < rest.len() implies within_limit(
                area,
                #[trigger] rest[i],
            ) by {
                assert(rest[i] == thread.frames[i]);
            }
        }
        assert(within_limit(area, frame));
        assert(rest.push(frame) =~= thread.frames);
        match fetched(area, frame) {
            Err(_) => {},
            Ok((ins, limit)) => {
                let e = opcode_effect(ins, frame, area, heap, thread.initializing);
                lemma_instructions_keep(ins, frame, area, heap, thread.initializing);
                lemma_applied_keeps(e, frame, limit, rest, thread, area);
            },
        }
    }
}

/// However many steps a thread takes, the loaded classes stay as they
/// were loaded, and, unless the run ends in failure, every activation
/// stays within the limit of its method.
pub proof fn lemma_run_keeps_classes_and_limits(
    thread: ThreadView,
    area: AreaView,
    heap: HeapView,
    fuel: nat,
)
    requires
        within_limits(area, thread.frames),
        area.classes.len() <= usize::MAX,
    ensures
        same_hierarchy(area, run_effect(thread, area, heap, fuel).area),
        !(run_effect(thread, area, heap, fuel).outcome is Failed) ==> within_limits(
            run_effect(thread, area, heap, fuel).area,
            run_effect(thread, area, heap, fuel).thread.frames,
        ),
    decreases fuel,
{
    if fuel > 0 {
        let next = step_effect(thread, area, heap);
        lemma_step_keeps_classes_and_limits(thread, area, heap);
        if next.outcome is Running {
            lemma_run_keeps_classes_and_limits(next.thread, next.area, next.heap, (fuel - 1) as nat);
            lemma_transitive(area, next.area, run_effect(thread, area, heap, fuel).area);
        }
    }
}

/// Handing in the result of a float operation leaves the loaded classes
/// as they were loaded, and, unless it ends in failure, every activation
/// within the limit of its method.
pub proof fn lemma_supplied_keeps_classes_and_limits(
    bits: u32,
    thread: ThreadView,
    area: AreaView,
    heap: HeapView,
)
    requires
        within_limits(area, thread.frames),
    ensures
        same_hierarchy(area, supplied(bits, thread, area, heap).area),
        !(supplied(bits, thread, area, heap).outcome is Failed) ==> within_limits(
            supplied(bits, thread, area, heap).area,
            supplied(bits, thread, area, heap).thread.frames,
        ),
{
    if thread.frames.len() > 0 {
        let frame = thread.frames.last();
        let rest = thread.frames.drop_last();
        assert(within_limits(area, rest)) by {
            assert forall|i: int| 0 <= i < rest.len() implies within_limit(
                area,
                #[trigger] rest[i],
            ) by {
                assert(rest[i] == thread.frames[i]);
            }
        }
        assert(within_limit(area, frame));
        assert(rest.push(frame) =~= thread.frames);
        match fetched(area, frame) {
            Err(_) => {},
            Ok((ins, limit)) => match float_operation(ins.code) {
                None => {},
                Some(operation) => match float_finish(frame.operand_stack, operation, bits) {
                    Err(_) => {},
                    Ok(stack) => {
                        let e = Effect {
                            result: OpcodeResult::Incr(1),
                            frame: FrameView { operand_stack: stack, ..frame },
                            area,
                            heap,
                        };
                        lemma_applied_keeps(e, frame, limit, rest, thread, area);
                    },
                },
            },
        }
    }
}

/// What an instruction's way to go on comes to keeps the hierarchy and the
/// limits, where the instruction itself kept them.
pub proof fn lemma_applied_keeps(
    e: Effect,
    frame: FrameView,
    limit: usize,
    rest: Seq<FrameView>,
    thread: ThreadView,
    area: AreaView,
)
    requires
        kept(frame, area, e),
        within_limits(area, rest),
        within_limit(area, frame),
        method_of(area, frame) is Some,
        limit == method_of(area, frame).unwrap().max_stack,
    ensures
        same_hierarchy(area, applied(e, frame.pc, limit, rest, thread).area),
        !(applied(e, frame.pc, limit, rest, thread).outcome is Failed) ==> within_limits(
            applied(e, frame.pc, limit, rest, thread).area,
            applied(e, frame.pc, limit, rest, thread).thread.frames,
        ),
{
    let m = applied(e, frame.pc, limit, rest, thread);
    lemma_same_hierarchy_same_limits(area, e.area, rest);
    lemma_same_hierarchy_same_method(area, e.area, frame);
    lemma_same_hierarchy_same_method(area, e.area, e.frame);
    let stay = with_frames(thread, rest.push(e.frame));
    match e.result {
        OpcodeResult::Incr(n) => {
            if !(m.outcome is Failed) {
                let next = FrameView { pc: (frame.pc + n) as usize, ..e.frame };
                assert(method_of(e.area, next) == method_of(area, frame));
                assert forall|i: int| 0 <= i < m.thread.frames.len() implies within_limit(
                    m.area,
                    #[trigger] m.thread.frames[i],
                ) by {
                    if i < rest.len() {
                        assert(m.thread.frames[i] == rest[i]);
                    }
                }
            }
        },
        OpcodeResult::Decr(n) => {
            if !(m.outcome is Failed) {
                let next = FrameView { pc: (frame.pc - n) as usize, ..e.frame };
                assert(method_of(e.area, next) == method_of(area, frame));
                assert forall|i: int| 0 <= i < m.thread.frames.len() implies within_limit(
                    m.area,
                    #[trigger] m.thread.frames[i],
                ) by {
                    if i < rest.len() {
                        assert(m.thread.frames[i] == rest[i]);
                    }
                }
            }
        },
        OpcodeResult::Value(value) => {
            lemma_returned_keeps(value, e.frame, rest, thread, e.area, e.heap);
            lemma_transitive(area, e.area, m.area);
        },
        OpcodeResult::Exception(kind) => {
            assert(e.frame == frame);
            assert(within_limits(e.area, stay.frames)) by {
                assert forall|i: int| 0 <= i < stay.frames.len() implies within_limit(
                    e.area,
                    #[trigger] stay.frames[i],
                ) by {
                    if i < rest.len() {
                        assert(stay.frames[i] == rest[i]);
                    }
                }
            }
            lemma_thrown_keeps(kind, stay, e.area, e.heap);
            lemma_transitive(area, e.area, m.area);
        },
        OpcodeResult::Invoke(class, method, receiver) => {
            assert(e.frame == frame);
            lemma_invoked_keeps(class, method, receiver, e.frame, rest, thread, e.area, e.heap);
        },
        OpcodeResult::Initialize(class) => {
            assert(e.frame == frame);
            assert(within_limits(e.area, stay.frames)) by {
                assert forall|i: int| 0 <= i < stay.frames.len() implies within_limit(
                    e.area,
                    #[trigger] stay.frames[i],
                ) by {
                    if i < rest.len() {
                        assert(stay.frames[i] == rest[i]);
                    }
                }
            }
            lemma_initialized_keeps(stay, e.area, e.heap, class);
            lemma_transitive(area, e.area, m.area);
        },
        _ => {
            assert(e.frame == frame);
            assert forall|i: int| 0 <= i < m.thread.frames.len() implies within_limit(
                m.area,
                #[trigger] m.thread.frames[i],
            ) by {
                if i < rest.len() {
                    assert(m.thread.frames[i] == rest[i]);
                }
            }
        },
    }
}

/// Having the same hierarchy carries over from one method area to the
/// next.
pub proof fn lemma_transitive(a: AreaView, b: AreaView, c: AreaView)
    requires
        same_hierarchy(a, b),
        same_hierarchy(b, c),
    ensures
        same_hierarchy(a, c),
{
    assert forall|i: int| 0 <= i < a.classes.len() implies (#[trigger] a.classes[i]).class
        == c.classes[i].class && a.classes[i].name == c.classes[i].name by {
        assert(a.classes[i].class == b.classes[i].class);
        assert(b.classes[i].class == c.classes[i].class);
    }
}

/// A class that comes into the method area by `maybe_load_class` leaves
/// every activation with its method, and so within its limit.
pub proof fn lemma_load_keeps_limits(
    before: AreaView,
    after: AreaView,
    name: Seq<char>,
    bytes: Option<Seq<u8>>,
    frames: Seq<FrameView>,
)
    requires
        crate::methodarea::load_effect(before, after, name, bytes),
        within_limits(before, frames),
    ensures
        within_limits(after, frames),
{
    assert(after.classes.len() >= before.classes.len() && forall|k: int|
        0 <= k < before.classes.len() ==> #[trigger] after.classes[k] == before.classes[k]) by {
        if before.class_id(name) is Some {
        } else if bytes is Some && crate::class::class_parses(bytes.unwrap())
            && crate::methodarea::names_itself(bytes.unwrap()) && crate::methodarea::own_name(
            bytes.unwrap(),
        ) == name {
            let entry = after.classes.last();
            crate::methodarea::lemma_same_hierarchy_same_id(before, before, entry.name@, 0);
            assert(before.class_id(entry.name@) is None);
            assert(after.classes == before.classes.push(entry));
        } else {
        }
    }
    assert forall|i: int| 0 <= i < frames.len() implies within_limit(after, #[trigger] frames[i]) by {
        let frame = frames[i];
        assert(within_limit(before, frame));
        assert(after.classes[frame.class.unwrap() as int] == before.classes[frame.class.unwrap() as int]);
    }
}

} // verus!
