use crate::typevalues::JvmValue;
use vstd::prelude::*;

verus! {

/// One activation of a method, as the interpreter sees it.
pub struct FrameView {
    pub operand_stack: Seq<JvmValue>,
    pub class: Option<usize>,
    pub locals: Seq<JvmValue>,
    pub method: usize,
    pub pc: usize,
    pub initializer: bool,
}

/// One activation of a method: its operand stack (the top is the last
/// item), its local variables, the handle of the class whose constant pool
/// its instructions refer to, the position of the method in that class, and
/// the offset of the next instruction. `initializer` marks the activation of
/// a class initializer that a class initialization has started.
#[derive(Debug)]
pub struct Frame {
    pub operand_stack: Vec<JvmValue>,
    pub class: Option<usize>,
    pub locals: Vec<JvmValue>,
    pub method: usize,
    pub pc: usize,
    pub initializer: bool,
}

impl View for Frame {
    type V = FrameView;

    open spec fn view(&self) -> FrameView {
        FrameView {
            operand_stack: self.operand_stack@,
            class: self.class,
            locals: self.locals@,
            method: self.method,
            pc: self.pc,
            initializer: self.initializer,
        }
    }
}

/// The activation that `Frame::new` makes.
pub open spec fn empty_frame() -> FrameView {
    FrameView {
        operand_stack: Seq::empty(),
        class: None,
        locals: Seq::empty(),
        method: 0,
        pc: 0,
        initializer: false,
    }
}

impl Frame {
    /// An activation with nothing on its stack, no local variables and no
    /// class, about to run the first instruction.
    pub fn new() -> (r: Self)
        ensures
            r@ == empty_frame(),
    {
        Frame {
            operand_stack: Vec::new(),
            class: None,
            locals: Vec::new(),
            method: 0,
            pc: 0,
            initializer: false,
        }
    }

    /// The handle of the class that the activation belongs to.
    pub fn class(&self) -> (r: Option<usize>)
        ensures
            r == self.class,
    {
        self.class
    }
}

} // verus!
