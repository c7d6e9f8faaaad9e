//! A bytecode interpreter and minimal runtime for a virtual machine that
//! runs class files.
//!
//! The library reads class files ([`class`], [`constantpool`], [`field`],
//! [`method`], [`attribute`]), keeps the loaded classes and their
//! initialization in a method area ([`methodarea`]), keeps arrays and
//! objects on a heap ([`heap`], [`array`], [`object`]), and executes
//! instructions ([`instruction`]) in the activations of a thread
//! ([`jvmthread`], [`frame`], [`stack`]).
//!
//! Nothing in the library reads a file, waits, or computes with floats. A
//! thread takes steps; where a step needs a class that is not loaded, the
//! result of an operation on floats, or another thread to finish
//! initializing a class, it ends with a request to the embedding program,
//! which serves the request and lets the thread go on.
//!
//! A fault of the running program (a null reference, an index out of
//! bounds) is an exception: it goes to the nearest handler that an
//! exception table gives for it, and ends the run where there is none.
//! What the machine cannot make sense of (a broken class file, a reference
//! that cannot be resolved, an operand of the wrong type) ends the run at
//! once.
//!
//! Every function is verified against a contract that says what it returns
//! and changes, in terms of the views of the data: see `step_effect` for
//! what one step of a thread does, and `opcode_effect` for what each
//! instruction does.

use vstd::prelude::*;

pub mod array;
pub mod attribute;
pub mod bytes;
pub mod class;
pub mod classpath;
pub mod constant;
pub mod constantpool;
pub mod debug;
pub mod environment;
pub mod error;
pub mod exceptions;
pub mod field;
pub mod frame;
pub mod heap;
pub mod instruction;
pub mod jvmthread;
pub mod method;
pub mod methodarea;
pub mod object;
pub mod opcodes;
pub mod search;
pub mod stack;
pub mod typevalues;
pub mod vm;

verus! {

/// The virtual machine as its front end holds it: so far, the level of
/// diagnostic output that its parts are made with.
#[derive(Debug)]
pub struct Jvm {
    pub debug_level: debug::DebugLevel,
}

impl Jvm {
    /// A machine whose parts report at the given level.
    pub fn new(debug_level: debug::DebugLevel) -> (r: Option<Jvm>)
        ensures
            r == Some(Jvm { debug_level }),
    {
        Some(Jvm { debug_level: debug_level })
    }

    /// A method area and a thread for a run in the given environment,
    /// both made with this machine's level of diagnostic output.
    pub fn prepare(&self, environment: environment::Environment) -> (r: (
        methodarea::MethodArea,
        jvmthread::JvmThread,
    ))
        ensures
            r.0@ == (methodarea::AreaView {
                classes: Seq::empty(),
                classpath: environment.classpath@,
            }),
            r.1@ == (jvmthread::ThreadView {
                initializing: Seq::empty(),
                frames: Seq::empty(),
                entry: None,
            }),
            r.1.spec_debug_level() == self.debug_level,
    {
        (
            methodarea::MethodArea::new(self.debug_level, environment),
            jvmthread::JvmThread::new(self.debug_level),
        )
    }
}

} // verus!
