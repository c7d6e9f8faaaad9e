use vstd::prelude::*;

verus! {

/// A fault raised by the interpreted program itself, as opposed to a defect
/// of the virtual machine or of a class file.
#[derive(Clone, Copy, Debug, PartialEq, Eq, Structural)]
pub enum ExceptionKind {
    /// A null reference was used where an array or object was required.
    NullPointer,
    /// An array was indexed at or beyond its length.
    IndexOutOfBounds,
    /// An array of negative length was asked for.
    NegativeArraySize,
}

/// The conditions under which the virtual machine gives up on a run.
///
/// Names of classes, methods and fields are carried as the strings found in
/// the constant pool; fixed descriptions are string literals.
#[derive(Debug, PartialEq, Eq)]
pub enum FatalErrorType {
    ClassNotFound(String),
    MethodNotFound(String, String),
    CouldNotLock(&'static str, &'static str),
    ClassNotLoaded(String),
    ClassInstantiationFailed(String),
    ClassResolutionFailed(String),
    ClassNoName,
    WrongType(&'static str, &'static str),
    NotEnough(&'static str, usize, &'static str),
    MethodResolutionFailed,
    MethodSelectionFailed,
    MainMethodNotPublicStatic,
    MainMethodNotVoid,
    InvalidFieldType(u8),
    UninitializedField(String, String),
    FieldNotFound(String, String),
    InvalidMethodDescriptor,
    InvalidConstantReference(String, &'static str, u16),
    VoidMethodReturnedValue,
    ClassInitMethodReturnedValue,
    RecursiveClassInitialization(String, String),
    MethodExecutionFailed(String),
    NotImplemented(&'static str),
    UnknownOpcode(u8),
    InvalidProgramCounter(usize),
    RequiredStackValueNotFound(&'static str),
    Exception(ExceptionKind),
}

impl Clone for FatalErrorType {
    fn clone(&self) -> (r: Self)
        ensures
            r == *self,
    {
        match self {
            FatalErrorType::ClassNotFound(c) => FatalErrorType::ClassNotFound(c.clone()),
            FatalErrorType::MethodNotFound(m, c) => FatalErrorType::MethodNotFound(
                m.clone(),
                c.clone(),
            ),
            FatalErrorType::CouldNotLock(a, b) => FatalErrorType::CouldNotLock(*a, *b),
            FatalErrorType::ClassNotLoaded(c) => FatalErrorType::ClassNotLoaded(c.clone()),
            FatalErrorType::ClassInstantiationFailed(c) => {
                FatalErrorType::ClassInstantiationFailed(c.clone())
            },
            FatalErrorType::ClassResolutionFailed(c) => FatalErrorType::ClassResolutionFailed(
                c.clone(),
            ),
            FatalErrorType::ClassNoName => FatalErrorType::ClassNoName,
            FatalErrorType::WrongType(a, b) => FatalErrorType::WrongType(*a, *b),
            FatalErrorType::NotEnough(a, n, b) => FatalErrorType::NotEnough(*a, *n, *b),
            FatalErrorType::MethodResolutionFailed => FatalErrorType::MethodResolutionFailed,
            FatalErrorType::MethodSelectionFailed => FatalErrorType::MethodSelectionFailed,
            FatalErrorType::MainMethodNotPublicStatic => FatalErrorType::MainMethodNotPublicStatic,
            FatalErrorType::MainMethodNotVoid => FatalErrorType::MainMethodNotVoid,
            FatalErrorType::InvalidFieldType(b) => FatalErrorType::InvalidFieldType(*b),
            FatalErrorType::UninitializedField(f, c) => FatalErrorType::UninitializedField(
                f.clone(),
                c.clone(),
            ),
            FatalErrorType::FieldNotFound(f, c) => FatalErrorType::FieldNotFound(
                f.clone(),
                c.clone(),
            ),
            FatalErrorType::InvalidMethodDescriptor => FatalErrorType::InvalidMethodDescriptor,
            FatalErrorType::InvalidConstantReference(c, e, i) => {
                FatalErrorType::InvalidConstantReference(c.clone(), *e, *i)
            },
            FatalErrorType::VoidMethodReturnedValue => FatalErrorType::VoidMethodReturnedValue,
            FatalErrorType::ClassInitMethodReturnedValue => {
                FatalErrorType::ClassInitMethodReturnedValue
            },
            FatalErrorType::RecursiveClassInitialization(a, b) => {
                FatalErrorType::RecursiveClassInitialization(a.clone(), b.clone())
            },
            FatalErrorType::MethodExecutionFailed(m) => FatalErrorType::MethodExecutionFailed(
                m.clone(),
            ),
            FatalErrorType::NotImplemented(w) => FatalErrorType::NotImplemented(*w),
            FatalErrorType::UnknownOpcode(o) => FatalErrorType::UnknownOpcode(*o),
            FatalErrorType::InvalidProgramCounter(p) => FatalErrorType::InvalidProgramCounter(*p),
            FatalErrorType::RequiredStackValueNotFound(w) => {
                FatalErrorType::RequiredStackValueNotFound(*w)
            },
            FatalErrorType::Exception(k) => FatalErrorType::Exception(*k),
        }
    }
}

/// A fatal condition, ready to be reported by the embedding program.
#[derive(Debug, PartialEq, Eq)]
pub struct FatalError {
    pub error: FatalErrorType,
}

impl FatalError {
    pub fn new(error: FatalErrorType) -> (r: Self)
        ensures
            r.error == error,
    {
        FatalError { error: error }
    }
}

/// Conditions that are reported but do not end a run.
#[derive(Debug, PartialEq, Eq)]
pub enum NonFatalErrorType {
    NotImplemented(&'static str),
}

/// A non-fatal condition, ready to be reported by the embedding program.
#[derive(Debug, PartialEq, Eq)]
pub struct NonFatalError {
    pub error: NonFatalErrorType,
}

impl NonFatalError {
    pub fn new(error: NonFatalErrorType) -> (r: Self)
        ensures
            r.error == error,
    {
        NonFatalError { error: error }
    }
}

} // verus!
