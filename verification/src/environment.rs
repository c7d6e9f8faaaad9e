use crate::classpath::{ClassLocation, ClassPath};
use vstd::prelude::*;

verus! {

/// What a run is started with: the class path and the arguments of the
/// program.
#[derive(Debug)]
pub struct Environment {
    pub classpath: ClassPath,
    pub arguments: Vec<String>,
}

impl Environment {
    /// The environment of a run with this class path and these arguments.
    pub fn new(classpath: ClassPath, arguments: Vec<String>) -> (r: Self)
        ensures
            r.classpath == classpath,
            r.arguments == arguments,
    {
        Environment { classpath, arguments }
    }

    /// The place that the class path records for the class `class`.
    pub fn class_location_for_class(&self, class: &str) -> (r: Option<ClassLocation>)
        ensures
            r == self.classpath.location(class@),
    {
        self.classpath.class_location_for_class(class)
    }
}

} // verus!
