use crate::debug::DebugLevel;
use crate::search::first_index;
use vstd::prelude::*;

verus! {

/// Where the bytes of a class are kept: a class file, or an entry of an
/// archive.
#[derive(Debug, PartialEq, Eq)]
pub enum ClassLocation {
    ClassFile(String),
    JarFile(String, String),
}

impl Clone for ClassLocation {
    fn clone(&self) -> (r: Self)
        ensures
            r == *self,
    {
        match self {
            ClassLocation::ClassFile(path) => ClassLocation::ClassFile(path.clone()),
            ClassLocation::JarFile(archive, entry) => ClassLocation::JarFile(
                archive.clone(),
                entry.clone(),
            ),
        }
    }
}

/// The test that a lookup by class name applies to each entry.
pub open spec fn located_as(name: Seq<char>) -> spec_fn((String, ClassLocation)) -> bool {
    |entry: (String, ClassLocation)| entry.0@ == name
}

/// The position of the entry for the class `name`.
pub open spec fn entry_of(entries: Seq<(String, ClassLocation)>, name: Seq<char>) -> Option<int> {
    first_index(entries, located_as(name), 0)
}

/// The classes that can be loaded, each with the place of its bytes.
#[derive(Debug)]
pub struct ClassPath {
    classes: Vec<(String, ClassLocation)>,
    debug_level: DebugLevel,
}

impl View for ClassPath {
    type V = Seq<(String, ClassLocation)>;

    closed spec fn view(&self) -> Seq<(String, ClassLocation)> {
        self.classes@
    }
}

impl ClassPath {
    /// The level of diagnostic output that the class path was made with.
    pub closed spec fn spec_debug_level(&self) -> DebugLevel {
        self.debug_level
    }

    /// A class path that knows no class yet, and keeps the given level of
    /// diagnostic output.
    pub fn new(debug_level: DebugLevel) -> (r: Self)
        ensures
            r@ == Seq::<(String, ClassLocation)>::empty(),
            r.spec_debug_level() == debug_level,
    {
        ClassPath { classes: Vec::new(), debug_level }
    }

    /// The place recorded for the class `name`.
    pub open spec fn location(&self, name: Seq<char>) -> Option<ClassLocation> {
        match entry_of(self@, name) {
            Some(i) => Some(self@[i].1),
            None => None,
        }
    }

    fn index_of(&self, class: &str) -> (r: Option<usize>)
        ensures
            match r {
                Some(i) => entry_of(self@, class@) == Some(i as int) && i < self@.len(),
                None => entry_of(self@, class@) is None,
            },
    {
        let wanted = String::from_str(class);
        let mut i: usize = 0;
        while i < self.classes.len()
            invariant
                wanted@ == class@,
                first_index(self@, located_as(class@), 0) == first_index(
                    self@,
                    located_as(class@),
                    i as int,
                ),
            decreases self.classes.len() - i,
        {
            if self.classes[i].0 == wanted {
                return Some(i);
            }
            i = i + 1;
        }
        None
    }

    /// The place recorded for the class `class`.
    pub fn class_location_for_class(&self, class: &str) -> (r: Option<ClassLocation>)
        ensures
            r == self.location(class@),
    {
        match self.index_of(class) {
            Some(i) => Some(self.classes[i].1.clone()),
            None => None,
        }
    }

    /// Records `location` as the place of the class `name`, in place of what
    /// was recorded for it before.
    pub fn insert(&mut self, name: String, location: ClassLocation)
        ensures
            final(self)@ == (match entry_of(old(self)@, name@) {
                Some(i) => old(self)@.update(i, (name, location)),
                None => old(self)@.push((name, location)),
            }),
            final(self).spec_debug_level() == old(self).spec_debug_level(),
    {
        match self.index_of(name.as_str()) {
            Some(i) => {
                self.classes[i] = (name, location);
            },
            None => {
                self.classes.push((name, location));
            },
        }
    }

    /// Forgets the place recorded for the class `name`.
    pub fn remove(&mut self, name: &String)
        ensures
            final(self)@ == (match entry_of(old(self)@, name@) {
                Some(i) => old(self)@.remove(i),
                None => old(self)@,
            }),
            final(self).spec_debug_level() == old(self).spec_debug_level(),
    {
        match self.index_of(name.as_str()) {
            Some(i) => {
                self.classes.remove(i);
            },
            None => {},
        }
    }
}

} // verus!
