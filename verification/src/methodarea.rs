use crate::bytes::{be16, text_of};
use crate::class::{after_pool, class_at, class_parses, Class, ClassInitializationStatus};
use crate::classpath::{entry_of, ClassLocation};
use crate::constantpool::cursor;
use crate::debug::DebugLevel;
use crate::environment::Environment;
use crate::search::first_index;
use crate::typevalues::JvmValue;
use vstd::prelude::*;
use vstd::utf8::encode_utf8;

verus! {

/// A class of the method area as the interpreter sees it.
pub struct LoadedClassView {
    pub lc: ClassInitializationStatus,
    pub class: Class,
    pub name: String,
    pub statics: Seq<Option<JvmValue>>,
}

/// A class of the method area: the class as loaded, which never changes;
/// its name; how far its initialization has come; and the values of its
/// static fields, one slot for each field of its field table, empty until
/// first written.
#[derive(Debug)]
pub struct LoadedClass {
    pub lc: ClassInitializationStatus,
    pub class: Class,
    pub name: String,
    pub statics: Vec<Option<JvmValue>>,
}

impl View for LoadedClass {
    type V = LoadedClassView;

    open spec fn view(&self) -> LoadedClassView {
        LoadedClassView {
            lc: self.lc,
            class: self.class,
            name: self.name,
            statics: self.statics@,
        }
    }
}

/// A class as it enters the method area: not initialized, no static field
/// written.
pub open spec fn fresh(class: Class, name: String) -> LoadedClassView {
    LoadedClassView {
        lc: ClassInitializationStatus::VerifiedPreparedNotInitialized,
        class,
        name,
        statics: Seq::new(class.fields@.len(), |i: int| None::<JvmValue>),
    }
}

impl LoadedClass {
    /// Wraps a class for the method area. A class whose own name cannot be
    /// found in its constant pool is turned down.
    pub fn new(class: Class) -> (r: Option<Self>)
        ensures
            match class.name() {
                Some(name) => r matches Some(l) && l@ == fresh(class, name),
                None => r is None,
            },
    {
        match class.get_class_name() {
            Some(name) => {
                let count: usize = class.get_fields_ref().fields_count() as usize;
                let mut statics: Vec<Option<JvmValue>> = Vec::new();
                let mut i: usize = 0;
                while i < count
                    invariant
                        i <= count,
                        statics@ == Seq::new(i as nat, |k: int| None::<JvmValue>),
                    decreases count - i,
                {
                    statics.push(None);
                    i = i + 1;
                    assert(statics@ =~= Seq::new(i as nat, |k: int| None::<JvmValue>));
                }
                Some(
                    LoadedClass {
                        lc: ClassInitializationStatus::VerifiedPreparedNotInitialized,
                        class,
                        name,
                        statics,
                    },
                )
            },
            None => None,
        }
    }
}

/// The tag of the entry in slot `i` of a class file's constant pool, where
/// that slot holds an entry.
pub open spec fn slot_tag(b: Seq<u8>, i: int) -> Option<u8> {
    if 0 < i < be16(b, 8) {
        match cursor(b, 8, i as nat) {
            Some((off, false)) => Some(b[off]),
            _ => None,
        }
    } else {
        None
    }
}

/// The first two-byte number of the entry in slot `i` of a class file's
/// constant pool.
pub open spec fn slot_index(b: Seq<u8>, i: int) -> int {
    be16(b, cursor(b, 8, i as nat).unwrap().0 + 1)
}

/// Whether a class file says what its class is called: the slot that it
/// gives for its class holds a class entry, and that entry's name slot
/// holds a text.
pub open spec fn names_itself(b: Seq<u8>) -> bool {
    let this = be16(b, after_pool(b) + 2);
    slot_tag(b, this) == Some(7u8) && slot_tag(b, slot_index(b, this)) == Some(1u8)
}

/// The name that a class file gives its class: the text in the name slot of
/// the class entry that the file gives for its class.
pub open spec fn own_name(b: Seq<u8>) -> Seq<char> {
    let this = be16(b, after_pool(b) + 2);
    let off = cursor(b, 8, slot_index(b, this) as nat).unwrap().0;
    text_of(b.subrange(off + 3, off + 3 + be16(b, off + 1)))
}

/// A class read from a class file has a name exactly when the file says
/// what its class is called, and then it has the name that the file gives.
pub proof fn lemma_name_from_bytes(c: Class, b: Seq<u8>)
    requires
        class_parses(b),
        class_at(c, b),
    ensures
        c.name() is Some <==> names_itself(b),
        c.name() matches Some(name) ==> name@ == own_name(b),
{
    let this = be16(b, after_pool(b) + 2);
    let pool = c.constant_pool;
    if 0 < this < be16(b, 8) {
        assert(crate::constantpool::slot_holds(pool@[this], b, 8, this));
        let ni = slot_index(b, this);
        if 0 < ni < be16(b, 8) {
            assert(crate::constantpool::slot_holds(pool@[ni], b, 8, ni));
        }
    } else if this == 0 && 0 < be16(b, 8) {
        assert(crate::constantpool::slot_holds(pool@[0], b, 8, 0));
    }
    if c.name() is Some {
        let ni = pool@[this]->Class_1 as int;
        if ni == 0 {
            assert(crate::constantpool::slot_holds(pool@[0], b, 8, 0));
        }
    }
}

/// What the method area holds: the loaded classes, each known by its
/// position, which is its handle; and the class path.
pub struct AreaView {
    pub classes: Seq<LoadedClassView>,
    pub classpath: Seq<(String, ClassLocation)>,
}

/// The test that a lookup by class name applies to each loaded class.
pub open spec fn class_called(name: Seq<char>) -> spec_fn(LoadedClassView) -> bool {
    |l: LoadedClassView| l.name@ == name
}

/// Where a class can be had from.
#[derive(Debug, PartialEq, Eq)]
pub enum Located {
    /// It is loaded, under this handle.
    Loaded(usize),
    /// It is not loaded; its bytes are kept at this place.
    Fetch(ClassLocation),
    /// It is not loaded, and the class path does not know it.
    Unavailable,
}

/// The outcome of a search up the superclass chain.
#[derive(Debug, PartialEq, Eq)]
pub enum Lookup {
    /// Found in the class with this handle, at this position of its table.
    Found(usize, usize),
    /// The search came to a superclass, of this name, that is not loaded.
    Missing(String),
    /// The chain ended, or went round in a circle, before anything matched.
    Absent,
}

/// The outcome of a subtype test.
#[derive(Debug, PartialEq, Eq)]
pub enum Ancestry {
    Yes,
    No,
    /// The test came to a superclass, of this name, that is not loaded.
    Missing(String),
}

/// What a thread that asks for a class to be initialized must do.
#[derive(Clone, Copy, Debug, PartialEq, Eq, Structural)]
pub enum InitDecision {
    /// Nothing: the class is initialized, or this thread is initializing it.
    Proceed,
    /// Run the class initializer, then report that it finished: this thread
    /// has become the one that initializes the class.
    Run,
    /// Wait: another thread is initializing the class.
    Wait,
    /// Give up: an earlier initialization of the class failed.
    Failed,
}

/// What a request for initialization is answered with, for a class in state
/// `status`; `own` says whether the asking thread is the one initializing it.
pub open spec fn init_decision(status: ClassInitializationStatus, own: bool) -> InitDecision {
    match status {
        ClassInitializationStatus::Initialized => InitDecision::Proceed,
        ClassInitializationStatus::BeingInitialized => if own {
            InitDecision::Proceed
        } else {
            InitDecision::Wait
        },
        ClassInitializationStatus::VerifiedPreparedNotInitialized => InitDecision::Run,
        ClassInitializationStatus::Error => InitDecision::Failed,
    }
}

/// The state of a class after a request for initialization was answered.
pub open spec fn status_after_request(status: ClassInitializationStatus) -> ClassInitializationStatus {
    match status {
        ClassInitializationStatus::VerifiedPreparedNotInitialized => {
            ClassInitializationStatus::BeingInitialized
        },
        _ => status,
    }
}

/// The state of a class after its initializer finished.
pub open spec fn status_after_finish(status: ClassInitializationStatus) -> ClassInitializationStatus {
    match status {
        ClassInitializationStatus::BeingInitialized => ClassInitializationStatus::Initialized,
        _ => status,
    }
}

/// The state of a class after its initializer failed.
pub open spec fn status_after_failure(status: ClassInitializationStatus) -> ClassInitializationStatus {
    match status {
        ClassInitializationStatus::BeingInitialized => ClassInitializationStatus::Error,
        _ => status,
    }
}

/// The number of bytes of a class name that name the package: all up to
/// and with the last `/` among the first `n` bytes, none where there is no
/// `/`.
pub open spec fn package_length(name: Seq<u8>, n: int) -> int
    decreases n,
{
    if n <= 0 {
        0
    } else if name[n - 1] == 47 {
        n
    } else {
        package_length(name, n - 1)
    }
}

/// The part of a class name that names the package.
pub open spec fn package_of(name: Seq<char>) -> Seq<u8> {
    let bytes = encode_utf8(name);
    bytes.subrange(0, package_length(bytes, bytes.len() as int))
}

fn package_prefix(name: &[u8]) -> (r: usize)
    ensures
        r == package_length(name@, name@.len() as int),
        r <= name@.len(),
{
    let mut n: usize = name.len();
    while n > 0 && name[n - 1] != 47
        invariant
            n <= name@.len(),
            package_length(name@, name@.len() as int) == package_length(name@, n as int),
        decreases n,
    {
        n = n - 1;
    }
    n
}

/// Whether two classes, given by name, are in the same package.
pub fn same_package(a: &String, b: &String) -> (r: bool)
    ensures
        r == (package_of(a@) == package_of(b@)),
{
    let x = a.as_str().as_bytes();
    let y = b.as_str().as_bytes();
    let n = package_prefix(x);
    if n != package_prefix(y) {
        return false;
    }
    let mut i: usize = 0;
    while i < n
        invariant
            i <= n <= x@.len(),
            n <= y@.len(),
            x@ == encode_utf8(a@),
            y@ == encode_utf8(b@),
            n == package_length(x@, x@.len() as int),
            n == package_length(y@, y@.len() as int),
            forall|j: int| 0 <= j < i ==> x@[j] == y@[j],
        decreases n - i,
    {
        if x[i] != y[i] {
            assert(package_of(a@)[i as int] != package_of(b@)[i as int]);
            return false;
        }
        i = i + 1;
    }
    assert(package_of(a@) =~= package_of(b@));
    true
}

/// Whether a declaration with these access flags, in the class `declaring`,
/// can be selected as the method that a virtual call runs on an object of
/// the class `receiver`: it is not private, and it is public or protected,
/// or else has package access and is declared in the receiver's package.
pub open spec fn overrides(access_flags: u16, declaring: Seq<char>, receiver: Seq<char>) -> bool {
    access_flags & 0x0002 == 0 && (access_flags & 0x0001 != 0 || access_flags & 0x0004 != 0
        || package_of(declaring) == package_of(receiver))
}

impl AreaView {
    /// The handle of the class `name`.
    pub open spec fn class_id(self, name: Seq<char>) -> Option<int> {
        first_index(self.classes, class_called(name), 0)
    }

    /// Whether `id` is the handle of a loaded class.
    pub open spec fn has_class(self, id: usize) -> bool {
        id < self.classes.len()
    }

    /// The class with handle `id`.
    pub open spec fn entry(self, id: usize) -> LoadedClassView {
        self.classes[id as int]
    }

    /// Where the class `name` can be had from.
    pub open spec fn located(self, name: Seq<char>) -> Located {
        match self.class_id(name) {
            Some(id) => Located::Loaded(id as usize),
            None => match entry_of(self.classpath, name) {
                Some(i) => Located::Fetch(self.classpath[i].1),
                None => Located::Unavailable,
            },
        }
    }

    /// The name of the class `id`, as the receiver's class of a selection.
    pub open spec fn receiver(self, id: usize) -> Option<Seq<char>> {
        if self.has_class(id) {
            Some(self.entry(id).name@)
        } else {
            Some(Seq::empty())
        }
    }

    /// The search for a method `name` with descriptor `descriptor`, from
    /// the class `from` up its superclass chain, through at most `fuel`
    /// classes. The first class that declares such a method ends the
    /// search. Where the search selects the method for a virtual call,
    /// `selecting` names the class of the receiver, and only a declaration
    /// that can override counts: see `overrides`.
    /// Only superclasses are searched: the interfaces that a class
    /// implements are not, so a method that only an interface declares is
    /// not found.
    pub open spec fn find_method(
        self,
        from: int,
        name: Seq<char>,
        descriptor: Seq<char>,
        selecting: Option<Seq<char>>,
        fuel: nat,
    ) -> Lookup
        decreases fuel,
    {
        if fuel == 0 || from < 0 || from >= self.classes.len() {
            Lookup::Absent
        } else {
            let class = self.classes[from].class;
            let here = class.method_position(name, descriptor);
            if here is Some && (selecting is None || overrides(
                class.methods@[here.unwrap()].access_flags,
                self.classes[from].name@,
                selecting.unwrap(),
            )) {
                Lookup::Found(from as usize, here.unwrap() as usize)
            } else {
                match class.superclass() {
                    None => Lookup::Absent,
                    Some(parent) => match self.class_id(parent@) {
                        None => Lookup::Missing(parent),
                        Some(p) => self.find_method(
                            p,
                            name,
                            descriptor,
                            selecting,
                            (fuel - 1) as nat,
                        ),
                    },
                }
            }
        }
    }

    /// The search for the class that declares the field `name` with
    /// descriptor `descriptor`, from the class `from` up its superclass
    /// chain, through at most `fuel` classes.
    pub open spec fn find_field(self, from: int, name: Seq<char>, descriptor: Seq<char>, fuel: nat) -> Lookup
        decreases fuel,
    {
        if fuel == 0 || from < 0 || from >= self.classes.len() {
            Lookup::Absent
        } else {
            let class = self.classes[from].class;
            match class.field_position(name, descriptor) {
                Some(i) => Lookup::Found(from as usize, i as usize),
                None => match class.superclass() {
                    None => Lookup::Absent,
                    Some(parent) => match self.class_id(parent@) {
                        None => Lookup::Missing(parent),
                        Some(p) => self.find_field(p, name, descriptor, (fuel - 1) as nat),
                    },
                },
            }
        }
    }

    /// Whether the class `from` is the class `name` or, through at most
    /// `fuel` classes of its superclass chain, a subclass of it.
    pub open spec fn ancestry(self, from: int, name: Seq<char>, fuel: nat) -> Ancestry
        decreases fuel,
    {
        if fuel == 0 || from < 0 || from >= self.classes.len() {
            Ancestry::No
        } else if self.classes[from].name@ == name {
            Ancestry::Yes
        } else {
            match self.classes[from].class.superclass() {
                None => Ancestry::No,
                Some(parent) => match self.class_id(parent@) {
                    None => Ancestry::Missing(parent),
                    Some(p) => self.ancestry(p, name, (fuel - 1) as nat),
                },
            }
        }
    }

    /// The method area with the class `id` in state `lc`.
    pub open spec fn with_status(self, id: usize, lc: ClassInitializationStatus) -> AreaView {
        AreaView {
            classes: self.classes.update(
                id as int,
                LoadedClassView { lc, ..self.classes[id as int] },
            ),
            ..self
        }
    }

    /// The method area after `value` is written to the static field at
    /// position `field` of the class `id`.
    pub open spec fn with_static(self, id: usize, field: usize, value: JvmValue) -> AreaView {
        AreaView {
            classes: self.classes.update(
                id as int,
                LoadedClassView {
                    statics: self.classes[id as int].statics.update(field as int, Some(value)),
                    ..self.classes[id as int]
                },
            ),
            ..self
        }
    }

    /// The method area after the class `entry` came in: in the place of the
    /// class of the same name where there is one, as a new class otherwise.
    pub open spec fn with_class(self, entry: LoadedClassView) -> AreaView {
        AreaView {
            classes: match self.class_id(entry.name@) {
                Some(i) => self.classes.update(i, entry),
                None => self.classes.push(entry),
            },
            ..self
        }
    }

    /// The method area after the class path forgot the class `name`.
    pub open spec fn without_location(self, name: Seq<char>) -> AreaView {
        AreaView {
            classpath: match entry_of(self.classpath, name) {
                Some(i) => self.classpath.remove(i),
                None => self.classpath,
            },
            ..self
        }
    }
}

/// What `MethodArea::maybe_load_class` does to the method area, given the
/// bytes that were found for the class `name` (`None`: none were found).
///
/// A class that is loaded already stays, and nothing changes. Otherwise the
/// class enters the method area, not initialized, if the bytes are a class
/// file that gives its class that name; if they are not, the class path
/// forgets the class, so that it is not asked for again.
pub open spec fn load_effect(before: AreaView, after: AreaView, name: Seq<char>, bytes: Option<Seq<u8>>) -> bool {
    if before.class_id(name) is Some {
        after == before
    } else if bytes is Some && class_parses(bytes.unwrap()) && names_itself(bytes.unwrap())
        && own_name(bytes.unwrap()) == name {
        let entry = after.classes.last();
        &&& after.classes.len() == before.classes.len() + 1
        &&& class_at(entry.class, bytes.unwrap())
        &&& entry.class.name() == Some(entry.name)
        &&& entry.name@ == name
        &&& entry == fresh(entry.class, entry.name)
        &&& after == before.with_class(entry)
    } else {
        after == before.without_location(name)
    }
}

/// The classes that are loaded, and the class path from which more can come.
#[derive(Debug)]
pub struct MethodArea {
    debug_level: DebugLevel,
    environment: Environment,
    classes: Vec<LoadedClass>,
}

impl View for MethodArea {
    type V = AreaView;

    closed spec fn view(&self) -> AreaView {
        AreaView {
            classes: self.classes@.map_values(|l: LoadedClass| l@),
            classpath: self.environment.classpath@,
        }
    }
}

impl MethodArea {
    /// A method area without classes, with the class path of the given
    /// environment.
    pub fn new(debug_level: DebugLevel, environment: Environment) -> (r: Self)
        ensures
            r@ == (AreaView { classes: Seq::empty(), classpath: environment.classpath@ }),
    {
        let r = Self { debug_level, environment: environment, classes: Vec::new() };
        assert(r@.classes =~= Seq::empty());
        r
    }

    /// The number of loaded classes.
    pub fn class_count(&self) -> (r: usize)
        ensures
            r == self@.classes.len(),
    {
        self.classes.len()
    }

    /// The handle of the class `class_name`.
    pub fn class_id(&self, class_name: &String) -> (r: Option<usize>)
        ensures
            match r {
                Some(id) => self@.class_id(class_name@) == Some(id as int) && self@.has_class(id),
                None => self@.class_id(class_name@) is None,
            },
    {
        let mut i: usize = 0;
        while i < self.classes.len()
            invariant
                first_index(self@.classes, class_called(class_name@), 0) == first_index(
                    self@.classes,
                    class_called(class_name@),
                    i as int,
                ),
            decreases self.classes.len() - i,
        {
            if self.classes[i].name == *class_name {
                return Some(i);
            }
            i = i + 1;
        }
        None
    }

    /// The class with handle `id`.
    pub fn loaded(&self, id: usize) -> (r: Option<&LoadedClass>)
        ensures
            match r {
                Some(l) => self@.has_class(id) && l@ == self@.classes[id as int],
                None => !self@.has_class(id),
            },
    {
        if id < self.classes.len() {
            Some(&self.classes[id])
        } else {
            None
        }
    }

    /// The class `class_name`, where it is loaded.
    pub fn get_class_rc(&self, class_name: &String) -> (r: Option<&Class>)
        ensures
            match r {
                Some(c) => self@.class_id(class_name@) is Some && *c == self@.classes[self@.class_id(
                    class_name@,
                ).unwrap()].class,
                None => self@.class_id(class_name@) is None,
            },
    {
        match self.class_id(class_name) {
            Some(id) => Some(&self.classes[id].class),
            None => None,
        }
    }

    /// The class `class_name` with its state, where it is loaded.
    pub fn get_loaded_class(&self, class_name: &String) -> (r: Option<&LoadedClass>)
        ensures
            match r {
                Some(l) => self@.class_id(class_name@) is Some && l@ == self@.classes[self@.class_id(
                    class_name@,
                ).unwrap()],
                None => self@.class_id(class_name@) is None,
            },
    {
        match self.class_id(class_name) {
            Some(id) => Some(&self.classes[id]),
            None => None,
        }
    }

    /// Where the class `class_name` can be had from.
    pub fn locate(&self, class_name: &String) -> (r: Located)
        ensures
            r == self@.located(class_name@),
    {
        match self.class_id(class_name) {
            Some(id) => Located::Loaded(id),
            None => match self.environment.class_location_for_class(class_name.as_str()) {
                Some(location) => Located::Fetch(location),
                None => Located::Unavailable,
            },
        }
    }

    fn insert(&mut self, entry: LoadedClass) -> (id: usize)
        ensures
            final(self)@ == old(self)@.with_class(entry@),
            final(self)@.has_class(id),
            final(self)@.classes[id as int] == entry@,
            id as int == (match old(self)@.class_id(entry@.name@) {
                Some(i) => i,
                None => old(self)@.classes.len() as int,
            }),
    {
        match self.class_id(&entry.name) {
            Some(i) => {
                self.classes[i] = entry;
                assert(self@.classes =~= old(self)@.with_class(entry@).classes);
                i
            },
            None => {
                let id = self.classes.len();
                self.classes.push(entry);
                assert(self@.classes =~= old(self)@.with_class(entry@).classes);
                id
            },
        }
    }

    /// Reads a class from the bytes of its class file and takes it into the
    /// method area, not initialized, in the place of a class of the same
    /// name if there is one. Gives out the handle of the class.
    ///
    /// Fails, and changes nothing, exactly when the bytes are no readable
    /// class file or do not say what the class is called.
    pub fn load_class_from_bytes(&mut self, class_bytes: Vec<u8>) -> (r: Option<usize>)
        ensures
            r is Some <==> class_parses(class_bytes@) && names_itself(class_bytes@),
            match r {
                Some(id) => {
                    let entry = final(self)@.classes[id as int];
                    &&& final(self)@.has_class(id)
                    &&& class_at(entry.class, class_bytes@)
                    &&& entry.class.name() == Some(entry.name)
                    &&& entry.name@ == own_name(class_bytes@)
                    &&& entry == fresh(entry.class, entry.name)
                    &&& final(self)@ == old(self)@.with_class(entry)
                },
                None => final(self)@ == old(self)@,
            },
    {
        match Class::load_from_bytes(class_bytes) {
            Some(class) => {
                proof {
                    lemma_name_from_bytes(class, class_bytes@);
                }
                match LoadedClass::new(class) {
                    Some(entry) => Some(self.insert(entry)),
                    None => None,
                }
            },
            None => None,
        }
    }

    /// Makes sure, as far as the bytes allow, that the class `class_name` is
    /// loaded. `bytes` is what was read from the place that the class path
    /// gives for the class, `None` where nothing could be read.
    pub fn maybe_load_class(&mut self, class_name: &String, bytes: Option<Vec<u8>>)
        ensures
            load_effect(
                old(self)@,
                final(self)@,
                class_name@,
                match bytes {
                    Some(b) => Some(b@),
                    None => None,
                },
            ),
    {
        if self.class_id(class_name).is_some() {
            return ;
        }
        match bytes {
            Some(b) => {
                match Class::load_from_bytes(b) {
                    Some(class) => {
                        proof {
                            lemma_name_from_bytes(class, b@);
                        }
                        match LoadedClass::new(class) {
                            Some(entry) => {
                                if entry.name == *class_name {
                                    let ghost e = entry@;
                                    let id = self.insert(entry);
                                    assert(self@.classes.last() == e);
                                    return ;
                                }
                            },
                            None => {},
                        }
                    },
                    None => {},
                }
            },
            None => {},
        }
        self.environment.classpath.remove(class_name);
        assert(self@.classes =~= old(self)@.classes);
    }

    /// Looks for the method `method_name` with descriptor `method_type` in
    /// the class `invoked_class` and then up its superclass chain; the
    /// first class that declares it ends the search. Interfaces are not
    /// searched.
    pub fn resolve_method(&self, invoked_class: usize, method_name: &String, method_type: &String) -> (r:
        Lookup)
        ensures
            r == self@.find_method(
                invoked_class as int,
                method_name@,
                method_type@,
                None,
                self@.classes.len(),
            ),
            r matches Lookup::Found(class, method) ==> self@.has_class(class) && method
                < self@.entry(class).class.methods@.len(),
    {
        self.walk_methods(invoked_class, method_name, method_type, None, self.classes.len())
    }

    /// Looks for the method that a virtual call of `method_name` with
    /// descriptor `method_type` runs on an object of the class
    /// `invoked_class`: the search goes from that class up its superclass
    /// chain, and the first declaration that is not private and is public,
    /// protected or, with package access, declared in the package of
    /// `invoked_class` is selected. Interfaces are not searched.
    pub fn select_method(&self, invoked_class: usize, method_name: &String, method_type: &String) -> (r:
        Lookup)
        ensures
            r == self@.find_method(
                invoked_class as int,
                method_name@,
                method_type@,
                self@.receiver(invoked_class),
                self@.classes.len(),
            ),
            r matches Lookup::Found(class, method) ==> self@.has_class(class) && method
                < self@.entry(class).class.methods@.len(),
    {
        if invoked_class < self.classes.len() {
            let receiver = self.classes[invoked_class].name.clone();
            self.walk_methods(
                invoked_class,
                method_name,
                method_type,
                Some(&receiver),
                self.classes.len(),
            )
        } else {
            Lookup::Absent
        }
    }

    fn walk_methods(
        &self,
        from: usize,
        method_name: &String,
        method_type: &String,
        selecting: Option<&String>,
        fuel: usize,
    ) -> (r: Lookup)
        ensures
            r == self@.find_method(
                from as int,
                method_name@,
                method_type@,
                match selecting {
                    Some(receiver) => Some(receiver@),
                    None => None,
                },
                fuel as nat,
            ),
            r matches Lookup::Found(class, method) ==> self@.has_class(class) && method
                < self@.entry(class).class.methods@.len(),
        decreases fuel,
    {
        if fuel == 0 || from >= self.classes.len() {
            return Lookup::Absent;
        }
        let class = &self.classes[from].class;
        match class.get_methods_ref().index_of(
            method_name,
            method_type,
            class.get_constant_pool_ref(),
        ) {
            Some(m) => {
                let flags = class.get_methods_ref().get(m).access_flags;
                let counts = match selecting {
                    None => true,
                    Some(receiver) => flags & 0x0002 == 0 && (flags & 0x0001 != 0 || flags
                        & 0x0004 != 0 || same_package(&self.classes[from].name, receiver)),
                };
                if counts {
                    return Lookup::Found(from, m);
                }
            },
            None => {},
        }
        match class.resolve_superclass() {
            None => Lookup::Absent,
            Some(parent) => match self.class_id(&parent) {
                None => Lookup::Missing(parent),
                Some(p) => self.walk_methods(p, method_name, method_type, selecting, fuel - 1),
            },
        }
    }

    /// Looks for the class that declares the field `field_name` with
    /// descriptor `field_type`: the class `field_class`, or the nearest
    /// class up its superclass chain that declares the field.
    pub fn resolve_field(&self, field_class: usize, field_name: &String, field_type: &String) -> (r:
        Lookup)
        ensures
            r == self@.find_field(
                field_class as int,
                field_name@,
                field_type@,
                self@.classes.len(),
            ),
            r matches Lookup::Found(class, field) ==> self@.has_class(class) && field
                < self@.entry(class).class.fields@.len(),
    {
        self.walk_fields(field_class, field_name, field_type, self.classes.len())
    }

    fn walk_fields(&self, from: usize, field_name: &String, field_type: &String, fuel: usize) -> (r:
        Lookup)
        ensures
            r == self@.find_field(from as int, field_name@, field_type@, fuel as nat),
            r matches Lookup::Found(class, field) ==> self@.has_class(class) && field
                < self@.entry(class).class.fields@.len(),
        decreases fuel,
    {
        if fuel == 0 || from >= self.classes.len() {
            return Lookup::Absent;
        }
        let class = &self.classes[from].class;
        match class.get_fields_ref().index_of(field_name, field_type, class.get_constant_pool_ref()) {
            Some(i) => Lookup::Found(from, i),
            None => match class.resolve_superclass() {
                None => Lookup::Absent,
                Some(parent) => match self.class_id(&parent) {
                    None => Lookup::Missing(parent),
                    Some(p) => self.walk_fields(p, field_name, field_type, fuel - 1),
                },
            },
        }
    }

    /// Whether the class `class` is the class `wanted` or a subclass of it.
    pub fn is_type_of(&self, class: usize, wanted: &String) -> (r: Ancestry)
        ensures
            r == self@.ancestry(class as int, wanted@, self@.classes.len()),
    {
        self.walk_ancestry(class, wanted, self.classes.len())
    }

    fn walk_ancestry(&self, from: usize, wanted: &String, fuel: usize) -> (r: Ancestry)
        ensures
            r == self@.ancestry(from as int, wanted@, fuel as nat),
        decreases fuel,
    {
        if fuel == 0 || from >= self.classes.len() {
            return Ancestry::No;
        }
        if self.classes[from].name == *wanted {
            return Ancestry::Yes;
        }
        match self.classes[from].class.resolve_superclass() {
            None => Ancestry::No,
            Some(parent) => match self.class_id(&parent) {
                None => Ancestry::Missing(parent),
                Some(p) => self.walk_ancestry(p, wanted, fuel - 1),
            },
        }
    }

    /// Answers a thread's request to have the class `id` initialized; `own`
    /// says whether that thread is already initializing the class. A class
    /// that no thread has begun to initialize becomes the asking thread's
    /// to initialize.
    pub fn request_initialization(&mut self, id: usize, own: bool) -> (r: InitDecision)
        requires
            old(self)@.has_class(id),
        ensures
            r == init_decision(old(self)@.classes[id as int].lc, own),
            final(self)@ == old(self)@.with_status(
                id,
                status_after_request(old(self)@.classes[id as int].lc),
            ),
    {
        let r = match self.classes[id].lc {
            ClassInitializationStatus::Initialized => InitDecision::Proceed,
            ClassInitializationStatus::BeingInitialized => if own {
                InitDecision::Proceed
            } else {
                InitDecision::Wait
            },
            ClassInitializationStatus::VerifiedPreparedNotInitialized => {
                self.classes[id].lc = ClassInitializationStatus::BeingInitialized;
                InitDecision::Run
            },
            ClassInitializationStatus::Error => InitDecision::Failed,
        };
        assert(self@.classes =~= old(self)@.with_status(
            id,
            status_after_request(old(self)@.classes[id as int].lc),
        ).classes);
        r
    }

    /// Records that the initializer of the class `id` finished: a class
    /// that was being initialized is initialized now.
    pub fn finish_initialization(&mut self, id: usize)
        requires
            old(self)@.has_class(id),
        ensures
            final(self)@ == old(self)@.with_status(
                id,
                status_after_finish(old(self)@.classes[id as int].lc),
            ),
    {
        match self.classes[id].lc {
            ClassInitializationStatus::BeingInitialized => {
                self.classes[id].lc = ClassInitializationStatus::Initialized;
            },
            _ => {},
        }
        assert(self@.classes =~= old(self)@.with_status(
            id,
            status_after_finish(old(self)@.classes[id as int].lc),
        ).classes);
    }

    /// Records that the initializer of the class `id` failed: a class that
    /// was being initialized is in error now.
    pub fn fail_initialization(&mut self, id: usize)
        requires
            old(self)@.has_class(id),
        ensures
            final(self)@ == old(self)@.with_status(
                id,
                status_after_failure(old(self)@.classes[id as int].lc),
            ),
    {
        match self.classes[id].lc {
            ClassInitializationStatus::BeingInitialized => {
                self.classes[id].lc = ClassInitializationStatus::Error;
            },
            _ => {},
        }
        assert(self@.classes =~= old(self)@.with_status(
            id,
            status_after_failure(old(self)@.classes[id as int].lc),
        ).classes);
    }

    /// The value of the static field at position `field` of the class `id`.
    pub fn get_static(&self, id: usize, field: usize) -> (r: Option<JvmValue>)
        requires
            self@.has_class(id),
            field < self@.classes[id as int].statics.len(),
        ensures
            r == self@.classes[id as int].statics[field as int],
    {
        match &self.classes[id].statics[field] {
            Some(v) => Some(v.clone()),
            None => None,
        }
    }

    /// Writes `value` to the static field at position `field` of the class
    /// `id`.
    pub fn put_static(&mut self, id: usize, field: usize, value: JvmValue)
        requires
            old(self)@.has_class(id),
            field < old(self)@.classes[id as int].statics.len(),
        ensures
            final(self)@ == old(self)@.with_static(id, field, value),
    {
        self.classes[id].statics[field] = Some(value);
        assert(self@.classes =~= old(self)@.with_static(id, field, value).classes);
    }
}

/// A class that has just come into the method area is found there by its
/// name.
pub proof fn lemma_class_is_found(area: AreaView, entry: LoadedClassView)
    ensures
        area.with_class(entry).class_id(entry.name@) is Some,
{
    let p = class_called(entry.name@);
    let after = area.with_class(entry).classes;
    crate::search::lemma_first_index(area.classes, p, 0);
    crate::search::lemma_first_index(after, p, 0);
    match area.class_id(entry.name@) {
        Some(i) => {
            assert(p(after[i]));
        },
        None => {
            assert(p(after[area.classes.len() as int]));
        },
    }
}

/// Loading is idempotent: a second call of `maybe_load_class` for the same
/// class, with the same bytes, leaves the loaded classes as the first call
/// left them.
pub proof fn lemma_maybe_load_idempotent(
    before: AreaView,
    once: AreaView,
    twice: AreaView,
    name: Seq<char>,
    bytes: Option<Seq<u8>>,
)
    requires
        load_effect(before, once, name, bytes),
        load_effect(once, twice, name, bytes),
    ensures
        twice.classes == once.classes,
{
    if before.class_id(name) is Some {
    } else if bytes is Some && class_parses(bytes.unwrap()) && names_itself(bytes.unwrap())
        && own_name(bytes.unwrap()) == name {
        lemma_class_is_found(before, once.classes.last());
    } else {
    }
}

/// Whether two method areas hold the same classes under the same names, in
/// the same order: they may differ in how far the classes are initialized,
/// in what their static fields hold, and in their class paths.
pub open spec fn same_hierarchy(a: AreaView, b: AreaView) -> bool {
    &&& a.classes.len() == b.classes.len()
    &&& forall|i: int|
        0 <= i < a.classes.len() ==> (#[trigger] a.classes[i]).class == b.classes[i].class
            && a.classes[i].name == b.classes[i].name
}

/// In method areas with the same hierarchy, a name leads to the same class.
pub proof fn lemma_same_hierarchy_same_id(a: AreaView, b: AreaView, name: Seq<char>, from: int)
    requires
        same_hierarchy(a, b),
        0 <= from,
    ensures
        first_index(a.classes, class_called(name), from) == first_index(
            b.classes,
            class_called(name),
            from,
        ),
    decreases a.classes.len() - from,
{
    if from < a.classes.len() {
        assert(a.classes[from].name == b.classes[from].name);
        lemma_same_hierarchy_same_id(a, b, name, from + 1);
    }
}

/// Method lookup and override selection are determined by the hierarchy
/// and the class to start from: in method areas with the same hierarchy,
/// the same search from the same class has the same outcome, whatever else
/// differs.
pub proof fn lemma_selection_deterministic(
    a: AreaView,
    b: AreaView,
    from: int,
    name: Seq<char>,
    descriptor: Seq<char>,
    selecting: Option<Seq<char>>,
    fuel: nat,
)
    requires
        same_hierarchy(a, b),
    ensures
        a.find_method(from, name, descriptor, selecting, fuel) == b.find_method(
            from,
            name,
            descriptor,
            selecting,
            fuel,
        ),
    decreases fuel,
{
    if fuel == 0 || from < 0 || from >= a.classes.len() {
    } else {
        assert(a.classes[from].class == b.classes[from].class);
        match a.classes[from].class.superclass() {
            None => {},
            Some(parent) => {
                lemma_same_hierarchy_same_id(a, b, parent@, 0);
                match a.class_id(parent@) {
                    None => {},
                    Some(p) => {
                        lemma_selection_deterministic(
                            a,
                            b,
                            p,
                            name,
                            descriptor,
                            selecting,
                            (fuel - 1) as nat,
                        );
                    },
                }
            },
        }
    }
}

/// In method areas with the same hierarchy, the search for the class that
/// declares a field has the same outcome.
pub proof fn lemma_field_lookup_deterministic(
    a: AreaView,
    b: AreaView,
    from: int,
    name: Seq<char>,
    descriptor: Seq<char>,
    fuel: nat,
)
    requires
        same_hierarchy(a, b),
    ensures
        a.find_field(from, name, descriptor, fuel) == b.find_field(from, name, descriptor, fuel),
    decreases fuel,
{
    if fuel == 0 || from < 0 || from >= a.classes.len() {
    } else {
        assert(a.classes[from].class == b.classes[from].class);
        match a.classes[from].class.superclass() {
            None => {},
            Some(parent) => {
                lemma_same_hierarchy_same_id(a, b, parent@, 0);
                match a.class_id(parent@) {
                    None => {},
                    Some(p) => {
                        lemma_field_lookup_deterministic(
                            a,
                            b,
                            p,
                            name,
                            descriptor,
                            (fuel - 1) as nat,
                        );
                    },
                }
            },
        }
    }
}

/// What can happen to the initialization of one class: a thread asks for
/// the class to be initialized (the flag says whether that thread is the
/// one initializing it), or the initializer finishes, or it fails.
pub enum InitEvent {
    Request(bool),
    Finish,
    Fail,
}

/// The state of a class after an event.
pub open spec fn status_after(status: ClassInitializationStatus, event: InitEvent) -> ClassInitializationStatus {
    match event {
        InitEvent::Request(_) => status_after_request(status),
        InitEvent::Finish => status_after_finish(status),
        InitEvent::Fail => status_after_failure(status),
    }
}

/// How often, in a run of events that come upon a class in state `status`,
/// a thread is told to run the class initializer.
pub open spec fn initializer_runs(status: ClassInitializationStatus, events: Seq<InitEvent>) -> nat
    decreases events.len(),
{
    if events.len() == 0 {
        0
    } else {
        let here: nat = match events[0] {
            InitEvent::Request(own) => if init_decision(status, own) == InitDecision::Run {
                1
            } else {
                0
            },
            _ => 0,
        };
        here + initializer_runs(status_after(status, events[0]), events.skip(1))
    }
}

/// How far an initialization has come, as a number that only grows.
pub open spec fn progress(status: ClassInitializationStatus) -> nat {
    match status {
        ClassInitializationStatus::VerifiedPreparedNotInitialized => 0,
        ClassInitializationStatus::BeingInitialized => 1,
        ClassInitializationStatus::Initialized => 2,
        ClassInitializationStatus::Error => 2,
    }
}

/// The state of a class never goes back.
pub proof fn lemma_status_is_monotonic(status: ClassInitializationStatus, event: InitEvent)
    ensures
        progress(status) <= progress(status_after(status, event)),
{
}

/// Whatever threads ask for a class to be initialized, in whatever order
/// and however often, the class initializer is run at most once: the first
/// thread that asks is told to run it, and no thread after that. A class
/// whose initialization has begun is never told to be initialized again.
pub proof fn lemma_initializer_runs_once(status: ClassInitializationStatus, events: Seq<InitEvent>)
    ensures
        initializer_runs(status, events) <= 1,
        status != ClassInitializationStatus::VerifiedPreparedNotInitialized ==> initializer_runs(
            status,
            events,
        ) == 0,
        status == ClassInitializationStatus::VerifiedPreparedNotInitialized && events.len() > 0
            && events[0] is Request ==> initializer_runs(status, events) == 1,
    decreases events.len(),
{
    if events.len() > 0 {
        lemma_initializer_runs_once(status_after(status, events[0]), events.skip(1));
    }
}

/// A thread that asks for a class to be initialized is let through only
/// when the class is initialized, or when the thread itself is the one
/// that initializes it; until then it runs the initializer, waits or fails.
pub proof fn lemma_proceeds_only_when_initialized(status: ClassInitializationStatus, own: bool)
    ensures
        init_decision(status, own) == InitDecision::Proceed <==> status
            == ClassInitializationStatus::Initialized || (status
            == ClassInitializationStatus::BeingInitialized && own),
{
}

} // verus!
