//! The object heap of one interpreter session, and the primitives through
//! which handles reach it.
//!
//! Objects are addressed by their position on the heap. Addresses are handed
//! out in rising order and never reused, and an object whose reference count
//! has fallen to zero is dead.

use vstd::prelude::*;
use crate::conversion::fits_native;

verus! {

/// Names a dynamic type of the heap.
#[derive(Clone, Copy, Debug, PartialEq, Eq, Structural)]
pub enum TypeDescriptor {
    /// The root type: every object is an instance of it.
    Object,
    /// Integer objects.
    Long,
    /// Text objects.
    Unicode,
}

impl TypeDescriptor {
    /// Whether every instance of `self` is also an instance of `other`.
    pub open spec fn is_subtype_of(self, other: TypeDescriptor) -> bool {
        other == TypeDescriptor::Object || self == other
    }

    /// Tells whether every instance of `self` is also an instance of `other`.
    pub fn subtype_of(self, other: TypeDescriptor) -> (b: bool)
        ensures
            b == self.is_subtype_of(other),
    {
        match other {
            TypeDescriptor::Object => true,
            TypeDescriptor::Long => matches!(self, TypeDescriptor::Long),
            TypeDescriptor::Unicode => matches!(self, TypeDescriptor::Unicode),
        }
    }
}

/// What an object holds.
#[derive(Debug)]
pub enum Contents {
    /// An integer. The heap's integers are wider than the native width.
    Long(i128),
    /// A piece of text.
    Unicode(String),
}

impl Contents {
    /// The dynamic type of an object with these contents.
    pub open spec fn descriptor(self) -> TypeDescriptor {
        match self {
            Contents::Long(_) => TypeDescriptor::Long,
            Contents::Unicode(_) => TypeDescriptor::Unicode,
        }
    }

    /// Whether an object with these contents is an instance of `descriptor`.
    pub open spec fn is_instance_of(self, descriptor: TypeDescriptor) -> bool {
        self.descriptor().is_subtype_of(descriptor)
    }

    /// The dynamic type of an object with these contents.
    pub fn type_of(&self) -> (d: TypeDescriptor)
        ensures
            d == self.descriptor(),
    {
        match self {
            Contents::Long(_) => TypeDescriptor::Long,
            Contents::Unicode(_) => TypeDescriptor::Unicode,
        }
    }
}

/// An object on the heap.
#[derive(Debug)]
pub struct Object {
    pub contents: Contents,
    /// How many references to the object are held. Zero: the object is dead.
    pub refs: usize,
}

/// The number an extraction failed with.
pub const EXTRACTION_FAILED: i64 = -1;

/// What the extraction primitive hands back: a number, and whether the
/// runtime raised its error indicator with it.
#[derive(Clone, Copy, Debug, PartialEq, Eq, Structural)]
pub struct Extraction {
    pub raw: i64,
    pub error: bool,
}

/// An integer object whose value lies outside the native width.
#[derive(Clone, Copy, Debug, PartialEq, Eq, Structural)]
pub struct ExtractionError;

impl Extraction {
    /// The number where the runtime raised no error, the error where it did.
    pub open spec fn outcome(self) -> Result<i64, ExtractionError> {
        if self.error {
            Err(ExtractionError)
        } else {
            Ok(self.raw)
        }
    }

    /// Looks at the error indicator before the number is believed.
    pub fn checked(self) -> (r: Result<i64, ExtractionError>)
        ensures
            r == self.outcome(),
    {
        if self.error {
            Err(ExtractionError)
        } else {
            Ok(self.raw)
        }
    }
}

/// What extraction yields for an object with the given contents: the value of
/// an integer that fits the native width, and else the failure number with
/// the error indicator raised.
pub open spec fn extraction_of(contents: Contents) -> Extraction {
    match contents {
        Contents::Long(m) if fits_native(m as int) => Extraction { raw: m as i64, error: false },
        _ => Extraction { raw: EXTRACTION_FAILED, error: true },
    }
}

/// The heap after an object with `contents` was placed on it: the new object
/// stands last, with one reference.
pub open spec fn after_alloc(heap: Seq<Object>, contents: Contents) -> Seq<Object> {
    heap.push(Object { contents, refs: 1 })
}

/// The heap after one reference to the object at `addr` was given back.
pub open spec fn after_dec_ref(heap: Seq<Object>, addr: int) -> Seq<Object>
    recommends
        0 <= addr < heap.len(),
        heap[addr].refs > 0,
{
    heap.update(addr, Object { contents: heap[addr].contents, refs: (heap[addr].refs - 1) as usize })
}

/// Whether `addr` names an object of `heap` that is still referenced.
pub open spec fn is_live(heap: Seq<Object>, addr: usize) -> bool {
    addr < heap.len() && heap[addr as int].refs > 0
}

/// The heap of one session.
pub struct Runtime {
    objects: Vec<Object>,
}

impl View for Runtime {
    type V = Seq<Object>;

    closed spec fn view(&self) -> Seq<Object> {
        self.objects@
    }
}

impl Runtime {
    /// A heap with no object on it.
    pub fn new() -> (r: Runtime)
        ensures
            r@ == Seq::<Object>::empty(),
    {
        Runtime { objects: Vec::new() }
    }

    /// How many objects were ever placed on the heap.
    pub fn len(&self) -> (n: usize)
        ensures
            n == self@.len(),
    {
        self.objects.len()
    }

    /// Tells whether `addr` names an object that is still referenced.
    pub fn holds(&self, addr: usize) -> (b: bool)
        ensures
            b == is_live(self@, addr),
    {
        addr < self.objects.len() && self.objects[addr].refs > 0
    }

    /// Places an object on the heap and returns its address.
    pub fn allocate(&mut self, contents: Contents) -> (addr: usize)
        ensures
            final(self)@ == after_alloc(old(self)@, contents),
            addr == old(self)@.len(),
    {
        let addr: usize = self.objects.len();
        self.objects.push(Object { contents, refs: 1 });
        addr
    }

    /// The allocation primitive for integers: a new integer object with the
    /// value `v`.
    pub fn long_from_long_long(&mut self, v: i64) -> (addr: usize)
        ensures
            final(self)@ == after_alloc(old(self)@, Contents::Long(v as i128)),
            addr == old(self)@.len(),
    {
        self.allocate(Contents::Long(v as i128))
    }

    /// The extraction primitive: the value of the integer object at `addr` in
    /// the native width.
    pub fn long_as_long_long(&self, addr: usize) -> (r: Extraction)
        requires
            is_live(self@, addr),
        ensures
            r == extraction_of(self@[addr as int].contents),
    {
        match &self.objects[addr].contents {
            Contents::Long(m) => {
                if -0x8000_0000_0000_0000i128 <= *m && *m <= 0x7fff_ffff_ffff_ffffi128 {
                    Extraction { raw: *m as i64, error: false }
                } else {
                    Extraction { raw: EXTRACTION_FAILED, error: true }
                }
            },
            Contents::Unicode(_) => Extraction { raw: EXTRACTION_FAILED, error: true },
        }
    }

    /// The type-check predicate: whether the object at `addr` is an instance
    /// of the type that `descriptor` names.
    pub fn is_instance(&self, addr: usize, descriptor: TypeDescriptor) -> (b: bool)
        requires
            is_live(self@, addr),
        ensures
            b == self@[addr as int].contents.is_instance_of(descriptor),
    {
        self.objects[addr].contents.type_of().subtype_of(descriptor)
    }

    /// How many references to the object at `addr` are held.
    pub fn ref_count(&self, addr: usize) -> (n: usize)
        requires
            addr < self@.len(),
        ensures
            n == self@[addr as int].refs,
    {
        self.objects[addr].refs
    }

    /// Gives back one reference to the object at `addr`.
    pub fn dec_ref(&mut self, addr: usize)
        requires
            is_live(old(self)@, addr),
        ensures
            final(self)@ == after_dec_ref(old(self)@, addr as int),
    {
        let refs: usize = self.objects[addr].refs;
        self.objects[addr].refs = refs - 1;
        assert(self@ =~= after_dec_ref(old(self)@, addr as int));
    }
}

} // verus!
