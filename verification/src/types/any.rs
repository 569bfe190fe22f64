//! Objects of any type.

use vstd::prelude::*;
use crate::instance::{Bound, PyTypeInfo};
use crate::marker::Python;
use crate::runtime::{after_alloc, Contents, TypeDescriptor};

verus! {

/// Stands for the root type of the heap. Every object is an instance of it,
/// so a handle typed with it says nothing of its object's type.
#[derive(Debug)]
pub struct PyAny(());

impl PyTypeInfo for PyAny {
    open spec fn descriptor() -> TypeDescriptor {
        TypeDescriptor::Object
    }

    fn type_object() -> (d: TypeDescriptor) {
        TypeDescriptor::Object
    }
}

impl PyAny {
    /// Places an object with `contents` on the heap and returns an untyped
    /// handle to it, which holds the object's only reference.
    pub fn new_bound<'py>(py: &mut Python<'py>, contents: Contents) -> (r: Bound<'py, PyAny>)
        ensures
            final(py)@ == after_alloc(old(py)@, contents),
            r.addr() == old(py)@.len(),
            r.is_bound_in(final(py)@),
    {
        let addr: usize = py.runtime_mut().allocate(contents);
        Bound::assume_owned(py, addr)
    }
}

} // verus!
