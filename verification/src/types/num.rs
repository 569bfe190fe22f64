//! Integer objects.

use vstd::prelude::*;
use crate::conversion::{fits_native, ConversionError, ToNative};
use crate::instance::{Bound, PyTypeInfo};
use crate::marker::Python;
use crate::runtime::{
    after_alloc,
    extraction_of,
    is_live,
    Contents,
    ExtractionError,
    Object,
    TypeDescriptor,
};

verus! {

/// Stands for the heap's integer type.
#[derive(Debug)]
pub struct PyLong(());

impl PyTypeInfo for PyLong {
    open spec fn descriptor() -> TypeDescriptor {
        TypeDescriptor::Long
    }

    fn type_object() -> (d: TypeDescriptor) {
        TypeDescriptor::Long
    }
}

/// Whether `addr` names an integer object of `heap` that is still referenced.
pub open spec fn integer_at(heap: Seq<Object>, addr: usize) -> bool {
    is_live(heap, addr) && heap[addr as int].contents.is_instance_of(TypeDescriptor::Long)
}

/// The heap after an integer object with the value `v` was made on it.
pub open spec fn with_long(heap: Seq<Object>, v: int) -> Seq<Object> {
    after_alloc(heap, Contents::Long(v as i128))
}

/// What reading the integer object at `addr` yields: its value where that
/// fits the native width, and an error where it does not.
pub open spec fn long_value(heap: Seq<Object>, addr: int) -> Result<i64, ExtractionError> {
    extraction_of(heap[addr].contents).outcome()
}

impl PyLong {
    /// Makes a new integer object with the value of `val`, or fails, and
    /// leaves the heap as it was, when the value does not fit the native
    /// width. No value is wrapped, truncated or clamped to make it fit.
    ///
    /// The new object stands last on the heap, and the handle holds its only
    /// reference. That the object is an integer needs no check: the
    /// allocation primitive makes nothing else.
    pub fn new_bound<'py, T: ToNative>(py: &mut Python<'py>, val: T) -> (r: Result<
        Bound<'py, PyLong>,
        ConversionError,
    >)
        ensures
            r.is_ok() <==> fits_native(val.as_int()),
            r matches Ok(long) ==> {
                &&& final(py)@ == with_long(old(py)@, val.as_int())
                &&& long.addr() == old(py)@.len()
                &&& long.is_bound_in(final(py)@)
            },
            r is Err ==> final(py)@ == old(py)@,
    {
        match val.to_i64() {
            Some(v) => {
                let addr: usize = py.runtime_mut().long_from_long_long(v);
                Ok(Bound::assume_owned(py, addr).downcast_into_unchecked(py))
            },
            None => Err(ConversionError),
        }
    }
}

/// What a handle to an integer object offers.
pub trait PyLongMethods<'py> {
    /// The address of the object that the handle names.
    spec fn long_addr(&self) -> usize;

    /// The value of the integer, or an error where it does not fit the
    /// native width: the error indicator that the extraction primitive
    /// raises is looked at before its number is believed. The heap is only
    /// read.
    fn value(&self, py: &Python<'py>) -> (r: Result<i64, ExtractionError>)
        requires
            integer_at(py@, self.long_addr()),
        ensures
            r == long_value(py@, self.long_addr() as int),
    ;
}

impl<'py> PyLongMethods<'py> for Bound<'py, PyLong> {
    open spec fn long_addr(&self) -> usize {
        self.addr()
    }

    fn value(&self, py: &Python<'py>) -> (r: Result<i64, ExtractionError>) {
        py.runtime().long_as_long_long(self.as_addr()).checked()
    }
}

} // verus!
