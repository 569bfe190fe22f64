//! Handles to objects on a session's heap, and the checked narrowing of an
//! untyped handle to a typed one.

use vstd::prelude::*;
use std::marker::PhantomData;
use crate::marker::Python;
use crate::runtime::{after_dec_ref, is_live, Object, TypeDescriptor};
use crate::types::any::PyAny;

verus! {

/// A marker type that stands for one dynamic type of the heap.
pub trait PyTypeInfo {
    /// The descriptor of the type that the marker stands for.
    spec fn descriptor() -> TypeDescriptor;

    /// The descriptor of the type that the marker stands for.
    fn type_object() -> (d: TypeDescriptor)
        ensures
            d == Self::descriptor(),
    ;
}

/// A handle to an object on the heap of the session `'py`, known to be an
/// instance of the type that `T` stands for.
///
/// A handle holds one reference to its object. It cannot be copied; it ends
/// by [`Bound::release`], which gives the reference back. Dropping a handle
/// gives nothing back, since a drop cannot reach the session's heap: a
/// handle that ends without `release` keeps its reference, and its object
/// stays alive, until the session ends and the whole heap goes with it.
#[derive(Debug)]
pub struct Bound<'py, T> {
    addr: usize,
    tag: PhantomData<T>,
    session: PhantomData<&'py mut &'py ()>,
}

/// A handle that could not be narrowed, because its object is no instance of
/// the type asked for. It holds the handle as it was.
#[derive(Debug)]
pub struct DowncastIntoError<'py> {
    pub from: Bound<'py, PyAny>,
}

impl<'py> DowncastIntoError<'py> {
    /// The handle that could not be narrowed.
    pub fn into_inner(self) -> (r: Bound<'py, PyAny>)
        ensures
            r == self.from,
    {
        self.from
    }
}

impl<'py, T> Bound<'py, T> {
    /// The address of the object that the handle names.
    pub closed spec fn addr(&self) -> usize {
        self.addr
    }

    /// The address of the object that the handle names.
    pub fn as_addr(&self) -> (a: usize)
        ensures
            a == self.addr(),
    {
        self.addr
    }

    /// Forgets what is known of the object's type. The handle names the same
    /// object as before and no reference is taken or given back.
    pub fn into_any(self) -> (r: Bound<'py, PyAny>)
        ensures
            r.addr() == self.addr(),
    {
        Bound { addr: self.addr, tag: PhantomData, session: PhantomData }
    }
}

impl<'py, T: PyTypeInfo> Bound<'py, T> {
    /// The handle's invariant with respect to a heap: its object is there, is
    /// still referenced, and is an instance of the type that `T` stands for.
    pub open spec fn is_bound_in(&self, heap: Seq<Object>) -> bool {
        is_live(heap, self.addr()) && heap[self.addr() as int].contents.is_instance_of(
            T::descriptor(),
        )
    }

    /// Tells whether the handle's invariant holds with respect to the heap
    /// of `py`.
    pub fn is_bound(&self, py: &Python<'py>) -> (b: bool)
        ensures
            b == self.is_bound_in(py@),
    {
        py.runtime().holds(self.addr) && py.runtime().is_instance(self.addr, T::type_object())
    }

    /// Ends the handle and gives its reference back to the heap. No other
    /// object is touched.
    pub fn release(self, py: &mut Python<'py>)
        requires
            self.is_bound_in(old(py)@),
        ensures
            final(py)@ == after_dec_ref(old(py)@, self.addr() as int),
    {
        py.runtime_mut().dec_ref(self.addr);
    }
}

impl<'py> Bound<'py, PyAny> {
    /// Takes over the reference that the caller holds to the object at
    /// `addr`.
    pub(crate) fn assume_owned(py: &Python<'py>, addr: usize) -> (r: Bound<'py, PyAny>)
        requires
            is_live(py@, addr),
        ensures
            r.addr() == addr,
            r.is_bound_in(py@),
    {
        Bound { addr, tag: PhantomData, session: PhantomData }
    }

    /// Narrows the handle to the type that `T` stands for, after asking the
    /// heap whether the object is an instance of it.
    ///
    /// Where it is, the result names the same object; no object is made and
    /// no reference count changes. Where it is not, the handle comes back
    /// inside the error.
    pub fn downcast_into<T: PyTypeInfo>(self, py: &Python<'py>) -> (r: Result<
        Bound<'py, T>,
        DowncastIntoError<'py>,
    >)
        requires
            self.is_bound_in(py@),
        ensures
            r.is_ok() <==> py@[self.addr() as int].contents.is_instance_of(T::descriptor()),
            r matches Ok(typed) ==> typed.addr() == self.addr() && typed.is_bound_in(py@),
            r matches Err(e) ==> e.from == self,
    {
        if py.runtime().is_instance(self.addr, T::type_object()) {
            Ok(self.downcast_into_unchecked(py))
        } else {
            Err(DowncastIntoError { from: self })
        }
    }

    /// Narrows the handle without asking the heap. It is for a caller that
    /// knows the object's type already, such as the one that has just made
    /// the object: that knowledge is the precondition.
    pub fn downcast_into_unchecked<T: PyTypeInfo>(self, py: &Python<'py>) -> (r: Bound<'py, T>)
        requires
            self.is_bound_in(py@),
            py@[self.addr() as int].contents.is_instance_of(T::descriptor()),
        ensures
            r.addr() == self.addr(),
            r.is_bound_in(py@),
    {
        Bound { addr: self.addr, tag: PhantomData, session: PhantomData }
    }
}

} // verus!
