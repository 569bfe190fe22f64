//! Typed, session-scoped handles to integer objects that live on an
//! interpreter's reference-counted heap.
//!
//! A [`Python`] session owns the heap. A [`Bound`] handle names one object on
//! it and carries, as a type parameter, what is known of the object's dynamic
//! type. [`PyLong`] builds integer objects from native numbers and
//! [`PyLongMethods`] reads them back.

pub mod conversion;
pub mod instance;
pub mod laws;
pub mod marker;
pub mod runtime;
pub mod types;

pub use conversion::{fits_native, ConversionError, ToNative};
pub use instance::{Bound, DowncastIntoError, PyTypeInfo};
pub use marker::Python;
pub use runtime::{Contents, Extraction, ExtractionError, Object, Runtime, TypeDescriptor};
pub use types::any::PyAny;
pub use types::num::{PyLong, PyLongMethods};
