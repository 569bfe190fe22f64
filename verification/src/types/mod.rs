//! The marker types, one for each dynamic type of the heap that handles can
//! be typed with.

pub mod any;
pub mod num;
