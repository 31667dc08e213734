//! A typed binding layer over the OpenGL ES 2.0 C interface.
//!
//! The library holds the parts of the binding that can be checked: the
//! capability enums with their bidirectional mapping to the standard's
//! numeric constants, and the marshalling discipline for buffers and
//! driver-reported strings. The raw C calls themselves live outside the
//! library, in the surrounding application crate, and hand plain values
//! in and out.

pub mod consts;
pub mod enums;
pub mod types;
pub mod wrapper;
