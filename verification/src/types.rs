//! Scalar types of the graphics standard's C interface.
//!
//! Only the integer-valued types appear here; the floating-point and
//! pointer-valued types of the C interface stay with the code that makes
//! the raw calls.

use vstd::prelude::*;

verus! {

pub type GLbitfield = u32;

pub type GLboolean = u8;

pub type GLbyte = i8;

pub type GLchar = i8;

pub type GLenum = u32;

pub type GLint = i32;

pub type GLshort = i16;

pub type GLsizei = i32;

pub type GLubyte = u8;

pub type GLuint = u32;

pub type GLushort = u16;

pub type GLfixed = i32;

pub type GLintptr = isize;

pub type GLsizeiptr = isize;

pub type GLint64 = i64;

pub type GLuint64 = u64;

} // verus!
