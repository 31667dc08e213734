//! The marshalling core: every computation a raw driver call is wrapped in.
//!
//! The raw C calls live outside the library; they hand these functions
//! plain values — byte buffers the driver filled, the lengths and counts it
//! reported, its boolean and enum answers — and take plain values back.
//! Two disciplines rule the boundary. Buffers: the caller-chosen capacity
//! bounds the data, and the driver-reported actual length truncates it; a
//! mismatch is a size adjustment, never an error. Text: driver-returned
//! bytes are decoded, and an invalid byte sequence surfaces as an explicit
//! error rather than a silently-replaced string.

use vstd::prelude::*;

use vstd::utf8::decode_utf8;
use vstd::utf8::decode_utf8_encode_utf8;
use vstd::utf8::encode_utf8;
use vstd::utf8::valid_utf8;

use crate::consts::GL_FALSE;
use crate::consts::GL_TRUE;
use crate::enums::DataType;
use crate::types::GLboolean;
use crate::types::GLenum;

verus! {

/// A binding-layer failure, reported synchronously at the call site.
#[derive(Copy, Clone, Debug, PartialEq, Eq, Structural)]
pub struct Error {}

/// An active attribute or uniform, as reported by the driver.
pub struct Active {
    pub name: String,
    pub size: i32,
    pub type_: DataType,
    pub length: i32,
}

/// The precision of a shader numeric format, as reported by the driver.
pub struct ShaderPrecisionFormat {
    pub precision: i32,
    pub range: [i32; 2],
}

/// A driver-filled buffer cut down to the length the driver reported: a
/// non-positive report leaves nothing, a report within the buffer keeps
/// exactly that prefix, and a report beyond it keeps the whole buffer.
pub open spec fn clipped<T>(buf: Seq<T>, reported: int) -> Seq<T> {
    if reported <= 0 {
        Seq::empty()
    } else if reported <= buf.len() {
        buf.take(reported)
    } else {
        buf
    }
}

/// Truncate a driver-filled buffer to the length the driver reported. A
/// report shorter than the buffer is a size adjustment, not an error.
pub fn clip_to_reported<T>(buf: Vec<T>, reported: i32) -> (out: Vec<T>)
    ensures
        out@ == clipped(buf@, reported as int),
{
    if reported <= 0 {
        let out: Vec<T> = Vec::new();
        proof {
            assert(out@ =~= clipped(buf@, reported as int));
        }
        out
    } else {
        let mut out = buf;
        let keep = reported as usize;
        out.truncate(keep);
        out
    }
}

/// A driver report within the buffer keeps exactly that many bytes: the
/// length of a clipped buffer is the reported length itself.
pub proof fn lemma_reported_length_is_exact(buf: Seq<u8>, reported: int)
    requires
        0 <= reported <= buf.len(),
    ensures
        clipped(buf, reported).len() == reported,
{
}

/// Relies on `String::from_utf8`: it returns the decoded string exactly
/// when the bytes are a valid UTF-8 encoding, and its error otherwise.
#[verifier::external_body]
fn string_from_utf8(bytes: Vec<u8>) -> (r: Result<String, Error>)
    ensures
        r is Ok <==> valid_utf8(bytes@),
        r matches Ok(s) ==> s@ == decode_utf8(bytes@),
{
    match String::from_utf8(bytes) {
        Ok(s) => Ok(s),
        Err(_) => Err(Error {}),
    }
}

/// A driver-returned text buffer turned into a string: the driver-reported
/// length truncates the buffer, a report of zero yields the empty string
/// rather than a failure, and bytes that are not valid UTF-8 yield an
/// explicit error.
pub fn text_from_driver(buf: Vec<u8>, reported: i32) -> (r: Result<String, Error>)
    ensures
        reported <= 0 ==> (r matches Ok(s) && s@ =~= Seq::<char>::empty()),
        r is Ok <==> valid_utf8(clipped(buf@, reported as int)),
        r matches Ok(s) ==> s@ == decode_utf8(clipped(buf@, reported as int)),
        r matches Ok(s) ==> encode_utf8(s@) == clipped(buf@, reported as int),
{
    let cut = clip_to_reported(buf, reported);
    let r = string_from_utf8(cut);
    proof {
        let kept = clipped(buf@, reported as int);
        if reported <= 0 {
            assert(valid_utf8(kept));
            assert(decode_utf8(kept) =~= Seq::<char>::empty());
        }
        if valid_utf8(kept) {
            decode_utf8_encode_utf8(kept);
        }
    }
    r
}

/// A whole driver-returned string, with the convention of the
/// implementation-string query: no string at all reads as empty, and bytes
/// that are not valid UTF-8 yield an explicit error.
pub fn constant_string_from_driver(bytes: Option<Vec<u8>>) -> (r: Result<String, Error>)
    ensures
        bytes is None ==> (r matches Ok(s) && s@ =~= Seq::<char>::empty()),
        bytes matches Some(b) ==> (r is Ok <==> valid_utf8(b@)),
        bytes matches Some(b) ==> (r matches Ok(s) ==> s@ == decode_utf8(b@)),
{
    match bytes {
        None => Ok(String::new()),
        Some(b) => string_from_utf8(b),
    }
}

/// An active attribute or uniform assembled from the driver's out-values.
/// A non-positive reported name length means the query failed; otherwise
/// the name is the reported prefix of the buffer, decoded, and the raw type
/// translates with the infallible data-type translation.
pub fn active_from_driver(name_buf: Vec<u8>, length: i32, size: i32, raw_type: GLenum) -> (r:
    Result<Active, Error>)
    ensures
        length <= 0 ==> r is Err,
        length > 0 ==> (r is Ok <==> valid_utf8(clipped(name_buf@, length as int))),
        r matches Ok(a) ==> {
            &&& a.name@ == decode_utf8(clipped(name_buf@, length as int))
            &&& a.size == size
            &&& a.type_ == DataType::spec_from_numeric_or_default(raw_type)
            &&& a.length == length
        },
{
    if length <= 0 {
        return Err(Error {});
    }
    let name = match text_from_driver(name_buf, length) {
        Ok(s) => s,
        Err(e) => {
            return Err(e);
        },
    };
    Ok(Active { name, size, type_: DataType::from_numeric_or_default(raw_type), length })
}

/// Fresh zeroed slots handed to the driver to fill with exactly `count`
/// handles; requesting zero handles yields an empty buffer, not an error.
pub fn handle_slots(count: usize) -> (slots: Vec<u32>)
    ensures
        slots.len() == count,
        forall|i: int| 0 <= i < count ==> slots[i] == 0,
{
    let mut slots: Vec<u32> = Vec::new();
    let mut n: usize = 0;
    while n < count
        invariant
            n <= count,
            slots.len() == n,
            forall|i: int| 0 <= i < n ==> slots[i] == 0,
        decreases count - n,
    {
        slots.push(0);
        n = n + 1;
    }
    slots
}

/// How a driver-returned boolean reads: true exactly on `GL_TRUE`.
pub fn driver_flag(raw: GLboolean) -> (b: bool)
    ensures
        b <==> raw == GL_TRUE,
{
    raw == GL_TRUE
}

/// How a boolean argument is handed to the driver.
pub fn flag_byte(b: bool) -> (raw: GLboolean)
    ensures
        b ==> raw == GL_TRUE,
        !b ==> raw == GL_FALSE,
{
    if b {
        GL_TRUE
    } else {
        GL_FALSE
    }
}

/// The bytes of a C string argument, terminator appended. Text holding an
/// embedded terminator cannot be represented across the boundary and is
/// rejected with an explicit error.
pub fn c_string_bytes(text: &[u8]) -> (r: Result<Vec<u8>, Error>)
    ensures
        r is Ok <==> (forall|i: int| 0 <= i < text@.len() ==> text@[i] != 0),
        r matches Ok(b) ==> b@ == text@ + seq![0u8],
{
    let mut out: Vec<u8> = Vec::new();
    let mut i: usize = 0;
    while i < text.len()
        invariant
            i <= text@.len(),
            out@ == text@.take(i as int),
            forall|j: int| 0 <= j < i ==> text@[j] != 0,
        decreases text@.len() - i,
    {
        let byte = text[i];
        if byte == 0 {
            return Err(Error {});
        }
        out.push(byte);
        i = i + 1;
        proof {
            assert(out@ =~= text@.take(i as int));
        }
    }
    out.push(0);
    proof {
        assert(out@ =~= text@ + seq![0u8]);
    }
    Ok(out)
}

/// Total byte size of `len` elements of `elem_size` bytes each, as handed
/// to the driver beside a buffer pointer; `None` when the product cannot
/// be represented.
pub fn byte_extent(elem_size: usize, len: usize) -> (r: Option<usize>)
    ensures
        r matches Some(n) ==> n == elem_size * len,
        r is None <==> elem_size * len > usize::MAX,
{
    elem_size.checked_mul(len)
}

/// The element count handed to the driver beside a vector uniform array of
/// `components`-wide vectors packed into `len` scalars.
pub fn vector_uniform_count(len: usize, components: usize) -> (count: usize)
    requires
        1 <= components,
    ensures
        count == len / components,
{
    len / components
}

/// The element count handed to the driver beside a matrix uniform array:
/// the number of complete `dimension` by `dimension` matrices the scalars
/// hold.
pub fn matrix_uniform_count(len: usize, dimension: usize) -> (count: usize)
    requires
        1 <= dimension,
        dimension * dimension <= usize::MAX,
    ensures
        count as int == len as int / (dimension * dimension),
{
    proof {
        assert(1 <= dimension * dimension) by (nonlinear_arith)
            requires 1 <= dimension;
    }
    len / (dimension * dimension)
}

} // verus!
