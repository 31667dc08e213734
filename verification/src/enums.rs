//! Capability enums: typed names for the standard's numeric constant groups.
//!
//! Each enum carries a total, lossless map to the published constants
//! (`to_numeric`) and an exact partial inverse (`from_numeric`). The three
//! translations the driver answers queries with — framebuffer status, error
//! status and data type — also offer the infallible form
//! `from_numeric_or_default`, which falls back to a designated default
//! variant on a constant the enum does not carry, so that a single
//! unexpected driver value never aborts a frame; `from_numeric` keeps the
//! fallback observable for callers that want to tell the two apart.
//!
//! Beside each enum stand two laws: the round trip
//! `from_numeric(to_numeric(v)) == Some(v)` for every variant, and the
//! injectivity of `to_numeric` within the enum.

use vstd::prelude::*;

use crate::consts::GL_ACTIVE_ATTRIBUTES;
use crate::consts::GL_ACTIVE_ATTRIBUTE_MAX_LENGTH;
use crate::consts::GL_ACTIVE_TEXTURE;
use crate::consts::GL_ACTIVE_UNIFORMS;
use crate::consts::GL_ACTIVE_UNIFORM_MAX_LENGTH;
use crate::consts::GL_ALIASED_LINE_WIDTH_RANGE;
use crate::consts::GL_ALIASED_POINT_SIZE_RANGE;
use crate::consts::GL_ALPHA;
use crate::consts::GL_ALPHA_BITS;
use crate::consts::GL_ALWAYS;
use crate::consts::GL_ARRAY_BUFFER;
use crate::consts::GL_ARRAY_BUFFER_BINDING;
use crate::consts::GL_ATOMIC_COUNTER_BUFFER;
use crate::consts::GL_ATTACHED_SHADERS;
use crate::consts::GL_BACK;
use crate::consts::GL_BLEND;
use crate::consts::GL_BLEND_COLOR;
use crate::consts::GL_BLEND_DST_ALPHA;
use crate::consts::GL_BLEND_DST_RGB;
use crate::consts::GL_BLEND_EQUATION_ALPHA;
use crate::consts::GL_BLEND_EQUATION_RGB;
use crate::consts::GL_BLEND_SRC_ALPHA;
use crate::consts::GL_BLEND_SRC_RGB;
use crate::consts::GL_BLUE_BITS;
use crate::consts::GL_BOOL;
use crate::consts::GL_BOOL_VEC2;
use crate::consts::GL_BOOL_VEC3;
use crate::consts::GL_BOOL_VEC4;
use crate::consts::GL_BUFFER_MAP_POINTER;
use crate::consts::GL_BUFFER_SIZE;
use crate::consts::GL_BUFFER_USAGE;
use crate::consts::GL_BYTE;
use crate::consts::GL_CCW;
use crate::consts::GL_COLOR_ATTACHMENT0;
use crate::consts::GL_COLOR_ATTACHMENT1;
use crate::consts::GL_COLOR_ATTACHMENT10;
use crate::consts::GL_COLOR_ATTACHMENT11;
use crate::consts::GL_COLOR_ATTACHMENT12;
use crate::consts::GL_COLOR_ATTACHMENT13;
use crate::consts::GL_COLOR_ATTACHMENT14;
use crate::consts::GL_COLOR_ATTACHMENT15;
use crate::consts::GL_COLOR_ATTACHMENT2;
use crate::consts::GL_COLOR_ATTACHMENT3;
use crate::consts::GL_COLOR_ATTACHMENT4;
use crate::consts::GL_COLOR_ATTACHMENT5;
use crate::consts::GL_COLOR_ATTACHMENT6;
use crate::consts::GL_COLOR_ATTACHMENT7;
use crate::consts::GL_COLOR_ATTACHMENT8;
use crate::consts::GL_COLOR_ATTACHMENT9;
use crate::consts::GL_COLOR_BUFFER_BIT;
use crate::consts::GL_COLOR_CLEAR_VALUE;
use crate::consts::GL_COLOR_WRITEMASK;
use crate::consts::GL_COMPILE_STATUS;
use crate::consts::GL_COMPRESSED_TEXTURE_FORMATS;
use crate::consts::GL_CONSTANT_ALPHA;
use crate::consts::GL_CONSTANT_COLOR;
use crate::consts::GL_COPY_READ_BUFFER;
use crate::consts::GL_COPY_WRITE_BUFFER;
use crate::consts::GL_CULL_FACE;
use crate::consts::GL_CULL_FACE_MODE;
use crate::consts::GL_CURRENT_PROGRAM;
use crate::consts::GL_CURRENT_VERTEX_ATTRIB;
use crate::consts::GL_CW;
use crate::consts::GL_DECR;
use crate::consts::GL_DECR_WRAP;
use crate::consts::GL_DELETE_STATUS;
use crate::consts::GL_DEPTH_ATTACHMENT;
use crate::consts::GL_DEPTH_BITS;
use crate::consts::GL_DEPTH_BUFFER_BIT;
use crate::consts::GL_DEPTH_CLEAR_VALUE;
use crate::consts::GL_DEPTH_COMPONENT;
use crate::consts::GL_DEPTH_COMPONENT16;
use crate::consts::GL_DEPTH_FUNC;
use crate::consts::GL_DEPTH_RANGE;
use crate::consts::GL_DEPTH_STENCIL;
use crate::consts::GL_DEPTH_STENCIL_ATTACHMENT;
use crate::consts::GL_DEPTH_TEST;
use crate::consts::GL_DEPTH_WRITEMASK;
use crate::consts::GL_DISPATCH_INDIRECT_BUFFER;
use crate::consts::GL_DITHER;
use crate::consts::GL_DONT_CARE;
use crate::consts::GL_DRAW_FRAMEBUFFER;
use crate::consts::GL_DRAW_INDIRECT_BUFFER;
use crate::consts::GL_DST_ALPHA;
use crate::consts::GL_DST_COLOR;
use crate::consts::GL_DYNAMIC_DRAW;
use crate::consts::GL_ELEMENT_ARRAY_BUFFER;
use crate::consts::GL_ELEMENT_ARRAY_BUFFER_BINDING;
use crate::consts::GL_EQUAL;
use crate::consts::GL_EXTENSIONS;
use crate::consts::GL_FASTEST;
use crate::consts::GL_FIXED;
use crate::consts::GL_FLOAT;
use crate::consts::GL_FLOAT_MAT2;
use crate::consts::GL_FLOAT_MAT3;
use crate::consts::GL_FLOAT_MAT4;
use crate::consts::GL_FLOAT_VEC2;
use crate::consts::GL_FLOAT_VEC3;
use crate::consts::GL_FLOAT_VEC4;
use crate::consts::GL_FRAGMENT_SHADER;
use crate::consts::GL_FRAMEBUFFER;
use crate::consts::GL_FRAMEBUFFER_ATTACHMENT_OBJECT_NAME;
use crate::consts::GL_FRAMEBUFFER_ATTACHMENT_OBJECT_TYPE;
use crate::consts::GL_FRAMEBUFFER_ATTACHMENT_TEXTURE_CUBE_MAP_FACE;
use crate::consts::GL_FRAMEBUFFER_ATTACHMENT_TEXTURE_LEVEL;
use crate::consts::GL_FRAMEBUFFER_BINDING;
use crate::consts::GL_FRAMEBUFFER_COMPLETE;
use crate::consts::GL_FRAMEBUFFER_INCOMPLETE_ATTACHMENT;
use crate::consts::GL_FRAMEBUFFER_INCOMPLETE_DIMENSIONS;
use crate::consts::GL_FRAMEBUFFER_INCOMPLETE_MISSING_ATTACHMENT;
use crate::consts::GL_FRAMEBUFFER_UNSUPPORTED;
use crate::consts::GL_FRONT;
use crate::consts::GL_FRONT_AND_BACK;
use crate::consts::GL_FRONT_FACE;
use crate::consts::GL_FUNC_ADD;
use crate::consts::GL_FUNC_REVERSE_SUBTRACT;
use crate::consts::GL_FUNC_SUBTRACT;
use crate::consts::GL_GENERATE_MIPMAP_HINT;
use crate::consts::GL_GEQUAL;
use crate::consts::GL_GREATER;
use crate::consts::GL_GREEN_BITS;
use crate::consts::GL_HIGH_FLOAT;
use crate::consts::GL_HIGH_INT;
use crate::consts::GL_IMPLEMENTATION_COLOR_READ_FORMAT;
use crate::consts::GL_IMPLEMENTATION_COLOR_READ_TYPE;
use crate::consts::GL_INCR;
use crate::consts::GL_INCR_WRAP;
use crate::consts::GL_INFO_LOG_LENGTH;
use crate::consts::GL_INT;
use crate::consts::GL_INTERLEAVED_ATTRIBS;
use crate::consts::GL_INT_VEC2;
use crate::consts::GL_INT_VEC3;
use crate::consts::GL_INT_VEC4;
use crate::consts::GL_INVALID_ENUM;
use crate::consts::GL_INVALID_FRAMEBUFFER_OPERATION;
use crate::consts::GL_INVALID_OPERATION;
use crate::consts::GL_INVALID_VALUE;
use crate::consts::GL_INVERT;
use crate::consts::GL_KEEP;
use crate::consts::GL_LEQUAL;
use crate::consts::GL_LESS;
use crate::consts::GL_LINEAR;
use crate::consts::GL_LINES;
use crate::consts::GL_LINE_LOOP;
use crate::consts::GL_LINE_STRIP;
use crate::consts::GL_LINE_WIDTH;
use crate::consts::GL_LINK_STATUS;
use crate::consts::GL_LOW_FLOAT;
use crate::consts::GL_LOW_INT;
use crate::consts::GL_LUMINANCE;
use crate::consts::GL_LUMINANCE_ALPHA;
use crate::consts::GL_MAP_FLUSH_EXPLICIT_BIT;
use crate::consts::GL_MAP_INVALIDATE_BUFFER_BIT;
use crate::consts::GL_MAP_INVALIDATE_RANGE_BIT;
use crate::consts::GL_MAP_UNSYNCHRONIZED_BIT;
use crate::consts::GL_MAX_COLOR_ATTACHMENTS;
use crate::consts::GL_MAX_COMBINED_TEXTURE_IMAGE_UNITS;
use crate::consts::GL_MAX_CUBE_MAP_TEXTURE_SIZE;
use crate::consts::GL_MAX_FRAGMENT_UNIFORM_VECTORS;
use crate::consts::GL_MAX_RENDERBUFFER_SIZE;
use crate::consts::GL_MAX_TEXTURE_IMAGE_UNITS;
use crate::consts::GL_MAX_TEXTURE_SIZE;
use crate::consts::GL_MAX_VARYING_VECTORS;
use crate::consts::GL_MAX_VERTEX_ATTRIBS;
use crate::consts::GL_MAX_VERTEX_TEXTURE_IMAGE_UNITS;
use crate::consts::GL_MAX_VERTEX_UNIFORM_VECTORS;
use crate::consts::GL_MAX_VIEWPORT_DIMS;
use crate::consts::GL_MEDIUM_FLOAT;
use crate::consts::GL_MEDIUM_INT;
use crate::consts::GL_NEAREST;
use crate::consts::GL_NEVER;
use crate::consts::GL_NICEST;
use crate::consts::GL_NONE;
use crate::consts::GL_NOTEQUAL;
use crate::consts::GL_NO_ERROR;
use crate::consts::GL_NUM_COMPRESSED_TEXTURE_FORMATS;
use crate::consts::GL_NUM_SHADER_BINARY_FORMATS;
use crate::consts::GL_ONE;
use crate::consts::GL_ONE_MINUS_CONSTANT_ALPHA;
use crate::consts::GL_ONE_MINUS_CONSTANT_COLOR;
use crate::consts::GL_ONE_MINUS_DST_ALPHA;
use crate::consts::GL_ONE_MINUS_DST_COLOR;
use crate::consts::GL_ONE_MINUS_SRC_ALPHA;
use crate::consts::GL_ONE_MINUS_SRC_COLOR;
use crate::consts::GL_OUT_OF_MEMORY;
use crate::consts::GL_PACK_ALIGNMENT;
use crate::consts::GL_PIXEL_PACK_BUFFER;
use crate::consts::GL_PIXEL_UNPACK_BUFFER;
use crate::consts::GL_POINTS;
use crate::consts::GL_POLYGON_OFFSET_FACTOR;
use crate::consts::GL_POLYGON_OFFSET_FILL;
use crate::consts::GL_POLYGON_OFFSET_UNITS;
use crate::consts::GL_READ_FRAMEBUFFER;
use crate::consts::GL_RED;
use crate::consts::GL_RED_BITS;
use crate::consts::GL_RED_INTEGER;
use crate::consts::GL_RENDERBUFFER;
use crate::consts::GL_RENDERBUFFER_ALPHA_SIZE;
use crate::consts::GL_RENDERBUFFER_BINDING;
use crate::consts::GL_RENDERBUFFER_BLUE_SIZE;
use crate::consts::GL_RENDERBUFFER_DEPTH_SIZE;
use crate::consts::GL_RENDERBUFFER_GREEN_SIZE;
use crate::consts::GL_RENDERBUFFER_HEIGHT;
use crate::consts::GL_RENDERBUFFER_INTERNAL_FORMAT;
use crate::consts::GL_RENDERBUFFER_RED_SIZE;
use crate::consts::GL_RENDERBUFFER_STENCIL_SIZE;
use crate::consts::GL_RENDERBUFFER_WIDTH;
use crate::consts::GL_RENDERER;
use crate::consts::GL_REPLACE;
use crate::consts::GL_RG;
use crate::consts::GL_RGB;
use crate::consts::GL_RGB565;
use crate::consts::GL_RGB5_A1;
use crate::consts::GL_RGBA;
use crate::consts::GL_RGBA4;
use crate::consts::GL_RGBA_INTEGER;
use crate::consts::GL_RGB_INTEGER;
use crate::consts::GL_RG_INTEGER;
use crate::consts::GL_SAMPLER_2D;
use crate::consts::GL_SAMPLER_CUBE;
use crate::consts::GL_SAMPLES;
use crate::consts::GL_SAMPLE_ALPHA_TO_COVERAGE;
use crate::consts::GL_SAMPLE_BUFFERS;
use crate::consts::GL_SAMPLE_COVERAGE;
use crate::consts::GL_SAMPLE_COVERAGE_INVERT;
use crate::consts::GL_SAMPLE_COVERAGE_VALUE;
use crate::consts::GL_SCISSOR_BOX;
use crate::consts::GL_SCISSOR_TEST;
use crate::consts::GL_SEPARATE_ATTRIBS;
use crate::consts::GL_SHADER_BINARY_FORMATS;
use crate::consts::GL_SHADER_COMPILER;
use crate::consts::GL_SHADER_SOURCE_LENGTH;
use crate::consts::GL_SHADER_STORAGE_BUFFER;
use crate::consts::GL_SHADER_TYPE;
use crate::consts::GL_SHADING_LANGUAGE_VERSION;
use crate::consts::GL_SHORT;
use crate::consts::GL_SRC_ALPHA;
use crate::consts::GL_SRC_ALPHA_SATURATE;
use crate::consts::GL_SRC_COLOR;
use crate::consts::GL_STATIC_DRAW;
use crate::consts::GL_STENCIL_ATTACHMENT;
use crate::consts::GL_STENCIL_BACK_FAIL;
use crate::consts::GL_STENCIL_BACK_FUNC;
use crate::consts::GL_STENCIL_BACK_PASS_DEPTH_FAIL;
use crate::consts::GL_STENCIL_BACK_PASS_DEPTH_PASS;
use crate::consts::GL_STENCIL_BACK_REF;
use crate::consts::GL_STENCIL_BACK_VALUE_MASK;
use crate::consts::GL_STENCIL_BACK_WRITEMASK;
use crate::consts::GL_STENCIL_BITS;
use crate::consts::GL_STENCIL_BUFFER_BIT;
use crate::consts::GL_STENCIL_CLEAR_VALUE;
use crate::consts::GL_STENCIL_FAIL;
use crate::consts::GL_STENCIL_FUNC;
use crate::consts::GL_STENCIL_INDEX8;
use crate::consts::GL_STENCIL_PASS_DEPTH_FAIL;
use crate::consts::GL_STENCIL_PASS_DEPTH_PASS;
use crate::consts::GL_STENCIL_REF;
use crate::consts::GL_STENCIL_TEST;
use crate::consts::GL_STENCIL_VALUE_MASK;
use crate::consts::GL_STENCIL_WRITEMASK;
use crate::consts::GL_STREAM_DRAW;
use crate::consts::GL_SUBPIXEL_BITS;
use crate::consts::GL_TEXTURE0;
use crate::consts::GL_TEXTURE1;
use crate::consts::GL_TEXTURE10;
use crate::consts::GL_TEXTURE11;
use crate::consts::GL_TEXTURE12;
use crate::consts::GL_TEXTURE13;
use crate::consts::GL_TEXTURE14;
use crate::consts::GL_TEXTURE15;
use crate::consts::GL_TEXTURE16;
use crate::consts::GL_TEXTURE17;
use crate::consts::GL_TEXTURE18;
use crate::consts::GL_TEXTURE19;
use crate::consts::GL_TEXTURE2;
use crate::consts::GL_TEXTURE20;
use crate::consts::GL_TEXTURE21;
use crate::consts::GL_TEXTURE22;
use crate::consts::GL_TEXTURE23;
use crate::consts::GL_TEXTURE24;
use crate::consts::GL_TEXTURE25;
use crate::consts::GL_TEXTURE26;
use crate::consts::GL_TEXTURE27;
use crate::consts::GL_TEXTURE28;
use crate::consts::GL_TEXTURE29;
use crate::consts::GL_TEXTURE3;
use crate::consts::GL_TEXTURE30;
use crate::consts::GL_TEXTURE31;
use crate::consts::GL_TEXTURE4;
use crate::consts::GL_TEXTURE5;
use crate::consts::GL_TEXTURE6;
use crate::consts::GL_TEXTURE7;
use crate::consts::GL_TEXTURE8;
use crate::consts::GL_TEXTURE9;
use crate::consts::GL_TEXTURE_2D;
use crate::consts::GL_TEXTURE_2D_ARRAY;
use crate::consts::GL_TEXTURE_3D;
use crate::consts::GL_TEXTURE_BINDING_2D;
use crate::consts::GL_TEXTURE_BINDING_CUBE_MAP;
use crate::consts::GL_TEXTURE_BORDER_COLOR;
use crate::consts::GL_TEXTURE_BUFFER;
use crate::consts::GL_TEXTURE_COMPARE_FUNC;
use crate::consts::GL_TEXTURE_COMPARE_MODE;
use crate::consts::GL_TEXTURE_CUBE_MAP;
use crate::consts::GL_TEXTURE_CUBE_MAP_NEGATIVE_X;
use crate::consts::GL_TEXTURE_CUBE_MAP_NEGATIVE_Y;
use crate::consts::GL_TEXTURE_CUBE_MAP_NEGATIVE_Z;
use crate::consts::GL_TEXTURE_CUBE_MAP_POSITIVE_X;
use crate::consts::GL_TEXTURE_CUBE_MAP_POSITIVE_Y;
use crate::consts::GL_TEXTURE_CUBE_MAP_POSITIVE_Z;
use crate::consts::GL_TEXTURE_MAG_FILTER;
use crate::consts::GL_TEXTURE_MAX_LOD;
use crate::consts::GL_TEXTURE_MIN_FILTER;
use crate::consts::GL_TEXTURE_MIN_LOD;
use crate::consts::GL_TEXTURE_WRAP_R;
use crate::consts::GL_TEXTURE_WRAP_S;
use crate::consts::GL_TEXTURE_WRAP_T;
use crate::consts::GL_TRANSFORM_FEEDBACK;
use crate::consts::GL_TRANSFORM_FEEDBACK_BUFFER;
use crate::consts::GL_TRIANGLES;
use crate::consts::GL_TRIANGLE_FAN;
use crate::consts::GL_TRIANGLE_STRIP;
use crate::consts::GL_UNIFORM_BUFFER;
use crate::consts::GL_UNPACK_ALIGNMENT;
use crate::consts::GL_UNSIGNED_BYTE;
use crate::consts::GL_UNSIGNED_SHORT;
use crate::consts::GL_UNSIGNED_SHORT_4_4_4_4;
use crate::consts::GL_UNSIGNED_SHORT_5_5_5_1;
use crate::consts::GL_UNSIGNED_SHORT_5_6_5;
use crate::consts::GL_VALIDATE_STATUS;
use crate::consts::GL_VENDOR;
use crate::consts::GL_VERSION;
use crate::consts::GL_VERTEX_ATTRIB_ARRAY_BUFFER_BINDING;
use crate::consts::GL_VERTEX_ATTRIB_ARRAY_ENABLED;
use crate::consts::GL_VERTEX_ATTRIB_ARRAY_NORMALIZED;
use crate::consts::GL_VERTEX_ATTRIB_ARRAY_SIZE;
use crate::consts::GL_VERTEX_ATTRIB_ARRAY_STRIDE;
use crate::consts::GL_VERTEX_ATTRIB_ARRAY_TYPE;
use crate::consts::GL_VERTEX_SHADER;
use crate::consts::GL_VIEWPORT;
use crate::consts::GL_ZERO;
use crate::types::GLenum;
use crate::types::GLuint;

verus! {

pub struct Error {}

#[derive(Copy, Clone, Debug, PartialEq, Eq, Structural)]
pub enum TextureUnit {
    Texture0,
    Texture1,
    Texture2,
    Texture3,
    Texture4,
    Texture5,
    Texture6,
    Texture7,
    Texture8,
    Texture9,
    Texture10,
    Texture11,
    Texture12,
    Texture13,
    Texture14,
    Texture15,
    Texture16,
    Texture17,
    Texture18,
    Texture19,
    Texture20,
    Texture21,
    Texture22,
    Texture23,
    Texture24,
    Texture25,
    Texture26,
    Texture27,
    Texture28,
    Texture29,
    Texture30,
    Texture31,
}

impl TextureUnit {
    /// The constant the standard publishes for each variant.
    pub open spec fn spec_numeric(self) -> GLenum {
        match self {
            TextureUnit::Texture0 => GL_TEXTURE0,
            TextureUnit::Texture1 => GL_TEXTURE1,
            TextureUnit::Texture2 => GL_TEXTURE2,
            TextureUnit::Texture3 => GL_TEXTURE3,
            TextureUnit::Texture4 => GL_TEXTURE4,
            TextureUnit::Texture5 => GL_TEXTURE5,
            TextureUnit::Texture6 => GL_TEXTURE6,
            TextureUnit::Texture7 => GL_TEXTURE7,
            TextureUnit::Texture8 => GL_TEXTURE8,
            TextureUnit::Texture9 => GL_TEXTURE9,
            TextureUnit::Texture10 => GL_TEXTURE10,
            TextureUnit::Texture11 => GL_TEXTURE11,
            TextureUnit::Texture12 => GL_TEXTURE12,
            TextureUnit::Texture13 => GL_TEXTURE13,
            TextureUnit::Texture14 => GL_TEXTURE14,
            TextureUnit::Texture15 => GL_TEXTURE15,
            TextureUnit::Texture16 => GL_TEXTURE16,
            TextureUnit::Texture17 => GL_TEXTURE17,
            TextureUnit::Texture18 => GL_TEXTURE18,
            TextureUnit::Texture19 => GL_TEXTURE19,
            TextureUnit::Texture20 => GL_TEXTURE20,
            TextureUnit::Texture21 => GL_TEXTURE21,
            TextureUnit::Texture22 => GL_TEXTURE22,
            TextureUnit::Texture23 => GL_TEXTURE23,
            TextureUnit::Texture24 => GL_TEXTURE24,
            TextureUnit::Texture25 => GL_TEXTURE25,
            TextureUnit::Texture26 => GL_TEXTURE26,
            TextureUnit::Texture27 => GL_TEXTURE27,
            TextureUnit::Texture28 => GL_TEXTURE28,
            TextureUnit::Texture29 => GL_TEXTURE29,
            TextureUnit::Texture30 => GL_TEXTURE30,
            TextureUnit::Texture31 => GL_TEXTURE31,
        }
    }

    /// The variant carrying a given constant, if any does.
    pub open spec fn spec_from_numeric(raw: GLenum) -> Option<TextureUnit> {
        if raw == GL_TEXTURE0 {
            Some(TextureUnit::Texture0)
        } else if raw == GL_TEXTURE1 {
            Some(TextureUnit::Texture1)
        } else if raw == GL_TEXTURE2 {
            Some(TextureUnit::Texture2)
        } else if raw == GL_TEXTURE3 {
            Some(TextureUnit::Texture3)
        } else if raw == GL_TEXTURE4 {
            Some(TextureUnit::Texture4)
        } else if raw == GL_TEXTURE5 {
            Some(TextureUnit::Texture5)
        } else if raw == GL_TEXTURE6 {
            Some(TextureUnit::Texture6)
        } else if raw == GL_TEXTURE7 {
            Some(TextureUnit::Texture7)
        } else if raw == GL_TEXTURE8 {
            Some(TextureUnit::Texture8)
        } else if raw == GL_TEXTURE9 {
            Some(TextureUnit::Texture9)
        } else if raw == GL_TEXTURE10 {
            Some(TextureUnit::Texture10)
        } else if raw == GL_TEXTURE11 {
            Some(TextureUnit::Texture11)
        } else if raw == GL_TEXTURE12 {
            Some(TextureUnit::Texture12)
        } else if raw == GL_TEXTURE13 {
            Some(TextureUnit::Texture13)
        } else if raw == GL_TEXTURE14 {
            Some(TextureUnit::Texture14)
        } else if raw == GL_TEXTURE15 {
            Some(TextureUnit::Texture15)
        } else if raw == GL_TEXTURE16 {
            Some(TextureUnit::Texture16)
        } else if raw == GL_TEXTURE17 {
            Some(TextureUnit::Texture17)
        } else if raw == GL_TEXTURE18 {
            Some(TextureUnit::Texture18)
        } else if raw == GL_TEXTURE19 {
            Some(TextureUnit::Texture19)
        } else if raw == GL_TEXTURE20 {
            Some(TextureUnit::Texture20)
        } else if raw == GL_TEXTURE21 {
            Some(TextureUnit::Texture21)
        } else if raw == GL_TEXTURE22 {
            Some(TextureUnit::Texture22)
        } else if raw == GL_TEXTURE23 {
            Some(TextureUnit::Texture23)
        } else if raw == GL_TEXTURE24 {
            Some(TextureUnit::Texture24)
        } else if raw == GL_TEXTURE25 {
            Some(TextureUnit::Texture25)
        } else if raw == GL_TEXTURE26 {
            Some(TextureUnit::Texture26)
        } else if raw == GL_TEXTURE27 {
            Some(TextureUnit::Texture27)
        } else if raw == GL_TEXTURE28 {
            Some(TextureUnit::Texture28)
        } else if raw == GL_TEXTURE29 {
            Some(TextureUnit::Texture29)
        } else if raw == GL_TEXTURE30 {
            Some(TextureUnit::Texture30)
        } else if raw == GL_TEXTURE31 {
            Some(TextureUnit::Texture31)
        } else {
            None
        }
    }

    /// Total and lossless: every variant has exactly one constant.
    pub fn to_numeric(self) -> (raw: GLenum)
        ensures
            raw == self.spec_numeric(),
    {
        match self {
            TextureUnit::Texture0 => GL_TEXTURE0,
            TextureUnit::Texture1 => GL_TEXTURE1,
            TextureUnit::Texture2 => GL_TEXTURE2,
            TextureUnit::Texture3 => GL_TEXTURE3,
            TextureUnit::Texture4 => GL_TEXTURE4,
            TextureUnit::Texture5 => GL_TEXTURE5,
            TextureUnit::Texture6 => GL_TEXTURE6,
            TextureUnit::Texture7 => GL_TEXTURE7,
            TextureUnit::Texture8 => GL_TEXTURE8,
            TextureUnit::Texture9 => GL_TEXTURE9,
            TextureUnit::Texture10 => GL_TEXTURE10,
            TextureUnit::Texture11 => GL_TEXTURE11,
            TextureUnit::Texture12 => GL_TEXTURE12,
            TextureUnit::Texture13 => GL_TEXTURE13,
            TextureUnit::Texture14 => GL_TEXTURE14,
            TextureUnit::Texture15 => GL_TEXTURE15,
            TextureUnit::Texture16 => GL_TEXTURE16,
            TextureUnit::Texture17 => GL_TEXTURE17,
            TextureUnit::Texture18 => GL_TEXTURE18,
            TextureUnit::Texture19 => GL_TEXTURE19,
            TextureUnit::Texture20 => GL_TEXTURE20,
            TextureUnit::Texture21 => GL_TEXTURE21,
            TextureUnit::Texture22 => GL_TEXTURE22,
            TextureUnit::Texture23 => GL_TEXTURE23,
            TextureUnit::Texture24 => GL_TEXTURE24,
            TextureUnit::Texture25 => GL_TEXTURE25,
            TextureUnit::Texture26 => GL_TEXTURE26,
            TextureUnit::Texture27 => GL_TEXTURE27,
            TextureUnit::Texture28 => GL_TEXTURE28,
            TextureUnit::Texture29 => GL_TEXTURE29,
            TextureUnit::Texture30 => GL_TEXTURE30,
            TextureUnit::Texture31 => GL_TEXTURE31,
        }
    }

    /// Exact partial inverse of `to_numeric`: `None` on an unknown constant.
    pub fn from_numeric(raw: GLenum) -> (v: Option<TextureUnit>)
        ensures
            v == Self::spec_from_numeric(raw),
    {
        if raw == GL_TEXTURE0 {
            Some(TextureUnit::Texture0)
        } else if raw == GL_TEXTURE1 {
            Some(TextureUnit::Texture1)
        } else if raw == GL_TEXTURE2 {
            Some(TextureUnit::Texture2)
        } else if raw == GL_TEXTURE3 {
            Some(TextureUnit::Texture3)
        } else if raw == GL_TEXTURE4 {
            Some(TextureUnit::Texture4)
        } else if raw == GL_TEXTURE5 {
            Some(TextureUnit::Texture5)
        } else if raw == GL_TEXTURE6 {
            Some(TextureUnit::Texture6)
        } else if raw == GL_TEXTURE7 {
            Some(TextureUnit::Texture7)
        } else if raw == GL_TEXTURE8 {
            Some(TextureUnit::Texture8)
        } else if raw == GL_TEXTURE9 {
            Some(TextureUnit::Texture9)
        } else if raw == GL_TEXTURE10 {
            Some(TextureUnit::Texture10)
        } else if raw == GL_TEXTURE11 {
            Some(TextureUnit::Texture11)
        } else if raw == GL_TEXTURE12 {
            Some(TextureUnit::Texture12)
        } else if raw == GL_TEXTURE13 {
            Some(TextureUnit::Texture13)
        } else if raw == GL_TEXTURE14 {
            Some(TextureUnit::Texture14)
        } else if raw == GL_TEXTURE15 {
            Some(TextureUnit::Texture15)
        } else if raw == GL_TEXTURE16 {
            Some(TextureUnit::Texture16)
        } else if raw == GL_TEXTURE17 {
            Some(TextureUnit::Texture17)
        } else if raw == GL_TEXTURE18 {
            Some(TextureUnit::Texture18)
        } else if raw == GL_TEXTURE19 {
            Some(TextureUnit::Texture19)
        } else if raw == GL_TEXTURE20 {
            Some(TextureUnit::Texture20)
        } else if raw == GL_TEXTURE21 {
            Some(TextureUnit::Texture21)
        } else if raw == GL_TEXTURE22 {
            Some(TextureUnit::Texture22)
        } else if raw == GL_TEXTURE23 {
            Some(TextureUnit::Texture23)
        } else if raw == GL_TEXTURE24 {
            Some(TextureUnit::Texture24)
        } else if raw == GL_TEXTURE25 {
            Some(TextureUnit::Texture25)
        } else if raw == GL_TEXTURE26 {
            Some(TextureUnit::Texture26)
        } else if raw == GL_TEXTURE27 {
            Some(TextureUnit::Texture27)
        } else if raw == GL_TEXTURE28 {
            Some(TextureUnit::Texture28)
        } else if raw == GL_TEXTURE29 {
            Some(TextureUnit::Texture29)
        } else if raw == GL_TEXTURE30 {
            Some(TextureUnit::Texture30)
        } else if raw == GL_TEXTURE31 {
            Some(TextureUnit::Texture31)
        } else {
            None
        }
    }
}

/// Every `TextureUnit` variant survives the trip to its constant and back.
pub proof fn lemma_texture_unit_round_trip(v: TextureUnit)
    ensures
        TextureUnit::spec_from_numeric(v.spec_numeric()) == Some(v),
{
}

/// No two `TextureUnit` variants share a constant.
pub proof fn lemma_texture_unit_injective(a: TextureUnit, b: TextureUnit)
    ensures
        a.spec_numeric() == b.spec_numeric() ==> a == b,
{
    if a.spec_numeric() == b.spec_numeric() {
        lemma_texture_unit_round_trip(a);
        lemma_texture_unit_round_trip(b);
    }
}
#[allow(non_camel_case_types)]
#[derive(Copy, Clone, Debug, PartialEq, Eq, Structural)]
pub enum BufferTarget {
    ARRAY_BUFFER,
    ELEMENT_ARRAY_BUFFER,
}

impl BufferTarget {
    /// The constant the standard publishes for each variant.
    pub open spec fn spec_numeric(self) -> GLenum {
        match self {
            BufferTarget::ARRAY_BUFFER => GL_ARRAY_BUFFER,
            BufferTarget::ELEMENT_ARRAY_BUFFER => GL_ELEMENT_ARRAY_BUFFER,
        }
    }

    /// The variant carrying a given constant, if any does.
    pub open spec fn spec_from_numeric(raw: GLenum) -> Option<BufferTarget> {
        if raw == GL_ARRAY_BUFFER {
            Some(BufferTarget::ARRAY_BUFFER)
        } else if raw == GL_ELEMENT_ARRAY_BUFFER {
            Some(BufferTarget::ELEMENT_ARRAY_BUFFER)
        } else {
            None
        }
    }

    /// Total and lossless: every variant has exactly one constant.
    pub fn to_numeric(self) -> (raw: GLenum)
        ensures
            raw == self.spec_numeric(),
    {
        match self {
            BufferTarget::ARRAY_BUFFER => GL_ARRAY_BUFFER,
            BufferTarget::ELEMENT_ARRAY_BUFFER => GL_ELEMENT_ARRAY_BUFFER,
        }
    }

    /// Exact partial inverse of `to_numeric`: `None` on an unknown constant.
    pub fn from_numeric(raw: GLenum) -> (v: Option<BufferTarget>)
        ensures
            v == Self::spec_from_numeric(raw),
    {
        if raw == GL_ARRAY_BUFFER {
            Some(BufferTarget::ARRAY_BUFFER)
        } else if raw == GL_ELEMENT_ARRAY_BUFFER {
            Some(BufferTarget::ELEMENT_ARRAY_BUFFER)
        } else {
            None
        }
    }
}

/// Every `BufferTarget` variant survives the trip to its constant and back.
pub proof fn lemma_buffer_target_round_trip(v: BufferTarget)
    ensures
        BufferTarget::spec_from_numeric(v.spec_numeric()) == Some(v),
{
}

/// No two `BufferTarget` variants share a constant.
pub proof fn lemma_buffer_target_injective(a: BufferTarget, b: BufferTarget)
    ensures
        a.spec_numeric() == b.spec_numeric() ==> a == b,
{
    if a.spec_numeric() == b.spec_numeric() {
        lemma_buffer_target_round_trip(a);
        lemma_buffer_target_round_trip(b);
    }
}
#[derive(Copy, Clone, Debug, PartialEq, Eq, Structural)]
pub enum FrameBufferTarget {
    FrameBuffer,
}

impl FrameBufferTarget {
    /// The constant the standard publishes for each variant.
    pub open spec fn spec_numeric(self) -> GLenum {
        match self {
            FrameBufferTarget::FrameBuffer => GL_FRAMEBUFFER,
        }
    }

    /// The variant carrying a given constant, if any does.
    pub open spec fn spec_from_numeric(raw: GLenum) -> Option<FrameBufferTarget> {
        if raw == GL_FRAMEBUFFER {
            Some(FrameBufferTarget::FrameBuffer)
        } else {
            None
        }
    }

    /// Total and lossless: every variant has exactly one constant.
    pub fn to_numeric(self) -> (raw: GLenum)
        ensures
            raw == self.spec_numeric(),
    {
        match self {
            FrameBufferTarget::FrameBuffer => GL_FRAMEBUFFER,
        }
    }

    /// Exact partial inverse of `to_numeric`: `None` on an unknown constant.
    pub fn from_numeric(raw: GLenum) -> (v: Option<FrameBufferTarget>)
        ensures
            v == Self::spec_from_numeric(raw),
    {
        if raw == GL_FRAMEBUFFER {
            Some(FrameBufferTarget::FrameBuffer)
        } else {
            None
        }
    }
}

/// Every `FrameBufferTarget` variant survives the trip to its constant and back.
pub proof fn lemma_frame_buffer_target_round_trip(v: FrameBufferTarget)
    ensures
        FrameBufferTarget::spec_from_numeric(v.spec_numeric()) == Some(v),
{
}

/// No two `FrameBufferTarget` variants share a constant.
pub proof fn lemma_frame_buffer_target_injective(a: FrameBufferTarget, b: FrameBufferTarget)
    ensures
        a.spec_numeric() == b.spec_numeric() ==> a == b,
{
    if a.spec_numeric() == b.spec_numeric() {
        lemma_frame_buffer_target_round_trip(a);
        lemma_frame_buffer_target_round_trip(b);
    }
}
#[allow(non_camel_case_types)]
#[derive(Copy, Clone, Debug, PartialEq, Eq, Structural)]
pub enum RenderBufferTarget {
    RENDERBUFFER,
}

impl RenderBufferTarget {
    /// The constant the standard publishes for each variant.
    pub open spec fn spec_numeric(self) -> GLenum {
        match self {
            RenderBufferTarget::RENDERBUFFER => GL_RENDERBUFFER,
        }
    }

    /// The variant carrying a given constant, if any does.
    pub open spec fn spec_from_numeric(raw: GLenum) -> Option<RenderBufferTarget> {
        if raw == GL_RENDERBUFFER {
            Some(RenderBufferTarget::RENDERBUFFER)
        } else {
            None
        }
    }

    /// Total and lossless: every variant has exactly one constant.
    pub fn to_numeric(self) -> (raw: GLenum)
        ensures
            raw == self.spec_numeric(),
    {
        match self {
            RenderBufferTarget::RENDERBUFFER => GL_RENDERBUFFER,
        }
    }

    /// Exact partial inverse of `to_numeric`: `None` on an unknown constant.
    pub fn from_numeric(raw: GLenum) -> (v: Option<RenderBufferTarget>)
        ensures
            v == Self::spec_from_numeric(raw),
    {
        if raw == GL_RENDERBUFFER {
            Some(RenderBufferTarget::RENDERBUFFER)
        } else {
            None
        }
    }
}

/// Every `RenderBufferTarget` variant survives the trip to its constant and back.
pub proof fn lemma_render_buffer_target_round_trip(v: RenderBufferTarget)
    ensures
        RenderBufferTarget::spec_from_numeric(v.spec_numeric()) == Some(v),
{
}

/// No two `RenderBufferTarget` variants share a constant.
pub proof fn lemma_render_buffer_target_injective(a: RenderBufferTarget, b: RenderBufferTarget)
    ensures
        a.spec_numeric() == b.spec_numeric() ==> a == b,
{
    if a.spec_numeric() == b.spec_numeric() {
        lemma_render_buffer_target_round_trip(a);
        lemma_render_buffer_target_round_trip(b);
    }
}
#[allow(non_camel_case_types)]
#[derive(Copy, Clone, Debug, PartialEq, Eq, Structural)]
pub enum TextureBindTarget {
    TEXTURE_2D,
    TEXTURE_CUBE_MAP,
}

impl TextureBindTarget {
    /// The constant the standard publishes for each variant.
    pub open spec fn spec_numeric(self) -> GLenum {
        match self {
            TextureBindTarget::TEXTURE_2D => GL_TEXTURE_2D,
            TextureBindTarget::TEXTURE_CUBE_MAP => GL_TEXTURE_CUBE_MAP,
        }
    }

    /// The variant carrying a given constant, if any does.
    pub open spec fn spec_from_numeric(raw: GLenum) -> Option<TextureBindTarget> {
        if raw == GL_TEXTURE_2D {
            Some(TextureBindTarget::TEXTURE_2D)
        } else if raw == GL_TEXTURE_CUBE_MAP {
            Some(TextureBindTarget::TEXTURE_CUBE_MAP)
        } else {
            None
        }
    }

    /// Total and lossless: every variant has exactly one constant.
    pub fn to_numeric(self) -> (raw: GLenum)
        ensures
            raw == self.spec_numeric(),
    {
        match self {
            TextureBindTarget::TEXTURE_2D => GL_TEXTURE_2D,
            TextureBindTarget::TEXTURE_CUBE_MAP => GL_TEXTURE_CUBE_MAP,
        }
    }

    /// Exact partial inverse of `to_numeric`: `None` on an unknown constant.
    pub fn from_numeric(raw: GLenum) -> (v: Option<TextureBindTarget>)
        ensures
            v == Self::spec_from_numeric(raw),
    {
        if raw == GL_TEXTURE_2D {
            Some(TextureBindTarget::TEXTURE_2D)
        } else if raw == GL_TEXTURE_CUBE_MAP {
            Some(TextureBindTarget::TEXTURE_CUBE_MAP)
        } else {
            None
        }
    }
}

/// Every `TextureBindTarget` variant survives the trip to its constant and back.
pub proof fn lemma_texture_bind_target_round_trip(v: TextureBindTarget)
    ensures
        TextureBindTarget::spec_from_numeric(v.spec_numeric()) == Some(v),
{
}

/// No two `TextureBindTarget` variants share a constant.
pub proof fn lemma_texture_bind_target_injective(a: TextureBindTarget, b: TextureBindTarget)
    ensures
        a.spec_numeric() == b.spec_numeric() ==> a == b,
{
    if a.spec_numeric() == b.spec_numeric() {
        lemma_texture_bind_target_round_trip(a);
        lemma_texture_bind_target_round_trip(b);
    }
}
#[allow(non_camel_case_types)]
#[derive(Copy, Clone, Debug, PartialEq, Eq, Structural)]
pub enum TextureTarget {
    TEXTURE_2D,
    TEXTURE_CUBE_MAP_POSITIVE_X,
    TEXTURE_CUBE_MAP_NEGATIVE_X,
    TEXTURE_CUBE_MAP_POSITIVE_Y,
    TEXTURE_CUBE_MAP_NEGATIVE_Y,
    TEXTURE_CUBE_MAP_POSITIVE_Z,
    TEXTURE_CUBE_MAP_NEGATIVE_Z,
    Texture3D,
    Texture2DArray,
}

impl TextureTarget {
    /// The constant the standard publishes for each variant.
    pub open spec fn spec_numeric(self) -> GLenum {
        match self {
            TextureTarget::TEXTURE_2D => GL_TEXTURE_2D,
            TextureTarget::TEXTURE_CUBE_MAP_POSITIVE_X => GL_TEXTURE_CUBE_MAP_POSITIVE_X,
            TextureTarget::TEXTURE_CUBE_MAP_NEGATIVE_X => GL_TEXTURE_CUBE_MAP_NEGATIVE_X,
            TextureTarget::TEXTURE_CUBE_MAP_POSITIVE_Y => GL_TEXTURE_CUBE_MAP_POSITIVE_Y,
            TextureTarget::TEXTURE_CUBE_MAP_NEGATIVE_Y => GL_TEXTURE_CUBE_MAP_NEGATIVE_Y,
            TextureTarget::TEXTURE_CUBE_MAP_POSITIVE_Z => GL_TEXTURE_CUBE_MAP_POSITIVE_Z,
            TextureTarget::TEXTURE_CUBE_MAP_NEGATIVE_Z => GL_TEXTURE_CUBE_MAP_NEGATIVE_Z,
            TextureTarget::Texture3D => GL_TEXTURE_3D,
            TextureTarget::Texture2DArray => GL_TEXTURE_2D_ARRAY,
        }
    }

    /// The variant carrying a given constant, if any does.
    pub open spec fn spec_from_numeric(raw: GLenum) -> Option<TextureTarget> {
        if raw == GL_TEXTURE_2D {
            Some(TextureTarget::TEXTURE_2D)
        } else if raw == GL_TEXTURE_CUBE_MAP_POSITIVE_X {
            Some(TextureTarget::TEXTURE_CUBE_MAP_POSITIVE_X)
        } else if raw == GL_TEXTURE_CUBE_MAP_NEGATIVE_X {
            Some(TextureTarget::TEXTURE_CUBE_MAP_NEGATIVE_X)
        } else if raw == GL_TEXTURE_CUBE_MAP_POSITIVE_Y {
            Some(TextureTarget::TEXTURE_CUBE_MAP_POSITIVE_Y)
        } else if raw == GL_TEXTURE_CUBE_MAP_NEGATIVE_Y {
            Some(TextureTarget::TEXTURE_CUBE_MAP_NEGATIVE_Y)
        } else if raw == GL_TEXTURE_CUBE_MAP_POSITIVE_Z {
            Some(TextureTarget::TEXTURE_CUBE_MAP_POSITIVE_Z)
        } else if raw == GL_TEXTURE_CUBE_MAP_NEGATIVE_Z {
            Some(TextureTarget::TEXTURE_CUBE_MAP_NEGATIVE_Z)
        } else if raw == GL_TEXTURE_3D {
            Some(TextureTarget::Texture3D)
        } else if raw == GL_TEXTURE_2D_ARRAY {
            Some(TextureTarget::Texture2DArray)
        } else {
            None
        }
    }

    /// Total and lossless: every variant has exactly one constant.
    pub fn to_numeric(self) -> (raw: GLenum)
        ensures
            raw == self.spec_numeric(),
    {
        match self {
            TextureTarget::TEXTURE_2D => GL_TEXTURE_2D,
            TextureTarget::TEXTURE_CUBE_MAP_POSITIVE_X => GL_TEXTURE_CUBE_MAP_POSITIVE_X,
            TextureTarget::TEXTURE_CUBE_MAP_NEGATIVE_X => GL_TEXTURE_CUBE_MAP_NEGATIVE_X,
            TextureTarget::TEXTURE_CUBE_MAP_POSITIVE_Y => GL_TEXTURE_CUBE_MAP_POSITIVE_Y,
            TextureTarget::TEXTURE_CUBE_MAP_NEGATIVE_Y => GL_TEXTURE_CUBE_MAP_NEGATIVE_Y,
            TextureTarget::TEXTURE_CUBE_MAP_POSITIVE_Z => GL_TEXTURE_CUBE_MAP_POSITIVE_Z,
            TextureTarget::TEXTURE_CUBE_MAP_NEGATIVE_Z => GL_TEXTURE_CUBE_MAP_NEGATIVE_Z,
            TextureTarget::Texture3D => GL_TEXTURE_3D,
            TextureTarget::Texture2DArray => GL_TEXTURE_2D_ARRAY,
        }
    }

    /// Exact partial inverse of `to_numeric`: `None` on an unknown constant.
    pub fn from_numeric(raw: GLenum) -> (v: Option<TextureTarget>)
        ensures
            v == Self::spec_from_numeric(raw),
    {
        if raw == GL_TEXTURE_2D {
            Some(TextureTarget::TEXTURE_2D)
        } else if raw == GL_TEXTURE_CUBE_MAP_POSITIVE_X {
            Some(TextureTarget::TEXTURE_CUBE_MAP_POSITIVE_X)
        } else if raw == GL_TEXTURE_CUBE_MAP_NEGATIVE_X {
            Some(TextureTarget::TEXTURE_CUBE_MAP_NEGATIVE_X)
        } else if raw == GL_TEXTURE_CUBE_MAP_POSITIVE_Y {
            Some(TextureTarget::TEXTURE_CUBE_MAP_POSITIVE_Y)
        } else if raw == GL_TEXTURE_CUBE_MAP_NEGATIVE_Y {
            Some(TextureTarget::TEXTURE_CUBE_MAP_NEGATIVE_Y)
        } else if raw == GL_TEXTURE_CUBE_MAP_POSITIVE_Z {
            Some(TextureTarget::TEXTURE_CUBE_MAP_POSITIVE_Z)
        } else if raw == GL_TEXTURE_CUBE_MAP_NEGATIVE_Z {
            Some(TextureTarget::TEXTURE_CUBE_MAP_NEGATIVE_Z)
        } else if raw == GL_TEXTURE_3D {
            Some(TextureTarget::Texture3D)
        } else if raw == GL_TEXTURE_2D_ARRAY {
            Some(TextureTarget::Texture2DArray)
        } else {
            None
        }
    }
}

/// Every `TextureTarget` variant survives the trip to its constant and back.
pub proof fn lemma_texture_target_round_trip(v: TextureTarget)
    ensures
        TextureTarget::spec_from_numeric(v.spec_numeric()) == Some(v),
{
}

/// No two `TextureTarget` variants share a constant.
pub proof fn lemma_texture_target_injective(a: TextureTarget, b: TextureTarget)
    ensures
        a.spec_numeric() == b.spec_numeric() ==> a == b,
{
    if a.spec_numeric() == b.spec_numeric() {
        lemma_texture_target_round_trip(a);
        lemma_texture_target_round_trip(b);
    }
}
#[allow(non_camel_case_types)]
#[derive(Copy, Clone, Debug, PartialEq, Eq, Structural)]
pub enum BlendEquationMode {
    FUNC_ADD,
    FUNC_SUBTRACT,
    FUNC_REVERSE_SUBTRACT,
}

impl BlendEquationMode {
    /// The constant the standard publishes for each variant.
    pub open spec fn spec_numeric(self) -> GLenum {
        match self {
            BlendEquationMode::FUNC_ADD => GL_FUNC_ADD,
            BlendEquationMode::FUNC_SUBTRACT => GL_FUNC_SUBTRACT,
            BlendEquationMode::FUNC_REVERSE_SUBTRACT => GL_FUNC_REVERSE_SUBTRACT,
        }
    }

    /// The variant carrying a given constant, if any does.
    pub open spec fn spec_from_numeric(raw: GLenum) -> Option<BlendEquationMode> {
        if raw == GL_FUNC_ADD {
            Some(BlendEquationMode::FUNC_ADD)
        } else if raw == GL_FUNC_SUBTRACT {
            Some(BlendEquationMode::FUNC_SUBTRACT)
        } else if raw == GL_FUNC_REVERSE_SUBTRACT {
            Some(BlendEquationMode::FUNC_REVERSE_SUBTRACT)
        } else {
            None
        }
    }

    /// Total and lossless: every variant has exactly one constant.
    pub fn to_numeric(self) -> (raw: GLenum)
        ensures
            raw == self.spec_numeric(),
    {
        match self {
            BlendEquationMode::FUNC_ADD => GL_FUNC_ADD,
            BlendEquationMode::FUNC_SUBTRACT => GL_FUNC_SUBTRACT,
            BlendEquationMode::FUNC_REVERSE_SUBTRACT => GL_FUNC_REVERSE_SUBTRACT,
        }
    }

    /// Exact partial inverse of `to_numeric`: `None` on an unknown constant.
    pub fn from_numeric(raw: GLenum) -> (v: Option<BlendEquationMode>)
        ensures
            v == Self::spec_from_numeric(raw),
    {
        if raw == GL_FUNC_ADD {
            Some(BlendEquationMode::FUNC_ADD)
        } else if raw == GL_FUNC_SUBTRACT {
            Some(BlendEquationMode::FUNC_SUBTRACT)
        } else if raw == GL_FUNC_REVERSE_SUBTRACT {
            Some(BlendEquationMode::FUNC_REVERSE_SUBTRACT)
        } else {
            None
        }
    }
}

/// Every `BlendEquationMode` variant survives the trip to its constant and back.
pub proof fn lemma_blend_equation_mode_round_trip(v: BlendEquationMode)
    ensures
        BlendEquationMode::spec_from_numeric(v.spec_numeric()) == Some(v),
{
}

/// No two `BlendEquationMode` variants share a constant.
pub proof fn lemma_blend_equation_mode_injective(a: BlendEquationMode, b: BlendEquationMode)
    ensures
        a.spec_numeric() == b.spec_numeric() ==> a == b,
{
    if a.spec_numeric() == b.spec_numeric() {
        lemma_blend_equation_mode_round_trip(a);
        lemma_blend_equation_mode_round_trip(b);
    }
}
#[allow(non_camel_case_types)]
#[derive(Copy, Clone, Debug, PartialEq, Eq, Structural)]
pub enum BlendFactor {
    ZERO,
    ONE,
    SRC_COLOR,
    ONE_MINUS_SRC_COLOR,
    DST_COLOR,
    ONE_MINUS_DST_COLOR,
    SRC_ALPHA,
    ONE_MINUS_SRC_ALPHA,
    DST_ALPHA,
    ONE_MINUS_DST_ALPHA,
    CONSTANT_COLOR,
    ONE_MINUS_CONSTANT_COLOR,
    CONSTANT_ALPHA,
    ONE_MINUS_CONSTANT_ALPHA,
    SRC_ALPHA_SATURATE,
}

impl BlendFactor {
    /// The constant the standard publishes for each variant.
    pub open spec fn spec_numeric(self) -> GLenum {
        match self {
            BlendFactor::ZERO => GL_ZERO,
            BlendFactor::ONE => GL_ONE,
            BlendFactor::SRC_COLOR => GL_SRC_COLOR,
            BlendFactor::ONE_MINUS_SRC_COLOR => GL_ONE_MINUS_SRC_COLOR,
            BlendFactor::DST_COLOR => GL_DST_COLOR,
            BlendFactor::ONE_MINUS_DST_COLOR => GL_ONE_MINUS_DST_COLOR,
            BlendFactor::SRC_ALPHA => GL_SRC_ALPHA,
            BlendFactor::ONE_MINUS_SRC_ALPHA => GL_ONE_MINUS_SRC_ALPHA,
            BlendFactor::DST_ALPHA => GL_DST_ALPHA,
            BlendFactor::ONE_MINUS_DST_ALPHA => GL_ONE_MINUS_DST_ALPHA,
            BlendFactor::CONSTANT_COLOR => GL_CONSTANT_COLOR,
            BlendFactor::ONE_MINUS_CONSTANT_COLOR => GL_ONE_MINUS_CONSTANT_COLOR,
            BlendFactor::CONSTANT_ALPHA => GL_CONSTANT_ALPHA,
            BlendFactor::ONE_MINUS_CONSTANT_ALPHA => GL_ONE_MINUS_CONSTANT_ALPHA,
            BlendFactor::SRC_ALPHA_SATURATE => GL_SRC_ALPHA_SATURATE,
        }
    }

    /// The variant carrying a given constant, if any does.
    pub open spec fn spec_from_numeric(raw: GLenum) -> Option<BlendFactor> {
        if raw == GL_ZERO {
            Some(BlendFactor::ZERO)
        } else if raw == GL_ONE {
            Some(BlendFactor::ONE)
        } else if raw == GL_SRC_COLOR {
            Some(BlendFactor::SRC_COLOR)
        } else if raw == GL_ONE_MINUS_SRC_COLOR {
            Some(BlendFactor::ONE_MINUS_SRC_COLOR)
        } else if raw == GL_DST_COLOR {
            Some(BlendFactor::DST_COLOR)
        } else if raw == GL_ONE_MINUS_DST_COLOR {
            Some(BlendFactor::ONE_MINUS_DST_COLOR)
        } else if raw == GL_SRC_ALPHA {
            Some(BlendFactor::SRC_ALPHA)
        } else if raw == GL_ONE_MINUS_SRC_ALPHA {
            Some(BlendFactor::ONE_MINUS_SRC_ALPHA)
        } else if raw == GL_DST_ALPHA {
            Some(BlendFactor::DST_ALPHA)
        } else if raw == GL_ONE_MINUS_DST_ALPHA {
            Some(BlendFactor::ONE_MINUS_DST_ALPHA)
        } else if raw == GL_CONSTANT_COLOR {
            Some(BlendFactor::CONSTANT_COLOR)
        } else if raw == GL_ONE_MINUS_CONSTANT_COLOR {
            Some(BlendFactor::ONE_MINUS_CONSTANT_COLOR)
        } else if raw == GL_CONSTANT_ALPHA {
            Some(BlendFactor::CONSTANT_ALPHA)
        } else if raw == GL_ONE_MINUS_CONSTANT_ALPHA {
            Some(BlendFactor::ONE_MINUS_CONSTANT_ALPHA)
        } else if raw == GL_SRC_ALPHA_SATURATE {
            Some(BlendFactor::SRC_ALPHA_SATURATE)
        } else {
            None
        }
    }

    /// Total and lossless: every variant has exactly one constant.
    pub fn to_numeric(self) -> (raw: GLenum)
        ensures
            raw == self.spec_numeric(),
    {
        match self {
            BlendFactor::ZERO => GL_ZERO,
            BlendFactor::ONE => GL_ONE,
            BlendFactor::SRC_COLOR => GL_SRC_COLOR,
            BlendFactor::ONE_MINUS_SRC_COLOR => GL_ONE_MINUS_SRC_COLOR,
            BlendFactor::DST_COLOR => GL_DST_COLOR,
            BlendFactor::ONE_MINUS_DST_COLOR => GL_ONE_MINUS_DST_COLOR,
            BlendFactor::SRC_ALPHA => GL_SRC_ALPHA,
            BlendFactor::ONE_MINUS_SRC_ALPHA => GL_ONE_MINUS_SRC_ALPHA,
            BlendFactor::DST_ALPHA => GL_DST_ALPHA,
            BlendFactor::ONE_MINUS_DST_ALPHA => GL_ONE_MINUS_DST_ALPHA,
            BlendFactor::CONSTANT_COLOR => GL_CONSTANT_COLOR,
            BlendFactor::ONE_MINUS_CONSTANT_COLOR => GL_ONE_MINUS_CONSTANT_COLOR,
            BlendFactor::CONSTANT_ALPHA => GL_CONSTANT_ALPHA,
            BlendFactor::ONE_MINUS_CONSTANT_ALPHA => GL_ONE_MINUS_CONSTANT_ALPHA,
            BlendFactor::SRC_ALPHA_SATURATE => GL_SRC_ALPHA_SATURATE,
        }
    }

    /// Exact partial inverse of `to_numeric`: `None` on an unknown constant.
    pub fn from_numeric(raw: GLenum) -> (v: Option<BlendFactor>)
        ensures
            v == Self::spec_from_numeric(raw),
    {
        if raw == GL_ZERO {
            Some(BlendFactor::ZERO)
        } else if raw == GL_ONE {
            Some(BlendFactor::ONE)
        } else if raw == GL_SRC_COLOR {
            Some(BlendFactor::SRC_COLOR)
        } else if raw == GL_ONE_MINUS_SRC_COLOR {
            Some(BlendFactor::ONE_MINUS_SRC_COLOR)
        } else if raw == GL_DST_COLOR {
            Some(BlendFactor::DST_COLOR)
        } else if raw == GL_ONE_MINUS_DST_COLOR {
            Some(BlendFactor::ONE_MINUS_DST_COLOR)
        } else if raw == GL_SRC_ALPHA {
            Some(BlendFactor::SRC_ALPHA)
        } else if raw == GL_ONE_MINUS_SRC_ALPHA {
            Some(BlendFactor::ONE_MINUS_SRC_ALPHA)
        } else if raw == GL_DST_ALPHA {
            Some(BlendFactor::DST_ALPHA)
        } else if raw == GL_ONE_MINUS_DST_ALPHA {
            Some(BlendFactor::ONE_MINUS_DST_ALPHA)
        } else if raw == GL_CONSTANT_COLOR {
            Some(BlendFactor::CONSTANT_COLOR)
        } else if raw == GL_ONE_MINUS_CONSTANT_COLOR {
            Some(BlendFactor::ONE_MINUS_CONSTANT_COLOR)
        } else if raw == GL_CONSTANT_ALPHA {
            Some(BlendFactor::CONSTANT_ALPHA)
        } else if raw == GL_ONE_MINUS_CONSTANT_ALPHA {
            Some(BlendFactor::ONE_MINUS_CONSTANT_ALPHA)
        } else if raw == GL_SRC_ALPHA_SATURATE {
            Some(BlendFactor::SRC_ALPHA_SATURATE)
        } else {
            None
        }
    }
}

/// Every `BlendFactor` variant survives the trip to its constant and back.
pub proof fn lemma_blend_factor_round_trip(v: BlendFactor)
    ensures
        BlendFactor::spec_from_numeric(v.spec_numeric()) == Some(v),
{
}

/// No two `BlendFactor` variants share a constant.
pub proof fn lemma_blend_factor_injective(a: BlendFactor, b: BlendFactor)
    ensures
        a.spec_numeric() == b.spec_numeric() ==> a == b,
{
    if a.spec_numeric() == b.spec_numeric() {
        lemma_blend_factor_round_trip(a);
        lemma_blend_factor_round_trip(b);
    }
}
#[allow(non_camel_case_types)]
#[derive(Copy, Clone, Debug, PartialEq, Eq, Structural)]
pub enum BufferUsage {
    STREAM_DRAW,
    STATIC_DRAW,
    DYNAMIC_DRAW,
}

impl BufferUsage {
    /// The constant the standard publishes for each variant.
    pub open spec fn spec_numeric(self) -> GLenum {
        match self {
            BufferUsage::STREAM_DRAW => GL_STREAM_DRAW,
            BufferUsage::STATIC_DRAW => GL_STATIC_DRAW,
            BufferUsage::DYNAMIC_DRAW => GL_DYNAMIC_DRAW,
        }
    }

    /// The variant carrying a given constant, if any does.
    pub open spec fn spec_from_numeric(raw: GLenum) -> Option<BufferUsage> {
        if raw == GL_STREAM_DRAW {
            Some(BufferUsage::STREAM_DRAW)
        } else if raw == GL_STATIC_DRAW {
            Some(BufferUsage::STATIC_DRAW)
        } else if raw == GL_DYNAMIC_DRAW {
            Some(BufferUsage::DYNAMIC_DRAW)
        } else {
            None
        }
    }

    /// Total and lossless: every variant has exactly one constant.
    pub fn to_numeric(self) -> (raw: GLenum)
        ensures
            raw == self.spec_numeric(),
    {
        match self {
            BufferUsage::STREAM_DRAW => GL_STREAM_DRAW,
            BufferUsage::STATIC_DRAW => GL_STATIC_DRAW,
            BufferUsage::DYNAMIC_DRAW => GL_DYNAMIC_DRAW,
        }
    }

    /// Exact partial inverse of `to_numeric`: `None` on an unknown constant.
    pub fn from_numeric(raw: GLenum) -> (v: Option<BufferUsage>)
        ensures
            v == Self::spec_from_numeric(raw),
    {
        if raw == GL_STREAM_DRAW {
            Some(BufferUsage::STREAM_DRAW)
        } else if raw == GL_STATIC_DRAW {
            Some(BufferUsage::STATIC_DRAW)
        } else if raw == GL_DYNAMIC_DRAW {
            Some(BufferUsage::DYNAMIC_DRAW)
        } else {
            None
        }
    }
}

/// Every `BufferUsage` variant survives the trip to its constant and back.
pub proof fn lemma_buffer_usage_round_trip(v: BufferUsage)
    ensures
        BufferUsage::spec_from_numeric(v.spec_numeric()) == Some(v),
{
}

/// No two `BufferUsage` variants share a constant.
pub proof fn lemma_buffer_usage_injective(a: BufferUsage, b: BufferUsage)
    ensures
        a.spec_numeric() == b.spec_numeric() ==> a == b,
{
    if a.spec_numeric() == b.spec_numeric() {
        lemma_buffer_usage_round_trip(a);
        lemma_buffer_usage_round_trip(b);
    }
}
#[allow(non_camel_case_types)]
#[derive(Copy, Clone, Debug, PartialEq, Eq, Structural)]
pub enum FrameBufferStatus {
    FRAMEBUFFER_COMPLETE,
    FRAMEBUFFER_INCOMPLETE_ATTACHMENT,
    FRAMEBUFFER_INCOMPLETE_MISSING_ATTACHMENT,
    FRAMEBUFFER_INCOMPLETE_DIMENSIONS,
    FRAMEBUFFER_UNSUPPORTED,
}

impl FrameBufferStatus {
    /// The constant the standard publishes for each variant.
    pub open spec fn spec_numeric(self) -> GLenum {
        match self {
            FrameBufferStatus::FRAMEBUFFER_COMPLETE => GL_FRAMEBUFFER_COMPLETE,
            FrameBufferStatus::FRAMEBUFFER_INCOMPLETE_ATTACHMENT => GL_FRAMEBUFFER_INCOMPLETE_ATTACHMENT,
            FrameBufferStatus::FRAMEBUFFER_INCOMPLETE_MISSING_ATTACHMENT => GL_FRAMEBUFFER_INCOMPLETE_MISSING_ATTACHMENT,
            FrameBufferStatus::FRAMEBUFFER_INCOMPLETE_DIMENSIONS => GL_FRAMEBUFFER_INCOMPLETE_DIMENSIONS,
            FrameBufferStatus::FRAMEBUFFER_UNSUPPORTED => GL_FRAMEBUFFER_UNSUPPORTED,
        }
    }

    /// The variant carrying a given constant, if any does.
    pub open spec fn spec_from_numeric(raw: GLenum) -> Option<FrameBufferStatus> {
        if raw == GL_FRAMEBUFFER_COMPLETE {
            Some(FrameBufferStatus::FRAMEBUFFER_COMPLETE)
        } else if raw == GL_FRAMEBUFFER_INCOMPLETE_ATTACHMENT {
            Some(FrameBufferStatus::FRAMEBUFFER_INCOMPLETE_ATTACHMENT)
        } else if raw == GL_FRAMEBUFFER_INCOMPLETE_MISSING_ATTACHMENT {
            Some(FrameBufferStatus::FRAMEBUFFER_INCOMPLETE_MISSING_ATTACHMENT)
        } else if raw == GL_FRAMEBUFFER_INCOMPLETE_DIMENSIONS {
            Some(FrameBufferStatus::FRAMEBUFFER_INCOMPLETE_DIMENSIONS)
        } else if raw == GL_FRAMEBUFFER_UNSUPPORTED {
            Some(FrameBufferStatus::FRAMEBUFFER_UNSUPPORTED)
        } else {
            None
        }
    }

    /// Infallible translation: an unknown constant falls back to `FRAMEBUFFER_UNSUPPORTED`.
    pub open spec fn spec_from_numeric_or_default(raw: GLenum) -> FrameBufferStatus {
        match Self::spec_from_numeric(raw) {
            Some(v) => v,
            None => FrameBufferStatus::FRAMEBUFFER_UNSUPPORTED,
        }
    }

    /// Total and lossless: every variant has exactly one constant.
    pub fn to_numeric(self) -> (raw: GLenum)
        ensures
            raw == self.spec_numeric(),
    {
        match self {
            FrameBufferStatus::FRAMEBUFFER_COMPLETE => GL_FRAMEBUFFER_COMPLETE,
            FrameBufferStatus::FRAMEBUFFER_INCOMPLETE_ATTACHMENT => GL_FRAMEBUFFER_INCOMPLETE_ATTACHMENT,
            FrameBufferStatus::FRAMEBUFFER_INCOMPLETE_MISSING_ATTACHMENT => GL_FRAMEBUFFER_INCOMPLETE_MISSING_ATTACHMENT,
            FrameBufferStatus::FRAMEBUFFER_INCOMPLETE_DIMENSIONS => GL_FRAMEBUFFER_INCOMPLETE_DIMENSIONS,
            FrameBufferStatus::FRAMEBUFFER_UNSUPPORTED => GL_FRAMEBUFFER_UNSUPPORTED,
        }
    }

    /// Exact partial inverse of `to_numeric`: `None` on an unknown constant.
    pub fn from_numeric(raw: GLenum) -> (v: Option<FrameBufferStatus>)
        ensures
            v == Self::spec_from_numeric(raw),
    {
        if raw == GL_FRAMEBUFFER_COMPLETE {
            Some(FrameBufferStatus::FRAMEBUFFER_COMPLETE)
        } else if raw == GL_FRAMEBUFFER_INCOMPLETE_ATTACHMENT {
            Some(FrameBufferStatus::FRAMEBUFFER_INCOMPLETE_ATTACHMENT)
        } else if raw == GL_FRAMEBUFFER_INCOMPLETE_MISSING_ATTACHMENT {
            Some(FrameBufferStatus::FRAMEBUFFER_INCOMPLETE_MISSING_ATTACHMENT)
        } else if raw == GL_FRAMEBUFFER_INCOMPLETE_DIMENSIONS {
            Some(FrameBufferStatus::FRAMEBUFFER_INCOMPLETE_DIMENSIONS)
        } else if raw == GL_FRAMEBUFFER_UNSUPPORTED {
            Some(FrameBufferStatus::FRAMEBUFFER_UNSUPPORTED)
        } else {
            None
        }
    }

    /// Infallible translation: an unknown constant does not fail, it
    /// yields the designated default `FRAMEBUFFER_UNSUPPORTED`.
    pub fn from_numeric_or_default(raw: GLenum) -> (v: FrameBufferStatus)
        ensures
            v == Self::spec_from_numeric_or_default(raw),
            Self::spec_from_numeric(raw) is None ==> v == FrameBufferStatus::FRAMEBUFFER_UNSUPPORTED,
    {
        match Self::from_numeric(raw) {
            Some(v) => v,
            None => FrameBufferStatus::FRAMEBUFFER_UNSUPPORTED,
        }
    }
}

impl From<GLuint> for FrameBufferStatus {
    fn from(raw: GLuint) -> (v: Self) {
        Self::from_numeric_or_default(raw)
    }
}

impl vstd::std_specs::convert::FromSpecImpl<GLuint> for FrameBufferStatus {
    open spec fn obeys_from_spec() -> bool {
        true
    }

    open spec fn from_spec(raw: GLuint) -> Self {
        Self::spec_from_numeric_or_default(raw)
    }
}

/// Every `FrameBufferStatus` variant survives the trip to its constant and back.
pub proof fn lemma_frame_buffer_status_round_trip(v: FrameBufferStatus)
    ensures
        FrameBufferStatus::spec_from_numeric(v.spec_numeric()) == Some(v),
{
}

/// No two `FrameBufferStatus` variants share a constant.
pub proof fn lemma_frame_buffer_status_injective(a: FrameBufferStatus, b: FrameBufferStatus)
    ensures
        a.spec_numeric() == b.spec_numeric() ==> a == b,
{
    if a.spec_numeric() == b.spec_numeric() {
        lemma_frame_buffer_status_round_trip(a);
        lemma_frame_buffer_status_round_trip(b);
    }
}
#[derive(Copy, Clone, Debug, PartialEq, Eq, Structural)]
pub enum ColorBufferMode {
    Back,
    NoBuffer,
    ColorAttachment0,
    ColorAttachment1,
    ColorAttachment2,
    ColorAttachment3,
    ColorAttachment4,
    ColorAttachment5,
    ColorAttachment6,
    ColorAttachment7,
    ColorAttachment8,
    ColorAttachment9,
    ColorAttachment10,
    ColorAttachment11,
    ColorAttachment12,
    ColorAttachment13,
    ColorAttachment14,
    ColorAttachment15,
    MaxColorAttachments,
}

impl ColorBufferMode {
    /// The constant the standard publishes for each variant.
    pub open spec fn spec_numeric(self) -> GLenum {
        match self {
            ColorBufferMode::Back => GL_BACK,
            ColorBufferMode::NoBuffer => GL_NONE,
            ColorBufferMode::ColorAttachment0 => GL_COLOR_ATTACHMENT0,
            ColorBufferMode::ColorAttachment1 => GL_COLOR_ATTACHMENT1,
            ColorBufferMode::ColorAttachment2 => GL_COLOR_ATTACHMENT2,
            ColorBufferMode::ColorAttachment3 => GL_COLOR_ATTACHMENT3,
            ColorBufferMode::ColorAttachment4 => GL_COLOR_ATTACHMENT4,
            ColorBufferMode::ColorAttachment5 => GL_COLOR_ATTACHMENT5,
            ColorBufferMode::ColorAttachment6 => GL_COLOR_ATTACHMENT6,
            ColorBufferMode::ColorAttachment7 => GL_COLOR_ATTACHMENT7,
            ColorBufferMode::ColorAttachment8 => GL_COLOR_ATTACHMENT8,
            ColorBufferMode::ColorAttachment9 => GL_COLOR_ATTACHMENT9,
            ColorBufferMode::ColorAttachment10 => GL_COLOR_ATTACHMENT10,
            ColorBufferMode::ColorAttachment11 => GL_COLOR_ATTACHMENT11,
            ColorBufferMode::ColorAttachment12 => GL_COLOR_ATTACHMENT12,
            ColorBufferMode::ColorAttachment13 => GL_COLOR_ATTACHMENT13,
            ColorBufferMode::ColorAttachment14 => GL_COLOR_ATTACHMENT14,
            ColorBufferMode::ColorAttachment15 => GL_COLOR_ATTACHMENT15,
            ColorBufferMode::MaxColorAttachments => GL_MAX_COLOR_ATTACHMENTS,
        }
    }

    /// The variant carrying a given constant, if any does.
    pub open spec fn spec_from_numeric(raw: GLenum) -> Option<ColorBufferMode> {
        if raw == GL_BACK {
            Some(ColorBufferMode::Back)
        } else if raw == GL_NONE {
            Some(ColorBufferMode::NoBuffer)
        } else if raw == GL_COLOR_ATTACHMENT0 {
            Some(ColorBufferMode::ColorAttachment0)
        } else if raw == GL_COLOR_ATTACHMENT1 {
            Some(ColorBufferMode::ColorAttachment1)
        } else if raw == GL_COLOR_ATTACHMENT2 {
            Some(ColorBufferMode::ColorAttachment2)
        } else if raw == GL_COLOR_ATTACHMENT3 {
            Some(ColorBufferMode::ColorAttachment3)
        } else if raw == GL_COLOR_ATTACHMENT4 {
            Some(ColorBufferMode::ColorAttachment4)
        } else if raw == GL_COLOR_ATTACHMENT5 {
            Some(ColorBufferMode::ColorAttachment5)
        } else if raw == GL_COLOR_ATTACHMENT6 {
            Some(ColorBufferMode::ColorAttachment6)
        } else if raw == GL_COLOR_ATTACHMENT7 {
            Some(ColorBufferMode::ColorAttachment7)
        } else if raw == GL_COLOR_ATTACHMENT8 {
            Some(ColorBufferMode::ColorAttachment8)
        } else if raw == GL_COLOR_ATTACHMENT9 {
            Some(ColorBufferMode::ColorAttachment9)
        } else if raw == GL_COLOR_ATTACHMENT10 {
            Some(ColorBufferMode::ColorAttachment10)
        } else if raw == GL_COLOR_ATTACHMENT11 {
            Some(ColorBufferMode::ColorAttachment11)
        } else if raw == GL_COLOR_ATTACHMENT12 {
            Some(ColorBufferMode::ColorAttachment12)
        } else if raw == GL_COLOR_ATTACHMENT13 {
            Some(ColorBufferMode::ColorAttachment13)
        } else if raw == GL_COLOR_ATTACHMENT14 {
            Some(ColorBufferMode::ColorAttachment14)
        } else if raw == GL_COLOR_ATTACHMENT15 {
            Some(ColorBufferMode::ColorAttachment15)
        } else if raw == GL_MAX_COLOR_ATTACHMENTS {
            Some(ColorBufferMode::MaxColorAttachments)
        } else {
            None
        }
    }

    /// Total and lossless: every variant has exactly one constant.
    pub fn to_numeric(self) -> (raw: GLenum)
        ensures
            raw == self.spec_numeric(),
    {
        match self {
            ColorBufferMode::Back => GL_BACK,
            ColorBufferMode::NoBuffer => GL_NONE,
            ColorBufferMode::ColorAttachment0 => GL_COLOR_ATTACHMENT0,
            ColorBufferMode::ColorAttachment1 => GL_COLOR_ATTACHMENT1,
            ColorBufferMode::ColorAttachment2 => GL_COLOR_ATTACHMENT2,
            ColorBufferMode::ColorAttachment3 => GL_COLOR_ATTACHMENT3,
            ColorBufferMode::ColorAttachment4 => GL_COLOR_ATTACHMENT4,
            ColorBufferMode::ColorAttachment5 => GL_COLOR_ATTACHMENT5,
            ColorBufferMode::ColorAttachment6 => GL_COLOR_ATTACHMENT6,
            ColorBufferMode::ColorAttachment7 => GL_COLOR_ATTACHMENT7,
            ColorBufferMode::ColorAttachment8 => GL_COLOR_ATTACHMENT8,
            ColorBufferMode::ColorAttachment9 => GL_COLOR_ATTACHMENT9,
            ColorBufferMode::ColorAttachment10 => GL_COLOR_ATTACHMENT10,
            ColorBufferMode::ColorAttachment11 => GL_COLOR_ATTACHMENT11,
            ColorBufferMode::ColorAttachment12 => GL_COLOR_ATTACHMENT12,
            ColorBufferMode::ColorAttachment13 => GL_COLOR_ATTACHMENT13,
            ColorBufferMode::ColorAttachment14 => GL_COLOR_ATTACHMENT14,
            ColorBufferMode::ColorAttachment15 => GL_COLOR_ATTACHMENT15,
            ColorBufferMode::MaxColorAttachments => GL_MAX_COLOR_ATTACHMENTS,
        }
    }

    /// Exact partial inverse of `to_numeric`: `None` on an unknown constant.
    pub fn from_numeric(raw: GLenum) -> (v: Option<ColorBufferMode>)
        ensures
            v == Self::spec_from_numeric(raw),
    {
        if raw == GL_BACK {
            Some(ColorBufferMode::Back)
        } else if raw == GL_NONE {
            Some(ColorBufferMode::NoBuffer)
        } else if raw == GL_COLOR_ATTACHMENT0 {
            Some(ColorBufferMode::ColorAttachment0)
        } else if raw == GL_COLOR_ATTACHMENT1 {
            Some(ColorBufferMode::ColorAttachment1)
        } else if raw == GL_COLOR_ATTACHMENT2 {
            Some(ColorBufferMode::ColorAttachment2)
        } else if raw == GL_COLOR_ATTACHMENT3 {
            Some(ColorBufferMode::ColorAttachment3)
        } else if raw == GL_COLOR_ATTACHMENT4 {
            Some(ColorBufferMode::ColorAttachment4)
        } else if raw == GL_COLOR_ATTACHMENT5 {
            Some(ColorBufferMode::ColorAttachment5)
        } else if raw == GL_COLOR_ATTACHMENT6 {
            Some(ColorBufferMode::ColorAttachment6)
        } else if raw == GL_COLOR_ATTACHMENT7 {
            Some(ColorBufferMode::ColorAttachment7)
        } else if raw == GL_COLOR_ATTACHMENT8 {
            Some(ColorBufferMode::ColorAttachment8)
        } else if raw == GL_COLOR_ATTACHMENT9 {
            Some(ColorBufferMode::ColorAttachment9)
        } else if raw == GL_COLOR_ATTACHMENT10 {
            Some(ColorBufferMode::ColorAttachment10)
        } else if raw == GL_COLOR_ATTACHMENT11 {
            Some(ColorBufferMode::ColorAttachment11)
        } else if raw == GL_COLOR_ATTACHMENT12 {
            Some(ColorBufferMode::ColorAttachment12)
        } else if raw == GL_COLOR_ATTACHMENT13 {
            Some(ColorBufferMode::ColorAttachment13)
        } else if raw == GL_COLOR_ATTACHMENT14 {
            Some(ColorBufferMode::ColorAttachment14)
        } else if raw == GL_COLOR_ATTACHMENT15 {
            Some(ColorBufferMode::ColorAttachment15)
        } else if raw == GL_MAX_COLOR_ATTACHMENTS {
            Some(ColorBufferMode::MaxColorAttachments)
        } else {
            None
        }
    }
}

/// Every `ColorBufferMode` variant survives the trip to its constant and back.
pub proof fn lemma_color_buffer_mode_round_trip(v: ColorBufferMode)
    ensures
        ColorBufferMode::spec_from_numeric(v.spec_numeric()) == Some(v),
{
}

/// No two `ColorBufferMode` variants share a constant.
pub proof fn lemma_color_buffer_mode_injective(a: ColorBufferMode, b: ColorBufferMode)
    ensures
        a.spec_numeric() == b.spec_numeric() ==> a == b,
{
    if a.spec_numeric() == b.spec_numeric() {
        lemma_color_buffer_mode_round_trip(a);
        lemma_color_buffer_mode_round_trip(b);
    }
}
#[derive(Copy, Clone, Debug, PartialEq, Eq, Structural)]
pub enum BufferObjectTarget {
    ArrayBuffer,
    AtomicCounterBuffer,
    CopyReadBuffer,
    CopyWriteBuffer,
    DispatchIndirectBuffer,
    DrawIndirectBuffer,
    ElementArrayBuffer,
    PixelPackBuffer,
    PixelUnpackBuffer,
    ShaderStorageBuffer,
    TextureBuffer,
    TransformFeedbackBuffer,
    UniformBuffer,
}

impl BufferObjectTarget {
    /// The constant the standard publishes for each variant.
    pub open spec fn spec_numeric(self) -> GLenum {
        match self {
            BufferObjectTarget::ArrayBuffer => GL_ARRAY_BUFFER,
            BufferObjectTarget::AtomicCounterBuffer => GL_ATOMIC_COUNTER_BUFFER,
            BufferObjectTarget::CopyReadBuffer => GL_COPY_READ_BUFFER,
            BufferObjectTarget::CopyWriteBuffer => GL_COPY_WRITE_BUFFER,
            BufferObjectTarget::DispatchIndirectBuffer => GL_DISPATCH_INDIRECT_BUFFER,
            BufferObjectTarget::DrawIndirectBuffer => GL_DRAW_INDIRECT_BUFFER,
            BufferObjectTarget::ElementArrayBuffer => GL_ELEMENT_ARRAY_BUFFER,
            BufferObjectTarget::PixelPackBuffer => GL_PIXEL_PACK_BUFFER,
            BufferObjectTarget::PixelUnpackBuffer => GL_PIXEL_UNPACK_BUFFER,
            BufferObjectTarget::ShaderStorageBuffer => GL_SHADER_STORAGE_BUFFER,
            BufferObjectTarget::TextureBuffer => GL_TEXTURE_BUFFER,
            BufferObjectTarget::TransformFeedbackBuffer => GL_TRANSFORM_FEEDBACK_BUFFER,
            BufferObjectTarget::UniformBuffer => GL_UNIFORM_BUFFER,
        }
    }

    /// The variant carrying a given constant, if any does.
    pub open spec fn spec_from_numeric(raw: GLenum) -> Option<BufferObjectTarget> {
        if raw == GL_ARRAY_BUFFER {
            Some(BufferObjectTarget::ArrayBuffer)
        } else if raw == GL_ATOMIC_COUNTER_BUFFER {
            Some(BufferObjectTarget::AtomicCounterBuffer)
        } else if raw == GL_COPY_READ_BUFFER {
            Some(BufferObjectTarget::CopyReadBuffer)
        } else if raw == GL_COPY_WRITE_BUFFER {
            Some(BufferObjectTarget::CopyWriteBuffer)
        } else if raw == GL_DISPATCH_INDIRECT_BUFFER {
            Some(BufferObjectTarget::DispatchIndirectBuffer)
        } else if raw == GL_DRAW_INDIRECT_BUFFER {
            Some(BufferObjectTarget::DrawIndirectBuffer)
        } else if raw == GL_ELEMENT_ARRAY_BUFFER {
            Some(BufferObjectTarget::ElementArrayBuffer)
        } else if raw == GL_PIXEL_PACK_BUFFER {
            Some(BufferObjectTarget::PixelPackBuffer)
        } else if raw == GL_PIXEL_UNPACK_BUFFER {
            Some(BufferObjectTarget::PixelUnpackBuffer)
        } else if raw == GL_SHADER_STORAGE_BUFFER {
            Some(BufferObjectTarget::ShaderStorageBuffer)
        } else if raw == GL_TEXTURE_BUFFER {
            Some(BufferObjectTarget::TextureBuffer)
        } else if raw == GL_TRANSFORM_FEEDBACK_BUFFER {
            Some(BufferObjectTarget::TransformFeedbackBuffer)
        } else if raw == GL_UNIFORM_BUFFER {
            Some(BufferObjectTarget::UniformBuffer)
        } else {
            None
        }
    }

    /// Total and lossless: every variant has exactly one constant.
    pub fn to_numeric(self) -> (raw: GLenum)
        ensures
            raw == self.spec_numeric(),
    {
        match self {
            BufferObjectTarget::ArrayBuffer => GL_ARRAY_BUFFER,
            BufferObjectTarget::AtomicCounterBuffer => GL_ATOMIC_COUNTER_BUFFER,
            BufferObjectTarget::CopyReadBuffer => GL_COPY_READ_BUFFER,
            BufferObjectTarget::CopyWriteBuffer => GL_COPY_WRITE_BUFFER,
            BufferObjectTarget::DispatchIndirectBuffer => GL_DISPATCH_INDIRECT_BUFFER,
            BufferObjectTarget::DrawIndirectBuffer => GL_DRAW_INDIRECT_BUFFER,
            BufferObjectTarget::ElementArrayBuffer => GL_ELEMENT_ARRAY_BUFFER,
            BufferObjectTarget::PixelPackBuffer => GL_PIXEL_PACK_BUFFER,
            BufferObjectTarget::PixelUnpackBuffer => GL_PIXEL_UNPACK_BUFFER,
            BufferObjectTarget::ShaderStorageBuffer => GL_SHADER_STORAGE_BUFFER,
            BufferObjectTarget::TextureBuffer => GL_TEXTURE_BUFFER,
            BufferObjectTarget::TransformFeedbackBuffer => GL_TRANSFORM_FEEDBACK_BUFFER,
            BufferObjectTarget::UniformBuffer => GL_UNIFORM_BUFFER,
        }
    }

    /// Exact partial inverse of `to_numeric`: `None` on an unknown constant.
    pub fn from_numeric(raw: GLenum) -> (v: Option<BufferObjectTarget>)
        ensures
            v == Self::spec_from_numeric(raw),
    {
        if raw == GL_ARRAY_BUFFER {
            Some(BufferObjectTarget::ArrayBuffer)
        } else if raw == GL_ATOMIC_COUNTER_BUFFER {
            Some(BufferObjectTarget::AtomicCounterBuffer)
        } else if raw == GL_COPY_READ_BUFFER {
            Some(BufferObjectTarget::CopyReadBuffer)
        } else if raw == GL_COPY_WRITE_BUFFER {
            Some(BufferObjectTarget::CopyWriteBuffer)
        } else if raw == GL_DISPATCH_INDIRECT_BUFFER {
            Some(BufferObjectTarget::DispatchIndirectBuffer)
        } else if raw == GL_DRAW_INDIRECT_BUFFER {
            Some(BufferObjectTarget::DrawIndirectBuffer)
        } else if raw == GL_ELEMENT_ARRAY_BUFFER {
            Some(BufferObjectTarget::ElementArrayBuffer)
        } else if raw == GL_PIXEL_PACK_BUFFER {
            Some(BufferObjectTarget::PixelPackBuffer)
        } else if raw == GL_PIXEL_UNPACK_BUFFER {
            Some(BufferObjectTarget::PixelUnpackBuffer)
        } else if raw == GL_SHADER_STORAGE_BUFFER {
            Some(BufferObjectTarget::ShaderStorageBuffer)
        } else if raw == GL_TEXTURE_BUFFER {
            Some(BufferObjectTarget::TextureBuffer)
        } else if raw == GL_TRANSFORM_FEEDBACK_BUFFER {
            Some(BufferObjectTarget::TransformFeedbackBuffer)
        } else if raw == GL_UNIFORM_BUFFER {
            Some(BufferObjectTarget::UniformBuffer)
        } else {
            None
        }
    }
}

/// Every `BufferObjectTarget` variant survives the trip to its constant and back.
pub proof fn lemma_buffer_object_target_round_trip(v: BufferObjectTarget)
    ensures
        BufferObjectTarget::spec_from_numeric(v.spec_numeric()) == Some(v),
{
}

/// No two `BufferObjectTarget` variants share a constant.
pub proof fn lemma_buffer_object_target_injective(a: BufferObjectTarget, b: BufferObjectTarget)
    ensures
        a.spec_numeric() == b.spec_numeric() ==> a == b,
{
    if a.spec_numeric() == b.spec_numeric() {
        lemma_buffer_object_target_round_trip(a);
        lemma_buffer_object_target_round_trip(b);
    }
}
#[derive(Copy, Clone, Debug, PartialEq, Eq, Structural)]
pub enum BufferMapTarget {
    BufferMapPointer,
}

impl BufferMapTarget {
    /// The constant the standard publishes for each variant.
    pub open spec fn spec_numeric(self) -> GLenum {
        match self {
            BufferMapTarget::BufferMapPointer => GL_BUFFER_MAP_POINTER,
        }
    }

    /// The variant carrying a given constant, if any does.
    pub open spec fn spec_from_numeric(raw: GLenum) -> Option<BufferMapTarget> {
        if raw == GL_BUFFER_MAP_POINTER {
            Some(BufferMapTarget::BufferMapPointer)
        } else {
            None
        }
    }

    /// Total and lossless: every variant has exactly one constant.
    pub fn to_numeric(self) -> (raw: GLenum)
        ensures
            raw == self.spec_numeric(),
    {
        match self {
            BufferMapTarget::BufferMapPointer => GL_BUFFER_MAP_POINTER,
        }
    }

    /// Exact partial inverse of `to_numeric`: `None` on an unknown constant.
    pub fn from_numeric(raw: GLenum) -> (v: Option<BufferMapTarget>)
        ensures
            v == Self::spec_from_numeric(raw),
    {
        if raw == GL_BUFFER_MAP_POINTER {
            Some(BufferMapTarget::BufferMapPointer)
        } else {
            None
        }
    }
}

/// Every `BufferMapTarget` variant survives the trip to its constant and back.
pub proof fn lemma_buffer_map_target_round_trip(v: BufferMapTarget)
    ensures
        BufferMapTarget::spec_from_numeric(v.spec_numeric()) == Some(v),
{
}

/// No two `BufferMapTarget` variants share a constant.
pub proof fn lemma_buffer_map_target_injective(a: BufferMapTarget, b: BufferMapTarget)
    ensures
        a.spec_numeric() == b.spec_numeric() ==> a == b,
{
    if a.spec_numeric() == b.spec_numeric() {
        lemma_buffer_map_target_round_trip(a);
        lemma_buffer_map_target_round_trip(b);
    }
}
#[allow(non_camel_case_types)]
#[derive(Copy, Clone, Debug, PartialEq, Eq, Structural)]
pub enum ShaderType {
    FRAGMENT_SHADER,
    VERTEX_SHADER,
}

impl ShaderType {
    /// The constant the standard publishes for each variant.
    pub open spec fn spec_numeric(self) -> GLenum {
        match self {
            ShaderType::FRAGMENT_SHADER => GL_FRAGMENT_SHADER,
            ShaderType::VERTEX_SHADER => GL_VERTEX_SHADER,
        }
    }

    /// The variant carrying a given constant, if any does.
    pub open spec fn spec_from_numeric(raw: GLenum) -> Option<ShaderType> {
        if raw == GL_FRAGMENT_SHADER {
            Some(ShaderType::FRAGMENT_SHADER)
        } else if raw == GL_VERTEX_SHADER {
            Some(ShaderType::VERTEX_SHADER)
        } else {
            None
        }
    }

    /// Total and lossless: every variant has exactly one constant.
    pub fn to_numeric(self) -> (raw: GLenum)
        ensures
            raw == self.spec_numeric(),
    {
        match self {
            ShaderType::FRAGMENT_SHADER => GL_FRAGMENT_SHADER,
            ShaderType::VERTEX_SHADER => GL_VERTEX_SHADER,
        }
    }

    /// Exact partial inverse of `to_numeric`: `None` on an unknown constant.
    pub fn from_numeric(raw: GLenum) -> (v: Option<ShaderType>)
        ensures
            v == Self::spec_from_numeric(raw),
    {
        if raw == GL_FRAGMENT_SHADER {
            Some(ShaderType::FRAGMENT_SHADER)
        } else if raw == GL_VERTEX_SHADER {
            Some(ShaderType::VERTEX_SHADER)
        } else {
            None
        }
    }
}

/// Every `ShaderType` variant survives the trip to its constant and back.
pub proof fn lemma_shader_type_round_trip(v: ShaderType)
    ensures
        ShaderType::spec_from_numeric(v.spec_numeric()) == Some(v),
{
}

/// No two `ShaderType` variants share a constant.
pub proof fn lemma_shader_type_injective(a: ShaderType, b: ShaderType)
    ensures
        a.spec_numeric() == b.spec_numeric() ==> a == b,
{
    if a.spec_numeric() == b.spec_numeric() {
        lemma_shader_type_round_trip(a);
        lemma_shader_type_round_trip(b);
    }
}
#[allow(non_camel_case_types)]
#[derive(Copy, Clone, Debug, PartialEq, Eq, Structural)]
pub enum FaceMode {
    FRONT,
    BACK,
    FRONT_AND_BACK,
}

impl FaceMode {
    /// The constant the standard publishes for each variant.
    pub open spec fn spec_numeric(self) -> GLenum {
        match self {
            FaceMode::FRONT => GL_FRONT,
            FaceMode::BACK => GL_BACK,
            FaceMode::FRONT_AND_BACK => GL_FRONT_AND_BACK,
        }
    }

    /// The variant carrying a given constant, if any does.
    pub open spec fn spec_from_numeric(raw: GLenum) -> Option<FaceMode> {
        if raw == GL_FRONT {
            Some(FaceMode::FRONT)
        } else if raw == GL_BACK {
            Some(FaceMode::BACK)
        } else if raw == GL_FRONT_AND_BACK {
            Some(FaceMode::FRONT_AND_BACK)
        } else {
            None
        }
    }

    /// Total and lossless: every variant has exactly one constant.
    pub fn to_numeric(self) -> (raw: GLenum)
        ensures
            raw == self.spec_numeric(),
    {
        match self {
            FaceMode::FRONT => GL_FRONT,
            FaceMode::BACK => GL_BACK,
            FaceMode::FRONT_AND_BACK => GL_FRONT_AND_BACK,
        }
    }

    /// Exact partial inverse of `to_numeric`: `None` on an unknown constant.
    pub fn from_numeric(raw: GLenum) -> (v: Option<FaceMode>)
        ensures
            v == Self::spec_from_numeric(raw),
    {
        if raw == GL_FRONT {
            Some(FaceMode::FRONT)
        } else if raw == GL_BACK {
            Some(FaceMode::BACK)
        } else if raw == GL_FRONT_AND_BACK {
            Some(FaceMode::FRONT_AND_BACK)
        } else {
            None
        }
    }
}

/// Every `FaceMode` variant survives the trip to its constant and back.
pub proof fn lemma_face_mode_round_trip(v: FaceMode)
    ensures
        FaceMode::spec_from_numeric(v.spec_numeric()) == Some(v),
{
}

/// No two `FaceMode` variants share a constant.
pub proof fn lemma_face_mode_injective(a: FaceMode, b: FaceMode)
    ensures
        a.spec_numeric() == b.spec_numeric() ==> a == b,
{
    if a.spec_numeric() == b.spec_numeric() {
        lemma_face_mode_round_trip(a);
        lemma_face_mode_round_trip(b);
    }
}
#[allow(non_camel_case_types)]
#[derive(Copy, Clone, Debug, PartialEq, Eq, Structural)]
pub enum FuncType {
    NEVER,
    LESS,
    EQUAL,
    LEQUAL,
    GREATER,
    NOTEQUAL,
    GEQUAL,
    ALWAYS,
}

impl FuncType {
    /// The constant the standard publishes for each variant.
    pub open spec fn spec_numeric(self) -> GLenum {
        match self {
            FuncType::NEVER => GL_NEVER,
            FuncType::LESS => GL_LESS,
            FuncType::EQUAL => GL_EQUAL,
            FuncType::LEQUAL => GL_LEQUAL,
            FuncType::GREATER => GL_GREATER,
            FuncType::NOTEQUAL => GL_NOTEQUAL,
            FuncType::GEQUAL => GL_GEQUAL,
            FuncType::ALWAYS => GL_ALWAYS,
        }
    }

    /// The variant carrying a given constant, if any does.
    pub open spec fn spec_from_numeric(raw: GLenum) -> Option<FuncType> {
        if raw == GL_NEVER {
            Some(FuncType::NEVER)
        } else if raw == GL_LESS {
            Some(FuncType::LESS)
        } else if raw == GL_EQUAL {
            Some(FuncType::EQUAL)
        } else if raw == GL_LEQUAL {
            Some(FuncType::LEQUAL)
        } else if raw == GL_GREATER {
            Some(FuncType::GREATER)
        } else if raw == GL_NOTEQUAL {
            Some(FuncType::NOTEQUAL)
        } else if raw == GL_GEQUAL {
            Some(FuncType::GEQUAL)
        } else if raw == GL_ALWAYS {
            Some(FuncType::ALWAYS)
        } else {
            None
        }
    }

    /// Total and lossless: every variant has exactly one constant.
    pub fn to_numeric(self) -> (raw: GLenum)
        ensures
            raw == self.spec_numeric(),
    {
        match self {
            FuncType::NEVER => GL_NEVER,
            FuncType::LESS => GL_LESS,
            FuncType::EQUAL => GL_EQUAL,
            FuncType::LEQUAL => GL_LEQUAL,
            FuncType::GREATER => GL_GREATER,
            FuncType::NOTEQUAL => GL_NOTEQUAL,
            FuncType::GEQUAL => GL_GEQUAL,
            FuncType::ALWAYS => GL_ALWAYS,
        }
    }

    /// Exact partial inverse of `to_numeric`: `None` on an unknown constant.
    pub fn from_numeric(raw: GLenum) -> (v: Option<FuncType>)
        ensures
            v == Self::spec_from_numeric(raw),
    {
        if raw == GL_NEVER {
            Some(FuncType::NEVER)
        } else if raw == GL_LESS {
            Some(FuncType::LESS)
        } else if raw == GL_EQUAL {
            Some(FuncType::EQUAL)
        } else if raw == GL_LEQUAL {
            Some(FuncType::LEQUAL)
        } else if raw == GL_GREATER {
            Some(FuncType::GREATER)
        } else if raw == GL_NOTEQUAL {
            Some(FuncType::NOTEQUAL)
        } else if raw == GL_GEQUAL {
            Some(FuncType::GEQUAL)
        } else if raw == GL_ALWAYS {
            Some(FuncType::ALWAYS)
        } else {
            None
        }
    }
}

/// Every `FuncType` variant survives the trip to its constant and back.
pub proof fn lemma_func_type_round_trip(v: FuncType)
    ensures
        FuncType::spec_from_numeric(v.spec_numeric()) == Some(v),
{
}

/// No two `FuncType` variants share a constant.
pub proof fn lemma_func_type_injective(a: FuncType, b: FuncType)
    ensures
        a.spec_numeric() == b.spec_numeric() ==> a == b,
{
    if a.spec_numeric() == b.spec_numeric() {
        lemma_func_type_round_trip(a);
        lemma_func_type_round_trip(b);
    }
}
#[allow(non_camel_case_types)]
#[derive(Copy, Clone, Debug, PartialEq, Eq, Structural)]
pub enum FeatureType {
    BLEND,
    CULL_FACE,
    DEPTH_TEST,
    DITHER,
    POLYGON_OFFSET_FILL,
    SAMPLE_ALPHA_TO_COVERAGE,
    SAMPLE_COVERAGE,
    SCISSOR_TEST,
    STENCIL_TEST,
}

impl FeatureType {
    /// The constant the standard publishes for each variant.
    pub open spec fn spec_numeric(self) -> GLenum {
        match self {
            FeatureType::BLEND => GL_BLEND,
            FeatureType::CULL_FACE => GL_CULL_FACE,
            FeatureType::DEPTH_TEST => GL_DEPTH_TEST,
            FeatureType::DITHER => GL_DITHER,
            FeatureType::POLYGON_OFFSET_FILL => GL_POLYGON_OFFSET_FILL,
            FeatureType::SAMPLE_ALPHA_TO_COVERAGE => GL_SAMPLE_ALPHA_TO_COVERAGE,
            FeatureType::SAMPLE_COVERAGE => GL_SAMPLE_COVERAGE,
            FeatureType::SCISSOR_TEST => GL_SCISSOR_TEST,
            FeatureType::STENCIL_TEST => GL_STENCIL_TEST,
        }
    }

    /// The variant carrying a given constant, if any does.
    pub open spec fn spec_from_numeric(raw: GLenum) -> Option<FeatureType> {
        if raw == GL_BLEND {
            Some(FeatureType::BLEND)
        } else if raw == GL_CULL_FACE {
            Some(FeatureType::CULL_FACE)
        } else if raw == GL_DEPTH_TEST {
            Some(FeatureType::DEPTH_TEST)
        } else if raw == GL_DITHER {
            Some(FeatureType::DITHER)
        } else if raw == GL_POLYGON_OFFSET_FILL {
            Some(FeatureType::POLYGON_OFFSET_FILL)
        } else if raw == GL_SAMPLE_ALPHA_TO_COVERAGE {
            Some(FeatureType::SAMPLE_ALPHA_TO_COVERAGE)
        } else if raw == GL_SAMPLE_COVERAGE {
            Some(FeatureType::SAMPLE_COVERAGE)
        } else if raw == GL_SCISSOR_TEST {
            Some(FeatureType::SCISSOR_TEST)
        } else if raw == GL_STENCIL_TEST {
            Some(FeatureType::STENCIL_TEST)
        } else {
            None
        }
    }

    /// Total and lossless: every variant has exactly one constant.
    pub fn to_numeric(self) -> (raw: GLenum)
        ensures
            raw == self.spec_numeric(),
    {
        match self {
            FeatureType::BLEND => GL_BLEND,
            FeatureType::CULL_FACE => GL_CULL_FACE,
            FeatureType::DEPTH_TEST => GL_DEPTH_TEST,
            FeatureType::DITHER => GL_DITHER,
            FeatureType::POLYGON_OFFSET_FILL => GL_POLYGON_OFFSET_FILL,
            FeatureType::SAMPLE_ALPHA_TO_COVERAGE => GL_SAMPLE_ALPHA_TO_COVERAGE,
            FeatureType::SAMPLE_COVERAGE => GL_SAMPLE_COVERAGE,
            FeatureType::SCISSOR_TEST => GL_SCISSOR_TEST,
            FeatureType::STENCIL_TEST => GL_STENCIL_TEST,
        }
    }

    /// Exact partial inverse of `to_numeric`: `None` on an unknown constant.
    pub fn from_numeric(raw: GLenum) -> (v: Option<FeatureType>)
        ensures
            v == Self::spec_from_numeric(raw),
    {
        if raw == GL_BLEND {
            Some(FeatureType::BLEND)
        } else if raw == GL_CULL_FACE {
            Some(FeatureType::CULL_FACE)
        } else if raw == GL_DEPTH_TEST {
            Some(FeatureType::DEPTH_TEST)
        } else if raw == GL_DITHER {
            Some(FeatureType::DITHER)
        } else if raw == GL_POLYGON_OFFSET_FILL {
            Some(FeatureType::POLYGON_OFFSET_FILL)
        } else if raw == GL_SAMPLE_ALPHA_TO_COVERAGE {
            Some(FeatureType::SAMPLE_ALPHA_TO_COVERAGE)
        } else if raw == GL_SAMPLE_COVERAGE {
            Some(FeatureType::SAMPLE_COVERAGE)
        } else if raw == GL_SCISSOR_TEST {
            Some(FeatureType::SCISSOR_TEST)
        } else if raw == GL_STENCIL_TEST {
            Some(FeatureType::STENCIL_TEST)
        } else {
            None
        }
    }
}

/// Every `FeatureType` variant survives the trip to its constant and back.
pub proof fn lemma_feature_type_round_trip(v: FeatureType)
    ensures
        FeatureType::spec_from_numeric(v.spec_numeric()) == Some(v),
{
}

/// No two `FeatureType` variants share a constant.
pub proof fn lemma_feature_type_injective(a: FeatureType, b: FeatureType)
    ensures
        a.spec_numeric() == b.spec_numeric() ==> a == b,
{
    if a.spec_numeric() == b.spec_numeric() {
        lemma_feature_type_round_trip(a);
        lemma_feature_type_round_trip(b);
    }
}
#[allow(non_camel_case_types)]
#[derive(Copy, Clone, Debug, PartialEq, Eq, Structural)]
pub enum BeginMode {
    POINTS,
    LINES,
    LINE_LOOP,
    LINE_STRIP,
    TRIANGLES,
    TRIANGLE_STRIP,
    TRIANGLE_FAN,
}

impl BeginMode {
    /// The constant the standard publishes for each variant.
    pub open spec fn spec_numeric(self) -> GLenum {
        match self {
            BeginMode::POINTS => GL_POINTS,
            BeginMode::LINES => GL_LINES,
            BeginMode::LINE_LOOP => GL_LINE_LOOP,
            BeginMode::LINE_STRIP => GL_LINE_STRIP,
            BeginMode::TRIANGLES => GL_TRIANGLES,
            BeginMode::TRIANGLE_STRIP => GL_TRIANGLE_STRIP,
            BeginMode::TRIANGLE_FAN => GL_TRIANGLE_FAN,
        }
    }

    /// The variant carrying a given constant, if any does.
    pub open spec fn spec_from_numeric(raw: GLenum) -> Option<BeginMode> {
        if raw == GL_POINTS {
            Some(BeginMode::POINTS)
        } else if raw == GL_LINES {
            Some(BeginMode::LINES)
        } else if raw == GL_LINE_LOOP {
            Some(BeginMode::LINE_LOOP)
        } else if raw == GL_LINE_STRIP {
            Some(BeginMode::LINE_STRIP)
        } else if raw == GL_TRIANGLES {
            Some(BeginMode::TRIANGLES)
        } else if raw == GL_TRIANGLE_STRIP {
            Some(BeginMode::TRIANGLE_STRIP)
        } else if raw == GL_TRIANGLE_FAN {
            Some(BeginMode::TRIANGLE_FAN)
        } else {
            None
        }
    }

    /// Total and lossless: every variant has exactly one constant.
    pub fn to_numeric(self) -> (raw: GLenum)
        ensures
            raw == self.spec_numeric(),
    {
        match self {
            BeginMode::POINTS => GL_POINTS,
            BeginMode::LINES => GL_LINES,
            BeginMode::LINE_LOOP => GL_LINE_LOOP,
            BeginMode::LINE_STRIP => GL_LINE_STRIP,
            BeginMode::TRIANGLES => GL_TRIANGLES,
            BeginMode::TRIANGLE_STRIP => GL_TRIANGLE_STRIP,
            BeginMode::TRIANGLE_FAN => GL_TRIANGLE_FAN,
        }
    }

    /// Exact partial inverse of `to_numeric`: `None` on an unknown constant.
    pub fn from_numeric(raw: GLenum) -> (v: Option<BeginMode>)
        ensures
            v == Self::spec_from_numeric(raw),
    {
        if raw == GL_POINTS {
            Some(BeginMode::POINTS)
        } else if raw == GL_LINES {
            Some(BeginMode::LINES)
        } else if raw == GL_LINE_LOOP {
            Some(BeginMode::LINE_LOOP)
        } else if raw == GL_LINE_STRIP {
            Some(BeginMode::LINE_STRIP)
        } else if raw == GL_TRIANGLES {
            Some(BeginMode::TRIANGLES)
        } else if raw == GL_TRIANGLE_STRIP {
            Some(BeginMode::TRIANGLE_STRIP)
        } else if raw == GL_TRIANGLE_FAN {
            Some(BeginMode::TRIANGLE_FAN)
        } else {
            None
        }
    }
}

/// Every `BeginMode` variant survives the trip to its constant and back.
pub proof fn lemma_begin_mode_round_trip(v: BeginMode)
    ensures
        BeginMode::spec_from_numeric(v.spec_numeric()) == Some(v),
{
}

/// No two `BeginMode` variants share a constant.
pub proof fn lemma_begin_mode_injective(a: BeginMode, b: BeginMode)
    ensures
        a.spec_numeric() == b.spec_numeric() ==> a == b,
{
    if a.spec_numeric() == b.spec_numeric() {
        lemma_begin_mode_round_trip(a);
        lemma_begin_mode_round_trip(b);
    }
}
#[derive(Copy, Clone, Debug, PartialEq, Eq, Structural)]
pub enum MappingBit {
    InvalidateRange,
    InvalidateBuffer,
    FlushExplicit,
    Unsynchronized,
}

impl MappingBit {
    /// The constant the standard publishes for each variant.
    pub open spec fn spec_numeric(self) -> GLenum {
        match self {
            MappingBit::InvalidateRange => GL_MAP_INVALIDATE_RANGE_BIT,
            MappingBit::InvalidateBuffer => GL_MAP_INVALIDATE_BUFFER_BIT,
            MappingBit::FlushExplicit => GL_MAP_FLUSH_EXPLICIT_BIT,
            MappingBit::Unsynchronized => GL_MAP_UNSYNCHRONIZED_BIT,
        }
    }

    /// The variant carrying a given constant, if any does.
    pub open spec fn spec_from_numeric(raw: GLenum) -> Option<MappingBit> {
        if raw == GL_MAP_INVALIDATE_RANGE_BIT {
            Some(MappingBit::InvalidateRange)
        } else if raw == GL_MAP_INVALIDATE_BUFFER_BIT {
            Some(MappingBit::InvalidateBuffer)
        } else if raw == GL_MAP_FLUSH_EXPLICIT_BIT {
            Some(MappingBit::FlushExplicit)
        } else if raw == GL_MAP_UNSYNCHRONIZED_BIT {
            Some(MappingBit::Unsynchronized)
        } else {
            None
        }
    }

    /// Total and lossless: every variant has exactly one constant.
    pub fn to_numeric(self) -> (raw: GLenum)
        ensures
            raw == self.spec_numeric(),
    {
        match self {
            MappingBit::InvalidateRange => GL_MAP_INVALIDATE_RANGE_BIT,
            MappingBit::InvalidateBuffer => GL_MAP_INVALIDATE_BUFFER_BIT,
            MappingBit::FlushExplicit => GL_MAP_FLUSH_EXPLICIT_BIT,
            MappingBit::Unsynchronized => GL_MAP_UNSYNCHRONIZED_BIT,
        }
    }

    /// Exact partial inverse of `to_numeric`: `None` on an unknown constant.
    pub fn from_numeric(raw: GLenum) -> (v: Option<MappingBit>)
        ensures
            v == Self::spec_from_numeric(raw),
    {
        if raw == GL_MAP_INVALIDATE_RANGE_BIT {
            Some(MappingBit::InvalidateRange)
        } else if raw == GL_MAP_INVALIDATE_BUFFER_BIT {
            Some(MappingBit::InvalidateBuffer)
        } else if raw == GL_MAP_FLUSH_EXPLICIT_BIT {
            Some(MappingBit::FlushExplicit)
        } else if raw == GL_MAP_UNSYNCHRONIZED_BIT {
            Some(MappingBit::Unsynchronized)
        } else {
            None
        }
    }
}

/// Every `MappingBit` variant survives the trip to its constant and back.
pub proof fn lemma_mapping_bit_round_trip(v: MappingBit)
    ensures
        MappingBit::spec_from_numeric(v.spec_numeric()) == Some(v),
{
}

/// No two `MappingBit` variants share a constant.
pub proof fn lemma_mapping_bit_injective(a: MappingBit, b: MappingBit)
    ensures
        a.spec_numeric() == b.spec_numeric() ==> a == b,
{
    if a.spec_numeric() == b.spec_numeric() {
        lemma_mapping_bit_round_trip(a);
        lemma_mapping_bit_round_trip(b);
    }
}
#[derive(Copy, Clone, Debug, PartialEq, Eq, Structural)]
pub enum SamplerParameter {
    WrapS,
    WrapT,
    WrapR,
    MinFilter,
    MagFilter,
    BorderColor,
    MinLod,
    MaxLod,
    CompareMode,
    CompareFunc,
}

impl SamplerParameter {
    /// The constant the standard publishes for each variant.
    pub open spec fn spec_numeric(self) -> GLenum {
        match self {
            SamplerParameter::WrapS => GL_TEXTURE_WRAP_S,
            SamplerParameter::WrapT => GL_TEXTURE_WRAP_T,
            SamplerParameter::WrapR => GL_TEXTURE_WRAP_R,
            SamplerParameter::MinFilter => GL_TEXTURE_MIN_FILTER,
            SamplerParameter::MagFilter => GL_TEXTURE_MAG_FILTER,
            SamplerParameter::BorderColor => GL_TEXTURE_BORDER_COLOR,
            SamplerParameter::MinLod => GL_TEXTURE_MIN_LOD,
            SamplerParameter::MaxLod => GL_TEXTURE_MAX_LOD,
            SamplerParameter::CompareMode => GL_TEXTURE_COMPARE_MODE,
            SamplerParameter::CompareFunc => GL_TEXTURE_COMPARE_FUNC,
        }
    }

    /// The variant carrying a given constant, if any does.
    pub open spec fn spec_from_numeric(raw: GLenum) -> Option<SamplerParameter> {
        if raw == GL_TEXTURE_WRAP_S {
            Some(SamplerParameter::WrapS)
        } else if raw == GL_TEXTURE_WRAP_T {
            Some(SamplerParameter::WrapT)
        } else if raw == GL_TEXTURE_WRAP_R {
            Some(SamplerParameter::WrapR)
        } else if raw == GL_TEXTURE_MIN_FILTER {
            Some(SamplerParameter::MinFilter)
        } else if raw == GL_TEXTURE_MAG_FILTER {
            Some(SamplerParameter::MagFilter)
        } else if raw == GL_TEXTURE_BORDER_COLOR {
            Some(SamplerParameter::BorderColor)
        } else if raw == GL_TEXTURE_MIN_LOD {
            Some(SamplerParameter::MinLod)
        } else if raw == GL_TEXTURE_MAX_LOD {
            Some(SamplerParameter::MaxLod)
        } else if raw == GL_TEXTURE_COMPARE_MODE {
            Some(SamplerParameter::CompareMode)
        } else if raw == GL_TEXTURE_COMPARE_FUNC {
            Some(SamplerParameter::CompareFunc)
        } else {
            None
        }
    }

    /// Total and lossless: every variant has exactly one constant.
    pub fn to_numeric(self) -> (raw: GLenum)
        ensures
            raw == self.spec_numeric(),
    {
        match self {
            SamplerParameter::WrapS => GL_TEXTURE_WRAP_S,
            SamplerParameter::WrapT => GL_TEXTURE_WRAP_T,
            SamplerParameter::WrapR => GL_TEXTURE_WRAP_R,
            SamplerParameter::MinFilter => GL_TEXTURE_MIN_FILTER,
            SamplerParameter::MagFilter => GL_TEXTURE_MAG_FILTER,
            SamplerParameter::BorderColor => GL_TEXTURE_BORDER_COLOR,
            SamplerParameter::MinLod => GL_TEXTURE_MIN_LOD,
            SamplerParameter::MaxLod => GL_TEXTURE_MAX_LOD,
            SamplerParameter::CompareMode => GL_TEXTURE_COMPARE_MODE,
            SamplerParameter::CompareFunc => GL_TEXTURE_COMPARE_FUNC,
        }
    }

    /// Exact partial inverse of `to_numeric`: `None` on an unknown constant.
    pub fn from_numeric(raw: GLenum) -> (v: Option<SamplerParameter>)
        ensures
            v == Self::spec_from_numeric(raw),
    {
        if raw == GL_TEXTURE_WRAP_S {
            Some(SamplerParameter::WrapS)
        } else if raw == GL_TEXTURE_WRAP_T {
            Some(SamplerParameter::WrapT)
        } else if raw == GL_TEXTURE_WRAP_R {
            Some(SamplerParameter::WrapR)
        } else if raw == GL_TEXTURE_MIN_FILTER {
            Some(SamplerParameter::MinFilter)
        } else if raw == GL_TEXTURE_MAG_FILTER {
            Some(SamplerParameter::MagFilter)
        } else if raw == GL_TEXTURE_BORDER_COLOR {
            Some(SamplerParameter::BorderColor)
        } else if raw == GL_TEXTURE_MIN_LOD {
            Some(SamplerParameter::MinLod)
        } else if raw == GL_TEXTURE_MAX_LOD {
            Some(SamplerParameter::MaxLod)
        } else if raw == GL_TEXTURE_COMPARE_MODE {
            Some(SamplerParameter::CompareMode)
        } else if raw == GL_TEXTURE_COMPARE_FUNC {
            Some(SamplerParameter::CompareFunc)
        } else {
            None
        }
    }
}

/// Every `SamplerParameter` variant survives the trip to its constant and back.
pub proof fn lemma_sampler_parameter_round_trip(v: SamplerParameter)
    ensures
        SamplerParameter::spec_from_numeric(v.spec_numeric()) == Some(v),
{
}

/// No two `SamplerParameter` variants share a constant.
pub proof fn lemma_sampler_parameter_injective(a: SamplerParameter, b: SamplerParameter)
    ensures
        a.spec_numeric() == b.spec_numeric() ==> a == b,
{
    if a.spec_numeric() == b.spec_numeric() {
        lemma_sampler_parameter_round_trip(a);
        lemma_sampler_parameter_round_trip(b);
    }
}
#[derive(Copy, Clone, Debug, PartialEq, Eq, Structural)]
pub enum TransformFeedbackMode {
    InterleavedAttributes,
    SeparatedAttributes,
}

impl TransformFeedbackMode {
    /// The constant the standard publishes for each variant.
    pub open spec fn spec_numeric(self) -> GLenum {
        match self {
            TransformFeedbackMode::InterleavedAttributes => GL_INTERLEAVED_ATTRIBS,
            TransformFeedbackMode::SeparatedAttributes => GL_SEPARATE_ATTRIBS,
        }
    }

    /// The variant carrying a given constant, if any does.
    pub open spec fn spec_from_numeric(raw: GLenum) -> Option<TransformFeedbackMode> {
        if raw == GL_INTERLEAVED_ATTRIBS {
            Some(TransformFeedbackMode::InterleavedAttributes)
        } else if raw == GL_SEPARATE_ATTRIBS {
            Some(TransformFeedbackMode::SeparatedAttributes)
        } else {
            None
        }
    }

    /// Total and lossless: every variant has exactly one constant.
    pub fn to_numeric(self) -> (raw: GLenum)
        ensures
            raw == self.spec_numeric(),
    {
        match self {
            TransformFeedbackMode::InterleavedAttributes => GL_INTERLEAVED_ATTRIBS,
            TransformFeedbackMode::SeparatedAttributes => GL_SEPARATE_ATTRIBS,
        }
    }

    /// Exact partial inverse of `to_numeric`: `None` on an unknown constant.
    pub fn from_numeric(raw: GLenum) -> (v: Option<TransformFeedbackMode>)
        ensures
            v == Self::spec_from_numeric(raw),
    {
        if raw == GL_INTERLEAVED_ATTRIBS {
            Some(TransformFeedbackMode::InterleavedAttributes)
        } else if raw == GL_SEPARATE_ATTRIBS {
            Some(TransformFeedbackMode::SeparatedAttributes)
        } else {
            None
        }
    }
}

/// Every `TransformFeedbackMode` variant survives the trip to its constant and back.
pub proof fn lemma_transform_feedback_mode_round_trip(v: TransformFeedbackMode)
    ensures
        TransformFeedbackMode::spec_from_numeric(v.spec_numeric()) == Some(v),
{
}

/// No two `TransformFeedbackMode` variants share a constant.
pub proof fn lemma_transform_feedback_mode_injective(a: TransformFeedbackMode, b: TransformFeedbackMode)
    ensures
        a.spec_numeric() == b.spec_numeric() ==> a == b,
{
    if a.spec_numeric() == b.spec_numeric() {
        lemma_transform_feedback_mode_round_trip(a);
        lemma_transform_feedback_mode_round_trip(b);
    }
}
#[derive(Copy, Clone, Debug, PartialEq, Eq, Structural)]
pub enum TransformFeedbackObjectTarget {
    TransformFeedback,
}

impl TransformFeedbackObjectTarget {
    /// The constant the standard publishes for each variant.
    pub open spec fn spec_numeric(self) -> GLenum {
        match self {
            TransformFeedbackObjectTarget::TransformFeedback => GL_TRANSFORM_FEEDBACK,
        }
    }

    /// The variant carrying a given constant, if any does.
    pub open spec fn spec_from_numeric(raw: GLenum) -> Option<TransformFeedbackObjectTarget> {
        if raw == GL_TRANSFORM_FEEDBACK {
            Some(TransformFeedbackObjectTarget::TransformFeedback)
        } else {
            None
        }
    }

    /// Total and lossless: every variant has exactly one constant.
    pub fn to_numeric(self) -> (raw: GLenum)
        ensures
            raw == self.spec_numeric(),
    {
        match self {
            TransformFeedbackObjectTarget::TransformFeedback => GL_TRANSFORM_FEEDBACK,
        }
    }

    /// Exact partial inverse of `to_numeric`: `None` on an unknown constant.
    pub fn from_numeric(raw: GLenum) -> (v: Option<TransformFeedbackObjectTarget>)
        ensures
            v == Self::spec_from_numeric(raw),
    {
        if raw == GL_TRANSFORM_FEEDBACK {
            Some(TransformFeedbackObjectTarget::TransformFeedback)
        } else {
            None
        }
    }
}

/// Every `TransformFeedbackObjectTarget` variant survives the trip to its constant and back.
pub proof fn lemma_transform_feedback_object_target_round_trip(v: TransformFeedbackObjectTarget)
    ensures
        TransformFeedbackObjectTarget::spec_from_numeric(v.spec_numeric()) == Some(v),
{
}

/// No two `TransformFeedbackObjectTarget` variants share a constant.
pub proof fn lemma_transform_feedback_object_target_injective(a: TransformFeedbackObjectTarget, b: TransformFeedbackObjectTarget)
    ensures
        a.spec_numeric() == b.spec_numeric() ==> a == b,
{
    if a.spec_numeric() == b.spec_numeric() {
        lemma_transform_feedback_object_target_round_trip(a);
        lemma_transform_feedback_object_target_round_trip(b);
    }
}
#[allow(non_camel_case_types)]
#[derive(Copy, Clone, Debug, PartialEq, Eq, Structural)]
pub enum AttachmentTarget {
    Color_Attachment_0,
    Color_Attachment_1,
    Color_Attachment_2,
    Color_Attachment_3,
    Color_Attachment,
    StencilAttachment,
    DepthStencilAttachment,
}

impl AttachmentTarget {
    /// The constant the standard publishes for each variant.
    pub open spec fn spec_numeric(self) -> GLenum {
        match self {
            AttachmentTarget::Color_Attachment_0 => GL_COLOR_ATTACHMENT0,
            AttachmentTarget::Color_Attachment_1 => GL_COLOR_ATTACHMENT1,
            AttachmentTarget::Color_Attachment_2 => GL_COLOR_ATTACHMENT2,
            AttachmentTarget::Color_Attachment_3 => GL_COLOR_ATTACHMENT3,
            AttachmentTarget::Color_Attachment => GL_DEPTH_ATTACHMENT,
            AttachmentTarget::StencilAttachment => GL_STENCIL_ATTACHMENT,
            AttachmentTarget::DepthStencilAttachment => GL_DEPTH_STENCIL_ATTACHMENT,
        }
    }

    /// The variant carrying a given constant, if any does.
    pub open spec fn spec_from_numeric(raw: GLenum) -> Option<AttachmentTarget> {
        if raw == GL_COLOR_ATTACHMENT0 {
            Some(AttachmentTarget::Color_Attachment_0)
        } else if raw == GL_COLOR_ATTACHMENT1 {
            Some(AttachmentTarget::Color_Attachment_1)
        } else if raw == GL_COLOR_ATTACHMENT2 {
            Some(AttachmentTarget::Color_Attachment_2)
        } else if raw == GL_COLOR_ATTACHMENT3 {
            Some(AttachmentTarget::Color_Attachment_3)
        } else if raw == GL_DEPTH_ATTACHMENT {
            Some(AttachmentTarget::Color_Attachment)
        } else if raw == GL_STENCIL_ATTACHMENT {
            Some(AttachmentTarget::StencilAttachment)
        } else if raw == GL_DEPTH_STENCIL_ATTACHMENT {
            Some(AttachmentTarget::DepthStencilAttachment)
        } else {
            None
        }
    }

    /// Total and lossless: every variant has exactly one constant.
    pub fn to_numeric(self) -> (raw: GLenum)
        ensures
            raw == self.spec_numeric(),
    {
        match self {
            AttachmentTarget::Color_Attachment_0 => GL_COLOR_ATTACHMENT0,
            AttachmentTarget::Color_Attachment_1 => GL_COLOR_ATTACHMENT1,
            AttachmentTarget::Color_Attachment_2 => GL_COLOR_ATTACHMENT2,
            AttachmentTarget::Color_Attachment_3 => GL_COLOR_ATTACHMENT3,
            AttachmentTarget::Color_Attachment => GL_DEPTH_ATTACHMENT,
            AttachmentTarget::StencilAttachment => GL_STENCIL_ATTACHMENT,
            AttachmentTarget::DepthStencilAttachment => GL_DEPTH_STENCIL_ATTACHMENT,
        }
    }

    /// Exact partial inverse of `to_numeric`: `None` on an unknown constant.
    pub fn from_numeric(raw: GLenum) -> (v: Option<AttachmentTarget>)
        ensures
            v == Self::spec_from_numeric(raw),
    {
        if raw == GL_COLOR_ATTACHMENT0 {
            Some(AttachmentTarget::Color_Attachment_0)
        } else if raw == GL_COLOR_ATTACHMENT1 {
            Some(AttachmentTarget::Color_Attachment_1)
        } else if raw == GL_COLOR_ATTACHMENT2 {
            Some(AttachmentTarget::Color_Attachment_2)
        } else if raw == GL_COLOR_ATTACHMENT3 {
            Some(AttachmentTarget::Color_Attachment_3)
        } else if raw == GL_DEPTH_ATTACHMENT {
            Some(AttachmentTarget::Color_Attachment)
        } else if raw == GL_STENCIL_ATTACHMENT {
            Some(AttachmentTarget::StencilAttachment)
        } else if raw == GL_DEPTH_STENCIL_ATTACHMENT {
            Some(AttachmentTarget::DepthStencilAttachment)
        } else {
            None
        }
    }
}

/// Every `AttachmentTarget` variant survives the trip to its constant and back.
pub proof fn lemma_attachment_target_round_trip(v: AttachmentTarget)
    ensures
        AttachmentTarget::spec_from_numeric(v.spec_numeric()) == Some(v),
{
}

/// No two `AttachmentTarget` variants share a constant.
pub proof fn lemma_attachment_target_injective(a: AttachmentTarget, b: AttachmentTarget)
    ensures
        a.spec_numeric() == b.spec_numeric() ==> a == b,
{
    if a.spec_numeric() == b.spec_numeric() {
        lemma_attachment_target_round_trip(a);
        lemma_attachment_target_round_trip(b);
    }
}
#[derive(Copy, Clone, Debug, PartialEq, Eq, Structural)]
pub enum FilterMode {
    Nearst,
    Linear,
}

impl FilterMode {
    /// The constant the standard publishes for each variant.
    pub open spec fn spec_numeric(self) -> GLenum {
        match self {
            FilterMode::Nearst => GL_NEAREST,
            FilterMode::Linear => GL_LINEAR,
        }
    }

    /// The variant carrying a given constant, if any does.
    pub open spec fn spec_from_numeric(raw: GLenum) -> Option<FilterMode> {
        if raw == GL_NEAREST {
            Some(FilterMode::Nearst)
        } else if raw == GL_LINEAR {
            Some(FilterMode::Linear)
        } else {
            None
        }
    }

    /// Total and lossless: every variant has exactly one constant.
    pub fn to_numeric(self) -> (raw: GLenum)
        ensures
            raw == self.spec_numeric(),
    {
        match self {
            FilterMode::Nearst => GL_NEAREST,
            FilterMode::Linear => GL_LINEAR,
        }
    }

    /// Exact partial inverse of `to_numeric`: `None` on an unknown constant.
    pub fn from_numeric(raw: GLenum) -> (v: Option<FilterMode>)
        ensures
            v == Self::spec_from_numeric(raw),
    {
        if raw == GL_NEAREST {
            Some(FilterMode::Nearst)
        } else if raw == GL_LINEAR {
            Some(FilterMode::Linear)
        } else {
            None
        }
    }
}

/// Every `FilterMode` variant survives the trip to its constant and back.
pub proof fn lemma_filter_mode_round_trip(v: FilterMode)
    ensures
        FilterMode::spec_from_numeric(v.spec_numeric()) == Some(v),
{
}

/// No two `FilterMode` variants share a constant.
pub proof fn lemma_filter_mode_injective(a: FilterMode, b: FilterMode)
    ensures
        a.spec_numeric() == b.spec_numeric() ==> a == b,
{
    if a.spec_numeric() == b.spec_numeric() {
        lemma_filter_mode_round_trip(a);
        lemma_filter_mode_round_trip(b);
    }
}
#[derive(Copy, Clone, Debug, PartialEq, Eq, Structural)]
pub enum BufferMask {
    Color,
    Depth,
    Stencil,
}

impl BufferMask {
    /// The constant the standard publishes for each variant.
    pub open spec fn spec_numeric(self) -> GLenum {
        match self {
            BufferMask::Color => GL_COLOR_BUFFER_BIT,
            BufferMask::Depth => GL_DEPTH_BUFFER_BIT,
            BufferMask::Stencil => GL_STENCIL_BUFFER_BIT,
        }
    }

    /// The variant carrying a given constant, if any does.
    pub open spec fn spec_from_numeric(raw: GLenum) -> Option<BufferMask> {
        if raw == GL_COLOR_BUFFER_BIT {
            Some(BufferMask::Color)
        } else if raw == GL_DEPTH_BUFFER_BIT {
            Some(BufferMask::Depth)
        } else if raw == GL_STENCIL_BUFFER_BIT {
            Some(BufferMask::Stencil)
        } else {
            None
        }
    }

    /// Total and lossless: every variant has exactly one constant.
    pub fn to_numeric(self) -> (raw: GLenum)
        ensures
            raw == self.spec_numeric(),
    {
        match self {
            BufferMask::Color => GL_COLOR_BUFFER_BIT,
            BufferMask::Depth => GL_DEPTH_BUFFER_BIT,
            BufferMask::Stencil => GL_STENCIL_BUFFER_BIT,
        }
    }

    /// Exact partial inverse of `to_numeric`: `None` on an unknown constant.
    pub fn from_numeric(raw: GLenum) -> (v: Option<BufferMask>)
        ensures
            v == Self::spec_from_numeric(raw),
    {
        if raw == GL_COLOR_BUFFER_BIT {
            Some(BufferMask::Color)
        } else if raw == GL_DEPTH_BUFFER_BIT {
            Some(BufferMask::Depth)
        } else if raw == GL_STENCIL_BUFFER_BIT {
            Some(BufferMask::Stencil)
        } else {
            None
        }
    }
}

/// Every `BufferMask` variant survives the trip to its constant and back.
pub proof fn lemma_buffer_mask_round_trip(v: BufferMask)
    ensures
        BufferMask::spec_from_numeric(v.spec_numeric()) == Some(v),
{
}

/// No two `BufferMask` variants share a constant.
pub proof fn lemma_buffer_mask_injective(a: BufferMask, b: BufferMask)
    ensures
        a.spec_numeric() == b.spec_numeric() ==> a == b,
{
    if a.spec_numeric() == b.spec_numeric() {
        lemma_buffer_mask_round_trip(a);
        lemma_buffer_mask_round_trip(b);
    }
}
#[derive(Copy, Clone, Debug, PartialEq, Eq, Structural)]
pub enum FramebufferTarget {
    Draw,
    Read,
    Framebuffer,
}

impl FramebufferTarget {
    /// The constant the standard publishes for each variant.
    pub open spec fn spec_numeric(self) -> GLenum {
        match self {
            FramebufferTarget::Draw => GL_DRAW_FRAMEBUFFER,
            FramebufferTarget::Read => GL_READ_FRAMEBUFFER,
            FramebufferTarget::Framebuffer => GL_FRAMEBUFFER,
        }
    }

    /// The variant carrying a given constant, if any does.
    pub open spec fn spec_from_numeric(raw: GLenum) -> Option<FramebufferTarget> {
        if raw == GL_DRAW_FRAMEBUFFER {
            Some(FramebufferTarget::Draw)
        } else if raw == GL_READ_FRAMEBUFFER {
            Some(FramebufferTarget::Read)
        } else if raw == GL_FRAMEBUFFER {
            Some(FramebufferTarget::Framebuffer)
        } else {
            None
        }
    }

    /// Total and lossless: every variant has exactly one constant.
    pub fn to_numeric(self) -> (raw: GLenum)
        ensures
            raw == self.spec_numeric(),
    {
        match self {
            FramebufferTarget::Draw => GL_DRAW_FRAMEBUFFER,
            FramebufferTarget::Read => GL_READ_FRAMEBUFFER,
            FramebufferTarget::Framebuffer => GL_FRAMEBUFFER,
        }
    }

    /// Exact partial inverse of `to_numeric`: `None` on an unknown constant.
    pub fn from_numeric(raw: GLenum) -> (v: Option<FramebufferTarget>)
        ensures
            v == Self::spec_from_numeric(raw),
    {
        if raw == GL_DRAW_FRAMEBUFFER {
            Some(FramebufferTarget::Draw)
        } else if raw == GL_READ_FRAMEBUFFER {
            Some(FramebufferTarget::Read)
        } else if raw == GL_FRAMEBUFFER {
            Some(FramebufferTarget::Framebuffer)
        } else {
            None
        }
    }
}

/// Every `FramebufferTarget` variant survives the trip to its constant and back.
pub proof fn lemma_framebuffer_target_round_trip(v: FramebufferTarget)
    ensures
        FramebufferTarget::spec_from_numeric(v.spec_numeric()) == Some(v),
{
}

/// No two `FramebufferTarget` variants share a constant.
pub proof fn lemma_framebuffer_target_injective(a: FramebufferTarget, b: FramebufferTarget)
    ensures
        a.spec_numeric() == b.spec_numeric() ==> a == b,
{
    if a.spec_numeric() == b.spec_numeric() {
        lemma_framebuffer_target_round_trip(a);
        lemma_framebuffer_target_round_trip(b);
    }
}
#[derive(Copy, Clone, Debug, PartialEq, Eq, Structural)]
pub enum PixelDataFormat {
    Red,
    RedInteger,
    RedGreeen,
    RedGreenInteger,
    RedGreenBlue,
    RedGreenBlueInteget,
    RedGreenBlueAlpha,
    RedGreenBlueAlphaInteger,
    DepthComponent,
    DepthStencil,
    LuminanceAlpha,
    Lumniance,
    Alpha,
}

impl PixelDataFormat {
    /// The constant the standard publishes for each variant.
    pub open spec fn spec_numeric(self) -> GLenum {
        match self {
            PixelDataFormat::Red => GL_RED,
            PixelDataFormat::RedInteger => GL_RED_INTEGER,
            PixelDataFormat::RedGreeen => GL_RG,
            PixelDataFormat::RedGreenInteger => GL_RG_INTEGER,
            PixelDataFormat::RedGreenBlue => GL_RGB,
            PixelDataFormat::RedGreenBlueInteget => GL_RGB_INTEGER,
            PixelDataFormat::RedGreenBlueAlpha => GL_RGBA,
            PixelDataFormat::RedGreenBlueAlphaInteger => GL_RGBA_INTEGER,
            PixelDataFormat::DepthComponent => GL_DEPTH_COMPONENT,
            PixelDataFormat::DepthStencil => GL_DEPTH_STENCIL,
            PixelDataFormat::LuminanceAlpha => GL_LUMINANCE_ALPHA,
            PixelDataFormat::Lumniance => GL_LUMINANCE,
            PixelDataFormat::Alpha => GL_ALPHA,
        }
    }

    /// The variant carrying a given constant, if any does.
    pub open spec fn spec_from_numeric(raw: GLenum) -> Option<PixelDataFormat> {
        if raw == GL_RED {
            Some(PixelDataFormat::Red)
        } else if raw == GL_RED_INTEGER {
            Some(PixelDataFormat::RedInteger)
        } else if raw == GL_RG {
            Some(PixelDataFormat::RedGreeen)
        } else if raw == GL_RG_INTEGER {
            Some(PixelDataFormat::RedGreenInteger)
        } else if raw == GL_RGB {
            Some(PixelDataFormat::RedGreenBlue)
        } else if raw == GL_RGB_INTEGER {
            Some(PixelDataFormat::RedGreenBlueInteget)
        } else if raw == GL_RGBA {
            Some(PixelDataFormat::RedGreenBlueAlpha)
        } else if raw == GL_RGBA_INTEGER {
            Some(PixelDataFormat::RedGreenBlueAlphaInteger)
        } else if raw == GL_DEPTH_COMPONENT {
            Some(PixelDataFormat::DepthComponent)
        } else if raw == GL_DEPTH_STENCIL {
            Some(PixelDataFormat::DepthStencil)
        } else if raw == GL_LUMINANCE_ALPHA {
            Some(PixelDataFormat::LuminanceAlpha)
        } else if raw == GL_LUMINANCE {
            Some(PixelDataFormat::Lumniance)
        } else if raw == GL_ALPHA {
            Some(PixelDataFormat::Alpha)
        } else {
            None
        }
    }

    /// Total and lossless: every variant has exactly one constant.
    pub fn to_numeric(self) -> (raw: GLenum)
        ensures
            raw == self.spec_numeric(),
    {
        match self {
            PixelDataFormat::Red => GL_RED,
            PixelDataFormat::RedInteger => GL_RED_INTEGER,
            PixelDataFormat::RedGreeen => GL_RG,
            PixelDataFormat::RedGreenInteger => GL_RG_INTEGER,
            PixelDataFormat::RedGreenBlue => GL_RGB,
            PixelDataFormat::RedGreenBlueInteget => GL_RGB_INTEGER,
            PixelDataFormat::RedGreenBlueAlpha => GL_RGBA,
            PixelDataFormat::RedGreenBlueAlphaInteger => GL_RGBA_INTEGER,
            PixelDataFormat::DepthComponent => GL_DEPTH_COMPONENT,
            PixelDataFormat::DepthStencil => GL_DEPTH_STENCIL,
            PixelDataFormat::LuminanceAlpha => GL_LUMINANCE_ALPHA,
            PixelDataFormat::Lumniance => GL_LUMINANCE,
            PixelDataFormat::Alpha => GL_ALPHA,
        }
    }

    /// Exact partial inverse of `to_numeric`: `None` on an unknown constant.
    pub fn from_numeric(raw: GLenum) -> (v: Option<PixelDataFormat>)
        ensures
            v == Self::spec_from_numeric(raw),
    {
        if raw == GL_RED {
            Some(PixelDataFormat::Red)
        } else if raw == GL_RED_INTEGER {
            Some(PixelDataFormat::RedInteger)
        } else if raw == GL_RG {
            Some(PixelDataFormat::RedGreeen)
        } else if raw == GL_RG_INTEGER {
            Some(PixelDataFormat::RedGreenInteger)
        } else if raw == GL_RGB {
            Some(PixelDataFormat::RedGreenBlue)
        } else if raw == GL_RGB_INTEGER {
            Some(PixelDataFormat::RedGreenBlueInteget)
        } else if raw == GL_RGBA {
            Some(PixelDataFormat::RedGreenBlueAlpha)
        } else if raw == GL_RGBA_INTEGER {
            Some(PixelDataFormat::RedGreenBlueAlphaInteger)
        } else if raw == GL_DEPTH_COMPONENT {
            Some(PixelDataFormat::DepthComponent)
        } else if raw == GL_DEPTH_STENCIL {
            Some(PixelDataFormat::DepthStencil)
        } else if raw == GL_LUMINANCE_ALPHA {
            Some(PixelDataFormat::LuminanceAlpha)
        } else if raw == GL_LUMINANCE {
            Some(PixelDataFormat::Lumniance)
        } else if raw == GL_ALPHA {
            Some(PixelDataFormat::Alpha)
        } else {
            None
        }
    }
}

/// Every `PixelDataFormat` variant survives the trip to its constant and back.
pub proof fn lemma_pixel_data_format_round_trip(v: PixelDataFormat)
    ensures
        PixelDataFormat::spec_from_numeric(v.spec_numeric()) == Some(v),
{
}

/// No two `PixelDataFormat` variants share a constant.
pub proof fn lemma_pixel_data_format_injective(a: PixelDataFormat, b: PixelDataFormat)
    ensures
        a.spec_numeric() == b.spec_numeric() ==> a == b,
{
    if a.spec_numeric() == b.spec_numeric() {
        lemma_pixel_data_format_round_trip(a);
        lemma_pixel_data_format_round_trip(b);
    }
}
#[allow(non_camel_case_types)]
#[derive(Copy, Clone, Debug, PartialEq, Eq, Structural)]
pub enum FrameBufferAttachmentType {
    COLOR_ATTACHMENT0,
    DEPTH_ATTACHMENT,
    STENCIL_ATTACHMENT,
}

impl FrameBufferAttachmentType {
    /// The constant the standard publishes for each variant.
    pub open spec fn spec_numeric(self) -> GLenum {
        match self {
            FrameBufferAttachmentType::COLOR_ATTACHMENT0 => GL_COLOR_ATTACHMENT0,
            FrameBufferAttachmentType::DEPTH_ATTACHMENT => GL_DEPTH_ATTACHMENT,
            FrameBufferAttachmentType::STENCIL_ATTACHMENT => GL_STENCIL_ATTACHMENT,
        }
    }

    /// The variant carrying a given constant, if any does.
    pub open spec fn spec_from_numeric(raw: GLenum) -> Option<FrameBufferAttachmentType> {
        if raw == GL_COLOR_ATTACHMENT0 {
            Some(FrameBufferAttachmentType::COLOR_ATTACHMENT0)
        } else if raw == GL_DEPTH_ATTACHMENT {
            Some(FrameBufferAttachmentType::DEPTH_ATTACHMENT)
        } else if raw == GL_STENCIL_ATTACHMENT {
            Some(FrameBufferAttachmentType::STENCIL_ATTACHMENT)
        } else {
            None
        }
    }

    /// Total and lossless: every variant has exactly one constant.
    pub fn to_numeric(self) -> (raw: GLenum)
        ensures
            raw == self.spec_numeric(),
    {
        match self {
            FrameBufferAttachmentType::COLOR_ATTACHMENT0 => GL_COLOR_ATTACHMENT0,
            FrameBufferAttachmentType::DEPTH_ATTACHMENT => GL_DEPTH_ATTACHMENT,
            FrameBufferAttachmentType::STENCIL_ATTACHMENT => GL_STENCIL_ATTACHMENT,
        }
    }

    /// Exact partial inverse of `to_numeric`: `None` on an unknown constant.
    pub fn from_numeric(raw: GLenum) -> (v: Option<FrameBufferAttachmentType>)
        ensures
            v == Self::spec_from_numeric(raw),
    {
        if raw == GL_COLOR_ATTACHMENT0 {
            Some(FrameBufferAttachmentType::COLOR_ATTACHMENT0)
        } else if raw == GL_DEPTH_ATTACHMENT {
            Some(FrameBufferAttachmentType::DEPTH_ATTACHMENT)
        } else if raw == GL_STENCIL_ATTACHMENT {
            Some(FrameBufferAttachmentType::STENCIL_ATTACHMENT)
        } else {
            None
        }
    }
}

/// Every `FrameBufferAttachmentType` variant survives the trip to its constant and back.
pub proof fn lemma_frame_buffer_attachment_type_round_trip(v: FrameBufferAttachmentType)
    ensures
        FrameBufferAttachmentType::spec_from_numeric(v.spec_numeric()) == Some(v),
{
}

/// No two `FrameBufferAttachmentType` variants share a constant.
pub proof fn lemma_frame_buffer_attachment_type_injective(a: FrameBufferAttachmentType, b: FrameBufferAttachmentType)
    ensures
        a.spec_numeric() == b.spec_numeric() ==> a == b,
{
    if a.spec_numeric() == b.spec_numeric() {
        lemma_frame_buffer_attachment_type_round_trip(a);
        lemma_frame_buffer_attachment_type_round_trip(b);
    }
}
#[allow(non_camel_case_types)]
#[derive(Copy, Clone, Debug, PartialEq, Eq, Structural)]
pub enum FrontFaceDirection {
    CW,
    CCW,
}

impl FrontFaceDirection {
    /// The constant the standard publishes for each variant.
    pub open spec fn spec_numeric(self) -> GLenum {
        match self {
            FrontFaceDirection::CW => GL_CW,
            FrontFaceDirection::CCW => GL_CCW,
        }
    }

    /// The variant carrying a given constant, if any does.
    pub open spec fn spec_from_numeric(raw: GLenum) -> Option<FrontFaceDirection> {
        if raw == GL_CW {
            Some(FrontFaceDirection::CW)
        } else if raw == GL_CCW {
            Some(FrontFaceDirection::CCW)
        } else {
            None
        }
    }

    /// Total and lossless: every variant has exactly one constant.
    pub fn to_numeric(self) -> (raw: GLenum)
        ensures
            raw == self.spec_numeric(),
    {
        match self {
            FrontFaceDirection::CW => GL_CW,
            FrontFaceDirection::CCW => GL_CCW,
        }
    }

    /// Exact partial inverse of `to_numeric`: `None` on an unknown constant.
    pub fn from_numeric(raw: GLenum) -> (v: Option<FrontFaceDirection>)
        ensures
            v == Self::spec_from_numeric(raw),
    {
        if raw == GL_CW {
            Some(FrontFaceDirection::CW)
        } else if raw == GL_CCW {
            Some(FrontFaceDirection::CCW)
        } else {
            None
        }
    }
}

/// Every `FrontFaceDirection` variant survives the trip to its constant and back.
pub proof fn lemma_front_face_direction_round_trip(v: FrontFaceDirection)
    ensures
        FrontFaceDirection::spec_from_numeric(v.spec_numeric()) == Some(v),
{
}

/// No two `FrontFaceDirection` variants share a constant.
pub proof fn lemma_front_face_direction_injective(a: FrontFaceDirection, b: FrontFaceDirection)
    ensures
        a.spec_numeric() == b.spec_numeric() ==> a == b,
{
    if a.spec_numeric() == b.spec_numeric() {
        lemma_front_face_direction_round_trip(a);
        lemma_front_face_direction_round_trip(b);
    }
}
#[allow(non_camel_case_types)]
#[derive(Copy, Clone, Debug, PartialEq, Eq, Structural)]
pub enum StateType {
    ACTIVE_TEXTURE,
    ALIASED_LINE_WIDTH_RANGE,
    ALIASED_POINT_SIZE_RANGE,
    ALPHA_BITS,
    ARRAY_BUFFER_BINDING,
    BLEND,
    BLEND_COLOR,
    BLEND_DST_ALPHA,
    BLEND_DST_RGB,
    BLEND_EQUATION_ALPHA,
    BLEND_EQUATION_RGB,
    BLEND_SRC_ALPHA,
    BLEND_SRC_RGB,
    BLUE_BITS,
    COLOR_CLEAR_VALUE,
    COLOR_WRITEMASK,
    COMPRESSED_TEXTURE_FORMATS,
    CULL_FACE,
    CULL_FACE_MODE,
    CURRENT_PROGRAM,
    DEPTH_BITS,
    DEPTH_CLEAR_VALUE,
    DEPTH_FUNC,
    DEPTH_RANGE,
    DEPTH_TEST,
    DEPTH_WRITEMASK,
    DITHER,
    ELEMENT_ARRAY_BUFFER_BINDING,
    FRAMEBUFFER_BINDING,
    FRONT_FACE,
    GENERATE_MIPMAP_HINT,
    GREEN_BITS,
    IMPLEMENTATION_COLOR_READ_FORMAT,
    IMPLEMENTATION_COLOR_READ_TYPE,
    LINE_WIDTH,
    MAX_COMBINED_TEXTURE_IMAGE_UNITS,
    MAX_CUBE_MAP_TEXTURE_SIZE,
    MAX_FRAGMENT_UNIFORM_VECTORS,
    MAX_RENDERBUFFER_SIZE,
    MAX_TEXTURE_IMAGE_UNITS,
    MAX_TEXTURE_SIZE,
    MAX_VARYING_VECTORS,
    MAX_VERTEX_ATTRIBS,
    MAX_VERTEX_TEXTURE_IMAGE_UNITS,
    MAX_VERTEX_UNIFORM_VECTORS,
    MAX_VIEWPORT_DIMS,
    NUM_COMPRESSED_TEXTURE_FORMATS,
    NUM_SHADER_BINARY_FORMATS,
    PACK_ALIGNMENT,
    POLYGON_OFFSET_FACTOR,
    POLYGON_OFFSET_FILL,
    POLYGON_OFFSET_UNITS,
    RED_BITS,
    RENDERBUFFER_BINDING,
    SAMPLE_ALPHA_TO_COVERAGE,
    SAMPLE_BUFFERS,
    SAMPLE_COVERAGE,
    SAMPLE_COVERAGE_INVERT,
    SAMPLE_COVERAGE_VALUE,
    SAMPLES,
    SCISSOR_BOX,
    SCISSOR_TEST,
    SHADER_BINARY_FORMATS,
    SHADER_COMPILER,
    STENCIL_BACK_FAIL,
    STENCIL_BACK_FUNC,
    STENCIL_BACK_PASS_DEPTH_FAIL,
    STENCIL_BACK_PASS_DEPTH_PASS,
    STENCIL_BACK_REF,
    STENCIL_BACK_VALUE_MASK,
    STENCIL_BACK_WRITEMASK,
    STENCIL_BITS,
    STENCIL_CLEAR_VALUE,
    STENCIL_FAIL,
    STENCIL_FUNC,
    STENCIL_PASS_DEPTH_FAIL,
    STENCIL_PASS_DEPTH_PASS,
    STENCIL_REF,
    STENCIL_TEST,
    STENCIL_VALUE_MASK,
    STENCIL_WRITEMASK,
    SUBPIXEL_BITS,
    TEXTURE_BINDING_2D,
    TEXTURE_BINDING_CUBE_MAP,
    UNPACK_ALIGNMENT,
    VIEWPORT,
}

impl StateType {
    /// The constant the standard publishes for each variant.
    pub open spec fn spec_numeric(self) -> GLenum {
        match self {
            StateType::ACTIVE_TEXTURE => GL_ACTIVE_TEXTURE,
            StateType::ALIASED_LINE_WIDTH_RANGE => GL_ALIASED_LINE_WIDTH_RANGE,
            StateType::ALIASED_POINT_SIZE_RANGE => GL_ALIASED_POINT_SIZE_RANGE,
            StateType::ALPHA_BITS => GL_ALPHA_BITS,
            StateType::ARRAY_BUFFER_BINDING => GL_ARRAY_BUFFER_BINDING,
            StateType::BLEND => GL_BLEND,
            StateType::BLEND_COLOR => GL_BLEND_COLOR,
            StateType::BLEND_DST_ALPHA => GL_BLEND_DST_ALPHA,
            StateType::BLEND_DST_RGB => GL_BLEND_DST_RGB,
            StateType::BLEND_EQUATION_ALPHA => GL_BLEND_EQUATION_ALPHA,
            StateType::BLEND_EQUATION_RGB => GL_BLEND_EQUATION_RGB,
            StateType::BLEND_SRC_ALPHA => GL_BLEND_SRC_ALPHA,
            StateType::BLEND_SRC_RGB => GL_BLEND_SRC_RGB,
            StateType::BLUE_BITS => GL_BLUE_BITS,
            StateType::COLOR_CLEAR_VALUE => GL_COLOR_CLEAR_VALUE,
            StateType::COLOR_WRITEMASK => GL_COLOR_WRITEMASK,
            StateType::COMPRESSED_TEXTURE_FORMATS => GL_COMPRESSED_TEXTURE_FORMATS,
            StateType::CULL_FACE => GL_CULL_FACE,
            StateType::CULL_FACE_MODE => GL_CULL_FACE_MODE,
            StateType::CURRENT_PROGRAM => GL_CURRENT_PROGRAM,
            StateType::DEPTH_BITS => GL_DEPTH_BITS,
            StateType::DEPTH_CLEAR_VALUE => GL_DEPTH_CLEAR_VALUE,
            StateType::DEPTH_FUNC => GL_DEPTH_FUNC,
            StateType::DEPTH_RANGE => GL_DEPTH_RANGE,
            StateType::DEPTH_TEST => GL_DEPTH_TEST,
            StateType::DEPTH_WRITEMASK => GL_DEPTH_WRITEMASK,
            StateType::DITHER => GL_DITHER,
            StateType::ELEMENT_ARRAY_BUFFER_BINDING => GL_ELEMENT_ARRAY_BUFFER_BINDING,
            StateType::FRAMEBUFFER_BINDING => GL_FRAMEBUFFER_BINDING,
            StateType::FRONT_FACE => GL_FRONT_FACE,
            StateType::GENERATE_MIPMAP_HINT => GL_GENERATE_MIPMAP_HINT,
            StateType::GREEN_BITS => GL_GREEN_BITS,
            StateType::IMPLEMENTATION_COLOR_READ_FORMAT => GL_IMPLEMENTATION_COLOR_READ_FORMAT,
            StateType::IMPLEMENTATION_COLOR_READ_TYPE => GL_IMPLEMENTATION_COLOR_READ_TYPE,
            StateType::LINE_WIDTH => GL_LINE_WIDTH,
            StateType::MAX_COMBINED_TEXTURE_IMAGE_UNITS => GL_MAX_COMBINED_TEXTURE_IMAGE_UNITS,
            StateType::MAX_CUBE_MAP_TEXTURE_SIZE => GL_MAX_CUBE_MAP_TEXTURE_SIZE,
            StateType::MAX_FRAGMENT_UNIFORM_VECTORS => GL_MAX_FRAGMENT_UNIFORM_VECTORS,
            StateType::MAX_RENDERBUFFER_SIZE => GL_MAX_RENDERBUFFER_SIZE,
            StateType::MAX_TEXTURE_IMAGE_UNITS => GL_MAX_TEXTURE_IMAGE_UNITS,
            StateType::MAX_TEXTURE_SIZE => GL_MAX_TEXTURE_SIZE,
            StateType::MAX_VARYING_VECTORS => GL_MAX_VARYING_VECTORS,
            StateType::MAX_VERTEX_ATTRIBS => GL_MAX_VERTEX_ATTRIBS,
            StateType::MAX_VERTEX_TEXTURE_IMAGE_UNITS => GL_MAX_VERTEX_TEXTURE_IMAGE_UNITS,
            StateType::MAX_VERTEX_UNIFORM_VECTORS => GL_MAX_VERTEX_UNIFORM_VECTORS,
            StateType::MAX_VIEWPORT_DIMS => GL_MAX_VIEWPORT_DIMS,
            StateType::NUM_COMPRESSED_TEXTURE_FORMATS => GL_NUM_COMPRESSED_TEXTURE_FORMATS,
            StateType::NUM_SHADER_BINARY_FORMATS => GL_NUM_SHADER_BINARY_FORMATS,
            StateType::PACK_ALIGNMENT => GL_PACK_ALIGNMENT,
            StateType::POLYGON_OFFSET_FACTOR => GL_POLYGON_OFFSET_FACTOR,
            StateType::POLYGON_OFFSET_FILL => GL_POLYGON_OFFSET_FILL,
            StateType::POLYGON_OFFSET_UNITS => GL_POLYGON_OFFSET_UNITS,
            StateType::RED_BITS => GL_RED_BITS,
            StateType::RENDERBUFFER_BINDING => GL_RENDERBUFFER_BINDING,
            StateType::SAMPLE_ALPHA_TO_COVERAGE => GL_SAMPLE_ALPHA_TO_COVERAGE,
            StateType::SAMPLE_BUFFERS => GL_SAMPLE_BUFFERS,
            StateType::SAMPLE_COVERAGE => GL_SAMPLE_COVERAGE,
            StateType::SAMPLE_COVERAGE_INVERT => GL_SAMPLE_COVERAGE_INVERT,
            StateType::SAMPLE_COVERAGE_VALUE => GL_SAMPLE_COVERAGE_VALUE,
            StateType::SAMPLES => GL_SAMPLES,
            StateType::SCISSOR_BOX => GL_SCISSOR_BOX,
            StateType::SCISSOR_TEST => GL_SCISSOR_TEST,
            StateType::SHADER_BINARY_FORMATS => GL_SHADER_BINARY_FORMATS,
            StateType::SHADER_COMPILER => GL_SHADER_COMPILER,
            StateType::STENCIL_BACK_FAIL => GL_STENCIL_BACK_FAIL,
            StateType::STENCIL_BACK_FUNC => GL_STENCIL_BACK_FUNC,
            StateType::STENCIL_BACK_PASS_DEPTH_FAIL => GL_STENCIL_BACK_PASS_DEPTH_FAIL,
            StateType::STENCIL_BACK_PASS_DEPTH_PASS => GL_STENCIL_BACK_PASS_DEPTH_PASS,
            StateType::STENCIL_BACK_REF => GL_STENCIL_BACK_REF,
            StateType::STENCIL_BACK_VALUE_MASK => GL_STENCIL_BACK_VALUE_MASK,
            StateType::STENCIL_BACK_WRITEMASK => GL_STENCIL_BACK_WRITEMASK,
            StateType::STENCIL_BITS => GL_STENCIL_BITS,
            StateType::STENCIL_CLEAR_VALUE => GL_STENCIL_CLEAR_VALUE,
            StateType::STENCIL_FAIL => GL_STENCIL_FAIL,
            StateType::STENCIL_FUNC => GL_STENCIL_FUNC,
            StateType::STENCIL_PASS_DEPTH_FAIL => GL_STENCIL_PASS_DEPTH_FAIL,
            StateType::STENCIL_PASS_DEPTH_PASS => GL_STENCIL_PASS_DEPTH_PASS,
            StateType::STENCIL_REF => GL_STENCIL_REF,
            StateType::STENCIL_TEST => GL_STENCIL_TEST,
            StateType::STENCIL_VALUE_MASK => GL_STENCIL_VALUE_MASK,
            StateType::STENCIL_WRITEMASK => GL_STENCIL_WRITEMASK,
            StateType::SUBPIXEL_BITS => GL_SUBPIXEL_BITS,
            StateType::TEXTURE_BINDING_2D => GL_TEXTURE_BINDING_2D,
            StateType::TEXTURE_BINDING_CUBE_MAP => GL_TEXTURE_BINDING_CUBE_MAP,
            StateType::UNPACK_ALIGNMENT => GL_UNPACK_ALIGNMENT,
            StateType::VIEWPORT => GL_VIEWPORT,
        }
    }

    /// The variant carrying a given constant, if any does.
    pub open spec fn spec_from_numeric(raw: GLenum) -> Option<StateType> {
        if raw == GL_ACTIVE_TEXTURE {
            Some(StateType::ACTIVE_TEXTURE)
        } else if raw == GL_ALIASED_LINE_WIDTH_RANGE {
            Some(StateType::ALIASED_LINE_WIDTH_RANGE)
        } else if raw == GL_ALIASED_POINT_SIZE_RANGE {
            Some(StateType::ALIASED_POINT_SIZE_RANGE)
        } else if raw == GL_ALPHA_BITS {
            Some(StateType::ALPHA_BITS)
        } else if raw == GL_ARRAY_BUFFER_BINDING {
            Some(StateType::ARRAY_BUFFER_BINDING)
        } else if raw == GL_BLEND {
            Some(StateType::BLEND)
        } else if raw == GL_BLEND_COLOR {
            Some(StateType::BLEND_COLOR)
        } else if raw == GL_BLEND_DST_ALPHA {
            Some(StateType::BLEND_DST_ALPHA)
        } else if raw == GL_BLEND_DST_RGB {
            Some(StateType::BLEND_DST_RGB)
        } else if raw == GL_BLEND_EQUATION_ALPHA {
            Some(StateType::BLEND_EQUATION_ALPHA)
        } else if raw == GL_BLEND_EQUATION_RGB {
            Some(StateType::BLEND_EQUATION_RGB)
        } else if raw == GL_BLEND_SRC_ALPHA {
            Some(StateType::BLEND_SRC_ALPHA)
        } else if raw == GL_BLEND_SRC_RGB {
            Some(StateType::BLEND_SRC_RGB)
        } else if raw == GL_BLUE_BITS {
            Some(StateType::BLUE_BITS)
        } else if raw == GL_COLOR_CLEAR_VALUE {
            Some(StateType::COLOR_CLEAR_VALUE)
        } else if raw == GL_COLOR_WRITEMASK {
            Some(StateType::COLOR_WRITEMASK)
        } else if raw == GL_COMPRESSED_TEXTURE_FORMATS {
            Some(StateType::COMPRESSED_TEXTURE_FORMATS)
        } else if raw == GL_CULL_FACE {
            Some(StateType::CULL_FACE)
        } else if raw == GL_CULL_FACE_MODE {
            Some(StateType::CULL_FACE_MODE)
        } else if raw == GL_CURRENT_PROGRAM {
            Some(StateType::CURRENT_PROGRAM)
        } else if raw == GL_DEPTH_BITS {
            Some(StateType::DEPTH_BITS)
        } else if raw == GL_DEPTH_CLEAR_VALUE {
            Some(StateType::DEPTH_CLEAR_VALUE)
        } else if raw == GL_DEPTH_FUNC {
            Some(StateType::DEPTH_FUNC)
        } else if raw == GL_DEPTH_RANGE {
            Some(StateType::DEPTH_RANGE)
        } else if raw == GL_DEPTH_TEST {
            Some(StateType::DEPTH_TEST)
        } else if raw == GL_DEPTH_WRITEMASK {
            Some(StateType::DEPTH_WRITEMASK)
        } else if raw == GL_DITHER {
            Some(StateType::DITHER)
        } else if raw == GL_ELEMENT_ARRAY_BUFFER_BINDING {
            Some(StateType::ELEMENT_ARRAY_BUFFER_BINDING)
        } else if raw == GL_FRAMEBUFFER_BINDING {
            Some(StateType::FRAMEBUFFER_BINDING)
        } else if raw == GL_FRONT_FACE {
            Some(StateType::FRONT_FACE)
        } else if raw == GL_GENERATE_MIPMAP_HINT {
            Some(StateType::GENERATE_MIPMAP_HINT)
        } else if raw == GL_GREEN_BITS {
            Some(StateType::GREEN_BITS)
        } else if raw == GL_IMPLEMENTATION_COLOR_READ_FORMAT {
            Some(StateType::IMPLEMENTATION_COLOR_READ_FORMAT)
        } else if raw == GL_IMPLEMENTATION_COLOR_READ_TYPE {
            Some(StateType::IMPLEMENTATION_COLOR_READ_TYPE)
        } else if raw == GL_LINE_WIDTH {
            Some(StateType::LINE_WIDTH)
        } else if raw == GL_MAX_COMBINED_TEXTURE_IMAGE_UNITS {
            Some(StateType::MAX_COMBINED_TEXTURE_IMAGE_UNITS)
        } else if raw == GL_MAX_CUBE_MAP_TEXTURE_SIZE {
            Some(StateType::MAX_CUBE_MAP_TEXTURE_SIZE)
        } else if raw == GL_MAX_FRAGMENT_UNIFORM_VECTORS {
            Some(StateType::MAX_FRAGMENT_UNIFORM_VECTORS)
        } else if raw == GL_MAX_RENDERBUFFER_SIZE {
            Some(StateType::MAX_RENDERBUFFER_SIZE)
        } else if raw == GL_MAX_TEXTURE_IMAGE_UNITS {
            Some(StateType::MAX_TEXTURE_IMAGE_UNITS)
        } else if raw == GL_MAX_TEXTURE_SIZE {
            Some(StateType::MAX_TEXTURE_SIZE)
        } else if raw == GL_MAX_VARYING_VECTORS {
            Some(StateType::MAX_VARYING_VECTORS)
        } else if raw == GL_MAX_VERTEX_ATTRIBS {
            Some(StateType::MAX_VERTEX_ATTRIBS)
        } else if raw == GL_MAX_VERTEX_TEXTURE_IMAGE_UNITS {
            Some(StateType::MAX_VERTEX_TEXTURE_IMAGE_UNITS)
        } else if raw == GL_MAX_VERTEX_UNIFORM_VECTORS {
            Some(StateType::MAX_VERTEX_UNIFORM_VECTORS)
        } else if raw == GL_MAX_VIEWPORT_DIMS {
            Some(StateType::MAX_VIEWPORT_DIMS)
        } else if raw == GL_NUM_COMPRESSED_TEXTURE_FORMATS {
            Some(StateType::NUM_COMPRESSED_TEXTURE_FORMATS)
        } else if raw == GL_NUM_SHADER_BINARY_FORMATS {
            Some(StateType::NUM_SHADER_BINARY_FORMATS)
        } else if raw == GL_PACK_ALIGNMENT {
            Some(StateType::PACK_ALIGNMENT)
        } else if raw == GL_POLYGON_OFFSET_FACTOR {
            Some(StateType::POLYGON_OFFSET_FACTOR)
        } else if raw == GL_POLYGON_OFFSET_FILL {
            Some(StateType::POLYGON_OFFSET_FILL)
        } else if raw == GL_POLYGON_OFFSET_UNITS {
            Some(StateType::POLYGON_OFFSET_UNITS)
        } else if raw == GL_RED_BITS {
            Some(StateType::RED_BITS)
        } else if raw == GL_RENDERBUFFER_BINDING {
            Some(StateType::RENDERBUFFER_BINDING)
        } else if raw == GL_SAMPLE_ALPHA_TO_COVERAGE {
            Some(StateType::SAMPLE_ALPHA_TO_COVERAGE)
        } else if raw == GL_SAMPLE_BUFFERS {
            Some(StateType::SAMPLE_BUFFERS)
        } else if raw == GL_SAMPLE_COVERAGE {
            Some(StateType::SAMPLE_COVERAGE)
        } else if raw == GL_SAMPLE_COVERAGE_INVERT {
            Some(StateType::SAMPLE_COVERAGE_INVERT)
        } else if raw == GL_SAMPLE_COVERAGE_VALUE {
            Some(StateType::SAMPLE_COVERAGE_VALUE)
        } else if raw == GL_SAMPLES {
            Some(StateType::SAMPLES)
        } else if raw == GL_SCISSOR_BOX {
            Some(StateType::SCISSOR_BOX)
        } else if raw == GL_SCISSOR_TEST {
            Some(StateType::SCISSOR_TEST)
        } else if raw == GL_SHADER_BINARY_FORMATS {
            Some(StateType::SHADER_BINARY_FORMATS)
        } else if raw == GL_SHADER_COMPILER {
            Some(StateType::SHADER_COMPILER)
        } else if raw == GL_STENCIL_BACK_FAIL {
            Some(StateType::STENCIL_BACK_FAIL)
        } else if raw == GL_STENCIL_BACK_FUNC {
            Some(StateType::STENCIL_BACK_FUNC)
        } else if raw == GL_STENCIL_BACK_PASS_DEPTH_FAIL {
            Some(StateType::STENCIL_BACK_PASS_DEPTH_FAIL)
        } else if raw == GL_STENCIL_BACK_PASS_DEPTH_PASS {
            Some(StateType::STENCIL_BACK_PASS_DEPTH_PASS)
        } else if raw == GL_STENCIL_BACK_REF {
            Some(StateType::STENCIL_BACK_REF)
        } else if raw == GL_STENCIL_BACK_VALUE_MASK {
            Some(StateType::STENCIL_BACK_VALUE_MASK)
        } else if raw == GL_STENCIL_BACK_WRITEMASK {
            Some(StateType::STENCIL_BACK_WRITEMASK)
        } else if raw == GL_STENCIL_BITS {
            Some(StateType::STENCIL_BITS)
        } else if raw == GL_STENCIL_CLEAR_VALUE {
            Some(StateType::STENCIL_CLEAR_VALUE)
        } else if raw == GL_STENCIL_FAIL {
            Some(StateType::STENCIL_FAIL)
        } else if raw == GL_STENCIL_FUNC {
            Some(StateType::STENCIL_FUNC)
        } else if raw == GL_STENCIL_PASS_DEPTH_FAIL {
            Some(StateType::STENCIL_PASS_DEPTH_FAIL)
        } else if raw == GL_STENCIL_PASS_DEPTH_PASS {
            Some(StateType::STENCIL_PASS_DEPTH_PASS)
        } else if raw == GL_STENCIL_REF {
            Some(StateType::STENCIL_REF)
        } else if raw == GL_STENCIL_TEST {
            Some(StateType::STENCIL_TEST)
        } else if raw == GL_STENCIL_VALUE_MASK {
            Some(StateType::STENCIL_VALUE_MASK)
        } else if raw == GL_STENCIL_WRITEMASK {
            Some(StateType::STENCIL_WRITEMASK)
        } else if raw == GL_SUBPIXEL_BITS {
            Some(StateType::SUBPIXEL_BITS)
        } else if raw == GL_TEXTURE_BINDING_2D {
            Some(StateType::TEXTURE_BINDING_2D)
        } else if raw == GL_TEXTURE_BINDING_CUBE_MAP {
            Some(StateType::TEXTURE_BINDING_CUBE_MAP)
        } else if raw == GL_UNPACK_ALIGNMENT {
            Some(StateType::UNPACK_ALIGNMENT)
        } else if raw == GL_VIEWPORT {
            Some(StateType::VIEWPORT)
        } else {
            None
        }
    }

    /// Total and lossless: every variant has exactly one constant.
    pub fn to_numeric(self) -> (raw: GLenum)
        ensures
            raw == self.spec_numeric(),
    {
        match self {
            StateType::ACTIVE_TEXTURE => GL_ACTIVE_TEXTURE,
            StateType::ALIASED_LINE_WIDTH_RANGE => GL_ALIASED_LINE_WIDTH_RANGE,
            StateType::ALIASED_POINT_SIZE_RANGE => GL_ALIASED_POINT_SIZE_RANGE,
            StateType::ALPHA_BITS => GL_ALPHA_BITS,
            StateType::ARRAY_BUFFER_BINDING => GL_ARRAY_BUFFER_BINDING,
            StateType::BLEND => GL_BLEND,
            StateType::BLEND_COLOR => GL_BLEND_COLOR,
            StateType::BLEND_DST_ALPHA => GL_BLEND_DST_ALPHA,
            StateType::BLEND_DST_RGB => GL_BLEND_DST_RGB,
            StateType::BLEND_EQUATION_ALPHA => GL_BLEND_EQUATION_ALPHA,
            StateType::BLEND_EQUATION_RGB => GL_BLEND_EQUATION_RGB,
            StateType::BLEND_SRC_ALPHA => GL_BLEND_SRC_ALPHA,
            StateType::BLEND_SRC_RGB => GL_BLEND_SRC_RGB,
            StateType::BLUE_BITS => GL_BLUE_BITS,
            StateType::COLOR_CLEAR_VALUE => GL_COLOR_CLEAR_VALUE,
            StateType::COLOR_WRITEMASK => GL_COLOR_WRITEMASK,
            StateType::COMPRESSED_TEXTURE_FORMATS => GL_COMPRESSED_TEXTURE_FORMATS,
            StateType::CULL_FACE => GL_CULL_FACE,
            StateType::CULL_FACE_MODE => GL_CULL_FACE_MODE,
            StateType::CURRENT_PROGRAM => GL_CURRENT_PROGRAM,
            StateType::DEPTH_BITS => GL_DEPTH_BITS,
            StateType::DEPTH_CLEAR_VALUE => GL_DEPTH_CLEAR_VALUE,
            StateType::DEPTH_FUNC => GL_DEPTH_FUNC,
            StateType::DEPTH_RANGE => GL_DEPTH_RANGE,
            StateType::DEPTH_TEST => GL_DEPTH_TEST,
            StateType::DEPTH_WRITEMASK => GL_DEPTH_WRITEMASK,
            StateType::DITHER => GL_DITHER,
            StateType::ELEMENT_ARRAY_BUFFER_BINDING => GL_ELEMENT_ARRAY_BUFFER_BINDING,
            StateType::FRAMEBUFFER_BINDING => GL_FRAMEBUFFER_BINDING,
            StateType::FRONT_FACE => GL_FRONT_FACE,
            StateType::GENERATE_MIPMAP_HINT => GL_GENERATE_MIPMAP_HINT,
            StateType::GREEN_BITS => GL_GREEN_BITS,
            StateType::IMPLEMENTATION_COLOR_READ_FORMAT => GL_IMPLEMENTATION_COLOR_READ_FORMAT,
            StateType::IMPLEMENTATION_COLOR_READ_TYPE => GL_IMPLEMENTATION_COLOR_READ_TYPE,
            StateType::LINE_WIDTH => GL_LINE_WIDTH,
            StateType::MAX_COMBINED_TEXTURE_IMAGE_UNITS => GL_MAX_COMBINED_TEXTURE_IMAGE_UNITS,
            StateType::MAX_CUBE_MAP_TEXTURE_SIZE => GL_MAX_CUBE_MAP_TEXTURE_SIZE,
            StateType::MAX_FRAGMENT_UNIFORM_VECTORS => GL_MAX_FRAGMENT_UNIFORM_VECTORS,
            StateType::MAX_RENDERBUFFER_SIZE => GL_MAX_RENDERBUFFER_SIZE,
            StateType::MAX_TEXTURE_IMAGE_UNITS => GL_MAX_TEXTURE_IMAGE_UNITS,
            StateType::MAX_TEXTURE_SIZE => GL_MAX_TEXTURE_SIZE,
            StateType::MAX_VARYING_VECTORS => GL_MAX_VARYING_VECTORS,
            StateType::MAX_VERTEX_ATTRIBS => GL_MAX_VERTEX_ATTRIBS,
            StateType::MAX_VERTEX_TEXTURE_IMAGE_UNITS => GL_MAX_VERTEX_TEXTURE_IMAGE_UNITS,
            StateType::MAX_VERTEX_UNIFORM_VECTORS => GL_MAX_VERTEX_UNIFORM_VECTORS,
            StateType::MAX_VIEWPORT_DIMS => GL_MAX_VIEWPORT_DIMS,
            StateType::NUM_COMPRESSED_TEXTURE_FORMATS => GL_NUM_COMPRESSED_TEXTURE_FORMATS,
            StateType::NUM_SHADER_BINARY_FORMATS => GL_NUM_SHADER_BINARY_FORMATS,
            StateType::PACK_ALIGNMENT => GL_PACK_ALIGNMENT,
            StateType::POLYGON_OFFSET_FACTOR => GL_POLYGON_OFFSET_FACTOR,
            StateType::POLYGON_OFFSET_FILL => GL_POLYGON_OFFSET_FILL,
            StateType::POLYGON_OFFSET_UNITS => GL_POLYGON_OFFSET_UNITS,
            StateType::RED_BITS => GL_RED_BITS,
            StateType::RENDERBUFFER_BINDING => GL_RENDERBUFFER_BINDING,
            StateType::SAMPLE_ALPHA_TO_COVERAGE => GL_SAMPLE_ALPHA_TO_COVERAGE,
            StateType::SAMPLE_BUFFERS => GL_SAMPLE_BUFFERS,
            StateType::SAMPLE_COVERAGE => GL_SAMPLE_COVERAGE,
            StateType::SAMPLE_COVERAGE_INVERT => GL_SAMPLE_COVERAGE_INVERT,
            StateType::SAMPLE_COVERAGE_VALUE => GL_SAMPLE_COVERAGE_VALUE,
            StateType::SAMPLES => GL_SAMPLES,
            StateType::SCISSOR_BOX => GL_SCISSOR_BOX,
            StateType::SCISSOR_TEST => GL_SCISSOR_TEST,
            StateType::SHADER_BINARY_FORMATS => GL_SHADER_BINARY_FORMATS,
            StateType::SHADER_COMPILER => GL_SHADER_COMPILER,
            StateType::STENCIL_BACK_FAIL => GL_STENCIL_BACK_FAIL,
            StateType::STENCIL_BACK_FUNC => GL_STENCIL_BACK_FUNC,
            StateType::STENCIL_BACK_PASS_DEPTH_FAIL => GL_STENCIL_BACK_PASS_DEPTH_FAIL,
            StateType::STENCIL_BACK_PASS_DEPTH_PASS => GL_STENCIL_BACK_PASS_DEPTH_PASS,
            StateType::STENCIL_BACK_REF => GL_STENCIL_BACK_REF,
            StateType::STENCIL_BACK_VALUE_MASK => GL_STENCIL_BACK_VALUE_MASK,
            StateType::STENCIL_BACK_WRITEMASK => GL_STENCIL_BACK_WRITEMASK,
            StateType::STENCIL_BITS => GL_STENCIL_BITS,
            StateType::STENCIL_CLEAR_VALUE => GL_STENCIL_CLEAR_VALUE,
            StateType::STENCIL_FAIL => GL_STENCIL_FAIL,
            StateType::STENCIL_FUNC => GL_STENCIL_FUNC,
            StateType::STENCIL_PASS_DEPTH_FAIL => GL_STENCIL_PASS_DEPTH_FAIL,
            StateType::STENCIL_PASS_DEPTH_PASS => GL_STENCIL_PASS_DEPTH_PASS,
            StateType::STENCIL_REF => GL_STENCIL_REF,
            StateType::STENCIL_TEST => GL_STENCIL_TEST,
            StateType::STENCIL_VALUE_MASK => GL_STENCIL_VALUE_MASK,
            StateType::STENCIL_WRITEMASK => GL_STENCIL_WRITEMASK,
            StateType::SUBPIXEL_BITS => GL_SUBPIXEL_BITS,
            StateType::TEXTURE_BINDING_2D => GL_TEXTURE_BINDING_2D,
            StateType::TEXTURE_BINDING_CUBE_MAP => GL_TEXTURE_BINDING_CUBE_MAP,
            StateType::UNPACK_ALIGNMENT => GL_UNPACK_ALIGNMENT,
            StateType::VIEWPORT => GL_VIEWPORT,
        }
    }

    /// Exact partial inverse of `to_numeric`: `None` on an unknown constant.
    pub fn from_numeric(raw: GLenum) -> (v: Option<StateType>)
        ensures
            v == Self::spec_from_numeric(raw),
    {
        if raw == GL_ACTIVE_TEXTURE {
            Some(StateType::ACTIVE_TEXTURE)
        } else if raw == GL_ALIASED_LINE_WIDTH_RANGE {
            Some(StateType::ALIASED_LINE_WIDTH_RANGE)
        } else if raw == GL_ALIASED_POINT_SIZE_RANGE {
            Some(StateType::ALIASED_POINT_SIZE_RANGE)
        } else if raw == GL_ALPHA_BITS {
            Some(StateType::ALPHA_BITS)
        } else if raw == GL_ARRAY_BUFFER_BINDING {
            Some(StateType::ARRAY_BUFFER_BINDING)
        } else if raw == GL_BLEND {
            Some(StateType::BLEND)
        } else if raw == GL_BLEND_COLOR {
            Some(StateType::BLEND_COLOR)
        } else if raw == GL_BLEND_DST_ALPHA {
            Some(StateType::BLEND_DST_ALPHA)
        } else if raw == GL_BLEND_DST_RGB {
            Some(StateType::BLEND_DST_RGB)
        } else if raw == GL_BLEND_EQUATION_ALPHA {
            Some(StateType::BLEND_EQUATION_ALPHA)
        } else if raw == GL_BLEND_EQUATION_RGB {
            Some(StateType::BLEND_EQUATION_RGB)
        } else if raw == GL_BLEND_SRC_ALPHA {
            Some(StateType::BLEND_SRC_ALPHA)
        } else if raw == GL_BLEND_SRC_RGB {
            Some(StateType::BLEND_SRC_RGB)
        } else if raw == GL_BLUE_BITS {
            Some(StateType::BLUE_BITS)
        } else if raw == GL_COLOR_CLEAR_VALUE {
            Some(StateType::COLOR_CLEAR_VALUE)
        } else if raw == GL_COLOR_WRITEMASK {
            Some(StateType::COLOR_WRITEMASK)
        } else if raw == GL_COMPRESSED_TEXTURE_FORMATS {
            Some(StateType::COMPRESSED_TEXTURE_FORMATS)
        } else if raw == GL_CULL_FACE {
            Some(StateType::CULL_FACE)
        } else if raw == GL_CULL_FACE_MODE {
            Some(StateType::CULL_FACE_MODE)
        } else if raw == GL_CURRENT_PROGRAM {
            Some(StateType::CURRENT_PROGRAM)
        } else if raw == GL_DEPTH_BITS {
            Some(StateType::DEPTH_BITS)
        } else if raw == GL_DEPTH_CLEAR_VALUE {
            Some(StateType::DEPTH_CLEAR_VALUE)
        } else if raw == GL_DEPTH_FUNC {
            Some(StateType::DEPTH_FUNC)
        } else if raw == GL_DEPTH_RANGE {
            Some(StateType::DEPTH_RANGE)
        } else if raw == GL_DEPTH_TEST {
            Some(StateType::DEPTH_TEST)
        } else if raw == GL_DEPTH_WRITEMASK {
            Some(StateType::DEPTH_WRITEMASK)
        } else if raw == GL_DITHER {
            Some(StateType::DITHER)
        } else if raw == GL_ELEMENT_ARRAY_BUFFER_BINDING {
            Some(StateType::ELEMENT_ARRAY_BUFFER_BINDING)
        } else if raw == GL_FRAMEBUFFER_BINDING {
            Some(StateType::FRAMEBUFFER_BINDING)
        } else if raw == GL_FRONT_FACE {
            Some(StateType::FRONT_FACE)
        } else if raw == GL_GENERATE_MIPMAP_HINT {
            Some(StateType::GENERATE_MIPMAP_HINT)
        } else if raw == GL_GREEN_BITS {
            Some(StateType::GREEN_BITS)
        } else if raw == GL_IMPLEMENTATION_COLOR_READ_FORMAT {
            Some(StateType::IMPLEMENTATION_COLOR_READ_FORMAT)
        } else if raw == GL_IMPLEMENTATION_COLOR_READ_TYPE {
            Some(StateType::IMPLEMENTATION_COLOR_READ_TYPE)
        } else if raw == GL_LINE_WIDTH {
            Some(StateType::LINE_WIDTH)
        } else if raw == GL_MAX_COMBINED_TEXTURE_IMAGE_UNITS {
            Some(StateType::MAX_COMBINED_TEXTURE_IMAGE_UNITS)
        } else if raw == GL_MAX_CUBE_MAP_TEXTURE_SIZE {
            Some(StateType::MAX_CUBE_MAP_TEXTURE_SIZE)
        } else if raw == GL_MAX_FRAGMENT_UNIFORM_VECTORS {
            Some(StateType::MAX_FRAGMENT_UNIFORM_VECTORS)
        } else if raw == GL_MAX_RENDERBUFFER_SIZE {
            Some(StateType::MAX_RENDERBUFFER_SIZE)
        } else if raw == GL_MAX_TEXTURE_IMAGE_UNITS {
            Some(StateType::MAX_TEXTURE_IMAGE_UNITS)
        } else if raw == GL_MAX_TEXTURE_SIZE {
            Some(StateType::MAX_TEXTURE_SIZE)
        } else if raw == GL_MAX_VARYING_VECTORS {
            Some(StateType::MAX_VARYING_VECTORS)
        } else if raw == GL_MAX_VERTEX_ATTRIBS {
            Some(StateType::MAX_VERTEX_ATTRIBS)
        } else if raw == GL_MAX_VERTEX_TEXTURE_IMAGE_UNITS {
            Some(StateType::MAX_VERTEX_TEXTURE_IMAGE_UNITS)
        } else if raw == GL_MAX_VERTEX_UNIFORM_VECTORS {
            Some(StateType::MAX_VERTEX_UNIFORM_VECTORS)
        } else if raw == GL_MAX_VIEWPORT_DIMS {
            Some(StateType::MAX_VIEWPORT_DIMS)
        } else if raw == GL_NUM_COMPRESSED_TEXTURE_FORMATS {
            Some(StateType::NUM_COMPRESSED_TEXTURE_FORMATS)
        } else if raw == GL_NUM_SHADER_BINARY_FORMATS {
            Some(StateType::NUM_SHADER_BINARY_FORMATS)
        } else if raw == GL_PACK_ALIGNMENT {
            Some(StateType::PACK_ALIGNMENT)
        } else if raw == GL_POLYGON_OFFSET_FACTOR {
            Some(StateType::POLYGON_OFFSET_FACTOR)
        } else if raw == GL_POLYGON_OFFSET_FILL {
            Some(StateType::POLYGON_OFFSET_FILL)
        } else if raw == GL_POLYGON_OFFSET_UNITS {
            Some(StateType::POLYGON_OFFSET_UNITS)
        } else if raw == GL_RED_BITS {
            Some(StateType::RED_BITS)
        } else if raw == GL_RENDERBUFFER_BINDING {
            Some(StateType::RENDERBUFFER_BINDING)
        } else if raw == GL_SAMPLE_ALPHA_TO_COVERAGE {
            Some(StateType::SAMPLE_ALPHA_TO_COVERAGE)
        } else if raw == GL_SAMPLE_BUFFERS {
            Some(StateType::SAMPLE_BUFFERS)
        } else if raw == GL_SAMPLE_COVERAGE {
            Some(StateType::SAMPLE_COVERAGE)
        } else if raw == GL_SAMPLE_COVERAGE_INVERT {
            Some(StateType::SAMPLE_COVERAGE_INVERT)
        } else if raw == GL_SAMPLE_COVERAGE_VALUE {
            Some(StateType::SAMPLE_COVERAGE_VALUE)
        } else if raw == GL_SAMPLES {
            Some(StateType::SAMPLES)
        } else if raw == GL_SCISSOR_BOX {
            Some(StateType::SCISSOR_BOX)
        } else if raw == GL_SCISSOR_TEST {
            Some(StateType::SCISSOR_TEST)
        } else if raw == GL_SHADER_BINARY_FORMATS {
            Some(StateType::SHADER_BINARY_FORMATS)
        } else if raw == GL_SHADER_COMPILER {
            Some(StateType::SHADER_COMPILER)
        } else if raw == GL_STENCIL_BACK_FAIL {
            Some(StateType::STENCIL_BACK_FAIL)
        } else if raw == GL_STENCIL_BACK_FUNC {
            Some(StateType::STENCIL_BACK_FUNC)
        } else if raw == GL_STENCIL_BACK_PASS_DEPTH_FAIL {
            Some(StateType::STENCIL_BACK_PASS_DEPTH_FAIL)
        } else if raw == GL_STENCIL_BACK_PASS_DEPTH_PASS {
            Some(StateType::STENCIL_BACK_PASS_DEPTH_PASS)
        } else if raw == GL_STENCIL_BACK_REF {
            Some(StateType::STENCIL_BACK_REF)
        } else if raw == GL_STENCIL_BACK_VALUE_MASK {
            Some(StateType::STENCIL_BACK_VALUE_MASK)
        } else if raw == GL_STENCIL_BACK_WRITEMASK {
            Some(StateType::STENCIL_BACK_WRITEMASK)
        } else if raw == GL_STENCIL_BITS {
            Some(StateType::STENCIL_BITS)
        } else if raw == GL_STENCIL_CLEAR_VALUE {
            Some(StateType::STENCIL_CLEAR_VALUE)
        } else if raw == GL_STENCIL_FAIL {
            Some(StateType::STENCIL_FAIL)
        } else if raw == GL_STENCIL_FUNC {
            Some(StateType::STENCIL_FUNC)
        } else if raw == GL_STENCIL_PASS_DEPTH_FAIL {
            Some(StateType::STENCIL_PASS_DEPTH_FAIL)
        } else if raw == GL_STENCIL_PASS_DEPTH_PASS {
            Some(StateType::STENCIL_PASS_DEPTH_PASS)
        } else if raw == GL_STENCIL_REF {
            Some(StateType::STENCIL_REF)
        } else if raw == GL_STENCIL_TEST {
            Some(StateType::STENCIL_TEST)
        } else if raw == GL_STENCIL_VALUE_MASK {
            Some(StateType::STENCIL_VALUE_MASK)
        } else if raw == GL_STENCIL_WRITEMASK {
            Some(StateType::STENCIL_WRITEMASK)
        } else if raw == GL_SUBPIXEL_BITS {
            Some(StateType::SUBPIXEL_BITS)
        } else if raw == GL_TEXTURE_BINDING_2D {
            Some(StateType::TEXTURE_BINDING_2D)
        } else if raw == GL_TEXTURE_BINDING_CUBE_MAP {
            Some(StateType::TEXTURE_BINDING_CUBE_MAP)
        } else if raw == GL_UNPACK_ALIGNMENT {
            Some(StateType::UNPACK_ALIGNMENT)
        } else if raw == GL_VIEWPORT {
            Some(StateType::VIEWPORT)
        } else {
            None
        }
    }
}

/// Every `StateType` variant survives the trip to its constant and back.
pub proof fn lemma_state_type_round_trip(v: StateType)
    ensures
        StateType::spec_from_numeric(v.spec_numeric()) == Some(v),
{
}

/// No two `StateType` variants share a constant.
pub proof fn lemma_state_type_injective(a: StateType, b: StateType)
    ensures
        a.spec_numeric() == b.spec_numeric() ==> a == b,
{
    if a.spec_numeric() == b.spec_numeric() {
        lemma_state_type_round_trip(a);
        lemma_state_type_round_trip(b);
    }
}
#[allow(non_camel_case_types)]
#[derive(Copy, Clone, Debug, PartialEq, Eq, Structural)]
pub enum BufferParamName {
    BUFFER_SIZE,
    BUFFER_USAGE,
}

impl BufferParamName {
    /// The constant the standard publishes for each variant.
    pub open spec fn spec_numeric(self) -> GLenum {
        match self {
            BufferParamName::BUFFER_SIZE => GL_BUFFER_SIZE,
            BufferParamName::BUFFER_USAGE => GL_BUFFER_USAGE,
        }
    }

    /// The variant carrying a given constant, if any does.
    pub open spec fn spec_from_numeric(raw: GLenum) -> Option<BufferParamName> {
        if raw == GL_BUFFER_SIZE {
            Some(BufferParamName::BUFFER_SIZE)
        } else if raw == GL_BUFFER_USAGE {
            Some(BufferParamName::BUFFER_USAGE)
        } else {
            None
        }
    }

    /// Total and lossless: every variant has exactly one constant.
    pub fn to_numeric(self) -> (raw: GLenum)
        ensures
            raw == self.spec_numeric(),
    {
        match self {
            BufferParamName::BUFFER_SIZE => GL_BUFFER_SIZE,
            BufferParamName::BUFFER_USAGE => GL_BUFFER_USAGE,
        }
    }

    /// Exact partial inverse of `to_numeric`: `None` on an unknown constant.
    pub fn from_numeric(raw: GLenum) -> (v: Option<BufferParamName>)
        ensures
            v == Self::spec_from_numeric(raw),
    {
        if raw == GL_BUFFER_SIZE {
            Some(BufferParamName::BUFFER_SIZE)
        } else if raw == GL_BUFFER_USAGE {
            Some(BufferParamName::BUFFER_USAGE)
        } else {
            None
        }
    }
}

/// Every `BufferParamName` variant survives the trip to its constant and back.
pub proof fn lemma_buffer_param_name_round_trip(v: BufferParamName)
    ensures
        BufferParamName::spec_from_numeric(v.spec_numeric()) == Some(v),
{
}

/// No two `BufferParamName` variants share a constant.
pub proof fn lemma_buffer_param_name_injective(a: BufferParamName, b: BufferParamName)
    ensures
        a.spec_numeric() == b.spec_numeric() ==> a == b,
{
    if a.spec_numeric() == b.spec_numeric() {
        lemma_buffer_param_name_round_trip(a);
        lemma_buffer_param_name_round_trip(b);
    }
}
#[allow(non_camel_case_types)]
#[derive(Copy, Clone, Debug, PartialEq, Eq, Structural)]
pub enum ErrorType {
    NO_ERROR,
    INVALID_ENUM,
    INVALID_VALUE,
    INVALID_OPERATION,
    INVALID_FRAMEBUFFER_OPERATION,
    OUT_OF_MEMORY,
}

impl ErrorType {
    /// The constant the standard publishes for each variant.
    pub open spec fn spec_numeric(self) -> GLenum {
        match self {
            ErrorType::NO_ERROR => GL_NO_ERROR,
            ErrorType::INVALID_ENUM => GL_INVALID_ENUM,
            ErrorType::INVALID_VALUE => GL_INVALID_VALUE,
            ErrorType::INVALID_OPERATION => GL_INVALID_OPERATION,
            ErrorType::INVALID_FRAMEBUFFER_OPERATION => GL_INVALID_FRAMEBUFFER_OPERATION,
            ErrorType::OUT_OF_MEMORY => GL_OUT_OF_MEMORY,
        }
    }

    /// The variant carrying a given constant, if any does.
    pub open spec fn spec_from_numeric(raw: GLenum) -> Option<ErrorType> {
        if raw == GL_NO_ERROR {
            Some(ErrorType::NO_ERROR)
        } else if raw == GL_INVALID_ENUM {
            Some(ErrorType::INVALID_ENUM)
        } else if raw == GL_INVALID_VALUE {
            Some(ErrorType::INVALID_VALUE)
        } else if raw == GL_INVALID_OPERATION {
            Some(ErrorType::INVALID_OPERATION)
        } else if raw == GL_INVALID_FRAMEBUFFER_OPERATION {
            Some(ErrorType::INVALID_FRAMEBUFFER_OPERATION)
        } else if raw == GL_OUT_OF_MEMORY {
            Some(ErrorType::OUT_OF_MEMORY)
        } else {
            None
        }
    }

    /// Infallible translation: an unknown constant falls back to `NO_ERROR`.
    pub open spec fn spec_from_numeric_or_default(raw: GLenum) -> ErrorType {
        match Self::spec_from_numeric(raw) {
            Some(v) => v,
            None => ErrorType::NO_ERROR,
        }
    }

    /// Total and lossless: every variant has exactly one constant.
    pub fn to_numeric(self) -> (raw: GLenum)
        ensures
            raw == self.spec_numeric(),
    {
        match self {
            ErrorType::NO_ERROR => GL_NO_ERROR,
            ErrorType::INVALID_ENUM => GL_INVALID_ENUM,
            ErrorType::INVALID_VALUE => GL_INVALID_VALUE,
            ErrorType::INVALID_OPERATION => GL_INVALID_OPERATION,
            ErrorType::INVALID_FRAMEBUFFER_OPERATION => GL_INVALID_FRAMEBUFFER_OPERATION,
            ErrorType::OUT_OF_MEMORY => GL_OUT_OF_MEMORY,
        }
    }

    /// Exact partial inverse of `to_numeric`: `None` on an unknown constant.
    pub fn from_numeric(raw: GLenum) -> (v: Option<ErrorType>)
        ensures
            v == Self::spec_from_numeric(raw),
    {
        if raw == GL_NO_ERROR {
            Some(ErrorType::NO_ERROR)
        } else if raw == GL_INVALID_ENUM {
            Some(ErrorType::INVALID_ENUM)
        } else if raw == GL_INVALID_VALUE {
            Some(ErrorType::INVALID_VALUE)
        } else if raw == GL_INVALID_OPERATION {
            Some(ErrorType::INVALID_OPERATION)
        } else if raw == GL_INVALID_FRAMEBUFFER_OPERATION {
            Some(ErrorType::INVALID_FRAMEBUFFER_OPERATION)
        } else if raw == GL_OUT_OF_MEMORY {
            Some(ErrorType::OUT_OF_MEMORY)
        } else {
            None
        }
    }

    /// Infallible translation: an unknown constant does not fail, it
    /// yields the designated default `NO_ERROR`.
    pub fn from_numeric_or_default(raw: GLenum) -> (v: ErrorType)
        ensures
            v == Self::spec_from_numeric_or_default(raw),
            Self::spec_from_numeric(raw) is None ==> v == ErrorType::NO_ERROR,
    {
        match Self::from_numeric(raw) {
            Some(v) => v,
            None => ErrorType::NO_ERROR,
        }
    }
}

impl From<GLenum> for ErrorType {
    fn from(raw: GLenum) -> (v: Self) {
        Self::from_numeric_or_default(raw)
    }
}

impl vstd::std_specs::convert::FromSpecImpl<GLenum> for ErrorType {
    open spec fn obeys_from_spec() -> bool {
        true
    }

    open spec fn from_spec(raw: GLenum) -> Self {
        Self::spec_from_numeric_or_default(raw)
    }
}

/// Every `ErrorType` variant survives the trip to its constant and back.
pub proof fn lemma_error_type_round_trip(v: ErrorType)
    ensures
        ErrorType::spec_from_numeric(v.spec_numeric()) == Some(v),
{
}

/// No two `ErrorType` variants share a constant.
pub proof fn lemma_error_type_injective(a: ErrorType, b: ErrorType)
    ensures
        a.spec_numeric() == b.spec_numeric() ==> a == b,
{
    if a.spec_numeric() == b.spec_numeric() {
        lemma_error_type_round_trip(a);
        lemma_error_type_round_trip(b);
    }
}
#[allow(non_camel_case_types)]
#[derive(Copy, Clone, Debug, PartialEq, Eq, Structural)]
pub enum FrameBufferAttachmentParamType {
    FRAMEBUFFER_ATTACHMENT_OBJECT_TYPE,
    FRAMEBUFFER_ATTACHMENT_OBJECT_NAME,
    FRAMEBUFFER_ATTACHMENT_TEXTURE_LEVEL,
    FRAMEBUFFER_ATTACHMENT_TEXTURE_CUBE_MAP_FACE,
}

impl FrameBufferAttachmentParamType {
    /// The constant the standard publishes for each variant.
    pub open spec fn spec_numeric(self) -> GLenum {
        match self {
            FrameBufferAttachmentParamType::FRAMEBUFFER_ATTACHMENT_OBJECT_TYPE => GL_FRAMEBUFFER_ATTACHMENT_OBJECT_TYPE,
            FrameBufferAttachmentParamType::FRAMEBUFFER_ATTACHMENT_OBJECT_NAME => GL_FRAMEBUFFER_ATTACHMENT_OBJECT_NAME,
            FrameBufferAttachmentParamType::FRAMEBUFFER_ATTACHMENT_TEXTURE_LEVEL => GL_FRAMEBUFFER_ATTACHMENT_TEXTURE_LEVEL,
            FrameBufferAttachmentParamType::FRAMEBUFFER_ATTACHMENT_TEXTURE_CUBE_MAP_FACE => GL_FRAMEBUFFER_ATTACHMENT_TEXTURE_CUBE_MAP_FACE,
        }
    }

    /// The variant carrying a given constant, if any does.
    pub open spec fn spec_from_numeric(raw: GLenum) -> Option<FrameBufferAttachmentParamType> {
        if raw == GL_FRAMEBUFFER_ATTACHMENT_OBJECT_TYPE {
            Some(FrameBufferAttachmentParamType::FRAMEBUFFER_ATTACHMENT_OBJECT_TYPE)
        } else if raw == GL_FRAMEBUFFER_ATTACHMENT_OBJECT_NAME {
            Some(FrameBufferAttachmentParamType::FRAMEBUFFER_ATTACHMENT_OBJECT_NAME)
        } else if raw == GL_FRAMEBUFFER_ATTACHMENT_TEXTURE_LEVEL {
            Some(FrameBufferAttachmentParamType::FRAMEBUFFER_ATTACHMENT_TEXTURE_LEVEL)
        } else if raw == GL_FRAMEBUFFER_ATTACHMENT_TEXTURE_CUBE_MAP_FACE {
            Some(FrameBufferAttachmentParamType::FRAMEBUFFER_ATTACHMENT_TEXTURE_CUBE_MAP_FACE)
        } else {
            None
        }
    }

    /// Total and lossless: every variant has exactly one constant.
    pub fn to_numeric(self) -> (raw: GLenum)
        ensures
            raw == self.spec_numeric(),
    {
        match self {
            FrameBufferAttachmentParamType::FRAMEBUFFER_ATTACHMENT_OBJECT_TYPE => GL_FRAMEBUFFER_ATTACHMENT_OBJECT_TYPE,
            FrameBufferAttachmentParamType::FRAMEBUFFER_ATTACHMENT_OBJECT_NAME => GL_FRAMEBUFFER_ATTACHMENT_OBJECT_NAME,
            FrameBufferAttachmentParamType::FRAMEBUFFER_ATTACHMENT_TEXTURE_LEVEL => GL_FRAMEBUFFER_ATTACHMENT_TEXTURE_LEVEL,
            FrameBufferAttachmentParamType::FRAMEBUFFER_ATTACHMENT_TEXTURE_CUBE_MAP_FACE => GL_FRAMEBUFFER_ATTACHMENT_TEXTURE_CUBE_MAP_FACE,
        }
    }

    /// Exact partial inverse of `to_numeric`: `None` on an unknown constant.
    pub fn from_numeric(raw: GLenum) -> (v: Option<FrameBufferAttachmentParamType>)
        ensures
            v == Self::spec_from_numeric(raw),
    {
        if raw == GL_FRAMEBUFFER_ATTACHMENT_OBJECT_TYPE {
            Some(FrameBufferAttachmentParamType::FRAMEBUFFER_ATTACHMENT_OBJECT_TYPE)
        } else if raw == GL_FRAMEBUFFER_ATTACHMENT_OBJECT_NAME {
            Some(FrameBufferAttachmentParamType::FRAMEBUFFER_ATTACHMENT_OBJECT_NAME)
        } else if raw == GL_FRAMEBUFFER_ATTACHMENT_TEXTURE_LEVEL {
            Some(FrameBufferAttachmentParamType::FRAMEBUFFER_ATTACHMENT_TEXTURE_LEVEL)
        } else if raw == GL_FRAMEBUFFER_ATTACHMENT_TEXTURE_CUBE_MAP_FACE {
            Some(FrameBufferAttachmentParamType::FRAMEBUFFER_ATTACHMENT_TEXTURE_CUBE_MAP_FACE)
        } else {
            None
        }
    }
}

/// Every `FrameBufferAttachmentParamType` variant survives the trip to its constant and back.
pub proof fn lemma_frame_buffer_attachment_param_type_round_trip(v: FrameBufferAttachmentParamType)
    ensures
        FrameBufferAttachmentParamType::spec_from_numeric(v.spec_numeric()) == Some(v),
{
}

/// No two `FrameBufferAttachmentParamType` variants share a constant.
pub proof fn lemma_frame_buffer_attachment_param_type_injective(a: FrameBufferAttachmentParamType, b: FrameBufferAttachmentParamType)
    ensures
        a.spec_numeric() == b.spec_numeric() ==> a == b,
{
    if a.spec_numeric() == b.spec_numeric() {
        lemma_frame_buffer_attachment_param_type_round_trip(a);
        lemma_frame_buffer_attachment_param_type_round_trip(b);
    }
}
#[allow(non_camel_case_types)]
#[derive(Copy, Clone, Debug, PartialEq, Eq, Structural)]
pub enum ProgramParamType {
    DELETE_STATUS,
    LINK_STATUS,
    VALIDATE_STATUS,
    INFO_LOG_LENGTH,
    ATTACHED_SHADERS,
    ACTIVE_ATTRIBUTES,
    ACTIVE_ATTRIBUTE_MAX_LENGTH,
    ACTIVE_UNIFORMS,
    ACTIVE_UNIFORM_MAX_LENGTH,
}

impl ProgramParamType {
    /// The constant the standard publishes for each variant.
    pub open spec fn spec_numeric(self) -> GLenum {
        match self {
            ProgramParamType::DELETE_STATUS => GL_DELETE_STATUS,
            ProgramParamType::LINK_STATUS => GL_LINK_STATUS,
            ProgramParamType::VALIDATE_STATUS => GL_VALIDATE_STATUS,
            ProgramParamType::INFO_LOG_LENGTH => GL_INFO_LOG_LENGTH,
            ProgramParamType::ATTACHED_SHADERS => GL_ATTACHED_SHADERS,
            ProgramParamType::ACTIVE_ATTRIBUTES => GL_ACTIVE_ATTRIBUTES,
            ProgramParamType::ACTIVE_ATTRIBUTE_MAX_LENGTH => GL_ACTIVE_ATTRIBUTE_MAX_LENGTH,
            ProgramParamType::ACTIVE_UNIFORMS => GL_ACTIVE_UNIFORMS,
            ProgramParamType::ACTIVE_UNIFORM_MAX_LENGTH => GL_ACTIVE_UNIFORM_MAX_LENGTH,
        }
    }

    /// The variant carrying a given constant, if any does.
    pub open spec fn spec_from_numeric(raw: GLenum) -> Option<ProgramParamType> {
        if raw == GL_DELETE_STATUS {
            Some(ProgramParamType::DELETE_STATUS)
        } else if raw == GL_LINK_STATUS {
            Some(ProgramParamType::LINK_STATUS)
        } else if raw == GL_VALIDATE_STATUS {
            Some(ProgramParamType::VALIDATE_STATUS)
        } else if raw == GL_INFO_LOG_LENGTH {
            Some(ProgramParamType::INFO_LOG_LENGTH)
        } else if raw == GL_ATTACHED_SHADERS {
            Some(ProgramParamType::ATTACHED_SHADERS)
        } else if raw == GL_ACTIVE_ATTRIBUTES {
            Some(ProgramParamType::ACTIVE_ATTRIBUTES)
        } else if raw == GL_ACTIVE_ATTRIBUTE_MAX_LENGTH {
            Some(ProgramParamType::ACTIVE_ATTRIBUTE_MAX_LENGTH)
        } else if raw == GL_ACTIVE_UNIFORMS {
            Some(ProgramParamType::ACTIVE_UNIFORMS)
        } else if raw == GL_ACTIVE_UNIFORM_MAX_LENGTH {
            Some(ProgramParamType::ACTIVE_UNIFORM_MAX_LENGTH)
        } else {
            None
        }
    }

    /// Total and lossless: every variant has exactly one constant.
    pub fn to_numeric(self) -> (raw: GLenum)
        ensures
            raw == self.spec_numeric(),
    {
        match self {
            ProgramParamType::DELETE_STATUS => GL_DELETE_STATUS,
            ProgramParamType::LINK_STATUS => GL_LINK_STATUS,
            ProgramParamType::VALIDATE_STATUS => GL_VALIDATE_STATUS,
            ProgramParamType::INFO_LOG_LENGTH => GL_INFO_LOG_LENGTH,
            ProgramParamType::ATTACHED_SHADERS => GL_ATTACHED_SHADERS,
            ProgramParamType::ACTIVE_ATTRIBUTES => GL_ACTIVE_ATTRIBUTES,
            ProgramParamType::ACTIVE_ATTRIBUTE_MAX_LENGTH => GL_ACTIVE_ATTRIBUTE_MAX_LENGTH,
            ProgramParamType::ACTIVE_UNIFORMS => GL_ACTIVE_UNIFORMS,
            ProgramParamType::ACTIVE_UNIFORM_MAX_LENGTH => GL_ACTIVE_UNIFORM_MAX_LENGTH,
        }
    }

    /// Exact partial inverse of `to_numeric`: `None` on an unknown constant.
    pub fn from_numeric(raw: GLenum) -> (v: Option<ProgramParamType>)
        ensures
            v == Self::spec_from_numeric(raw),
    {
        if raw == GL_DELETE_STATUS {
            Some(ProgramParamType::DELETE_STATUS)
        } else if raw == GL_LINK_STATUS {
            Some(ProgramParamType::LINK_STATUS)
        } else if raw == GL_VALIDATE_STATUS {
            Some(ProgramParamType::VALIDATE_STATUS)
        } else if raw == GL_INFO_LOG_LENGTH {
            Some(ProgramParamType::INFO_LOG_LENGTH)
        } else if raw == GL_ATTACHED_SHADERS {
            Some(ProgramParamType::ATTACHED_SHADERS)
        } else if raw == GL_ACTIVE_ATTRIBUTES {
            Some(ProgramParamType::ACTIVE_ATTRIBUTES)
        } else if raw == GL_ACTIVE_ATTRIBUTE_MAX_LENGTH {
            Some(ProgramParamType::ACTIVE_ATTRIBUTE_MAX_LENGTH)
        } else if raw == GL_ACTIVE_UNIFORMS {
            Some(ProgramParamType::ACTIVE_UNIFORMS)
        } else if raw == GL_ACTIVE_UNIFORM_MAX_LENGTH {
            Some(ProgramParamType::ACTIVE_UNIFORM_MAX_LENGTH)
        } else {
            None
        }
    }
}

/// Every `ProgramParamType` variant survives the trip to its constant and back.
pub proof fn lemma_program_param_type_round_trip(v: ProgramParamType)
    ensures
        ProgramParamType::spec_from_numeric(v.spec_numeric()) == Some(v),
{
}

/// No two `ProgramParamType` variants share a constant.
pub proof fn lemma_program_param_type_injective(a: ProgramParamType, b: ProgramParamType)
    ensures
        a.spec_numeric() == b.spec_numeric() ==> a == b,
{
    if a.spec_numeric() == b.spec_numeric() {
        lemma_program_param_type_round_trip(a);
        lemma_program_param_type_round_trip(b);
    }
}
#[allow(non_camel_case_types)]
#[derive(Copy, Clone, Debug, PartialEq, Eq, Structural)]
pub enum RenderBufferParamType {
    RENDERBUFFER_WIDTH,
    RENDERBUFFER_HEIGHT,
    RENDERBUFFER_INTERNAL_FORMAT,
    RENDERBUFFER_RED_SIZE,
    RENDERBUFFER_GREEN_SIZE,
    RENDERBUFFER_BLUE_SIZE,
    RENDERBUFFER_ALPHA_SIZE,
    RENDERBUFFER_DEPTH_SIZE,
    RENDERBUFFER_STENCIL_SIZE,
}

impl RenderBufferParamType {
    /// The constant the standard publishes for each variant.
    pub open spec fn spec_numeric(self) -> GLenum {
        match self {
            RenderBufferParamType::RENDERBUFFER_WIDTH => GL_RENDERBUFFER_WIDTH,
            RenderBufferParamType::RENDERBUFFER_HEIGHT => GL_RENDERBUFFER_HEIGHT,
            RenderBufferParamType::RENDERBUFFER_INTERNAL_FORMAT => GL_RENDERBUFFER_INTERNAL_FORMAT,
            RenderBufferParamType::RENDERBUFFER_RED_SIZE => GL_RENDERBUFFER_RED_SIZE,
            RenderBufferParamType::RENDERBUFFER_GREEN_SIZE => GL_RENDERBUFFER_GREEN_SIZE,
            RenderBufferParamType::RENDERBUFFER_BLUE_SIZE => GL_RENDERBUFFER_BLUE_SIZE,
            RenderBufferParamType::RENDERBUFFER_ALPHA_SIZE => GL_RENDERBUFFER_ALPHA_SIZE,
            RenderBufferParamType::RENDERBUFFER_DEPTH_SIZE => GL_RENDERBUFFER_DEPTH_SIZE,
            RenderBufferParamType::RENDERBUFFER_STENCIL_SIZE => GL_RENDERBUFFER_STENCIL_SIZE,
        }
    }

    /// The variant carrying a given constant, if any does.
    pub open spec fn spec_from_numeric(raw: GLenum) -> Option<RenderBufferParamType> {
        if raw == GL_RENDERBUFFER_WIDTH {
            Some(RenderBufferParamType::RENDERBUFFER_WIDTH)
        } else if raw == GL_RENDERBUFFER_HEIGHT {
            Some(RenderBufferParamType::RENDERBUFFER_HEIGHT)
        } else if raw == GL_RENDERBUFFER_INTERNAL_FORMAT {
            Some(RenderBufferParamType::RENDERBUFFER_INTERNAL_FORMAT)
        } else if raw == GL_RENDERBUFFER_RED_SIZE {
            Some(RenderBufferParamType::RENDERBUFFER_RED_SIZE)
        } else if raw == GL_RENDERBUFFER_GREEN_SIZE {
            Some(RenderBufferParamType::RENDERBUFFER_GREEN_SIZE)
        } else if raw == GL_RENDERBUFFER_BLUE_SIZE {
            Some(RenderBufferParamType::RENDERBUFFER_BLUE_SIZE)
        } else if raw == GL_RENDERBUFFER_ALPHA_SIZE {
            Some(RenderBufferParamType::RENDERBUFFER_ALPHA_SIZE)
        } else if raw == GL_RENDERBUFFER_DEPTH_SIZE {
            Some(RenderBufferParamType::RENDERBUFFER_DEPTH_SIZE)
        } else if raw == GL_RENDERBUFFER_STENCIL_SIZE {
            Some(RenderBufferParamType::RENDERBUFFER_STENCIL_SIZE)
        } else {
            None
        }
    }

    /// Total and lossless: every variant has exactly one constant.
    pub fn to_numeric(self) -> (raw: GLenum)
        ensures
            raw == self.spec_numeric(),
    {
        match self {
            RenderBufferParamType::RENDERBUFFER_WIDTH => GL_RENDERBUFFER_WIDTH,
            RenderBufferParamType::RENDERBUFFER_HEIGHT => GL_RENDERBUFFER_HEIGHT,
            RenderBufferParamType::RENDERBUFFER_INTERNAL_FORMAT => GL_RENDERBUFFER_INTERNAL_FORMAT,
            RenderBufferParamType::RENDERBUFFER_RED_SIZE => GL_RENDERBUFFER_RED_SIZE,
            RenderBufferParamType::RENDERBUFFER_GREEN_SIZE => GL_RENDERBUFFER_GREEN_SIZE,
            RenderBufferParamType::RENDERBUFFER_BLUE_SIZE => GL_RENDERBUFFER_BLUE_SIZE,
            RenderBufferParamType::RENDERBUFFER_ALPHA_SIZE => GL_RENDERBUFFER_ALPHA_SIZE,
            RenderBufferParamType::RENDERBUFFER_DEPTH_SIZE => GL_RENDERBUFFER_DEPTH_SIZE,
            RenderBufferParamType::RENDERBUFFER_STENCIL_SIZE => GL_RENDERBUFFER_STENCIL_SIZE,
        }
    }

    /// Exact partial inverse of `to_numeric`: `None` on an unknown constant.
    pub fn from_numeric(raw: GLenum) -> (v: Option<RenderBufferParamType>)
        ensures
            v == Self::spec_from_numeric(raw),
    {
        if raw == GL_RENDERBUFFER_WIDTH {
            Some(RenderBufferParamType::RENDERBUFFER_WIDTH)
        } else if raw == GL_RENDERBUFFER_HEIGHT {
            Some(RenderBufferParamType::RENDERBUFFER_HEIGHT)
        } else if raw == GL_RENDERBUFFER_INTERNAL_FORMAT {
            Some(RenderBufferParamType::RENDERBUFFER_INTERNAL_FORMAT)
        } else if raw == GL_RENDERBUFFER_RED_SIZE {
            Some(RenderBufferParamType::RENDERBUFFER_RED_SIZE)
        } else if raw == GL_RENDERBUFFER_GREEN_SIZE {
            Some(RenderBufferParamType::RENDERBUFFER_GREEN_SIZE)
        } else if raw == GL_RENDERBUFFER_BLUE_SIZE {
            Some(RenderBufferParamType::RENDERBUFFER_BLUE_SIZE)
        } else if raw == GL_RENDERBUFFER_ALPHA_SIZE {
            Some(RenderBufferParamType::RENDERBUFFER_ALPHA_SIZE)
        } else if raw == GL_RENDERBUFFER_DEPTH_SIZE {
            Some(RenderBufferParamType::RENDERBUFFER_DEPTH_SIZE)
        } else if raw == GL_RENDERBUFFER_STENCIL_SIZE {
            Some(RenderBufferParamType::RENDERBUFFER_STENCIL_SIZE)
        } else {
            None
        }
    }
}

/// Every `RenderBufferParamType` variant survives the trip to its constant and back.
pub proof fn lemma_render_buffer_param_type_round_trip(v: RenderBufferParamType)
    ensures
        RenderBufferParamType::spec_from_numeric(v.spec_numeric()) == Some(v),
{
}

/// No two `RenderBufferParamType` variants share a constant.
pub proof fn lemma_render_buffer_param_type_injective(a: RenderBufferParamType, b: RenderBufferParamType)
    ensures
        a.spec_numeric() == b.spec_numeric() ==> a == b,
{
    if a.spec_numeric() == b.spec_numeric() {
        lemma_render_buffer_param_type_round_trip(a);
        lemma_render_buffer_param_type_round_trip(b);
    }
}
#[allow(non_camel_case_types)]
#[derive(Copy, Clone, Debug, PartialEq, Eq, Structural)]
pub enum ShaderParamType {
    SHADER_TYPE,
    DELETE_STATUS,
    COMPILE_STATUS,
    INFO_LOG_LENGTH,
    SHADER_SOURCE_LENGTH,
}

impl ShaderParamType {
    /// The constant the standard publishes for each variant.
    pub open spec fn spec_numeric(self) -> GLenum {
        match self {
            ShaderParamType::SHADER_TYPE => GL_SHADER_TYPE,
            ShaderParamType::DELETE_STATUS => GL_DELETE_STATUS,
            ShaderParamType::COMPILE_STATUS => GL_COMPILE_STATUS,
            ShaderParamType::INFO_LOG_LENGTH => GL_INFO_LOG_LENGTH,
            ShaderParamType::SHADER_SOURCE_LENGTH => GL_SHADER_SOURCE_LENGTH,
        }
    }

    /// The variant carrying a given constant, if any does.
    pub open spec fn spec_from_numeric(raw: GLenum) -> Option<ShaderParamType> {
        if raw == GL_SHADER_TYPE {
            Some(ShaderParamType::SHADER_TYPE)
        } else if raw == GL_DELETE_STATUS {
            Some(ShaderParamType::DELETE_STATUS)
        } else if raw == GL_COMPILE_STATUS {
            Some(ShaderParamType::COMPILE_STATUS)
        } else if raw == GL_INFO_LOG_LENGTH {
            Some(ShaderParamType::INFO_LOG_LENGTH)
        } else if raw == GL_SHADER_SOURCE_LENGTH {
            Some(ShaderParamType::SHADER_SOURCE_LENGTH)
        } else {
            None
        }
    }

    /// Total and lossless: every variant has exactly one constant.
    pub fn to_numeric(self) -> (raw: GLenum)
        ensures
            raw == self.spec_numeric(),
    {
        match self {
            ShaderParamType::SHADER_TYPE => GL_SHADER_TYPE,
            ShaderParamType::DELETE_STATUS => GL_DELETE_STATUS,
            ShaderParamType::COMPILE_STATUS => GL_COMPILE_STATUS,
            ShaderParamType::INFO_LOG_LENGTH => GL_INFO_LOG_LENGTH,
            ShaderParamType::SHADER_SOURCE_LENGTH => GL_SHADER_SOURCE_LENGTH,
        }
    }

    /// Exact partial inverse of `to_numeric`: `None` on an unknown constant.
    pub fn from_numeric(raw: GLenum) -> (v: Option<ShaderParamType>)
        ensures
            v == Self::spec_from_numeric(raw),
    {
        if raw == GL_SHADER_TYPE {
            Some(ShaderParamType::SHADER_TYPE)
        } else if raw == GL_DELETE_STATUS {
            Some(ShaderParamType::DELETE_STATUS)
        } else if raw == GL_COMPILE_STATUS {
            Some(ShaderParamType::COMPILE_STATUS)
        } else if raw == GL_INFO_LOG_LENGTH {
            Some(ShaderParamType::INFO_LOG_LENGTH)
        } else if raw == GL_SHADER_SOURCE_LENGTH {
            Some(ShaderParamType::SHADER_SOURCE_LENGTH)
        } else {
            None
        }
    }
}

/// Every `ShaderParamType` variant survives the trip to its constant and back.
pub proof fn lemma_shader_param_type_round_trip(v: ShaderParamType)
    ensures
        ShaderParamType::spec_from_numeric(v.spec_numeric()) == Some(v),
{
}

/// No two `ShaderParamType` variants share a constant.
pub proof fn lemma_shader_param_type_injective(a: ShaderParamType, b: ShaderParamType)
    ensures
        a.spec_numeric() == b.spec_numeric() ==> a == b,
{
    if a.spec_numeric() == b.spec_numeric() {
        lemma_shader_param_type_round_trip(a);
        lemma_shader_param_type_round_trip(b);
    }
}
#[allow(non_camel_case_types)]
#[derive(Copy, Clone, Debug, PartialEq, Eq, Structural)]
pub enum ShaderPrecisionType {
    LOW_FLOAT,
    MEDIUM_FLOAT,
    HIGH_FLOAT,
    LOW_INT,
    MEDIUM_INT,
    HIGH_INT,
}

impl ShaderPrecisionType {
    /// The constant the standard publishes for each variant.
    pub open spec fn spec_numeric(self) -> GLenum {
        match self {
            ShaderPrecisionType::LOW_FLOAT => GL_LOW_FLOAT,
            ShaderPrecisionType::MEDIUM_FLOAT => GL_MEDIUM_FLOAT,
            ShaderPrecisionType::HIGH_FLOAT => GL_HIGH_FLOAT,
            ShaderPrecisionType::LOW_INT => GL_LOW_INT,
            ShaderPrecisionType::MEDIUM_INT => GL_MEDIUM_INT,
            ShaderPrecisionType::HIGH_INT => GL_HIGH_INT,
        }
    }

    /// The variant carrying a given constant, if any does.
    pub open spec fn spec_from_numeric(raw: GLenum) -> Option<ShaderPrecisionType> {
        if raw == GL_LOW_FLOAT {
            Some(ShaderPrecisionType::LOW_FLOAT)
        } else if raw == GL_MEDIUM_FLOAT {
            Some(ShaderPrecisionType::MEDIUM_FLOAT)
        } else if raw == GL_HIGH_FLOAT {
            Some(ShaderPrecisionType::HIGH_FLOAT)
        } else if raw == GL_LOW_INT {
            Some(ShaderPrecisionType::LOW_INT)
        } else if raw == GL_MEDIUM_INT {
            Some(ShaderPrecisionType::MEDIUM_INT)
        } else if raw == GL_HIGH_INT {
            Some(ShaderPrecisionType::HIGH_INT)
        } else {
            None
        }
    }

    /// Total and lossless: every variant has exactly one constant.
    pub fn to_numeric(self) -> (raw: GLenum)
        ensures
            raw == self.spec_numeric(),
    {
        match self {
            ShaderPrecisionType::LOW_FLOAT => GL_LOW_FLOAT,
            ShaderPrecisionType::MEDIUM_FLOAT => GL_MEDIUM_FLOAT,
            ShaderPrecisionType::HIGH_FLOAT => GL_HIGH_FLOAT,
            ShaderPrecisionType::LOW_INT => GL_LOW_INT,
            ShaderPrecisionType::MEDIUM_INT => GL_MEDIUM_INT,
            ShaderPrecisionType::HIGH_INT => GL_HIGH_INT,
        }
    }

    /// Exact partial inverse of `to_numeric`: `None` on an unknown constant.
    pub fn from_numeric(raw: GLenum) -> (v: Option<ShaderPrecisionType>)
        ensures
            v == Self::spec_from_numeric(raw),
    {
        if raw == GL_LOW_FLOAT {
            Some(ShaderPrecisionType::LOW_FLOAT)
        } else if raw == GL_MEDIUM_FLOAT {
            Some(ShaderPrecisionType::MEDIUM_FLOAT)
        } else if raw == GL_HIGH_FLOAT {
            Some(ShaderPrecisionType::HIGH_FLOAT)
        } else if raw == GL_LOW_INT {
            Some(ShaderPrecisionType::LOW_INT)
        } else if raw == GL_MEDIUM_INT {
            Some(ShaderPrecisionType::MEDIUM_INT)
        } else if raw == GL_HIGH_INT {
            Some(ShaderPrecisionType::HIGH_INT)
        } else {
            None
        }
    }
}

/// Every `ShaderPrecisionType` variant survives the trip to its constant and back.
pub proof fn lemma_shader_precision_type_round_trip(v: ShaderPrecisionType)
    ensures
        ShaderPrecisionType::spec_from_numeric(v.spec_numeric()) == Some(v),
{
}

/// No two `ShaderPrecisionType` variants share a constant.
pub proof fn lemma_shader_precision_type_injective(a: ShaderPrecisionType, b: ShaderPrecisionType)
    ensures
        a.spec_numeric() == b.spec_numeric() ==> a == b,
{
    if a.spec_numeric() == b.spec_numeric() {
        lemma_shader_precision_type_round_trip(a);
        lemma_shader_precision_type_round_trip(b);
    }
}
#[allow(non_camel_case_types)]
#[derive(Copy, Clone, Debug, PartialEq, Eq, Structural)]
pub enum ConstantType {
    VENDOR,
    RENDERER,
    VERSION,
    SHADING_LANGUAGE_VERSION,
    EXTENSIONS,
}

impl ConstantType {
    /// The constant the standard publishes for each variant.
    pub open spec fn spec_numeric(self) -> GLenum {
        match self {
            ConstantType::VENDOR => GL_VENDOR,
            ConstantType::RENDERER => GL_RENDERER,
            ConstantType::VERSION => GL_VERSION,
            ConstantType::SHADING_LANGUAGE_VERSION => GL_SHADING_LANGUAGE_VERSION,
            ConstantType::EXTENSIONS => GL_EXTENSIONS,
        }
    }

    /// The variant carrying a given constant, if any does.
    pub open spec fn spec_from_numeric(raw: GLenum) -> Option<ConstantType> {
        if raw == GL_VENDOR {
            Some(ConstantType::VENDOR)
        } else if raw == GL_RENDERER {
            Some(ConstantType::RENDERER)
        } else if raw == GL_VERSION {
            Some(ConstantType::VERSION)
        } else if raw == GL_SHADING_LANGUAGE_VERSION {
            Some(ConstantType::SHADING_LANGUAGE_VERSION)
        } else if raw == GL_EXTENSIONS {
            Some(ConstantType::EXTENSIONS)
        } else {
            None
        }
    }

    /// Total and lossless: every variant has exactly one constant.
    pub fn to_numeric(self) -> (raw: GLenum)
        ensures
            raw == self.spec_numeric(),
    {
        match self {
            ConstantType::VENDOR => GL_VENDOR,
            ConstantType::RENDERER => GL_RENDERER,
            ConstantType::VERSION => GL_VERSION,
            ConstantType::SHADING_LANGUAGE_VERSION => GL_SHADING_LANGUAGE_VERSION,
            ConstantType::EXTENSIONS => GL_EXTENSIONS,
        }
    }

    /// Exact partial inverse of `to_numeric`: `None` on an unknown constant.
    pub fn from_numeric(raw: GLenum) -> (v: Option<ConstantType>)
        ensures
            v == Self::spec_from_numeric(raw),
    {
        if raw == GL_VENDOR {
            Some(ConstantType::VENDOR)
        } else if raw == GL_RENDERER {
            Some(ConstantType::RENDERER)
        } else if raw == GL_VERSION {
            Some(ConstantType::VERSION)
        } else if raw == GL_SHADING_LANGUAGE_VERSION {
            Some(ConstantType::SHADING_LANGUAGE_VERSION)
        } else if raw == GL_EXTENSIONS {
            Some(ConstantType::EXTENSIONS)
        } else {
            None
        }
    }
}

/// Every `ConstantType` variant survives the trip to its constant and back.
pub proof fn lemma_constant_type_round_trip(v: ConstantType)
    ensures
        ConstantType::spec_from_numeric(v.spec_numeric()) == Some(v),
{
}

/// No two `ConstantType` variants share a constant.
pub proof fn lemma_constant_type_injective(a: ConstantType, b: ConstantType)
    ensures
        a.spec_numeric() == b.spec_numeric() ==> a == b,
{
    if a.spec_numeric() == b.spec_numeric() {
        lemma_constant_type_round_trip(a);
        lemma_constant_type_round_trip(b);
    }
}
#[allow(non_camel_case_types)]
#[derive(Copy, Clone, Debug, PartialEq, Eq, Structural)]
pub enum TextureParamType {
    TEXTURE_MAG_FILTER,
    TEXTURE_MIN_FILTER,
    TEXTURE_WRAP_S,
    TEXTURE_WRAP_T,
}

impl TextureParamType {
    /// The constant the standard publishes for each variant.
    pub open spec fn spec_numeric(self) -> GLenum {
        match self {
            TextureParamType::TEXTURE_MAG_FILTER => GL_TEXTURE_MAG_FILTER,
            TextureParamType::TEXTURE_MIN_FILTER => GL_TEXTURE_MIN_FILTER,
            TextureParamType::TEXTURE_WRAP_S => GL_TEXTURE_WRAP_S,
            TextureParamType::TEXTURE_WRAP_T => GL_TEXTURE_WRAP_T,
        }
    }

    /// The variant carrying a given constant, if any does.
    pub open spec fn spec_from_numeric(raw: GLenum) -> Option<TextureParamType> {
        if raw == GL_TEXTURE_MAG_FILTER {
            Some(TextureParamType::TEXTURE_MAG_FILTER)
        } else if raw == GL_TEXTURE_MIN_FILTER {
            Some(TextureParamType::TEXTURE_MIN_FILTER)
        } else if raw == GL_TEXTURE_WRAP_S {
            Some(TextureParamType::TEXTURE_WRAP_S)
        } else if raw == GL_TEXTURE_WRAP_T {
            Some(TextureParamType::TEXTURE_WRAP_T)
        } else {
            None
        }
    }

    /// Total and lossless: every variant has exactly one constant.
    pub fn to_numeric(self) -> (raw: GLenum)
        ensures
            raw == self.spec_numeric(),
    {
        match self {
            TextureParamType::TEXTURE_MAG_FILTER => GL_TEXTURE_MAG_FILTER,
            TextureParamType::TEXTURE_MIN_FILTER => GL_TEXTURE_MIN_FILTER,
            TextureParamType::TEXTURE_WRAP_S => GL_TEXTURE_WRAP_S,
            TextureParamType::TEXTURE_WRAP_T => GL_TEXTURE_WRAP_T,
        }
    }

    /// Exact partial inverse of `to_numeric`: `None` on an unknown constant.
    pub fn from_numeric(raw: GLenum) -> (v: Option<TextureParamType>)
        ensures
            v == Self::spec_from_numeric(raw),
    {
        if raw == GL_TEXTURE_MAG_FILTER {
            Some(TextureParamType::TEXTURE_MAG_FILTER)
        } else if raw == GL_TEXTURE_MIN_FILTER {
            Some(TextureParamType::TEXTURE_MIN_FILTER)
        } else if raw == GL_TEXTURE_WRAP_S {
            Some(TextureParamType::TEXTURE_WRAP_S)
        } else if raw == GL_TEXTURE_WRAP_T {
            Some(TextureParamType::TEXTURE_WRAP_T)
        } else {
            None
        }
    }
}

/// Every `TextureParamType` variant survives the trip to its constant and back.
pub proof fn lemma_texture_param_type_round_trip(v: TextureParamType)
    ensures
        TextureParamType::spec_from_numeric(v.spec_numeric()) == Some(v),
{
}

/// No two `TextureParamType` variants share a constant.
pub proof fn lemma_texture_param_type_injective(a: TextureParamType, b: TextureParamType)
    ensures
        a.spec_numeric() == b.spec_numeric() ==> a == b,
{
    if a.spec_numeric() == b.spec_numeric() {
        lemma_texture_param_type_round_trip(a);
        lemma_texture_param_type_round_trip(b);
    }
}
#[allow(non_camel_case_types)]
#[derive(Copy, Clone, Debug, PartialEq, Eq, Structural)]
pub enum VertexAttributeParamType {
    VERTEX_ATTRIB_ARRAY_BUFFER_BINDING,
    VERTEX_ATTRIB_ARRAY_ENABLED,
    VERTEX_ATTRIB_ARRAY_SIZE,
    VERTEX_ATTRIB_ARRAY_STRIDE,
    VERTEX_ATTRIB_ARRAY_TYPE,
    VERTEX_ATTRIB_ARRAY_NORMALIZED,
    CURRENT_VERTEX_ATTRIB,
}

impl VertexAttributeParamType {
    /// The constant the standard publishes for each variant.
    pub open spec fn spec_numeric(self) -> GLenum {
        match self {
            VertexAttributeParamType::VERTEX_ATTRIB_ARRAY_BUFFER_BINDING => GL_VERTEX_ATTRIB_ARRAY_BUFFER_BINDING,
            VertexAttributeParamType::VERTEX_ATTRIB_ARRAY_ENABLED => GL_VERTEX_ATTRIB_ARRAY_ENABLED,
            VertexAttributeParamType::VERTEX_ATTRIB_ARRAY_SIZE => GL_VERTEX_ATTRIB_ARRAY_SIZE,
            VertexAttributeParamType::VERTEX_ATTRIB_ARRAY_STRIDE => GL_VERTEX_ATTRIB_ARRAY_STRIDE,
            VertexAttributeParamType::VERTEX_ATTRIB_ARRAY_TYPE => GL_VERTEX_ATTRIB_ARRAY_TYPE,
            VertexAttributeParamType::VERTEX_ATTRIB_ARRAY_NORMALIZED => GL_VERTEX_ATTRIB_ARRAY_NORMALIZED,
            VertexAttributeParamType::CURRENT_VERTEX_ATTRIB => GL_CURRENT_VERTEX_ATTRIB,
        }
    }

    /// The variant carrying a given constant, if any does.
    pub open spec fn spec_from_numeric(raw: GLenum) -> Option<VertexAttributeParamType> {
        if raw == GL_VERTEX_ATTRIB_ARRAY_BUFFER_BINDING {
            Some(VertexAttributeParamType::VERTEX_ATTRIB_ARRAY_BUFFER_BINDING)
        } else if raw == GL_VERTEX_ATTRIB_ARRAY_ENABLED {
            Some(VertexAttributeParamType::VERTEX_ATTRIB_ARRAY_ENABLED)
        } else if raw == GL_VERTEX_ATTRIB_ARRAY_SIZE {
            Some(VertexAttributeParamType::VERTEX_ATTRIB_ARRAY_SIZE)
        } else if raw == GL_VERTEX_ATTRIB_ARRAY_STRIDE {
            Some(VertexAttributeParamType::VERTEX_ATTRIB_ARRAY_STRIDE)
        } else if raw == GL_VERTEX_ATTRIB_ARRAY_TYPE {
            Some(VertexAttributeParamType::VERTEX_ATTRIB_ARRAY_TYPE)
        } else if raw == GL_VERTEX_ATTRIB_ARRAY_NORMALIZED {
            Some(VertexAttributeParamType::VERTEX_ATTRIB_ARRAY_NORMALIZED)
        } else if raw == GL_CURRENT_VERTEX_ATTRIB {
            Some(VertexAttributeParamType::CURRENT_VERTEX_ATTRIB)
        } else {
            None
        }
    }

    /// Total and lossless: every variant has exactly one constant.
    pub fn to_numeric(self) -> (raw: GLenum)
        ensures
            raw == self.spec_numeric(),
    {
        match self {
            VertexAttributeParamType::VERTEX_ATTRIB_ARRAY_BUFFER_BINDING => GL_VERTEX_ATTRIB_ARRAY_BUFFER_BINDING,
            VertexAttributeParamType::VERTEX_ATTRIB_ARRAY_ENABLED => GL_VERTEX_ATTRIB_ARRAY_ENABLED,
            VertexAttributeParamType::VERTEX_ATTRIB_ARRAY_SIZE => GL_VERTEX_ATTRIB_ARRAY_SIZE,
            VertexAttributeParamType::VERTEX_ATTRIB_ARRAY_STRIDE => GL_VERTEX_ATTRIB_ARRAY_STRIDE,
            VertexAttributeParamType::VERTEX_ATTRIB_ARRAY_TYPE => GL_VERTEX_ATTRIB_ARRAY_TYPE,
            VertexAttributeParamType::VERTEX_ATTRIB_ARRAY_NORMALIZED => GL_VERTEX_ATTRIB_ARRAY_NORMALIZED,
            VertexAttributeParamType::CURRENT_VERTEX_ATTRIB => GL_CURRENT_VERTEX_ATTRIB,
        }
    }

    /// Exact partial inverse of `to_numeric`: `None` on an unknown constant.
    pub fn from_numeric(raw: GLenum) -> (v: Option<VertexAttributeParamType>)
        ensures
            v == Self::spec_from_numeric(raw),
    {
        if raw == GL_VERTEX_ATTRIB_ARRAY_BUFFER_BINDING {
            Some(VertexAttributeParamType::VERTEX_ATTRIB_ARRAY_BUFFER_BINDING)
        } else if raw == GL_VERTEX_ATTRIB_ARRAY_ENABLED {
            Some(VertexAttributeParamType::VERTEX_ATTRIB_ARRAY_ENABLED)
        } else if raw == GL_VERTEX_ATTRIB_ARRAY_SIZE {
            Some(VertexAttributeParamType::VERTEX_ATTRIB_ARRAY_SIZE)
        } else if raw == GL_VERTEX_ATTRIB_ARRAY_STRIDE {
            Some(VertexAttributeParamType::VERTEX_ATTRIB_ARRAY_STRIDE)
        } else if raw == GL_VERTEX_ATTRIB_ARRAY_TYPE {
            Some(VertexAttributeParamType::VERTEX_ATTRIB_ARRAY_TYPE)
        } else if raw == GL_VERTEX_ATTRIB_ARRAY_NORMALIZED {
            Some(VertexAttributeParamType::VERTEX_ATTRIB_ARRAY_NORMALIZED)
        } else if raw == GL_CURRENT_VERTEX_ATTRIB {
            Some(VertexAttributeParamType::CURRENT_VERTEX_ATTRIB)
        } else {
            None
        }
    }
}

/// Every `VertexAttributeParamType` variant survives the trip to its constant and back.
pub proof fn lemma_vertex_attribute_param_type_round_trip(v: VertexAttributeParamType)
    ensures
        VertexAttributeParamType::spec_from_numeric(v.spec_numeric()) == Some(v),
{
}

/// No two `VertexAttributeParamType` variants share a constant.
pub proof fn lemma_vertex_attribute_param_type_injective(a: VertexAttributeParamType, b: VertexAttributeParamType)
    ensures
        a.spec_numeric() == b.spec_numeric() ==> a == b,
{
    if a.spec_numeric() == b.spec_numeric() {
        lemma_vertex_attribute_param_type_round_trip(a);
        lemma_vertex_attribute_param_type_round_trip(b);
    }
}
#[allow(non_camel_case_types)]
#[derive(Copy, Clone, Debug, PartialEq, Eq, Structural)]
pub enum HintTargetType {
    GENERATE_MIPMAP_HINT,
}

impl HintTargetType {
    /// The constant the standard publishes for each variant.
    pub open spec fn spec_numeric(self) -> GLenum {
        match self {
            HintTargetType::GENERATE_MIPMAP_HINT => GL_GENERATE_MIPMAP_HINT,
        }
    }

    /// The variant carrying a given constant, if any does.
    pub open spec fn spec_from_numeric(raw: GLenum) -> Option<HintTargetType> {
        if raw == GL_GENERATE_MIPMAP_HINT {
            Some(HintTargetType::GENERATE_MIPMAP_HINT)
        } else {
            None
        }
    }

    /// Total and lossless: every variant has exactly one constant.
    pub fn to_numeric(self) -> (raw: GLenum)
        ensures
            raw == self.spec_numeric(),
    {
        match self {
            HintTargetType::GENERATE_MIPMAP_HINT => GL_GENERATE_MIPMAP_HINT,
        }
    }

    /// Exact partial inverse of `to_numeric`: `None` on an unknown constant.
    pub fn from_numeric(raw: GLenum) -> (v: Option<HintTargetType>)
        ensures
            v == Self::spec_from_numeric(raw),
    {
        if raw == GL_GENERATE_MIPMAP_HINT {
            Some(HintTargetType::GENERATE_MIPMAP_HINT)
        } else {
            None
        }
    }
}

/// Every `HintTargetType` variant survives the trip to its constant and back.
pub proof fn lemma_hint_target_type_round_trip(v: HintTargetType)
    ensures
        HintTargetType::spec_from_numeric(v.spec_numeric()) == Some(v),
{
}

/// No two `HintTargetType` variants share a constant.
pub proof fn lemma_hint_target_type_injective(a: HintTargetType, b: HintTargetType)
    ensures
        a.spec_numeric() == b.spec_numeric() ==> a == b,
{
    if a.spec_numeric() == b.spec_numeric() {
        lemma_hint_target_type_round_trip(a);
        lemma_hint_target_type_round_trip(b);
    }
}
#[allow(non_camel_case_types)]
#[derive(Copy, Clone, Debug, PartialEq, Eq, Structural)]
pub enum HintBehaviorType {
    FASTEST,
    NICEST,
    DONT_CARE,
}

impl HintBehaviorType {
    /// The constant the standard publishes for each variant.
    pub open spec fn spec_numeric(self) -> GLenum {
        match self {
            HintBehaviorType::FASTEST => GL_FASTEST,
            HintBehaviorType::NICEST => GL_NICEST,
            HintBehaviorType::DONT_CARE => GL_DONT_CARE,
        }
    }

    /// The variant carrying a given constant, if any does.
    pub open spec fn spec_from_numeric(raw: GLenum) -> Option<HintBehaviorType> {
        if raw == GL_FASTEST {
            Some(HintBehaviorType::FASTEST)
        } else if raw == GL_NICEST {
            Some(HintBehaviorType::NICEST)
        } else if raw == GL_DONT_CARE {
            Some(HintBehaviorType::DONT_CARE)
        } else {
            None
        }
    }

    /// Total and lossless: every variant has exactly one constant.
    pub fn to_numeric(self) -> (raw: GLenum)
        ensures
            raw == self.spec_numeric(),
    {
        match self {
            HintBehaviorType::FASTEST => GL_FASTEST,
            HintBehaviorType::NICEST => GL_NICEST,
            HintBehaviorType::DONT_CARE => GL_DONT_CARE,
        }
    }

    /// Exact partial inverse of `to_numeric`: `None` on an unknown constant.
    pub fn from_numeric(raw: GLenum) -> (v: Option<HintBehaviorType>)
        ensures
            v == Self::spec_from_numeric(raw),
    {
        if raw == GL_FASTEST {
            Some(HintBehaviorType::FASTEST)
        } else if raw == GL_NICEST {
            Some(HintBehaviorType::NICEST)
        } else if raw == GL_DONT_CARE {
            Some(HintBehaviorType::DONT_CARE)
        } else {
            None
        }
    }
}

/// Every `HintBehaviorType` variant survives the trip to its constant and back.
pub proof fn lemma_hint_behavior_type_round_trip(v: HintBehaviorType)
    ensures
        HintBehaviorType::spec_from_numeric(v.spec_numeric()) == Some(v),
{
}

/// No two `HintBehaviorType` variants share a constant.
pub proof fn lemma_hint_behavior_type_injective(a: HintBehaviorType, b: HintBehaviorType)
    ensures
        a.spec_numeric() == b.spec_numeric() ==> a == b,
{
    if a.spec_numeric() == b.spec_numeric() {
        lemma_hint_behavior_type_round_trip(a);
        lemma_hint_behavior_type_round_trip(b);
    }
}
#[allow(non_camel_case_types)]
#[derive(Copy, Clone, Debug, PartialEq, Eq, Structural)]
pub enum PackParamType {
    PACK_ALIGNMENT,
    UNPACK_ALIGNMENT,
}

impl PackParamType {
    /// The constant the standard publishes for each variant.
    pub open spec fn spec_numeric(self) -> GLenum {
        match self {
            PackParamType::PACK_ALIGNMENT => GL_PACK_ALIGNMENT,
            PackParamType::UNPACK_ALIGNMENT => GL_UNPACK_ALIGNMENT,
        }
    }

    /// The variant carrying a given constant, if any does.
    pub open spec fn spec_from_numeric(raw: GLenum) -> Option<PackParamType> {
        if raw == GL_PACK_ALIGNMENT {
            Some(PackParamType::PACK_ALIGNMENT)
        } else if raw == GL_UNPACK_ALIGNMENT {
            Some(PackParamType::UNPACK_ALIGNMENT)
        } else {
            None
        }
    }

    /// Total and lossless: every variant has exactly one constant.
    pub fn to_numeric(self) -> (raw: GLenum)
        ensures
            raw == self.spec_numeric(),
    {
        match self {
            PackParamType::PACK_ALIGNMENT => GL_PACK_ALIGNMENT,
            PackParamType::UNPACK_ALIGNMENT => GL_UNPACK_ALIGNMENT,
        }
    }

    /// Exact partial inverse of `to_numeric`: `None` on an unknown constant.
    pub fn from_numeric(raw: GLenum) -> (v: Option<PackParamType>)
        ensures
            v == Self::spec_from_numeric(raw),
    {
        if raw == GL_PACK_ALIGNMENT {
            Some(PackParamType::PACK_ALIGNMENT)
        } else if raw == GL_UNPACK_ALIGNMENT {
            Some(PackParamType::UNPACK_ALIGNMENT)
        } else {
            None
        }
    }
}

/// Every `PackParamType` variant survives the trip to its constant and back.
pub proof fn lemma_pack_param_type_round_trip(v: PackParamType)
    ensures
        PackParamType::spec_from_numeric(v.spec_numeric()) == Some(v),
{
}

/// No two `PackParamType` variants share a constant.
pub proof fn lemma_pack_param_type_injective(a: PackParamType, b: PackParamType)
    ensures
        a.spec_numeric() == b.spec_numeric() ==> a == b,
{
    if a.spec_numeric() == b.spec_numeric() {
        lemma_pack_param_type_round_trip(a);
        lemma_pack_param_type_round_trip(b);
    }
}
#[allow(non_camel_case_types)]
#[derive(Copy, Clone, Debug, PartialEq, Eq, Structural)]
pub enum PixelFormat {
    ALPHA,
    RGB,
    RGBA,
    RGBA4,
    RGB565,
    RGB5_A1,
    DEPTH_COMPONENT16,
    STENCIL_INDEX8,
    LUMINANCE,
    LUMINANCE_ALPHA,
}

impl PixelFormat {
    /// The constant the standard publishes for each variant.
    pub open spec fn spec_numeric(self) -> GLenum {
        match self {
            PixelFormat::ALPHA => GL_ALPHA,
            PixelFormat::RGB => GL_RGB,
            PixelFormat::RGBA => GL_RGBA,
            PixelFormat::RGBA4 => GL_RGBA4,
            PixelFormat::RGB565 => GL_RGB565,
            PixelFormat::RGB5_A1 => GL_RGB5_A1,
            PixelFormat::DEPTH_COMPONENT16 => GL_DEPTH_COMPONENT16,
            PixelFormat::STENCIL_INDEX8 => GL_STENCIL_INDEX8,
            PixelFormat::LUMINANCE => GL_LUMINANCE,
            PixelFormat::LUMINANCE_ALPHA => GL_LUMINANCE_ALPHA,
        }
    }

    /// The variant carrying a given constant, if any does.
    pub open spec fn spec_from_numeric(raw: GLenum) -> Option<PixelFormat> {
        if raw == GL_ALPHA {
            Some(PixelFormat::ALPHA)
        } else if raw == GL_RGB {
            Some(PixelFormat::RGB)
        } else if raw == GL_RGBA {
            Some(PixelFormat::RGBA)
        } else if raw == GL_RGBA4 {
            Some(PixelFormat::RGBA4)
        } else if raw == GL_RGB565 {
            Some(PixelFormat::RGB565)
        } else if raw == GL_RGB5_A1 {
            Some(PixelFormat::RGB5_A1)
        } else if raw == GL_DEPTH_COMPONENT16 {
            Some(PixelFormat::DEPTH_COMPONENT16)
        } else if raw == GL_STENCIL_INDEX8 {
            Some(PixelFormat::STENCIL_INDEX8)
        } else if raw == GL_LUMINANCE {
            Some(PixelFormat::LUMINANCE)
        } else if raw == GL_LUMINANCE_ALPHA {
            Some(PixelFormat::LUMINANCE_ALPHA)
        } else {
            None
        }
    }

    /// Total and lossless: every variant has exactly one constant.
    pub fn to_numeric(self) -> (raw: GLenum)
        ensures
            raw == self.spec_numeric(),
    {
        match self {
            PixelFormat::ALPHA => GL_ALPHA,
            PixelFormat::RGB => GL_RGB,
            PixelFormat::RGBA => GL_RGBA,
            PixelFormat::RGBA4 => GL_RGBA4,
            PixelFormat::RGB565 => GL_RGB565,
            PixelFormat::RGB5_A1 => GL_RGB5_A1,
            PixelFormat::DEPTH_COMPONENT16 => GL_DEPTH_COMPONENT16,
            PixelFormat::STENCIL_INDEX8 => GL_STENCIL_INDEX8,
            PixelFormat::LUMINANCE => GL_LUMINANCE,
            PixelFormat::LUMINANCE_ALPHA => GL_LUMINANCE_ALPHA,
        }
    }

    /// Exact partial inverse of `to_numeric`: `None` on an unknown constant.
    pub fn from_numeric(raw: GLenum) -> (v: Option<PixelFormat>)
        ensures
            v == Self::spec_from_numeric(raw),
    {
        if raw == GL_ALPHA {
            Some(PixelFormat::ALPHA)
        } else if raw == GL_RGB {
            Some(PixelFormat::RGB)
        } else if raw == GL_RGBA {
            Some(PixelFormat::RGBA)
        } else if raw == GL_RGBA4 {
            Some(PixelFormat::RGBA4)
        } else if raw == GL_RGB565 {
            Some(PixelFormat::RGB565)
        } else if raw == GL_RGB5_A1 {
            Some(PixelFormat::RGB5_A1)
        } else if raw == GL_DEPTH_COMPONENT16 {
            Some(PixelFormat::DEPTH_COMPONENT16)
        } else if raw == GL_STENCIL_INDEX8 {
            Some(PixelFormat::STENCIL_INDEX8)
        } else if raw == GL_LUMINANCE {
            Some(PixelFormat::LUMINANCE)
        } else if raw == GL_LUMINANCE_ALPHA {
            Some(PixelFormat::LUMINANCE_ALPHA)
        } else {
            None
        }
    }
}

/// Every `PixelFormat` variant survives the trip to its constant and back.
pub proof fn lemma_pixel_format_round_trip(v: PixelFormat)
    ensures
        PixelFormat::spec_from_numeric(v.spec_numeric()) == Some(v),
{
}

/// No two `PixelFormat` variants share a constant.
pub proof fn lemma_pixel_format_injective(a: PixelFormat, b: PixelFormat)
    ensures
        a.spec_numeric() == b.spec_numeric() ==> a == b,
{
    if a.spec_numeric() == b.spec_numeric() {
        lemma_pixel_format_round_trip(a);
        lemma_pixel_format_round_trip(b);
    }
}
#[allow(non_camel_case_types)]
#[derive(Copy, Clone, Debug, PartialEq, Eq, Structural)]
pub enum PixelDataType {
    UNSIGNED_BYTE,
    UNSIGNED_SHORT_5_6_5,
    UNSIGNED_SHORT_4_4_4_4,
    UNSIGNED_SHORT_5_5_5_1,
}

impl PixelDataType {
    /// The constant the standard publishes for each variant.
    pub open spec fn spec_numeric(self) -> GLenum {
        match self {
            PixelDataType::UNSIGNED_BYTE => GL_UNSIGNED_BYTE,
            PixelDataType::UNSIGNED_SHORT_5_6_5 => GL_UNSIGNED_SHORT_5_6_5,
            PixelDataType::UNSIGNED_SHORT_4_4_4_4 => GL_UNSIGNED_SHORT_4_4_4_4,
            PixelDataType::UNSIGNED_SHORT_5_5_5_1 => GL_UNSIGNED_SHORT_5_5_5_1,
        }
    }

    /// The variant carrying a given constant, if any does.
    pub open spec fn spec_from_numeric(raw: GLenum) -> Option<PixelDataType> {
        if raw == GL_UNSIGNED_BYTE {
            Some(PixelDataType::UNSIGNED_BYTE)
        } else if raw == GL_UNSIGNED_SHORT_5_6_5 {
            Some(PixelDataType::UNSIGNED_SHORT_5_6_5)
        } else if raw == GL_UNSIGNED_SHORT_4_4_4_4 {
            Some(PixelDataType::UNSIGNED_SHORT_4_4_4_4)
        } else if raw == GL_UNSIGNED_SHORT_5_5_5_1 {
            Some(PixelDataType::UNSIGNED_SHORT_5_5_5_1)
        } else {
            None
        }
    }

    /// Total and lossless: every variant has exactly one constant.
    pub fn to_numeric(self) -> (raw: GLenum)
        ensures
            raw == self.spec_numeric(),
    {
        match self {
            PixelDataType::UNSIGNED_BYTE => GL_UNSIGNED_BYTE,
            PixelDataType::UNSIGNED_SHORT_5_6_5 => GL_UNSIGNED_SHORT_5_6_5,
            PixelDataType::UNSIGNED_SHORT_4_4_4_4 => GL_UNSIGNED_SHORT_4_4_4_4,
            PixelDataType::UNSIGNED_SHORT_5_5_5_1 => GL_UNSIGNED_SHORT_5_5_5_1,
        }
    }

    /// Exact partial inverse of `to_numeric`: `None` on an unknown constant.
    pub fn from_numeric(raw: GLenum) -> (v: Option<PixelDataType>)
        ensures
            v == Self::spec_from_numeric(raw),
    {
        if raw == GL_UNSIGNED_BYTE {
            Some(PixelDataType::UNSIGNED_BYTE)
        } else if raw == GL_UNSIGNED_SHORT_5_6_5 {
            Some(PixelDataType::UNSIGNED_SHORT_5_6_5)
        } else if raw == GL_UNSIGNED_SHORT_4_4_4_4 {
            Some(PixelDataType::UNSIGNED_SHORT_4_4_4_4)
        } else if raw == GL_UNSIGNED_SHORT_5_5_5_1 {
            Some(PixelDataType::UNSIGNED_SHORT_5_5_5_1)
        } else {
            None
        }
    }
}

/// Every `PixelDataType` variant survives the trip to its constant and back.
pub proof fn lemma_pixel_data_type_round_trip(v: PixelDataType)
    ensures
        PixelDataType::spec_from_numeric(v.spec_numeric()) == Some(v),
{
}

/// No two `PixelDataType` variants share a constant.
pub proof fn lemma_pixel_data_type_injective(a: PixelDataType, b: PixelDataType)
    ensures
        a.spec_numeric() == b.spec_numeric() ==> a == b,
{
    if a.spec_numeric() == b.spec_numeric() {
        lemma_pixel_data_type_round_trip(a);
        lemma_pixel_data_type_round_trip(b);
    }
}
#[allow(non_camel_case_types)]
#[derive(Copy, Clone, Debug, PartialEq, Eq, Structural)]
pub enum ActionType {
    KEEP,
    ZERO,
    REPLACE,
    INCR,
    INCR_WRAP,
    DECR,
    DECR_WRAP,
    INVERT,
}

impl ActionType {
    /// The constant the standard publishes for each variant.
    pub open spec fn spec_numeric(self) -> GLenum {
        match self {
            ActionType::KEEP => GL_KEEP,
            ActionType::ZERO => GL_ZERO,
            ActionType::REPLACE => GL_REPLACE,
            ActionType::INCR => GL_INCR,
            ActionType::INCR_WRAP => GL_INCR_WRAP,
            ActionType::DECR => GL_DECR,
            ActionType::DECR_WRAP => GL_DECR_WRAP,
            ActionType::INVERT => GL_INVERT,
        }
    }

    /// The variant carrying a given constant, if any does.
    pub open spec fn spec_from_numeric(raw: GLenum) -> Option<ActionType> {
        if raw == GL_KEEP {
            Some(ActionType::KEEP)
        } else if raw == GL_ZERO {
            Some(ActionType::ZERO)
        } else if raw == GL_REPLACE {
            Some(ActionType::REPLACE)
        } else if raw == GL_INCR {
            Some(ActionType::INCR)
        } else if raw == GL_INCR_WRAP {
            Some(ActionType::INCR_WRAP)
        } else if raw == GL_DECR {
            Some(ActionType::DECR)
        } else if raw == GL_DECR_WRAP {
            Some(ActionType::DECR_WRAP)
        } else if raw == GL_INVERT {
            Some(ActionType::INVERT)
        } else {
            None
        }
    }

    /// Total and lossless: every variant has exactly one constant.
    pub fn to_numeric(self) -> (raw: GLenum)
        ensures
            raw == self.spec_numeric(),
    {
        match self {
            ActionType::KEEP => GL_KEEP,
            ActionType::ZERO => GL_ZERO,
            ActionType::REPLACE => GL_REPLACE,
            ActionType::INCR => GL_INCR,
            ActionType::INCR_WRAP => GL_INCR_WRAP,
            ActionType::DECR => GL_DECR,
            ActionType::DECR_WRAP => GL_DECR_WRAP,
            ActionType::INVERT => GL_INVERT,
        }
    }

    /// Exact partial inverse of `to_numeric`: `None` on an unknown constant.
    pub fn from_numeric(raw: GLenum) -> (v: Option<ActionType>)
        ensures
            v == Self::spec_from_numeric(raw),
    {
        if raw == GL_KEEP {
            Some(ActionType::KEEP)
        } else if raw == GL_ZERO {
            Some(ActionType::ZERO)
        } else if raw == GL_REPLACE {
            Some(ActionType::REPLACE)
        } else if raw == GL_INCR {
            Some(ActionType::INCR)
        } else if raw == GL_INCR_WRAP {
            Some(ActionType::INCR_WRAP)
        } else if raw == GL_DECR {
            Some(ActionType::DECR)
        } else if raw == GL_DECR_WRAP {
            Some(ActionType::DECR_WRAP)
        } else if raw == GL_INVERT {
            Some(ActionType::INVERT)
        } else {
            None
        }
    }
}

/// Every `ActionType` variant survives the trip to its constant and back.
pub proof fn lemma_action_type_round_trip(v: ActionType)
    ensures
        ActionType::spec_from_numeric(v.spec_numeric()) == Some(v),
{
}

/// No two `ActionType` variants share a constant.
pub proof fn lemma_action_type_injective(a: ActionType, b: ActionType)
    ensures
        a.spec_numeric() == b.spec_numeric() ==> a == b,
{
    if a.spec_numeric() == b.spec_numeric() {
        lemma_action_type_round_trip(a);
        lemma_action_type_round_trip(b);
    }
}
#[allow(non_camel_case_types)]
#[derive(Copy, Clone, Debug, PartialEq, Eq, Structural)]
pub enum DataType {
    BYTE,
    UNSIGNED_BYTE,
    SHORT,
    UNSIGNED_SHORT,
    FIXED,
    FLOAT,
    FLOAT_VEC2,
    FLOAT_VEC3,
    FLOAT_VEC4,
    FLOAT_MAT2,
    FLOAT_MAT3,
    FLOAT_MAT4,
    INT,
    INT_VEC2,
    INT_VEC3,
    INT_VEC4,
    BOOL,
    BOOL_VEC2,
    BOOL_VEC3,
    BOOL_VEC4,
    SAMPLER_2D,
    SAMPLER_CUBE,
}

impl DataType {
    /// The constant the standard publishes for each variant.
    pub open spec fn spec_numeric(self) -> GLenum {
        match self {
            DataType::BYTE => GL_BYTE,
            DataType::UNSIGNED_BYTE => GL_UNSIGNED_BYTE,
            DataType::SHORT => GL_SHORT,
            DataType::UNSIGNED_SHORT => GL_UNSIGNED_SHORT,
            DataType::FIXED => GL_FIXED,
            DataType::FLOAT => GL_FLOAT,
            DataType::FLOAT_VEC2 => GL_FLOAT_VEC2,
            DataType::FLOAT_VEC3 => GL_FLOAT_VEC3,
            DataType::FLOAT_VEC4 => GL_FLOAT_VEC4,
            DataType::FLOAT_MAT2 => GL_FLOAT_MAT2,
            DataType::FLOAT_MAT3 => GL_FLOAT_MAT3,
            DataType::FLOAT_MAT4 => GL_FLOAT_MAT4,
            DataType::INT => GL_INT,
            DataType::INT_VEC2 => GL_INT_VEC2,
            DataType::INT_VEC3 => GL_INT_VEC3,
            DataType::INT_VEC4 => GL_INT_VEC4,
            DataType::BOOL => GL_BOOL,
            DataType::BOOL_VEC2 => GL_BOOL_VEC2,
            DataType::BOOL_VEC3 => GL_BOOL_VEC3,
            DataType::BOOL_VEC4 => GL_BOOL_VEC4,
            DataType::SAMPLER_2D => GL_SAMPLER_2D,
            DataType::SAMPLER_CUBE => GL_SAMPLER_CUBE,
        }
    }

    /// The variant carrying a given constant, if any does.
    pub open spec fn spec_from_numeric(raw: GLenum) -> Option<DataType> {
        if raw == GL_BYTE {
            Some(DataType::BYTE)
        } else if raw == GL_UNSIGNED_BYTE {
            Some(DataType::UNSIGNED_BYTE)
        } else if raw == GL_SHORT {
            Some(DataType::SHORT)
        } else if raw == GL_UNSIGNED_SHORT {
            Some(DataType::UNSIGNED_SHORT)
        } else if raw == GL_FIXED {
            Some(DataType::FIXED)
        } else if raw == GL_FLOAT {
            Some(DataType::FLOAT)
        } else if raw == GL_FLOAT_VEC2 {
            Some(DataType::FLOAT_VEC2)
        } else if raw == GL_FLOAT_VEC3 {
            Some(DataType::FLOAT_VEC3)
        } else if raw == GL_FLOAT_VEC4 {
            Some(DataType::FLOAT_VEC4)
        } else if raw == GL_FLOAT_MAT2 {
            Some(DataType::FLOAT_MAT2)
        } else if raw == GL_FLOAT_MAT3 {
            Some(DataType::FLOAT_MAT3)
        } else if raw == GL_FLOAT_MAT4 {
            Some(DataType::FLOAT_MAT4)
        } else if raw == GL_INT {
            Some(DataType::INT)
        } else if raw == GL_INT_VEC2 {
            Some(DataType::INT_VEC2)
        } else if raw == GL_INT_VEC3 {
            Some(DataType::INT_VEC3)
        } else if raw == GL_INT_VEC4 {
            Some(DataType::INT_VEC4)
        } else if raw == GL_BOOL {
            Some(DataType::BOOL)
        } else if raw == GL_BOOL_VEC2 {
            Some(DataType::BOOL_VEC2)
        } else if raw == GL_BOOL_VEC3 {
            Some(DataType::BOOL_VEC3)
        } else if raw == GL_BOOL_VEC4 {
            Some(DataType::BOOL_VEC4)
        } else if raw == GL_SAMPLER_2D {
            Some(DataType::SAMPLER_2D)
        } else if raw == GL_SAMPLER_CUBE {
            Some(DataType::SAMPLER_CUBE)
        } else {
            None
        }
    }

    /// Infallible translation: an unknown constant falls back to `BYTE`.
    pub open spec fn spec_from_numeric_or_default(raw: GLenum) -> DataType {
        match Self::spec_from_numeric(raw) {
            Some(v) => v,
            None => DataType::BYTE,
        }
    }

    /// Total and lossless: every variant has exactly one constant.
    pub fn to_numeric(self) -> (raw: GLenum)
        ensures
            raw == self.spec_numeric(),
    {
        match self {
            DataType::BYTE => GL_BYTE,
            DataType::UNSIGNED_BYTE => GL_UNSIGNED_BYTE,
            DataType::SHORT => GL_SHORT,
            DataType::UNSIGNED_SHORT => GL_UNSIGNED_SHORT,
            DataType::FIXED => GL_FIXED,
            DataType::FLOAT => GL_FLOAT,
            DataType::FLOAT_VEC2 => GL_FLOAT_VEC2,
            DataType::FLOAT_VEC3 => GL_FLOAT_VEC3,
            DataType::FLOAT_VEC4 => GL_FLOAT_VEC4,
            DataType::FLOAT_MAT2 => GL_FLOAT_MAT2,
            DataType::FLOAT_MAT3 => GL_FLOAT_MAT3,
            DataType::FLOAT_MAT4 => GL_FLOAT_MAT4,
            DataType::INT => GL_INT,
            DataType::INT_VEC2 => GL_INT_VEC2,
            DataType::INT_VEC3 => GL_INT_VEC3,
            DataType::INT_VEC4 => GL_INT_VEC4,
            DataType::BOOL => GL_BOOL,
            DataType::BOOL_VEC2 => GL_BOOL_VEC2,
            DataType::BOOL_VEC3 => GL_BOOL_VEC3,
            DataType::BOOL_VEC4 => GL_BOOL_VEC4,
            DataType::SAMPLER_2D => GL_SAMPLER_2D,
            DataType::SAMPLER_CUBE => GL_SAMPLER_CUBE,
        }
    }

    /// Exact partial inverse of `to_numeric`: `None` on an unknown constant.
    pub fn from_numeric(raw: GLenum) -> (v: Option<DataType>)
        ensures
            v == Self::spec_from_numeric(raw),
    {
        if raw == GL_BYTE {
            Some(DataType::BYTE)
        } else if raw == GL_UNSIGNED_BYTE {
            Some(DataType::UNSIGNED_BYTE)
        } else if raw == GL_SHORT {
            Some(DataType::SHORT)
        } else if raw == GL_UNSIGNED_SHORT {
            Some(DataType::UNSIGNED_SHORT)
        } else if raw == GL_FIXED {
            Some(DataType::FIXED)
        } else if raw == GL_FLOAT {
            Some(DataType::FLOAT)
        } else if raw == GL_FLOAT_VEC2 {
            Some(DataType::FLOAT_VEC2)
        } else if raw == GL_FLOAT_VEC3 {
            Some(DataType::FLOAT_VEC3)
        } else if raw == GL_FLOAT_VEC4 {
            Some(DataType::FLOAT_VEC4)
        } else if raw == GL_FLOAT_MAT2 {
            Some(DataType::FLOAT_MAT2)
        } else if raw == GL_FLOAT_MAT3 {
            Some(DataType::FLOAT_MAT3)
        } else if raw == GL_FLOAT_MAT4 {
            Some(DataType::FLOAT_MAT4)
        } else if raw == GL_INT {
            Some(DataType::INT)
        } else if raw == GL_INT_VEC2 {
            Some(DataType::INT_VEC2)
        } else if raw == GL_INT_VEC3 {
            Some(DataType::INT_VEC3)
        } else if raw == GL_INT_VEC4 {
            Some(DataType::INT_VEC4)
        } else if raw == GL_BOOL {
            Some(DataType::BOOL)
        } else if raw == GL_BOOL_VEC2 {
            Some(DataType::BOOL_VEC2)
        } else if raw == GL_BOOL_VEC3 {
            Some(DataType::BOOL_VEC3)
        } else if raw == GL_BOOL_VEC4 {
            Some(DataType::BOOL_VEC4)
        } else if raw == GL_SAMPLER_2D {
            Some(DataType::SAMPLER_2D)
        } else if raw == GL_SAMPLER_CUBE {
            Some(DataType::SAMPLER_CUBE)
        } else {
            None
        }
    }

    /// Infallible translation: an unknown constant does not fail, it
    /// yields the designated default `BYTE`.
    pub fn from_numeric_or_default(raw: GLenum) -> (v: DataType)
        ensures
            v == Self::spec_from_numeric_or_default(raw),
            Self::spec_from_numeric(raw) is None ==> v == DataType::BYTE,
    {
        match Self::from_numeric(raw) {
            Some(v) => v,
            None => DataType::BYTE,
        }
    }
}

impl From<GLenum> for DataType {
    fn from(raw: GLenum) -> (v: Self) {
        Self::from_numeric_or_default(raw)
    }
}

impl vstd::std_specs::convert::FromSpecImpl<GLenum> for DataType {
    open spec fn obeys_from_spec() -> bool {
        true
    }

    open spec fn from_spec(raw: GLenum) -> Self {
        Self::spec_from_numeric_or_default(raw)
    }
}

/// Every `DataType` variant survives the trip to its constant and back.
pub proof fn lemma_data_type_round_trip(v: DataType)
    ensures
        DataType::spec_from_numeric(v.spec_numeric()) == Some(v),
{
}

/// No two `DataType` variants share a constant.
pub proof fn lemma_data_type_injective(a: DataType, b: DataType)
    ensures
        a.spec_numeric() == b.spec_numeric() ==> a == b,
{
    if a.spec_numeric() == b.spec_numeric() {
        lemma_data_type_round_trip(a);
        lemma_data_type_round_trip(b);
    }
}
} // verus!
