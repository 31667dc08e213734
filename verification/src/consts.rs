//! Numeric constants of the graphics standard.
//!
//! Every value here is the constant the standard publishes under the same
//! name. These values are the wire format of the driver's command stream:
//! they are looked up, never recomputed.

use vstd::prelude::*;

use crate::types::GLboolean;
use crate::types::GLenum;

verus! {

// Booleans
pub const GL_FALSE: GLboolean = 0;

pub const GL_TRUE: GLboolean = 1;

// Generic
pub const GL_NONE: GLenum = 0;

pub const GL_ZERO: GLenum = 0;

pub const GL_ONE: GLenum = 1;

// Error codes
pub const GL_NO_ERROR: GLenum = 0;

pub const GL_INVALID_ENUM: GLenum = 0x0500;

pub const GL_INVALID_VALUE: GLenum = 0x0501;

pub const GL_INVALID_OPERATION: GLenum = 0x0502;

pub const GL_OUT_OF_MEMORY: GLenum = 0x0505;

pub const GL_INVALID_FRAMEBUFFER_OPERATION: GLenum = 0x0506;

// Primitive modes
pub const GL_POINTS: GLenum = 0x0000;

pub const GL_LINES: GLenum = 0x0001;

pub const GL_LINE_LOOP: GLenum = 0x0002;

pub const GL_LINE_STRIP: GLenum = 0x0003;

pub const GL_TRIANGLES: GLenum = 0x0004;

pub const GL_TRIANGLE_STRIP: GLenum = 0x0005;

pub const GL_TRIANGLE_FAN: GLenum = 0x0006;

// Comparison functions
pub const GL_NEVER: GLenum = 0x0200;

pub const GL_LESS: GLenum = 0x0201;

pub const GL_EQUAL: GLenum = 0x0202;

pub const GL_LEQUAL: GLenum = 0x0203;

pub const GL_GREATER: GLenum = 0x0204;

pub const GL_NOTEQUAL: GLenum = 0x0205;

pub const GL_GEQUAL: GLenum = 0x0206;

pub const GL_ALWAYS: GLenum = 0x0207;

// Blend factors
pub const GL_SRC_COLOR: GLenum = 0x0300;

pub const GL_ONE_MINUS_SRC_COLOR: GLenum = 0x0301;

pub const GL_SRC_ALPHA: GLenum = 0x0302;

pub const GL_ONE_MINUS_SRC_ALPHA: GLenum = 0x0303;

pub const GL_DST_ALPHA: GLenum = 0x0304;

pub const GL_ONE_MINUS_DST_ALPHA: GLenum = 0x0305;

pub const GL_DST_COLOR: GLenum = 0x0306;

pub const GL_ONE_MINUS_DST_COLOR: GLenum = 0x0307;

pub const GL_SRC_ALPHA_SATURATE: GLenum = 0x0308;

pub const GL_CONSTANT_COLOR: GLenum = 0x8001;

pub const GL_ONE_MINUS_CONSTANT_COLOR: GLenum = 0x8002;

pub const GL_CONSTANT_ALPHA: GLenum = 0x8003;

pub const GL_ONE_MINUS_CONSTANT_ALPHA: GLenum = 0x8004;

// Blend equation
pub const GL_BLEND_COLOR: GLenum = 0x8005;

pub const GL_FUNC_ADD: GLenum = 0x8006;

pub const GL_BLEND_EQUATION_RGB: GLenum = 0x8009;

pub const GL_FUNC_SUBTRACT: GLenum = 0x800A;

pub const GL_FUNC_REVERSE_SUBTRACT: GLenum = 0x800B;

pub const GL_BLEND_EQUATION_ALPHA: GLenum = 0x883D;

// Faces and orientation
pub const GL_FRONT: GLenum = 0x0404;

pub const GL_BACK: GLenum = 0x0405;

pub const GL_FRONT_AND_BACK: GLenum = 0x0408;

pub const GL_CW: GLenum = 0x0900;

pub const GL_CCW: GLenum = 0x0901;

// Features
pub const GL_CULL_FACE: GLenum = 0x0B44;

pub const GL_DEPTH_TEST: GLenum = 0x0B71;

pub const GL_STENCIL_TEST: GLenum = 0x0B90;

pub const GL_DITHER: GLenum = 0x0BD0;

pub const GL_BLEND: GLenum = 0x0BE2;

pub const GL_SCISSOR_TEST: GLenum = 0x0C11;

pub const GL_POLYGON_OFFSET_FILL: GLenum = 0x8037;

pub const GL_SAMPLE_ALPHA_TO_COVERAGE: GLenum = 0x809E;

pub const GL_SAMPLE_COVERAGE: GLenum = 0x80A0;

// State queries
pub const GL_LINE_WIDTH: GLenum = 0x0B21;

pub const GL_CULL_FACE_MODE: GLenum = 0x0B45;

pub const GL_FRONT_FACE: GLenum = 0x0B46;

pub const GL_DEPTH_RANGE: GLenum = 0x0B70;

pub const GL_DEPTH_WRITEMASK: GLenum = 0x0B72;

pub const GL_DEPTH_CLEAR_VALUE: GLenum = 0x0B73;

pub const GL_DEPTH_FUNC: GLenum = 0x0B74;

pub const GL_STENCIL_CLEAR_VALUE: GLenum = 0x0B91;

pub const GL_STENCIL_FUNC: GLenum = 0x0B92;

pub const GL_STENCIL_VALUE_MASK: GLenum = 0x0B93;

pub const GL_STENCIL_FAIL: GLenum = 0x0B94;

pub const GL_STENCIL_PASS_DEPTH_FAIL: GLenum = 0x0B95;

pub const GL_STENCIL_PASS_DEPTH_PASS: GLenum = 0x0B96;

pub const GL_STENCIL_REF: GLenum = 0x0B97;

pub const GL_STENCIL_WRITEMASK: GLenum = 0x0B98;

pub const GL_VIEWPORT: GLenum = 0x0BA2;

pub const GL_SCISSOR_BOX: GLenum = 0x0C10;

pub const GL_COLOR_CLEAR_VALUE: GLenum = 0x0C22;

pub const GL_COLOR_WRITEMASK: GLenum = 0x0C23;

pub const GL_UNPACK_ALIGNMENT: GLenum = 0x0CF5;

pub const GL_PACK_ALIGNMENT: GLenum = 0x0D05;

pub const GL_MAX_TEXTURE_SIZE: GLenum = 0x0D33;

pub const GL_MAX_VIEWPORT_DIMS: GLenum = 0x0D3A;

pub const GL_SUBPIXEL_BITS: GLenum = 0x0D50;

pub const GL_RED_BITS: GLenum = 0x0D52;

pub const GL_GREEN_BITS: GLenum = 0x0D53;

pub const GL_BLUE_BITS: GLenum = 0x0D54;

pub const GL_ALPHA_BITS: GLenum = 0x0D55;

pub const GL_DEPTH_BITS: GLenum = 0x0D56;

pub const GL_STENCIL_BITS: GLenum = 0x0D57;

pub const GL_TEXTURE_2D: GLenum = 0x0DE1;

// Data types
pub const GL_BYTE: GLenum = 0x1400;

pub const GL_UNSIGNED_BYTE: GLenum = 0x1401;

pub const GL_SHORT: GLenum = 0x1402;

pub const GL_UNSIGNED_SHORT: GLenum = 0x1403;

pub const GL_INT: GLenum = 0x1404;

pub const GL_FLOAT: GLenum = 0x1406;

pub const GL_FIXED: GLenum = 0x140C;

// Pixel formats
pub const GL_DEPTH_COMPONENT: GLenum = 0x1902;

pub const GL_RED: GLenum = 0x1903;

pub const GL_ALPHA: GLenum = 0x1906;

pub const GL_RGB: GLenum = 0x1907;

pub const GL_RGBA: GLenum = 0x1908;

pub const GL_LUMINANCE: GLenum = 0x1909;

pub const GL_LUMINANCE_ALPHA: GLenum = 0x190A;

// Stencil actions
pub const GL_INVERT: GLenum = 0x150A;

pub const GL_KEEP: GLenum = 0x1E00;

pub const GL_REPLACE: GLenum = 0x1E01;

pub const GL_INCR: GLenum = 0x1E02;

pub const GL_DECR: GLenum = 0x1E03;

// Implementation strings
pub const GL_VENDOR: GLenum = 0x1F00;

pub const GL_RENDERER: GLenum = 0x1F01;

pub const GL_VERSION: GLenum = 0x1F02;

pub const GL_EXTENSIONS: GLenum = 0x1F03;

// Hints
pub const GL_DONT_CARE: GLenum = 0x1100;

pub const GL_FASTEST: GLenum = 0x1101;

pub const GL_NICEST: GLenum = 0x1102;

pub const GL_GENERATE_MIPMAP_HINT: GLenum = 0x8192;

// Filters
pub const GL_NEAREST: GLenum = 0x2600;

pub const GL_LINEAR: GLenum = 0x2601;

// Texture parameters
pub const GL_TEXTURE_MAG_FILTER: GLenum = 0x2800;

pub const GL_TEXTURE_MIN_FILTER: GLenum = 0x2801;

pub const GL_TEXTURE_WRAP_S: GLenum = 0x2802;

pub const GL_TEXTURE_WRAP_T: GLenum = 0x2803;

pub const GL_TEXTURE_WRAP_R: GLenum = 0x8072;

pub const GL_TEXTURE_BORDER_COLOR: GLenum = 0x1004;

pub const GL_TEXTURE_MIN_LOD: GLenum = 0x813A;

pub const GL_TEXTURE_MAX_LOD: GLenum = 0x813B;

pub const GL_TEXTURE_COMPARE_MODE: GLenum = 0x884C;

pub const GL_TEXTURE_COMPARE_FUNC: GLenum = 0x884D;

// Polygon offset
pub const GL_POLYGON_OFFSET_UNITS: GLenum = 0x2A00;

pub const GL_POLYGON_OFFSET_FACTOR: GLenum = 0x8038;

// Buffer masks
pub const GL_DEPTH_BUFFER_BIT: GLenum = 0x0100;

pub const GL_STENCIL_BUFFER_BIT: GLenum = 0x0400;

pub const GL_COLOR_BUFFER_BIT: GLenum = 0x4000;

// Buffer mapping
pub const GL_MAP_INVALIDATE_RANGE_BIT: GLenum = 0x0004;

pub const GL_MAP_INVALIDATE_BUFFER_BIT: GLenum = 0x0008;

pub const GL_MAP_FLUSH_EXPLICIT_BIT: GLenum = 0x0010;

pub const GL_MAP_UNSYNCHRONIZED_BIT: GLenum = 0x0020;

pub const GL_BUFFER_MAP_POINTER: GLenum = 0x88BD;

// Textures
pub const GL_TEXTURE_BINDING_2D: GLenum = 0x8069;

pub const GL_TEXTURE_3D: GLenum = 0x806F;

pub const GL_TEXTURE_CUBE_MAP: GLenum = 0x8513;

pub const GL_TEXTURE_BINDING_CUBE_MAP: GLenum = 0x8514;

pub const GL_TEXTURE_CUBE_MAP_POSITIVE_X: GLenum = 0x8515;

pub const GL_TEXTURE_CUBE_MAP_NEGATIVE_X: GLenum = 0x8516;

pub const GL_TEXTURE_CUBE_MAP_POSITIVE_Y: GLenum = 0x8517;

pub const GL_TEXTURE_CUBE_MAP_NEGATIVE_Y: GLenum = 0x8518;

pub const GL_TEXTURE_CUBE_MAP_POSITIVE_Z: GLenum = 0x8519;

pub const GL_TEXTURE_CUBE_MAP_NEGATIVE_Z: GLenum = 0x851A;

pub const GL_MAX_CUBE_MAP_TEXTURE_SIZE: GLenum = 0x851C;

pub const GL_TEXTURE_2D_ARRAY: GLenum = 0x8C1A;

// Texture units
pub const GL_TEXTURE0: GLenum = 0x84C0;

pub const GL_TEXTURE1: GLenum = 0x84C1;

pub const GL_TEXTURE2: GLenum = 0x84C2;

pub const GL_TEXTURE3: GLenum = 0x84C3;

pub const GL_TEXTURE4: GLenum = 0x84C4;

pub const GL_TEXTURE5: GLenum = 0x84C5;

pub const GL_TEXTURE6: GLenum = 0x84C6;

pub const GL_TEXTURE7: GLenum = 0x84C7;

pub const GL_TEXTURE8: GLenum = 0x84C8;

pub const GL_TEXTURE9: GLenum = 0x84C9;

pub const GL_TEXTURE10: GLenum = 0x84CA;

pub const GL_TEXTURE11: GLenum = 0x84CB;

pub const GL_TEXTURE12: GLenum = 0x84CC;

pub const GL_TEXTURE13: GLenum = 0x84CD;

pub const GL_TEXTURE14: GLenum = 0x84CE;

pub const GL_TEXTURE15: GLenum = 0x84CF;

pub const GL_TEXTURE16: GLenum = 0x84D0;

pub const GL_TEXTURE17: GLenum = 0x84D1;

pub const GL_TEXTURE18: GLenum = 0x84D2;

pub const GL_TEXTURE19: GLenum = 0x84D3;

pub const GL_TEXTURE20: GLenum = 0x84D4;

pub const GL_TEXTURE21: GLenum = 0x84D5;

pub const GL_TEXTURE22: GLenum = 0x84D6;

pub const GL_TEXTURE23: GLenum = 0x84D7;

pub const GL_TEXTURE24: GLenum = 0x84D8;

pub const GL_TEXTURE25: GLenum = 0x84D9;

pub const GL_TEXTURE26: GLenum = 0x84DA;

pub const GL_TEXTURE27: GLenum = 0x84DB;

pub const GL_TEXTURE28: GLenum = 0x84DC;

pub const GL_TEXTURE29: GLenum = 0x84DD;

pub const GL_TEXTURE30: GLenum = 0x84DE;

pub const GL_TEXTURE31: GLenum = 0x84DF;

pub const GL_ACTIVE_TEXTURE: GLenum = 0x84E0;

// Buffers
pub const GL_ARRAY_BUFFER: GLenum = 0x8892;

pub const GL_ELEMENT_ARRAY_BUFFER: GLenum = 0x8893;

pub const GL_ARRAY_BUFFER_BINDING: GLenum = 0x8894;

pub const GL_ELEMENT_ARRAY_BUFFER_BINDING: GLenum = 0x8895;

pub const GL_STREAM_DRAW: GLenum = 0x88E0;

pub const GL_STATIC_DRAW: GLenum = 0x88E4;

pub const GL_DYNAMIC_DRAW: GLenum = 0x88E8;

pub const GL_BUFFER_SIZE: GLenum = 0x8764;

pub const GL_BUFFER_USAGE: GLenum = 0x8765;

pub const GL_PIXEL_PACK_BUFFER: GLenum = 0x88EB;

pub const GL_PIXEL_UNPACK_BUFFER: GLenum = 0x88EC;

pub const GL_UNIFORM_BUFFER: GLenum = 0x8A11;

pub const GL_TEXTURE_BUFFER: GLenum = 0x8C2A;

pub const GL_TRANSFORM_FEEDBACK_BUFFER: GLenum = 0x8C8E;

pub const GL_COPY_READ_BUFFER: GLenum = 0x8F36;

pub const GL_COPY_WRITE_BUFFER: GLenum = 0x8F37;

pub const GL_DRAW_INDIRECT_BUFFER: GLenum = 0x8F3F;

pub const GL_SHADER_STORAGE_BUFFER: GLenum = 0x90D2;

pub const GL_DISPATCH_INDIRECT_BUFFER: GLenum = 0x90EE;

pub const GL_ATOMIC_COUNTER_BUFFER: GLenum = 0x92C0;

// Transform feedback
pub const GL_INTERLEAVED_ATTRIBS: GLenum = 0x8C8C;

pub const GL_SEPARATE_ATTRIBS: GLenum = 0x8C8D;

pub const GL_TRANSFORM_FEEDBACK: GLenum = 0x8E22;

// Aliased ranges
pub const GL_ALIASED_POINT_SIZE_RANGE: GLenum = 0x846D;

pub const GL_ALIASED_LINE_WIDTH_RANGE: GLenum = 0x846E;

// Sample coverage
pub const GL_SAMPLE_BUFFERS: GLenum = 0x80A8;

pub const GL_SAMPLES: GLenum = 0x80A9;

pub const GL_SAMPLE_COVERAGE_VALUE: GLenum = 0x80AA;

pub const GL_SAMPLE_COVERAGE_INVERT: GLenum = 0x80AB;

// Blend state
pub const GL_BLEND_DST_RGB: GLenum = 0x80C8;

pub const GL_BLEND_SRC_RGB: GLenum = 0x80C9;

pub const GL_BLEND_DST_ALPHA: GLenum = 0x80CA;

pub const GL_BLEND_SRC_ALPHA: GLenum = 0x80CB;

// Compressed textures
pub const GL_NUM_COMPRESSED_TEXTURE_FORMATS: GLenum = 0x86A2;

pub const GL_COMPRESSED_TEXTURE_FORMATS: GLenum = 0x86A3;

// Stencil state, back face
pub const GL_STENCIL_BACK_FUNC: GLenum = 0x8800;

pub const GL_STENCIL_BACK_FAIL: GLenum = 0x8801;

pub const GL_STENCIL_BACK_PASS_DEPTH_FAIL: GLenum = 0x8802;

pub const GL_STENCIL_BACK_PASS_DEPTH_PASS: GLenum = 0x8803;

pub const GL_STENCIL_BACK_REF: GLenum = 0x8CA3;

pub const GL_STENCIL_BACK_VALUE_MASK: GLenum = 0x8CA4;

pub const GL_STENCIL_BACK_WRITEMASK: GLenum = 0x8CA5;

// Stencil actions, wrapping
pub const GL_INCR_WRAP: GLenum = 0x8507;

pub const GL_DECR_WRAP: GLenum = 0x8508;

// Limits
pub const GL_MAX_VERTEX_ATTRIBS: GLenum = 0x8869;

pub const GL_MAX_TEXTURE_IMAGE_UNITS: GLenum = 0x8872;

pub const GL_MAX_VERTEX_TEXTURE_IMAGE_UNITS: GLenum = 0x8B4C;

pub const GL_MAX_COMBINED_TEXTURE_IMAGE_UNITS: GLenum = 0x8B4D;

pub const GL_MAX_RENDERBUFFER_SIZE: GLenum = 0x84E8;

pub const GL_MAX_VERTEX_UNIFORM_VECTORS: GLenum = 0x8DFB;

pub const GL_MAX_VARYING_VECTORS: GLenum = 0x8DFC;

pub const GL_MAX_FRAGMENT_UNIFORM_VECTORS: GLenum = 0x8DFD;

// Vertex attributes
pub const GL_VERTEX_ATTRIB_ARRAY_ENABLED: GLenum = 0x8622;

pub const GL_VERTEX_ATTRIB_ARRAY_SIZE: GLenum = 0x8623;

pub const GL_VERTEX_ATTRIB_ARRAY_STRIDE: GLenum = 0x8624;

pub const GL_VERTEX_ATTRIB_ARRAY_TYPE: GLenum = 0x8625;

pub const GL_CURRENT_VERTEX_ATTRIB: GLenum = 0x8626;

pub const GL_VERTEX_ATTRIB_ARRAY_NORMALIZED: GLenum = 0x886A;

pub const GL_VERTEX_ATTRIB_ARRAY_BUFFER_BINDING: GLenum = 0x889F;

// Shaders
pub const GL_FRAGMENT_SHADER: GLenum = 0x8B30;

pub const GL_VERTEX_SHADER: GLenum = 0x8B31;

pub const GL_SHADER_TYPE: GLenum = 0x8B4F;

pub const GL_FLOAT_VEC2: GLenum = 0x8B50;

pub const GL_FLOAT_VEC3: GLenum = 0x8B51;

pub const GL_FLOAT_VEC4: GLenum = 0x8B52;

pub const GL_INT_VEC2: GLenum = 0x8B53;

pub const GL_INT_VEC3: GLenum = 0x8B54;

pub const GL_INT_VEC4: GLenum = 0x8B55;

pub const GL_BOOL: GLenum = 0x8B56;

pub const GL_BOOL_VEC2: GLenum = 0x8B57;

pub const GL_BOOL_VEC3: GLenum = 0x8B58;

pub const GL_BOOL_VEC4: GLenum = 0x8B59;

pub const GL_FLOAT_MAT2: GLenum = 0x8B5A;

pub const GL_FLOAT_MAT3: GLenum = 0x8B5B;

pub const GL_FLOAT_MAT4: GLenum = 0x8B5C;

pub const GL_SAMPLER_2D: GLenum = 0x8B5E;

pub const GL_SAMPLER_CUBE: GLenum = 0x8B60;

pub const GL_DELETE_STATUS: GLenum = 0x8B80;

pub const GL_COMPILE_STATUS: GLenum = 0x8B81;

pub const GL_LINK_STATUS: GLenum = 0x8B82;

pub const GL_VALIDATE_STATUS: GLenum = 0x8B83;

pub const GL_INFO_LOG_LENGTH: GLenum = 0x8B84;

pub const GL_ATTACHED_SHADERS: GLenum = 0x8B85;

pub const GL_ACTIVE_UNIFORMS: GLenum = 0x8B86;

pub const GL_ACTIVE_UNIFORM_MAX_LENGTH: GLenum = 0x8B87;

pub const GL_SHADER_SOURCE_LENGTH: GLenum = 0x8B88;

pub const GL_ACTIVE_ATTRIBUTES: GLenum = 0x8B89;

pub const GL_ACTIVE_ATTRIBUTE_MAX_LENGTH: GLenum = 0x8B8A;

pub const GL_SHADING_LANGUAGE_VERSION: GLenum = 0x8B8C;

pub const GL_CURRENT_PROGRAM: GLenum = 0x8B8D;

pub const GL_IMPLEMENTATION_COLOR_READ_TYPE: GLenum = 0x8B9A;

pub const GL_IMPLEMENTATION_COLOR_READ_FORMAT: GLenum = 0x8B9B;

// Shader binaries and precision
pub const GL_SHADER_BINARY_FORMATS: GLenum = 0x8DF8;

pub const GL_NUM_SHADER_BINARY_FORMATS: GLenum = 0x8DF9;

pub const GL_SHADER_COMPILER: GLenum = 0x8DFA;

pub const GL_LOW_FLOAT: GLenum = 0x8DF0;

pub const GL_MEDIUM_FLOAT: GLenum = 0x8DF1;

pub const GL_HIGH_FLOAT: GLenum = 0x8DF2;

pub const GL_LOW_INT: GLenum = 0x8DF3;

pub const GL_MEDIUM_INT: GLenum = 0x8DF4;

pub const GL_HIGH_INT: GLenum = 0x8DF5;

// Framebuffers and renderbuffers
pub const GL_DEPTH_STENCIL_ATTACHMENT: GLenum = 0x821A;

pub const GL_DEPTH_STENCIL: GLenum = 0x84F9;

pub const GL_READ_FRAMEBUFFER: GLenum = 0x8CA8;

pub const GL_DRAW_FRAMEBUFFER: GLenum = 0x8CA9;

pub const GL_FRAMEBUFFER_BINDING: GLenum = 0x8CA6;

pub const GL_RENDERBUFFER_BINDING: GLenum = 0x8CA7;

pub const GL_FRAMEBUFFER_ATTACHMENT_OBJECT_TYPE: GLenum = 0x8CD0;

pub const GL_FRAMEBUFFER_ATTACHMENT_OBJECT_NAME: GLenum = 0x8CD1;

pub const GL_FRAMEBUFFER_ATTACHMENT_TEXTURE_LEVEL: GLenum = 0x8CD2;

pub const GL_FRAMEBUFFER_ATTACHMENT_TEXTURE_CUBE_MAP_FACE: GLenum = 0x8CD3;

pub const GL_FRAMEBUFFER_COMPLETE: GLenum = 0x8CD5;

pub const GL_FRAMEBUFFER_INCOMPLETE_ATTACHMENT: GLenum = 0x8CD6;

pub const GL_FRAMEBUFFER_INCOMPLETE_MISSING_ATTACHMENT: GLenum = 0x8CD7;

pub const GL_FRAMEBUFFER_INCOMPLETE_DIMENSIONS: GLenum = 0x8CD9;

pub const GL_FRAMEBUFFER_UNSUPPORTED: GLenum = 0x8CDD;

pub const GL_MAX_COLOR_ATTACHMENTS: GLenum = 0x8CDF;

pub const GL_COLOR_ATTACHMENT0: GLenum = 0x8CE0;

pub const GL_COLOR_ATTACHMENT1: GLenum = 0x8CE1;

pub const GL_COLOR_ATTACHMENT2: GLenum = 0x8CE2;

pub const GL_COLOR_ATTACHMENT3: GLenum = 0x8CE3;

pub const GL_COLOR_ATTACHMENT4: GLenum = 0x8CE4;

pub const GL_COLOR_ATTACHMENT5: GLenum = 0x8CE5;

pub const GL_COLOR_ATTACHMENT6: GLenum = 0x8CE6;

pub const GL_COLOR_ATTACHMENT7: GLenum = 0x8CE7;

pub const GL_COLOR_ATTACHMENT8: GLenum = 0x8CE8;

pub const GL_COLOR_ATTACHMENT9: GLenum = 0x8CE9;

pub const GL_COLOR_ATTACHMENT10: GLenum = 0x8CEA;

pub const GL_COLOR_ATTACHMENT11: GLenum = 0x8CEB;

pub const GL_COLOR_ATTACHMENT12: GLenum = 0x8CEC;

pub const GL_COLOR_ATTACHMENT13: GLenum = 0x8CED;

pub const GL_COLOR_ATTACHMENT14: GLenum = 0x8CEE;

pub const GL_COLOR_ATTACHMENT15: GLenum = 0x8CEF;

pub const GL_DEPTH_ATTACHMENT: GLenum = 0x8D00;

pub const GL_STENCIL_ATTACHMENT: GLenum = 0x8D20;

pub const GL_FRAMEBUFFER: GLenum = 0x8D40;

pub const GL_RENDERBUFFER: GLenum = 0x8D41;

pub const GL_RENDERBUFFER_WIDTH: GLenum = 0x8D42;

pub const GL_RENDERBUFFER_HEIGHT: GLenum = 0x8D43;

pub const GL_RENDERBUFFER_INTERNAL_FORMAT: GLenum = 0x8D44;

pub const GL_RENDERBUFFER_RED_SIZE: GLenum = 0x8D50;

pub const GL_RENDERBUFFER_GREEN_SIZE: GLenum = 0x8D51;

pub const GL_RENDERBUFFER_BLUE_SIZE: GLenum = 0x8D52;

pub const GL_RENDERBUFFER_ALPHA_SIZE: GLenum = 0x8D53;

pub const GL_RENDERBUFFER_DEPTH_SIZE: GLenum = 0x8D54;

pub const GL_RENDERBUFFER_STENCIL_SIZE: GLenum = 0x8D55;

// Sized pixel formats
pub const GL_RGBA4: GLenum = 0x8056;

pub const GL_RGB5_A1: GLenum = 0x8057;

pub const GL_DEPTH_COMPONENT16: GLenum = 0x81A5;

pub const GL_STENCIL_INDEX8: GLenum = 0x8D48;

pub const GL_RGB565: GLenum = 0x8D62;

// Packed pixel data types
pub const GL_UNSIGNED_SHORT_4_4_4_4: GLenum = 0x8033;

pub const GL_UNSIGNED_SHORT_5_5_5_1: GLenum = 0x8034;

pub const GL_UNSIGNED_SHORT_5_6_5: GLenum = 0x8363;

// Integer pixel formats
pub const GL_RG: GLenum = 0x8227;

pub const GL_RG_INTEGER: GLenum = 0x8228;

pub const GL_RED_INTEGER: GLenum = 0x8D94;

pub const GL_RGB_INTEGER: GLenum = 0x8D98;

pub const GL_RGBA_INTEGER: GLenum = 0x8D99;

} // verus!
