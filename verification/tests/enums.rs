use gles20::enums::ActionType;
use gles20::enums::BeginMode;
use gles20::enums::BlendFactor;
use gles20::enums::BufferTarget;
use gles20::enums::ColorBufferMode;
use gles20::enums::DataType;
use gles20::enums::ErrorType;
use gles20::enums::FaceMode;
use gles20::enums::FrameBufferStatus;
use gles20::enums::FuncType;
use gles20::enums::ShaderType;
use gles20::enums::StateType;
use gles20::enums::TextureBindTarget;
use gles20::enums::TextureUnit;

#[test]
fn to_numeric_matches_published_constants() {
    assert_eq!(TextureUnit::Texture0.to_numeric(), 0x84C0);
    assert_eq!(TextureUnit::Texture31.to_numeric(), 0x84DF);
    assert_eq!(BufferTarget::ARRAY_BUFFER.to_numeric(), 0x8892);
    assert_eq!(BufferTarget::ELEMENT_ARRAY_BUFFER.to_numeric(), 0x8893);
    assert_eq!(TextureBindTarget::TEXTURE_2D.to_numeric(), 0x0DE1);
    assert_eq!(TextureBindTarget::TEXTURE_CUBE_MAP.to_numeric(), 0x8513);
    assert_eq!(BlendFactor::ONE_MINUS_SRC_ALPHA.to_numeric(), 0x0303);
    assert_eq!(ShaderType::FRAGMENT_SHADER.to_numeric(), 0x8B30);
    assert_eq!(ShaderType::VERTEX_SHADER.to_numeric(), 0x8B31);
    assert_eq!(BeginMode::TRIANGLES.to_numeric(), 0x0004);
    assert_eq!(FuncType::LEQUAL.to_numeric(), 0x0203);
    assert_eq!(ActionType::KEEP.to_numeric(), 0x1E00);
    assert_eq!(StateType::VIEWPORT.to_numeric(), 0x0BA2);
    assert_eq!(DataType::FLOAT_MAT4.to_numeric(), 0x8B5C);
    assert_eq!(ErrorType::OUT_OF_MEMORY.to_numeric(), 0x0505);
    assert_eq!(FrameBufferStatus::FRAMEBUFFER_COMPLETE.to_numeric(), 0x8CD5);
    assert_eq!(ColorBufferMode::NoBuffer.to_numeric(), 0);
}

#[test]
fn round_trip_on_every_face_mode_variant() {
    let all = [FaceMode::FRONT, FaceMode::BACK, FaceMode::FRONT_AND_BACK];
    for v in all {
        assert_eq!(FaceMode::from_numeric(v.to_numeric()), Some(v));
    }
}

#[test]
fn round_trip_on_every_texture_unit_variant() {
    let all = [
        TextureUnit::Texture0,
        TextureUnit::Texture1,
        TextureUnit::Texture2,
        TextureUnit::Texture3,
        TextureUnit::Texture4,
        TextureUnit::Texture5,
        TextureUnit::Texture6,
        TextureUnit::Texture7,
        TextureUnit::Texture8,
        TextureUnit::Texture9,
        TextureUnit::Texture10,
        TextureUnit::Texture11,
        TextureUnit::Texture12,
        TextureUnit::Texture13,
        TextureUnit::Texture14,
        TextureUnit::Texture15,
        TextureUnit::Texture16,
        TextureUnit::Texture17,
        TextureUnit::Texture18,
        TextureUnit::Texture19,
        TextureUnit::Texture20,
        TextureUnit::Texture21,
        TextureUnit::Texture22,
        TextureUnit::Texture23,
        TextureUnit::Texture24,
        TextureUnit::Texture25,
        TextureUnit::Texture26,
        TextureUnit::Texture27,
        TextureUnit::Texture28,
        TextureUnit::Texture29,
        TextureUnit::Texture30,
        TextureUnit::Texture31,
    ];
    for v in all {
        assert_eq!(TextureUnit::from_numeric(v.to_numeric()), Some(v));
    }
}

#[test]
fn round_trip_on_every_error_type_variant() {
    let all = [
        ErrorType::NO_ERROR,
        ErrorType::INVALID_ENUM,
        ErrorType::INVALID_VALUE,
        ErrorType::INVALID_OPERATION,
        ErrorType::INVALID_FRAMEBUFFER_OPERATION,
        ErrorType::OUT_OF_MEMORY,
    ];
    for v in all {
        assert_eq!(ErrorType::from_numeric(v.to_numeric()), Some(v));
    }
}

#[test]
fn no_two_error_type_variants_share_a_constant() {
    let all = [
        ErrorType::NO_ERROR,
        ErrorType::INVALID_ENUM,
        ErrorType::INVALID_VALUE,
        ErrorType::INVALID_OPERATION,
        ErrorType::INVALID_FRAMEBUFFER_OPERATION,
        ErrorType::OUT_OF_MEMORY,
    ];
    for a in all {
        for b in all {
            if a.to_numeric() == b.to_numeric() {
                assert_eq!(a, b);
            }
        }
    }
}

#[test]
fn no_two_blend_factor_variants_share_a_constant() {
    let all = [
        BlendFactor::ZERO,
        BlendFactor::ONE,
        BlendFactor::SRC_COLOR,
        BlendFactor::ONE_MINUS_SRC_COLOR,
        BlendFactor::DST_COLOR,
        BlendFactor::ONE_MINUS_DST_COLOR,
        BlendFactor::SRC_ALPHA,
        BlendFactor::ONE_MINUS_SRC_ALPHA,
        BlendFactor::DST_ALPHA,
        BlendFactor::ONE_MINUS_DST_ALPHA,
        BlendFactor::CONSTANT_COLOR,
        BlendFactor::ONE_MINUS_CONSTANT_COLOR,
        BlendFactor::CONSTANT_ALPHA,
        BlendFactor::ONE_MINUS_CONSTANT_ALPHA,
        BlendFactor::SRC_ALPHA_SATURATE,
    ];
    for a in all {
        for b in all {
            if a.to_numeric() == b.to_numeric() {
                assert_eq!(a, b);
            }
        }
    }
}

#[test]
fn from_numeric_rejects_unknown_constants() {
    assert_eq!(BufferTarget::from_numeric(0xFFFF), None);
    assert_eq!(ErrorType::from_numeric(0x1234), None);
    assert_eq!(DataType::from_numeric(0xFFFF_FFFF), None);
}

#[test]
fn unknown_error_code_falls_back_to_no_error() {
    assert_eq!(ErrorType::from_numeric_or_default(0x1234), ErrorType::NO_ERROR);
    assert_eq!(ErrorType::from(0x1234u32), ErrorType::NO_ERROR);
    assert_eq!(ErrorType::from(0x0505u32), ErrorType::OUT_OF_MEMORY);
}

#[test]
fn unknown_framebuffer_status_falls_back_to_unsupported() {
    assert_eq!(
        FrameBufferStatus::from_numeric_or_default(0xABCD),
        FrameBufferStatus::FRAMEBUFFER_UNSUPPORTED
    );
    assert_eq!(
        FrameBufferStatus::from(0xABCDu32),
        FrameBufferStatus::FRAMEBUFFER_UNSUPPORTED
    );
    assert_eq!(
        FrameBufferStatus::from(0x8CD5u32),
        FrameBufferStatus::FRAMEBUFFER_COMPLETE
    );
}

#[test]
fn unknown_data_type_falls_back_to_byte() {
    assert_eq!(DataType::from_numeric_or_default(0x9999), DataType::BYTE);
    assert_eq!(DataType::from(0x9999u32), DataType::BYTE);
    assert_eq!(DataType::from(0x8B50u32), DataType::FLOAT_VEC2);
}
