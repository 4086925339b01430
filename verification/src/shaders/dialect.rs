//! The language variants a compiler is constructed for, and the numbers by
//! which the engine knows them.
use vstd::prelude::*;

verus! {

pub const SH_GLES2_SPEC: u32 = 0;

pub const SH_WEBGL_SPEC: u32 = 1;

pub const SH_GLES3_SPEC: u32 = 2;

pub const SH_WEBGL2_SPEC: u32 = 3;

pub const SH_WEBGL3_SPEC: u32 = 5;

pub const SH_ESSL_OUTPUT: u32 = 0x8B45;

pub const SH_GLSL_COMPATIBILITY_OUTPUT: u32 = 0x8B46;

pub const SH_GLSL_130_OUTPUT: u32 = 0x8B47;

pub const SH_GLSL_140_OUTPUT: u32 = 0x8B80;

pub const SH_GLSL_150_CORE_OUTPUT: u32 = 0x8B81;

pub const SH_GLSL_330_CORE_OUTPUT: u32 = 0x8B82;

pub const SH_GLSL_400_CORE_OUTPUT: u32 = 0x8B83;

pub const SH_GLSL_410_CORE_OUTPUT: u32 = 0x8B84;

pub const SH_GLSL_420_CORE_OUTPUT: u32 = 0x8B85;

pub const SH_GLSL_430_CORE_OUTPUT: u32 = 0x8B86;

pub const SH_GLSL_440_CORE_OUTPUT: u32 = 0x8B87;

pub const SH_GLSL_450_CORE_OUTPUT: u32 = 0x8B88;

/// A value that the engine takes as one of its own enumeration numbers.
pub trait AsAngleEnum {
    /// The engine's number for this value.
    spec fn angle_enum(&self) -> u32;

    /// The number to hand to the engine for this value.
    fn as_angle_enum(&self) -> (code: u32)
        ensures
            code == self.angle_enum(),
    ;
}

/// The specification a shader is validated against.
#[derive(Clone, Copy, Debug, PartialEq, Eq)]
pub enum ShaderSpec {
    Gles2,
    WebGL,
    Gles3,
    WebGL2,
    WebGL3,
}

impl AsAngleEnum for ShaderSpec {
    open spec fn angle_enum(&self) -> u32 {
        match *self {
            ShaderSpec::Gles2 => SH_GLES2_SPEC,
            ShaderSpec::WebGL => SH_WEBGL_SPEC,
            ShaderSpec::Gles3 => SH_GLES3_SPEC,
            ShaderSpec::WebGL2 => SH_WEBGL2_SPEC,
            ShaderSpec::WebGL3 => SH_WEBGL3_SPEC,
        }
    }

    #[inline]
    fn as_angle_enum(&self) -> (code: u32) {
        match *self {
            ShaderSpec::Gles2 => SH_GLES2_SPEC,
            ShaderSpec::WebGL => SH_WEBGL_SPEC,
            ShaderSpec::Gles3 => SH_GLES3_SPEC,
            ShaderSpec::WebGL2 => SH_WEBGL2_SPEC,
            ShaderSpec::WebGL3 => SH_WEBGL3_SPEC,
        }
    }
}

/// The language that translated code is written in.
///
/// `Glsl` is another name for `GlslCompat`, and `GlslCore` for `Glsl130`:
/// the engine is handed the same number for both of a pair.
#[derive(Clone, Copy, Debug, PartialEq, Eq)]
pub enum Output {
    Essl,
    Glsl,
    GlslCompat,
    GlslCore,
    Glsl130,
    Glsl140,
    Glsl150Core,
    Glsl330Core,
    Glsl400Core,
    Glsl410Core,
    Glsl420Core,
    Glsl430Core,
    Glsl440Core,
    Glsl450Core,
}

impl AsAngleEnum for Output {
    open spec fn angle_enum(&self) -> u32 {
        match *self {
            Output::Essl => SH_ESSL_OUTPUT,
            Output::Glsl | Output::GlslCompat => SH_GLSL_COMPATIBILITY_OUTPUT,
            Output::GlslCore | Output::Glsl130 => SH_GLSL_130_OUTPUT,
            Output::Glsl140 => SH_GLSL_140_OUTPUT,
            Output::Glsl150Core => SH_GLSL_150_CORE_OUTPUT,
            Output::Glsl330Core => SH_GLSL_330_CORE_OUTPUT,
            Output::Glsl400Core => SH_GLSL_400_CORE_OUTPUT,
            Output::Glsl410Core => SH_GLSL_410_CORE_OUTPUT,
            Output::Glsl420Core => SH_GLSL_420_CORE_OUTPUT,
            Output::Glsl430Core => SH_GLSL_430_CORE_OUTPUT,
            Output::Glsl440Core => SH_GLSL_440_CORE_OUTPUT,
            Output::Glsl450Core => SH_GLSL_450_CORE_OUTPUT,
        }
    }

    #[inline]
    fn as_angle_enum(&self) -> (code: u32) {
        match *self {
            Output::Essl => SH_ESSL_OUTPUT,
            Output::Glsl => SH_GLSL_COMPATIBILITY_OUTPUT,
            Output::GlslCompat => SH_GLSL_COMPATIBILITY_OUTPUT,
            Output::GlslCore => SH_GLSL_130_OUTPUT,
            Output::Glsl130 => SH_GLSL_130_OUTPUT,
            Output::Glsl140 => SH_GLSL_140_OUTPUT,
            Output::Glsl150Core => SH_GLSL_150_CORE_OUTPUT,
            Output::Glsl330Core => SH_GLSL_330_CORE_OUTPUT,
            Output::Glsl400Core => SH_GLSL_400_CORE_OUTPUT,
            Output::Glsl410Core => SH_GLSL_410_CORE_OUTPUT,
            Output::Glsl420Core => SH_GLSL_420_CORE_OUTPUT,
            Output::Glsl430Core => SH_GLSL_430_CORE_OUTPUT,
            Output::Glsl440Core => SH_GLSL_440_CORE_OUTPUT,
            Output::Glsl450Core => SH_GLSL_450_CORE_OUTPUT,
        }
    }
}

} // verus!
