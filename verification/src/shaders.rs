//! Shader validation and translation.
pub mod dialect;
pub mod engine;
pub mod names;
pub mod options;
pub mod resources;
pub mod text;
pub mod validator;

pub use self::dialect::{AsAngleEnum, Output, ShaderSpec};
pub use self::engine::{finalize, initialize};
pub use self::names::{NameError, UniformNameMap};
pub use self::options::CompileOptions;
pub use self::resources::BuiltInResources;
pub use self::validator::{
    CompileCall, CompileOutcome, CompileResults, ConstructCall, ShaderValidator,
};
