//! What the translator is asked to do during one compilation.
use vstd::prelude::*;

verus! {

/// The switches of one compilation. A switch that is off leaves the
/// translator's behaviour for it at the engine's default.
#[derive(Clone, Copy, Debug, PartialEq, Eq)]
pub struct CompileOptions {
    /// Hold loops and indexing to the minimum that the language guarantees.
    pub validate_loop_indexing: bool,
    /// Emit the translated source.
    pub object_code: bool,
    /// Collect the shader's variables, which the uniform name map is read from.
    pub variables: bool,
    /// Replace `abs` on integers, for drivers that get it wrong.
    pub emulate_abs_int_function: bool,
    /// Replace `isnan` on floats, for drivers that get it wrong.
    pub emulate_isnan_float_function: bool,
    /// Replace `atan` with two float arguments, for drivers that get it wrong.
    pub emulate_atan2_float_function: bool,
    /// Clamp every computed array index to the array's bounds.
    pub clamp_indirect_array_bounds: bool,
    /// Give `gl_Position` a value at the start of a vertex shader.
    pub init_gl_position: bool,
    /// Enforce the packing restrictions on uniforms.
    pub enforce_packing_restrictions: bool,
    /// Refuse expressions above the configured complexity.
    pub limit_expression_complexity: bool,
    /// Refuse call stacks above the configured depth.
    pub limit_call_stack_depth: bool,
}

impl CompileOptions {
    /// The record with every switch off.
    pub open spec fn new_spec() -> CompileOptions {
        CompileOptions {
            validate_loop_indexing: false,
            object_code: false,
            variables: false,
            emulate_abs_int_function: false,
            emulate_isnan_float_function: false,
            emulate_atan2_float_function: false,
            clamp_indirect_array_bounds: false,
            init_gl_position: false,
            enforce_packing_restrictions: false,
            limit_expression_complexity: false,
            limit_call_stack_depth: false,
        }
    }

    /// The preset record.
    pub open spec fn mozangle_spec() -> CompileOptions {
        CompileOptions {
            validate_loop_indexing: true,
            object_code: true,
            variables: true,
            emulate_abs_int_function: true,
            emulate_isnan_float_function: true,
            emulate_atan2_float_function: true,
            clamp_indirect_array_bounds: true,
            init_gl_position: true,
            enforce_packing_restrictions: true,
            limit_expression_complexity: true,
            limit_call_stack_depth: true,
        }
    }

    /// Every switch off.
    pub fn new() -> (options: Self)
        ensures
            options == Self::new_spec(),
    {
        CompileOptions {
            validate_loop_indexing: false,
            object_code: false,
            variables: false,
            emulate_abs_int_function: false,
            emulate_isnan_float_function: false,
            emulate_atan2_float_function: false,
            clamp_indirect_array_bounds: false,
            init_gl_position: false,
            enforce_packing_restrictions: false,
            limit_expression_complexity: false,
            limit_call_stack_depth: false,
        }
    }

    /// The preset for translating shaders of untrusted origin: validation,
    /// translated source and variable names are asked for, the driver
    /// workarounds are applied, and every guard this record knows is on.
    pub fn mozangle() -> (options: Self)
        ensures
            options == Self::mozangle_spec(),
    {
        let mut options = CompileOptions::new();
        options.validate_loop_indexing = true;
        options.object_code = true;
        options.variables = true;
        options.emulate_abs_int_function = true;
        options.emulate_isnan_float_function = true;
        options.emulate_atan2_float_function = true;
        options.clamp_indirect_array_bounds = true;
        options.init_gl_position = true;
        options.enforce_packing_restrictions = true;
        options.limit_expression_complexity = true;
        options.limit_call_stack_depth = true;
        options
    }
}

} // verus!
