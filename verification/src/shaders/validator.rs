//! One compiler of the engine, and the calls that drive it.
//!
//! A validator stands for one native compiler, made for a fixed shader
//! stage, specification and output language. It never calls the engine.
//! Where the engine has to act, a function here fixes the arguments of the
//! call, and a second function takes what the engine answered:
//!
//! | to hand to the engine          | on the engine's answer |
//! |--------------------------------|------------------------|
//! | [`ShaderValidator::new`]       | [`ShaderValidator::constructed`] |
//! | [`ShaderValidator::compile`]   | [`ShaderValidator::compiled`] |
//! | [`ShaderValidator::compile_and_translate`] | [`ShaderValidator::translated`] |
//! | [`ShaderValidator::destroy`]   | |
//!
//! What the engine retains from a compilation (translated code, log,
//! uniform names, varying count) is read back once the compile call has
//! returned and is kept by the validator, so that asking for it is no
//! further call.
use super::dialect::{AsAngleEnum, Output, ShaderSpec, SH_WEBGL2_SPEC, SH_WEBGL_SPEC};
use super::names::{
    decode_names, name_map, names_valid, pair_contents, pair_valid, NameError, UniformNameMap,
};
use super::options::CompileOptions;
use super::resources::BuiltInResources;
use super::text::{
    any_has_nul, c_strings, contents, from_utf8_lossy, is_lossy_text, to_c_strings,
};
use vstd::prelude::*;
use vstd::utf8::*;

verus! {

/// The arguments of the engine's call that constructs a compiler.
///
/// The engine's construction routine writes to a cache that all compilers
/// share and that nothing guards: the call is to be made under a lock that
/// the whole process shares, held for this call alone.
#[must_use]
#[derive(Clone, Copy, Debug, PartialEq, Eq)]
pub struct ConstructCall {
    /// The shader stage, as the graphics API numbers it.
    pub shader_type: u32,
    /// The engine's number for the specification.
    pub spec: u32,
    /// The engine's number for the output language.
    pub output: u32,
    /// The limits and capabilities to construct with.
    pub resources: BuiltInResources,
}

/// The arguments of the engine's call that compiles a shader. The call
/// needs no lock: a compiler that exists is the caller's alone to drive.
#[must_use]
#[derive(Debug, PartialEq, Eq)]
pub struct CompileCall {
    /// The compiler to compile with.
    pub handle: usize,
    /// The source fragments, each a terminated buffer. The engine reads them
    /// one after the other as one source.
    pub sources: Vec<Vec<u8>>,
    /// The switches of this compilation.
    pub options: CompileOptions,
}

/// What the engine holds for a compiler once a compile call has returned,
/// read back from it.
#[derive(Debug, PartialEq, Eq)]
pub struct CompileResults {
    /// The translated source, without its terminator.
    pub object_code: Vec<u8>,
    /// The diagnostics of the attempt, without their terminator.
    pub info_log: Vec<u8>,
    /// For each uniform, in the order of the engine's walk, its name in the
    /// shader and its name in the translated source.
    pub uniform_names: Vec<(Vec<u8>, Vec<u8>)>,
    /// The number of varying vectors before packing.
    pub unpacked_varying_vectors: i32,
}

/// The engine's answer to a compile call.
#[derive(Debug, PartialEq, Eq)]
pub struct CompileOutcome {
    /// What the call returned: zero for failure.
    pub status: i32,
    /// What the engine holds for the compiler now.
    pub results: CompileResults,
}

/// What a compiler retains from its last compilation.
pub struct Retained {
    pub object_code: Seq<u8>,
    pub info_log: Seq<u8>,
    pub uniform_names: Seq<(Seq<u8>, Seq<u8>)>,
    pub unpacked_varying_vectors: i32,
}

impl Retained {
    /// What a compiler retains before its first compilation: nothing.
    pub open spec fn nothing() -> Retained {
        Retained {
            object_code: Seq::empty(),
            info_log: Seq::empty(),
            uniform_names: Seq::empty(),
            unpacked_varying_vectors: 0,
        }
    }
}

impl View for CompileResults {
    type V = Retained;

    open spec fn view(&self) -> Retained {
        Retained {
            object_code: self.object_code@,
            info_log: self.info_log@,
            uniform_names: pair_contents(self.uniform_names@),
            unpacked_varying_vectors: self.unpacked_varying_vectors,
        }
    }
}

/// A validator as the contracts see it.
pub struct ValidatorView {
    /// The native compiler.
    pub handle: usize,
    /// What the last compilation left.
    pub retained: Retained,
}

impl ValidatorView {
    /// The validator after a compile call has left `results`.
    pub open spec fn after(self, results: Retained) -> ValidatorView {
        ValidatorView { handle: self.handle, retained: results }
    }

    /// The validator after compile calls have left `results`, one after the
    /// other.
    pub open spec fn after_all(self, results: Seq<Retained>) -> ValidatorView
        decreases results.len(),
    {
        if results.len() == 0 {
            self
        } else {
            self.after_all(results.drop_last()).after(results.last())
        }
    }
}

/// The call that constructs a compiler for the given stage, specification
/// and output language.
pub open spec fn construct_call(
    shader_type: u32,
    spec: ShaderSpec,
    output: Output,
    resources: BuiltInResources,
) -> ConstructCall {
    ConstructCall {
        shader_type,
        spec: spec.angle_enum(),
        output: output.angle_enum(),
        resources,
    }
}

/// One native compiler, which this value alone stands for: it is not
/// copied, and [`ShaderValidator::destroy`] uses it up.
#[derive(Debug)]
pub struct ShaderValidator {
    handle: usize,
    results: CompileResults,
}

impl View for ShaderValidator {
    type V = ValidatorView;

    closed spec fn view(&self) -> ValidatorView {
        ValidatorView { handle: self.handle, retained: self.results@ }
    }
}

impl ShaderValidator {
    #[verifier::type_invariant]
    spec fn handle_not_null(self) -> bool {
        self.handle != 0
    }

    /// The call that constructs the compiler of a new validator.
    ///
    /// The engine must have been set up, successfully, before the call is
    /// made: what the engine does with it otherwise is undefined.
    pub fn new(
        shader_type: u32,
        spec: ShaderSpec,
        output: Output,
        resources: &BuiltInResources,
    ) -> (call: ConstructCall)
        ensures
            call == construct_call(shader_type, spec, output, *resources),
    {
        ConstructCall {
            shader_type,
            spec: spec.as_angle_enum(),
            output: output.as_angle_enum(),
            resources: *resources,
        }
    }

    /// As [`ShaderValidator::new`], for the WebGL specification.
    #[inline]
    pub fn for_webgl(shader_type: u32, output: Output, resources: &BuiltInResources) -> (call:
        ConstructCall)
        ensures
            call == construct_call(shader_type, ShaderSpec::WebGL, output, *resources),
            call.spec == SH_WEBGL_SPEC,
    {
        Self::new(shader_type, ShaderSpec::WebGL, output, resources)
    }

    /// As [`ShaderValidator::new`], for the WebGL 2 specification.
    #[inline]
    pub fn for_webgl2(shader_type: u32, output: Output, resources: &BuiltInResources) -> (call:
        ConstructCall)
        ensures
            call == construct_call(shader_type, ShaderSpec::WebGL2, output, *resources),
            call.spec == SH_WEBGL2_SPEC,
    {
        Self::new(shader_type, ShaderSpec::WebGL2, output, resources)
    }

    /// The validator for the handle that the engine's construction call
    /// returned. A null handle is the engine's way of saying that it makes
    /// no compiler for what it was asked: then there is no validator, which
    /// is an answer and no failure.
    ///
    /// Each handle that the engine returns belongs to one validator: to
    /// hand the same one in twice is to have it destroyed twice.
    pub fn constructed(handle: usize) -> (validator: Option<ShaderValidator>)
        ensures
            validator is None <==> handle == 0,
            validator matches Some(v) ==> v@ == (ValidatorView {
                handle,
                retained: Retained::nothing(),
            }),
    {
        if handle == 0 {
            return None;
        }
        let results = CompileResults {
            object_code: Vec::new(),
            info_log: Vec::new(),
            uniform_names: Vec::new(),
            unpacked_varying_vectors: 0,
        };
        assert(results@.uniform_names =~= Seq::empty());
        Some(ShaderValidator { handle, results })
    }

    /// The native compiler, never null.
    pub fn handle(&self) -> (handle: usize)
        ensures
            handle == self@.handle,
            handle != 0,
    {
        proof {
            use_type_invariant(self);
        }
        self.handle
    }

    /// The call that compiles `strings`, read as one source, with
    /// `options`. A fragment that holds a terminator byte is refused here,
    /// and then there is no call to make.
    pub fn compile(&self, strings: &[&str], options: CompileOptions) -> (call: Result<
        CompileCall,
        &'static str,
    >)
        ensures
            call is Err <==> any_has_nul(strings@),
            call matches Err(message) ==> message@ == "Found invalid characters"@,
            call matches Ok(c) ==> {
                &&& c.handle == self@.handle
                &&& contents(c.sources@) == c_strings(strings@)
                &&& c.options == options
            },
    {
        match to_c_strings(strings) {
            None => Err("Found invalid characters"),
            Some(sources) => Ok(CompileCall { handle: self.handle, sources, options }),
        }
    }

    /// Takes the engine's answer to a compile call. What the engine holds
    /// now replaces what the validator kept from the compilation before,
    /// whether the call succeeded or not; a status of zero is reported as
    /// the failure of the compilation, whose reasons are in the log.
    pub fn compiled(&mut self, outcome: CompileOutcome) -> (result: Result<(), &'static str>)
        ensures
            final(self)@ == old(self)@.after(outcome.results@),
            result is Ok <==> outcome.status != 0,
            result matches Err(message) ==> message@ == "Couldn't compile shader"@,
    {
        proof {
            use_type_invariant(&*self);
        }
        self.results = outcome.results;
        if outcome.status == 0 {
            return Err("Couldn't compile shader");
        }
        Ok(())
    }

    /// The translated source of the last compilation; empty before the
    /// first.
    pub fn object_code(&self) -> (code: String)
        ensures
            is_lossy_text(code@, self@.retained.object_code),
    {
        from_utf8_lossy(self.results.object_code.as_slice())
    }

    /// The diagnostics of the last compilation, successful or not; empty
    /// before the first.
    pub fn info_log(&self) -> (log: String)
        ensures
            is_lossy_text(log@, self@.retained.info_log),
    {
        from_utf8_lossy(self.results.info_log.as_slice())
    }

    /// The call that compiles `strings` with the preset options of
    /// [`CompileOptions::mozangle`].
    pub fn compile_and_translate(&self, strings: &[&str]) -> (call: Result<
        CompileCall,
        &'static str,
    >)
        ensures
            call is Err <==> any_has_nul(strings@),
            call matches Err(message) ==> message@ == "Found invalid characters"@,
            call matches Ok(c) ==> {
                &&& c.handle == self@.handle
                &&& contents(c.sources@) == c_strings(strings@)
                &&& c.options == CompileOptions::mozangle_spec()
            },
    {
        let options = CompileOptions::mozangle();
        self.compile(strings, options)
    }

    /// Takes the engine's answer to a compile call as
    /// [`ShaderValidator::compiled`] does, and gives the translated source
    /// where the compilation succeeded.
    pub fn translated(&mut self, outcome: CompileOutcome) -> (result: Result<
        String,
        &'static str,
    >)
        ensures
            final(self)@ == old(self)@.after(outcome.results@),
            result is Ok <==> outcome.status != 0,
            result matches Ok(code) ==> is_lossy_text(code@, outcome.results@.object_code),
            result matches Err(message) ==> message@ == "Couldn't compile shader"@,
    {
        match self.compiled(outcome) {
            Ok(()) => Ok(self.object_code()),
            Err(message) => Err(message),
        }
    }

    /// The map from each uniform's name in the shader to its name in the
    /// translated source, after the last compilation. It is empty where the
    /// compilation did not collect the shader's variables.
    ///
    /// A name that is not well-formed UTF-8 is a fault of the engine that
    /// this function does not answer for:
    /// [`ShaderValidator::try_uniform_name_map`] does.
    pub fn uniform_name_map(&self) -> (names: UniformNameMap)
        requires
            names_valid(self@.retained.uniform_names),
        ensures
            names@ == name_map(self@.retained.uniform_names),
    {
        match decode_names(&self.results.uniform_names) {
            Ok(names) => names,
            Err(_) => UniformNameMap::new(),
        }
    }

    /// As [`ShaderValidator::uniform_name_map`], or the first name, in the
    /// order of the engine's walk, that is not well-formed UTF-8.
    pub fn try_uniform_name_map(&self) -> (decoded: Result<UniformNameMap, NameError>)
        ensures
            decoded is Ok <==> names_valid(self@.retained.uniform_names),
            decoded matches Ok(names) ==> names@ == name_map(self@.retained.uniform_names),
            decoded matches Err(error) ==> {
                &&& error.index < self@.retained.uniform_names.len()
                &&& names_valid(self@.retained.uniform_names.take(error.index as int))
                &&& error.in_mapped_name == valid_utf8(
                    self@.retained.uniform_names[error.index as int].0,
                )
                &&& !pair_valid(self@.retained.uniform_names[error.index as int])
            },
    {
        decode_names(&self.results.uniform_names)
    }

    /// The number of varying vectors before packing that the last
    /// compilation counted; zero before the first.
    pub fn get_num_unpacked_varying_vectors(&self) -> (count: i32)
        ensures
            count == self@.retained.unpacked_varying_vectors,
    {
        self.results.unpacked_varying_vectors
    }

    /// Gives up the validator for the handle to hand to the engine's
    /// destruction call. The validator is gone after this, so that no handle
    /// is given up twice.
    #[must_use]
    pub fn destroy(self) -> (handle: usize)
        ensures
            handle == self@.handle,
            handle != 0,
    {
        proof {
            use_type_invariant(&self);
        }
        self.handle
    }
}

/// Compiling again replaces what the compilation before had left: after two
/// compile calls a validator is as it would be after the second alone.
pub proof fn lemma_recompile_overwrites(validator: ValidatorView, first: Retained, second: Retained)
    ensures
        validator.after(first).after(second) == validator.after(second),
{
}

/// However many compile calls a validator has taken, none or many, it
/// stands for the compiler it was constructed for, and what it retains is
/// what the last of them left.
pub proof fn lemma_compiles_keep_handle(validator: ValidatorView, results: Seq<Retained>)
    ensures
        validator.after_all(results).handle == validator.handle,
        validator.after_all(results).retained == if results.len() == 0 {
            validator.retained
        } else {
            results.last()
        },
    decreases results.len(),
{
    if results.len() > 0 {
        lemma_compiles_keep_handle(validator, results.drop_last());
    }
}

} // verus!
