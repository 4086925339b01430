use mozangle::shaders::names::decode_names;
use mozangle::shaders::text::{decode, to_c_string, to_c_strings};
use mozangle::shaders::{
    finalize, initialize, AsAngleEnum, BuiltInResources, CompileOptions, CompileOutcome,
    CompileResults, ConstructCall, Output, ShaderSpec, ShaderValidator, UniformNameMap,
};

const FRAGMENT_SHADER: u32 = 0x8B30;

fn validator(handle: usize) -> ShaderValidator {
    ShaderValidator::constructed(handle).unwrap()
}

fn outcome(
    status: i32,
    code: &[u8],
    log: &[u8],
    names: &[(&[u8], &[u8])],
    count: i32,
) -> CompileOutcome {
    CompileOutcome {
        status,
        results: CompileResults {
            object_code: code.to_vec(),
            info_log: log.to_vec(),
            uniform_names: names.iter().map(|(a, b)| (a.to_vec(), b.to_vec())).collect(),
            unpacked_varying_vectors: count,
        },
    }
}

#[test]
fn initialize_reports_the_engines_status() {
    assert_eq!(initialize(1), Ok(()));
    assert_eq!(initialize(-1), Ok(()));
    assert_eq!(initialize(i32::MAX), Ok(()));
    assert_eq!(initialize(0), Err("Couldn't initialize GLSLang"));
}

#[test]
fn finalize_reports_the_engines_status() {
    assert_eq!(finalize(1), Ok(()));
    assert_eq!(finalize(i32::MIN), Ok(()));
    assert_eq!(finalize(0), Err("Couldn't finalize GLSLang"));
}

#[test]
fn shader_specs_have_the_engines_numbers() {
    assert_eq!(ShaderSpec::Gles2.as_angle_enum(), 0);
    assert_eq!(ShaderSpec::WebGL.as_angle_enum(), 1);
    assert_eq!(ShaderSpec::Gles3.as_angle_enum(), 2);
    assert_eq!(ShaderSpec::WebGL2.as_angle_enum(), 3);
    assert_eq!(ShaderSpec::WebGL3.as_angle_enum(), 5);
}

#[test]
fn outputs_have_the_engines_numbers() {
    assert_eq!(Output::Essl.as_angle_enum(), 0x8B45);
    assert_eq!(Output::Glsl.as_angle_enum(), 0x8B46);
    assert_eq!(Output::GlslCompat.as_angle_enum(), 0x8B46);
    assert_eq!(Output::GlslCore.as_angle_enum(), 0x8B47);
    assert_eq!(Output::Glsl130.as_angle_enum(), 0x8B47);
    assert_eq!(Output::Glsl140.as_angle_enum(), 0x8B80);
    assert_eq!(Output::Glsl150Core.as_angle_enum(), 0x8B81);
    assert_eq!(Output::Glsl330Core.as_angle_enum(), 0x8B82);
    assert_eq!(Output::Glsl400Core.as_angle_enum(), 0x8B83);
    assert_eq!(Output::Glsl410Core.as_angle_enum(), 0x8B84);
    assert_eq!(Output::Glsl420Core.as_angle_enum(), 0x8B85);
    assert_eq!(Output::Glsl430Core.as_angle_enum(), 0x8B86);
    assert_eq!(Output::Glsl440Core.as_angle_enum(), 0x8B87);
    assert_eq!(Output::Glsl450Core.as_angle_enum(), 0x8B88);
}

#[test]
fn resources_come_in_two_forms() {
    assert_eq!(BuiltInResources::empty(), BuiltInResources::Zeroed);
    assert_eq!(BuiltInResources::default(), BuiltInResources::EngineDefault);
    assert_ne!(BuiltInResources::empty(), BuiltInResources::default());
}

#[test]
fn preset_options_switch_every_guard_on() {
    let options = CompileOptions::mozangle();
    assert!(options.validate_loop_indexing);
    assert!(options.object_code);
    assert!(options.variables);
    assert!(options.emulate_abs_int_function);
    assert!(options.emulate_isnan_float_function);
    assert!(options.emulate_atan2_float_function);
    assert!(options.clamp_indirect_array_bounds);
    assert!(options.init_gl_position);
    assert!(options.enforce_packing_restrictions);
    assert!(options.limit_expression_complexity);
    assert!(options.limit_call_stack_depth);
}

#[test]
fn new_options_switch_everything_off() {
    let options = CompileOptions::new();
    assert_eq!(
        options,
        CompileOptions {
            validate_loop_indexing: false,
            object_code: false,
            variables: false,
            emulate_abs_int_function: false,
            emulate_isnan_float_function: false,
            emulate_atan2_float_function: false,
            clamp_indirect_array_bounds: false,
            init_gl_position: false,
            enforce_packing_restrictions: false,
            limit_expression_complexity: false,
            limit_call_stack_depth: false,
        }
    );
    assert_ne!(options, CompileOptions::mozangle());
}

#[test]
fn construction_call_carries_the_engines_numbers() {
    let resources = BuiltInResources::default();
    assert_eq!(
        ShaderValidator::new(FRAGMENT_SHADER, ShaderSpec::Gles3, Output::Glsl330Core, &resources),
        ConstructCall {
            shader_type: 0x8B30,
            spec: 2,
            output: 0x8B82,
            resources: BuiltInResources::EngineDefault,
        }
    );
    assert_eq!(
        ShaderValidator::for_webgl(0x8B31, Output::Essl, &BuiltInResources::empty()),
        ConstructCall {
            shader_type: 0x8B31,
            spec: 1,
            output: 0x8B45,
            resources: BuiltInResources::Zeroed,
        }
    );
    assert_eq!(
        ShaderValidator::for_webgl2(FRAGMENT_SHADER, Output::Glsl, &resources),
        ConstructCall {
            shader_type: 0x8B30,
            spec: 3,
            output: 0x8B46,
            resources: BuiltInResources::EngineDefault,
        }
    );
}

#[test]
fn null_handle_gives_no_validator() {
    assert!(ShaderValidator::constructed(0).is_none());
    assert_eq!(validator(1).handle(), 1);
    assert_eq!(validator(usize::MAX).handle(), usize::MAX);
}

#[test]
fn fresh_validator_retains_nothing() {
    let compiler = validator(7);
    assert_eq!(compiler.object_code(), "");
    assert_eq!(compiler.info_log(), "");
    assert!(compiler.uniform_name_map().is_empty());
    assert_eq!(compiler.get_num_unpacked_varying_vectors(), 0);
    assert_eq!(compiler.destroy(), 7);
}

#[test]
fn embedded_terminator_is_refused_before_any_call() {
    let compiler = validator(7);
    let options = CompileOptions::mozangle();
    let refused = Some("Found invalid characters");
    assert_eq!(compiler.compile(&["void main()\0{}"], options).err(), refused);
    assert_eq!(compiler.compile(&["void main()", "{}\0"], options).err(), refused);
    assert_eq!(compiler.compile(&["\0"], options).err(), refused);
    assert_eq!(compiler.compile_and_translate(&["a", "b\0c", "d"]).err(), refused);
    assert_eq!(compiler.object_code(), "");
    assert_eq!(compiler.info_log(), "");
}

#[test]
fn compile_call_holds_terminated_fragments_in_order() {
    let compiler = validator(0xABCD);
    let mut options = CompileOptions::new();
    options.object_code = true;
    let call = compiler.compile(&["ab", "", "c\u{e9}\u{20ac}\u{1f600}"], options).unwrap();
    assert_eq!(call.handle, 0xABCD);
    assert_eq!(call.options, options);
    assert_eq!(
        call.sources,
        vec![
            vec![b'a', b'b', 0],
            vec![0],
            vec![b'c', 0xC3, 0xA9, 0xE2, 0x82, 0xAC, 0xF0, 0x9F, 0x98, 0x80, 0],
        ]
    );
    let call = compiler.compile(&[], options).unwrap();
    assert!(call.sources.is_empty());
}

#[test]
fn compile_and_translate_asks_for_the_preset() {
    let compiler = validator(3);
    let call = compiler.compile_and_translate(&["void main(){}"]).unwrap();
    assert_eq!(call.handle, 3);
    assert_eq!(call.options, CompileOptions::mozangle());
    assert_eq!(call.sources, vec![b"void main(){}\0".to_vec()]);
}

#[test]
fn compiled_judges_by_the_status_and_keeps_the_results() {
    let mut compiler = validator(3);
    assert_eq!(compiler.compiled(outcome(1, b"code", b"warning", &[], 4)), Ok(()));
    assert_eq!(compiler.object_code(), "code");
    assert_eq!(compiler.info_log(), "warning");
    assert_eq!(compiler.get_num_unpacked_varying_vectors(), 4);

    let failed = Err("Couldn't compile shader");
    assert_eq!(compiler.compiled(outcome(0, b"", b"error", &[], -1)), failed);
    assert_eq!(compiler.object_code(), "");
    assert_eq!(compiler.info_log(), "error");
    assert_eq!(compiler.get_num_unpacked_varying_vectors(), -1);

    assert_eq!(compiler.compiled(outcome(-5, b"again", b"", &[], 0)), Ok(()));
    assert_eq!(compiler.object_code(), "again");
    assert_eq!(compiler.handle(), 3);
}

#[test]
fn translated_gives_the_code_only_on_success() {
    let mut compiler = validator(3);
    let first = compiler.translated(outcome(1, b"first", b"", &[], 0));
    assert_eq!(first, Ok("first".to_string()));
    let failed = compiler.translated(outcome(0, b"stale", b"no", &[], 0));
    assert_eq!(failed, Err("Couldn't compile shader"));
    assert_eq!(compiler.object_code(), "stale");
    let second = compiler.translated(outcome(2, b"second", b"", &[], 0));
    assert_eq!(second, Ok("second".to_string()));
}

#[test]
fn malformed_code_and_log_are_read_with_replacements() {
    let mut compiler = validator(3);
    compiler.compiled(outcome(1, b"a\xFFb", b"\xC3(\xE2\x82", &[], 0)).unwrap();
    assert_eq!(compiler.object_code(), "a\u{FFFD}b");
    assert_eq!(compiler.info_log(), "\u{FFFD}(\u{FFFD}");
    let code = "gr\u{fc}n".as_bytes();
    let log = "\u{20ac}".as_bytes();
    compiler.compiled(outcome(1, code, log, &[], 0)).unwrap();
    assert_eq!(compiler.object_code(), "gr\u{fc}n");
    assert_eq!(compiler.info_log(), "\u{20ac}");
}

#[test]
fn uniform_names_are_decoded_into_a_map() {
    let mut compiler = validator(3);
    let names: [(&[u8], &[u8]); 3] = [
        (b"uSampler", b"_uuSampler"),
        ("u\u{3b1}".as_bytes(), b"webgl_1"),
        (b"uColor", b"_uuColor"),
    ];
    compiler.compiled(outcome(1, b"", b"", &names, 0)).unwrap();
    let map = compiler.uniform_name_map();
    assert_eq!(map.len(), 3);
    assert_eq!(map.get("uSampler").map(String::as_str), Some("_uuSampler"));
    assert_eq!(map.get("u\u{3b1}").map(String::as_str), Some("webgl_1"));
    assert_eq!(map.get("uColor").map(String::as_str), Some("_uuColor"));
    assert_eq!(map.get("_uuColor"), None);
    let mut keys = map.keys();
    keys.sort();
    assert_eq!(keys, ["uColor", "uSampler", "u\u{3b1}"]);
    assert!(compiler.try_uniform_name_map().is_ok());
}

#[test]
fn later_uniform_pair_replaces_an_earlier_one() {
    let mut compiler = validator(3);
    let names: [(&[u8], &[u8]); 3] = [(b"a", b"1"), (b"b", b"2"), (b"a", b"3")];
    compiler.compiled(outcome(1, b"", b"", &names, 0)).unwrap();
    let map = compiler.uniform_name_map();
    assert_eq!(map.len(), 2);
    assert_eq!(map.get("a").map(String::as_str), Some("3"));
    assert_eq!(map.get("b").map(String::as_str), Some("2"));
}

#[test]
fn malformed_uniform_name_is_reported_with_its_place() {
    let mut compiler = validator(3);
    let names: [(&[u8], &[u8]); 3] = [(b"a", b"1"), (b"b", b"\xFF"), (b"\xC0", b"3")];
    compiler.compiled(outcome(1, b"", b"", &names, 0)).unwrap();
    let error = compiler.try_uniform_name_map().err().unwrap();
    assert_eq!(error.index, 1);
    assert!(error.in_mapped_name);
    assert_eq!(error.cause.valid_up_to(), 0);

    let names: [(&[u8], &[u8]); 2] = [(b"ok\xE2\x82", b"\xFF"), (b"b", b"2")];
    compiler.compiled(outcome(1, b"", b"", &names, 0)).unwrap();
    let error = compiler.try_uniform_name_map().err().unwrap();
    assert_eq!(error.index, 0);
    assert!(!error.in_mapped_name);
    assert_eq!(error.cause.valid_up_to(), 2);
}

#[test]
fn decode_names_walks_the_pairs_in_order() {
    assert!(decode_names(&Vec::new()).ok().unwrap().is_empty());
    let pairs = vec![(b"x".to_vec(), b"y".to_vec())];
    let map = decode_names(&pairs).ok().unwrap();
    assert_eq!(map.into_entries(), vec![("x".to_string(), "y".to_string())]);
    let pairs = vec![(b"x".to_vec(), b"y".to_vec()), (vec![0x80], b"z".to_vec())];
    assert_eq!(decode_names(&pairs).err().unwrap().index, 1);
}

#[test]
fn decode_accepts_exactly_well_formed_text() {
    assert_eq!(decode(b"").ok(), Some(String::new()));
    assert_eq!(decode(b"uSampler").ok(), Some("uSampler".to_string()));
    assert_eq!(decode(&[0xF0, 0x9F, 0x98, 0x80]).ok(), Some("\u{1f600}".to_string()));
    assert!(decode(&[0xF0, 0x9F, 0x98]).is_err());
    assert!(decode(&[0xED, 0xA0, 0x80]).is_err());
    assert!(decode(&[0xC0, 0x80]).is_err());
    assert!(decode(&[b'a', 0xFF]).is_err());
}

#[test]
fn c_string_is_the_text_and_a_terminator() {
    assert_eq!(to_c_string(""), Some(vec![0]));
    assert_eq!(to_c_string("void"), Some(vec![b'v', b'o', b'i', b'd', 0]));
    assert_eq!(to_c_string("\u{e9}"), Some(vec![0xC3, 0xA9, 0]));
    assert_eq!(to_c_string("\0"), None);
    assert_eq!(to_c_string("a\0b"), None);
    assert_eq!(to_c_string("ab\0"), None);
}

#[test]
fn c_strings_are_refused_as_a_whole() {
    assert_eq!(to_c_strings(&[]), Some(vec![]));
    assert_eq!(to_c_strings(&["a", "b"]), Some(vec![vec![b'a', 0], vec![b'b', 0]]));
    assert_eq!(to_c_strings(&["a", "\0", "b"]), None);
}

#[test]
fn name_map_inserts_and_replaces() {
    let mut map = UniformNameMap::new();
    assert!(map.is_empty());
    assert_eq!(map.len(), 0);
    assert_eq!(map.get("a"), None);
    map.insert("a".to_string(), "1".to_string());
    map.insert("b".to_string(), "2".to_string());
    assert!(!map.is_empty());
    assert_eq!(map.len(), 2);
    map.insert("a".to_string(), "3".to_string());
    assert_eq!(map.len(), 2);
    assert_eq!(map.get("a").map(String::as_str), Some("3"));
    assert_eq!(map.get("b").map(String::as_str), Some("2"));
    assert_eq!(map.get("c"), None);
    assert_eq!(map.keys(), ["a", "b"]);
    let mut entries = map.into_entries();
    entries.sort();
    assert_eq!(
        entries,
        vec![("a".to_string(), "3".to_string()), ("b".to_string(), "2".to_string())]
    );
}

#[test]
fn destroy_gives_the_handle_after_any_number_of_compiles() {
    assert_eq!(validator(9).destroy(), 9);
    let mut compiler = validator(9);
    compiler.compiled(outcome(1, b"x", b"", &[], 0)).unwrap();
    assert_eq!(compiler.destroy(), 9);
    let mut compiler = validator(9);
    for round in 0..10 {
        let _ = compiler.compiled(outcome(round % 2, b"x", b"", &[], 0));
    }
    assert_eq!(compiler.destroy(), 9);
}
