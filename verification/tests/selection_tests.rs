use gl_generator::error::GenError;
use gl_generator::registry::{Binding, Cmd, Enum, Ns, Profile, Registry, Version};
use gl_generator::selection::{
    build_filter, generate_bindings, generator_for_name, parse_api, parse_profile, parse_version,
    plugin_registrar, GeneratorFilter, GeneratorKind, GeneratorOptions, PluginRegistry,
};

fn gf(api: &str, profile: &str, version: &str, extensions: Vec<&str>) -> GeneratorFilter {
    GeneratorFilter {
        extensions: extensions.into_iter().map(|s| s.to_string()).collect(),
        profile: profile.to_string(),
        version: version.to_string(),
        api: api.to_string(),
    }
}

fn demo_registry() -> Registry {
    Registry::new(
        Ns::Gl,
        vec![
            Enum {
                ident: "TRUE".to_string(),
                value: "1".to_string(),
                ty: None,
                introduced_in: Some(Version { major: 1, minor: 0 }),
                removed_in: None,
                extension: None,
            },
            Enum {
                ident: "EXT_BIT".to_string(),
                value: "4".to_string(),
                ty: None,
                introduced_in: None,
                removed_in: None,
                extension: Some("GL_EXT_foo".to_string()),
            },
        ],
        vec![Cmd {
            proto: Binding { ident: "Clear".to_string(), ty: "void".to_string() },
            params: vec![Binding { ident: "mask".to_string(), ty: "GLbitfield".to_string() }],
            is_safe: true,
            alias: None,
            introduced_in: Some(Version { major: 1, minor: 0 }),
            removed_in: None,
            extension: None,
        }],
    )
}

#[test]
fn version_strings_parse_as_major_minor_pairs() {
    assert_eq!(parse_version("4.3"), Some(Version { major: 4, minor: 3 }));
    assert_eq!(parse_version("1.0"), Some(Version { major: 1, minor: 0 }));
    assert_eq!(parse_version("10.25"), Some(Version { major: 10, minor: 25 }));
    assert_eq!(parse_version("999999999.1"), Some(Version { major: 999999999, minor: 1 }));
}

#[test]
fn malformed_version_strings_are_rejected() {
    assert_eq!(parse_version(""), None);
    assert_eq!(parse_version("4"), None);
    assert_eq!(parse_version("4."), None);
    assert_eq!(parse_version(".3"), None);
    assert_eq!(parse_version("4.3.1"), None);
    assert_eq!(parse_version("a.b"), None);
    assert_eq!(parse_version("4.x"), None);
    assert_eq!(parse_version("1234567890.1"), None);
}

#[test]
fn profile_and_api_names_resolve_to_their_values() {
    assert_eq!(parse_profile("core"), Some(Profile::Core));
    assert_eq!(parse_profile("compatibility"), Some(Profile::Compatibility));
    assert_eq!(parse_profile("compatability"), None);
    assert_eq!(parse_api("gl"), Some(Ns::Gl));
    assert_eq!(parse_api("glx"), Some(Ns::Glx));
    assert_eq!(parse_api("wgl"), Some(Ns::Wgl));
    assert_eq!(parse_api("egl"), Some(Ns::Egl));
    assert_eq!(parse_api("gles1"), Some(Ns::Gles1));
    assert_eq!(parse_api("gles2"), Some(Ns::Gles2));
    assert_eq!(parse_api("vulkan"), None);
}

#[test]
fn generator_names_resolve_to_strategies() {
    assert_eq!(generator_for_name("static").unwrap(), GeneratorKind::Static);
    assert_eq!(generator_for_name("global").unwrap(), GeneratorKind::Global);
    assert_eq!(generator_for_name("struct").unwrap(), GeneratorKind::Struct);
    assert_eq!(generator_for_name("static_struct").unwrap(), GeneratorKind::StaticStruct);
    let err = generator_for_name("dynamic").unwrap_err();
    assert_eq!(err, GenError::UnknownGenerator { value: "dynamic".to_string() });
    assert!(err.describe().contains("static_struct"));
}

#[test]
fn selection_fields_are_validated_in_order() {
    let err = build_filter(&gf("vulkan", "core", "4.3", vec![])).unwrap_err();
    assert_eq!(err, GenError::UnknownApi { value: "vulkan".to_string() });
    assert!(err.describe().contains("gles2"));
    let err = build_filter(&gf("gl", "fancy", "4.3", vec![])).unwrap_err();
    assert_eq!(err, GenError::UnknownProfile { value: "fancy".to_string() });
    let err = build_filter(&gf("gl", "core", "latest", vec![])).unwrap_err();
    assert_eq!(err, GenError::BadVersion { value: "latest".to_string() });
    let f = build_filter(&gf("gl", "compatibility", "3.2", vec!["GL_EXT_foo"])).unwrap();
    assert_eq!(f.api, Ns::Gl);
    assert_eq!(f.profile, Profile::Compatibility);
    assert_eq!(f.version, Version { major: 3, minor: 2 });
    assert_eq!(f.extensions, vec!["GL_EXT_foo".to_string()]);
}

#[test]
fn generate_bindings_runs_the_whole_pipeline() {
    let reg = demo_registry();
    let options = GeneratorOptions { filter: Some(gf("gl", "core", "4.3", vec![])) };
    let out = generate_bindings(&reg, &options, GeneratorKind::StaticStruct, false).unwrap();
    assert!(out.iter().any(|l| l == "pub static TRUE: types::GLboolean = 1;"));
    // The extension-gated constant was not requested.
    assert!(!out.iter().any(|l| l.contains("EXT_BIT")));
}

#[test]
fn generate_bindings_reports_invalid_selections() {
    let reg = demo_registry();
    let options = GeneratorOptions { filter: Some(gf("gl", "core", "oops", vec![])) };
    let err = generate_bindings(&reg, &options, GeneratorKind::Global, false).unwrap_err();
    assert_eq!(err, GenError::BadVersion { value: "oops".to_string() });
}

#[test]
fn strict_extension_validation_is_a_policy_choice() {
    let reg = demo_registry();
    let options = GeneratorOptions {
        filter: Some(gf("gl", "core", "4.3", vec!["GL_EXT_missing"])),
    };
    // By default an unknown extension name contributes nothing.
    assert!(generate_bindings(&reg, &options, GeneratorKind::Static, false).is_ok());
    // Under strict validation it aborts the request.
    let err = generate_bindings(&reg, &options, GeneratorKind::Static, true).unwrap_err();
    assert_eq!(
        err,
        GenError::UnknownExtensions { names: vec!["GL_EXT_missing".to_string()] }
    );
    assert!(err.describe().contains("GL_EXT_missing"));
}

#[test]
fn full_mode_output_covers_every_filtered_output() {
    let reg = demo_registry();
    let filtered = generate_bindings(
        &reg,
        &GeneratorOptions { filter: Some(gf("gl", "core", "4.3", vec!["GL_EXT_foo"])) },
        GeneratorKind::StaticStruct,
        false,
    )
    .unwrap();
    let full = generate_bindings(
        &reg,
        &GeneratorOptions { filter: None },
        GeneratorKind::StaticStruct,
        false,
    )
    .unwrap();
    // Every constant line of the filtered output appears in the full one.
    for line in filtered.iter().filter(|l| l.starts_with("pub static ")) {
        assert!(full.contains(line));
    }
    assert!(full.iter().any(|l| l.contains("EXT_BIT")));
}

#[test]
fn plugin_registrar_registers_the_binding_macro() {
    let mut reg = PluginRegistry::new();
    plugin_registrar(&mut reg);
    assert_eq!(reg.macros, vec!["generate_gl_bindings".to_string()]);
    plugin_registrar(&mut reg);
    assert_eq!(reg.macros.len(), 2);
}
