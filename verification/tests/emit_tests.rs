use gl_generator::emit::{
    gen_binding, gen_binding_ident, gen_param_ident_list, gen_param_list, gen_param_ty_list,
    gen_return_suffix, gen_struct_name, gen_symbol_name, render_enum, render_parameters,
};
use gl_generator::error::GenError;
use gl_generator::registry::{Binding, Cmd, Enum, Ns};
use gl_generator::types::to_rust_ty;

fn enum_rec(ident: &str, value: &str, ty: Option<&str>) -> Enum {
    Enum {
        ident: ident.to_string(),
        value: value.to_string(),
        ty: ty.map(|s| s.to_string()),
        introduced_in: None,
        removed_in: None,
        extension: None,
    }
}

fn cmd_rec(ident: &str, ret: &str, params: Vec<(&str, &str)>) -> Cmd {
    Cmd {
        proto: Binding { ident: ident.to_string(), ty: ret.to_string() },
        params: params
            .into_iter()
            .map(|(i, t)| Binding { ident: i.to_string(), ty: t.to_string() })
            .collect(),
        is_safe: true,
        alias: None,
        introduced_in: None,
        removed_in: None,
        extension: None,
    }
}

#[test]
fn true_is_always_typed_as_the_boolean_constant() {
    // The caller asks for GLenum; TRUE must come out GLboolean anyway.
    let e = enum_rec("TRUE", "1", None);
    assert_eq!(render_enum(&e, "", "GLenum"), "pub static TRUE: GLboolean = 1;");
    let f = enum_rec("FALSE", "0", Some("GLuint"));
    assert_eq!(render_enum(&f, "", "GLenum"), "pub static FALSE: GLboolean = 0;");
}

#[test]
fn boolean_constant_type_carries_the_type_prefix() {
    let e = enum_rec("TRUE", "1", None);
    assert_eq!(render_enum(&e, "types::", "GLenum"), "pub static TRUE: types::GLboolean = 1;");
}

#[test]
fn enum_identifiers_beginning_with_a_digit_are_escaped() {
    let e = enum_rec("2D", "0x0600", None);
    assert_eq!(render_enum(&e, "", "GLenum"), "pub static _2D: GLenum = 0x0600;");
}

#[test]
fn explicit_type_override_wins_over_the_caller_type() {
    let e = enum_rec("TIMEOUT_IGNORED", "0xFFFF", Some("GLuint64"));
    assert_eq!(render_enum(&e, "", "GLenum"), "pub static TIMEOUT_IGNORED: GLuint64 = 0xFFFF;");
}

#[test]
fn reserved_parameter_identifiers_are_renamed_in_every_mode() {
    // "type" is a reserved word of the target surface syntax.
    let c = cmd_rec("TexImage", "void", vec![("type", "GLenum"), ("in", "GLint")]);
    let named = render_parameters(&c, false, true).unwrap();
    assert_eq!(named, vec!["type_".to_string(), "in_".to_string()]);
    let typed_named = render_parameters(&c, true, true).unwrap();
    assert_eq!(typed_named, vec!["type_: GLenum".to_string(), "in_: GLint".to_string()]);
    let typed = render_parameters(&c, true, false).unwrap();
    assert_eq!(typed, vec!["GLenum".to_string(), "GLint".to_string()]);
    let holes = render_parameters(&c, false, false).unwrap();
    assert_eq!(holes, vec!["_".to_string(), "_".to_string()]);
    assert_eq!(gen_param_ident_list(&c), "type_, in_");
}

#[test]
fn all_four_modes_agree_on_count_and_order() {
    let c = cmd_rec(
        "Clear",
        "void",
        vec![("mask", "GLbitfield"), ("x", "GLint"), ("y", "GLint")],
    );
    let a = render_parameters(&c, true, true).unwrap();
    let b = render_parameters(&c, true, false).unwrap();
    let d = render_parameters(&c, false, true).unwrap();
    let e = render_parameters(&c, false, false).unwrap();
    assert_eq!(a.len(), 3);
    assert_eq!(b.len(), 3);
    assert_eq!(d.len(), 3);
    assert_eq!(e.len(), 3);
    assert_eq!(d, vec!["mask".to_string(), "x".to_string(), "y".to_string()]);
}

#[test]
fn unknown_parameter_type_is_fatal_with_the_owner_named() {
    let c = cmd_rec("Frob", "void", vec![("x", "GLint"), ("y", "Bogus")]);
    let err = gen_param_list(&c, true).unwrap_err();
    assert_eq!(
        err,
        GenError::UnknownType { ty: "Bogus".to_string(), owner: "Frob".to_string() }
    );
    let text = err.describe();
    assert!(text.contains("Bogus"));
    assert!(text.contains("Frob"));
}

#[test]
fn parameter_lists_join_with_comma_and_space() {
    let c = cmd_rec("Viewport", "void", vec![("x", "GLint"), ("y", "GLint")]);
    assert_eq!(gen_param_list(&c, true).unwrap(), "x: GLint, y: GLint");
    assert_eq!(gen_param_ty_list(&c).unwrap(), "GLint, GLint");
}

#[test]
fn binding_identifiers_render_as_placeholders_without_idents() {
    let b = Binding { ident: "ref".to_string(), ty: "GLint".to_string() };
    assert_eq!(gen_binding_ident(&b, true), "ref_");
    assert_eq!(gen_binding_ident(&b, false), "_");
}

#[test]
fn bindings_render_as_ident_colon_type() {
    let owner = "Frob".to_string();
    let b = Binding { ident: "type".to_string(), ty: "GLenum".to_string() };
    assert_eq!(gen_binding(&b, true, &owner).unwrap(), "type_: GLenum");
    assert_eq!(gen_binding(&b, false, &owner).unwrap(), "_: GLenum");
    let bad = Binding { ident: "x".to_string(), ty: "Bogus".to_string() };
    assert_eq!(
        gen_binding(&bad, true, &owner).unwrap_err(),
        GenError::UnknownType { ty: "Bogus".to_string(), owner: "Frob".to_string() }
    );
}

#[test]
fn return_suffix_is_empty_for_void_and_mapped_otherwise() {
    let void_cmd = cmd_rec("Flush", "void", vec![]);
    assert_eq!(gen_return_suffix(&void_cmd).unwrap(), "");
    let enum_cmd = cmd_rec("GetError", "GLenum", vec![]);
    assert_eq!(gen_return_suffix(&enum_cmd).unwrap(), " -> GLenum");
    let bad = cmd_rec("Mystery", "Bogus", vec![]);
    assert_eq!(
        bad_err(gen_return_suffix(&bad)),
        GenError::UnknownType { ty: "Bogus".to_string(), owner: "Mystery".to_string() }
    );
}

fn bad_err<T>(r: Result<T, GenError>) -> GenError {
    match r {
        Ok(_) => panic!("expected a failure"),
        Err(e) => e,
    }
}

#[test]
fn symbol_names_carry_the_namespace_prefix() {
    let c = cmd_rec("Clear", "void", vec![]);
    assert_eq!(gen_symbol_name(Ns::Gl, &c), "glClear");
    assert_eq!(gen_symbol_name(Ns::Gles2, &c), "glClear");
    assert_eq!(gen_symbol_name(Ns::Wgl, &c), "wglClear");
    assert_eq!(gen_struct_name(Ns::Gl), "Gl");
}

#[test]
fn the_type_table_maps_scalars_and_pointer_spellings() {
    assert_eq!(to_rust_ty("GLenum"), Some("GLenum".to_string()));
    assert_eq!(to_rust_ty("void"), Some("c_void".to_string()));
    assert_eq!(to_rust_ty("const GLchar *"), Some("*const GLchar".to_string()));
    assert_eq!(to_rust_ty("GLuint *"), Some("*mut GLuint".to_string()));
    assert_eq!(to_rust_ty("void *"), Some("*mut c_void".to_string()));
    assert_eq!(to_rust_ty("const void *"), Some("*const c_void".to_string()));
    assert_eq!(to_rust_ty("Bogus"), None);
    assert_eq!(to_rust_ty("Bogus *"), None);
}
