use gl_generator::error::GenError;
use gl_generator::gen_global::Generator;
use gl_generator::gen_static::StaticGenerator;
use gl_generator::gen_static_struct::StaticStructGenerator;
use gl_generator::gen_struct::StructGenerator;
use gl_generator::registry::{Binding, Cmd, Enum, Ns, Registry, Version};

fn small_registry() -> Registry {
    Registry::new(
        Ns::Gl,
        vec![Enum {
            ident: "TRUE".to_string(),
            value: "1".to_string(),
            ty: None,
            introduced_in: Some(Version { major: 1, minor: 0 }),
            removed_in: None,
            extension: None,
        }],
        vec![Cmd {
            proto: Binding { ident: "Clear".to_string(), ty: "void".to_string() },
            params: vec![Binding { ident: "mask".to_string(), ty: "GLbitfield".to_string() }],
            is_safe: true,
            alias: None,
            introduced_in: Some(Version { major: 1, minor: 0 }),
            removed_in: None,
            extension: None,
        }],
    )
}

fn bogus_registry() -> Registry {
    Registry::new(
        Ns::Gl,
        vec![],
        vec![Cmd {
            proto: Binding { ident: "Frob".to_string(), ty: "void".to_string() },
            params: vec![Binding { ident: "x".to_string(), ty: "Bogus".to_string() }],
            is_safe: true,
            alias: None,
            introduced_in: None,
            removed_in: None,
            extension: None,
        }],
    )
}

fn has_line(out: &[String], line: &str) -> bool {
    out.iter().any(|l| l == line)
}

#[test]
fn global_generator_emits_every_section() {
    let out = Generator::write(small_registry(), Ns::Gl).unwrap();
    assert!(has_line(&out, "use std::libc::*;"));
    assert!(has_line(&out, "pub mod types {"));
    assert!(has_line(&out, "    pub type GLbitfield = c_uint;"));
    assert!(has_line(&out, "pub static TRUE: GLboolean = 1;"));
    assert!(has_line(
        &out,
        "#[fixed_stack_segment] #[inline] pub fn Clear(mask: GLbitfield) { unsafe { (storage::Clear.f)(mask) } }"
    ));
    assert!(has_line(&out, "pub struct FnPtr<F> { f: F, is_loaded: bool }"));
    assert!(has_line(&out, "    fn_ptr!(fn Clear(mask: GLbitfield))"));
    assert!(has_line(&out, "fn_mod!(Clear, \"glClear\")"));
    assert!(has_line(&out, "    failing!(fn Clear(GLbitfield))"));
    assert!(has_line(&out, "    Clear::load_with(|s| loadfn(s));"));
}

#[test]
fn global_generator_marks_unsafe_commands() {
    let mut reg = small_registry();
    reg.cmds[0].is_safe = false;
    let out = Generator::write(reg, Ns::Gl).unwrap();
    assert!(has_line(
        &out,
        "#[fixed_stack_segment] #[inline] pub unsafe fn Clear(mask: GLbitfield) { (storage::Clear.f)(mask) }"
    ));
}

#[test]
fn static_struct_generator_emits_stub_methods() {
    let out = StaticStructGenerator.write(&small_registry()).unwrap();
    assert!(has_line(&out, "mod __gl_imports {"));
    assert!(has_line(&out, "    pub type GLboolean = c_uchar;"));
    assert!(has_line(&out, "pub static TRUE: types::GLboolean = 1;"));
    assert!(has_line(&out, "pub struct Gl;"));
    assert!(has_line(&out, "    pub unsafe fn Clear(&self, mask: GLbitfield) {"));
    assert!(has_line(&out, "        Clear(mask)"));
    assert!(has_line(&out, "extern \"system\" {"));
    assert!(has_line(&out, "    #[link_name=\"glClear\"] fn Clear(mask: GLbitfield);"));
}

#[test]
fn static_generator_emits_direct_wrappers() {
    let out = StaticGenerator.write(&small_registry()).unwrap();
    assert!(has_line(
        &out,
        "#[allow(non_snake_case, dead_code)] #[inline] pub unsafe fn Clear(mask: GLbitfield) { Clear(mask) }"
    ));
    assert!(has_line(&out, "    #[link_name=\"glClear\"] fn Clear(mask: GLbitfield);"));
}

#[test]
fn struct_generator_emits_pointer_fields_and_loader() {
    let out = StructGenerator.write(&small_registry()).unwrap();
    assert!(has_line(&out, "pub struct Gl {"));
    assert!(has_line(&out, "    Clear: FnPtr<extern \"C\" fn(GLbitfield)>,"));
    assert!(has_line(
        &out,
        "            Clear: FnPtr::new(loadfn(\"glClear\"), failing::Clear),"
    ));
    assert!(has_line(
        &out,
        "    #[inline] pub unsafe fn Clear(&self, mask: GLbitfield) { (self.Clear.f)(mask) }"
    ));
}

#[test]
fn every_strategy_fails_whole_on_an_unknown_type() {
    let reg = bogus_registry();
    let expected = GenError::UnknownType { ty: "Bogus".to_string(), owner: "Frob".to_string() };
    assert_eq!(Generator::write(bogus_registry(), Ns::Gl).unwrap_err(), expected);
    assert_eq!(StaticGenerator.write(&reg).unwrap_err(), expected);
    assert_eq!(StructGenerator.write(&reg).unwrap_err(), expected);
    assert_eq!(StaticStructGenerator.write(&reg).unwrap_err(), expected);
}

#[test]
fn generator_line_buffer_follows_indentation() {
    let mut g = Generator::new(small_registry(), Ns::Gl);
    g.write_line("a");
    g.incr_indent();
    g.write_line("b");
    g.write_comment("note");
    g.write_doc_comment("doc");
    g.decr_indent();
    g.write_line("c");
    assert_eq!(
        g.out,
        vec![
            "a".to_string(),
            "    b".to_string(),
            "    // note".to_string(),
            "    /// doc".to_string(),
            "c".to_string(),
        ]
    );
}

#[test]
fn generator_deduplicates_at_the_output_stage() {
    let mut reg = small_registry();
    reg.enums.push(Enum {
        ident: "TRUE".to_string(),
        value: "2".to_string(),
        ty: None,
        introduced_in: None,
        removed_in: None,
        extension: None,
    });
    let g = Generator::new(reg, Ns::Gl);
    let enums = g.for_enums();
    assert_eq!(enums.len(), 1);
    assert_eq!(enums[0].value, "1");
    let cmds = g.for_cmds();
    assert_eq!(cmds.len(), 1);
}
