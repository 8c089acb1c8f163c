use gl_generator::registry::{
    Binding, Cmd, Enum, Filter, Ns, Profile, Registry, Removal, Version,
};
use gl_generator::resolve::{resolve, unknown_extensions};

fn v(major: u32, minor: u32) -> Version {
    Version { major, minor }
}

fn enum_rec(
    ident: &str,
    value: &str,
    introduced_in: Option<Version>,
    removed_in: Option<Removal>,
    extension: Option<&str>,
) -> Enum {
    Enum {
        ident: ident.to_string(),
        value: value.to_string(),
        ty: None,
        introduced_in,
        removed_in,
        extension: extension.map(|s| s.to_string()),
    }
}

fn cmd_rec(
    ident: &str,
    is_safe: bool,
    introduced_in: Option<Version>,
    removed_in: Option<Removal>,
    extension: Option<&str>,
) -> Cmd {
    Cmd {
        proto: Binding { ident: ident.to_string(), ty: "void".to_string() },
        params: vec![],
        is_safe,
        alias: None,
        introduced_in,
        removed_in,
        extension: extension.map(|s| s.to_string()),
    }
}

fn filter(version: Version, profile: Profile, extensions: Vec<&str>) -> Filter {
    Filter {
        api: Ns::Gl,
        version,
        profile,
        extensions: extensions.into_iter().map(|s| s.to_string()).collect(),
    }
}

#[test]
fn version_gating_includes_only_older_definitions() {
    let reg = Registry::new(
        Ns::Gl,
        vec![
            enum_rec("OLD", "1", Some(v(1, 0)), None, None),
            enum_rec("NEW", "2", Some(v(3, 2)), None, None),
        ],
        vec![],
    );
    let f = filter(v(2, 0), Profile::Core, vec![]);
    let r = resolve(&reg, Some(&f));
    assert_eq!(r.enums.len(), 1);
    assert_eq!(r.enums[0].ident, "OLD");
}

#[test]
fn compatibility_ignores_core_only_removals() {
    let removed = Some(Removal { version: v(3, 2), profile: Profile::Core });
    let reg = Registry::new(
        Ns::Gl,
        vec![enum_rec("LEGACY", "7", Some(v(1, 0)), removed, None)],
        vec![cmd_rec("Begin", true, Some(v(1, 0)), removed, None)],
    );
    let core = resolve(&reg, Some(&filter(v(4, 3), Profile::Core, vec![])));
    assert!(core.enums.is_empty());
    assert!(core.cmds.is_empty());
    let compat = resolve(&reg, Some(&filter(v(4, 3), Profile::Compatibility, vec![])));
    assert_eq!(compat.enums.len(), 1);
    assert_eq!(compat.cmds.len(), 1);
}

#[test]
fn removal_before_requested_version_does_not_apply() {
    let removed = Some(Removal { version: v(3, 2), profile: Profile::Core });
    let reg = Registry::new(
        Ns::Gl,
        vec![enum_rec("LEGACY", "7", Some(v(1, 0)), removed, None)],
        vec![],
    );
    let r = resolve(&reg, Some(&filter(v(3, 1), Profile::Core, vec![])));
    assert_eq!(r.enums.len(), 1);
}

#[test]
fn extensions_pull_in_gated_definitions() {
    let reg = Registry::new(
        Ns::Gl,
        vec![enum_rec("EXT_ONLY", "9", None, None, Some("GL_EXT_foo"))],
        vec![cmd_rec("FooEXT", true, None, None, Some("GL_EXT_foo"))],
    );
    let without = resolve(&reg, Some(&filter(v(4, 3), Profile::Core, vec![])));
    assert!(without.enums.is_empty());
    assert!(without.cmds.is_empty());
    let with = resolve(&reg, Some(&filter(v(4, 3), Profile::Core, vec!["GL_EXT_foo"])));
    assert_eq!(with.enums.len(), 1);
    assert_eq!(with.cmds.len(), 1);
}

#[test]
fn absent_filter_includes_everything() {
    let reg = Registry::new(
        Ns::Gl,
        vec![
            enum_rec("OLD", "1", Some(v(1, 0)), None, None),
            enum_rec("NEW", "2", Some(v(4, 5)), None, None),
            enum_rec("EXT_ONLY", "9", None, None, Some("GL_EXT_foo")),
        ],
        vec![],
    );
    let r = resolve(&reg, None);
    assert_eq!(r.enums.len(), 3);
}

#[test]
fn version_newer_than_everything_yields_full_core_set() {
    let reg = Registry::new(
        Ns::Gl,
        vec![
            enum_rec("A", "1", Some(v(1, 0)), None, None),
            enum_rec("B", "2", Some(v(4, 5)), None, None),
            enum_rec("EXT_ONLY", "9", None, None, Some("GL_EXT_foo")),
        ],
        vec![],
    );
    let r = resolve(&reg, Some(&filter(v(99, 0), Profile::Core, vec![])));
    assert_eq!(r.enums.len(), 2);
    assert_eq!(r.enums[0].ident, "A");
    assert_eq!(r.enums[1].ident, "B");
}

#[test]
fn duplicate_command_first_seen_wins() {
    // Two commands share the identifier "glClear": the first is core at
    // version 1.0, the second re-declared by extension GL_EXT_foo.
    let first = cmd_rec("glClear", true, Some(v(1, 0)), None, None);
    let second = cmd_rec("glClear", false, None, None, Some("GL_EXT_foo"));
    let reg = Registry::new(Ns::Gl, vec![], vec![first, second]);
    let r = resolve(&reg, Some(&filter(v(4, 3), Profile::Core, vec!["GL_EXT_foo"])));
    assert_eq!(r.cmds.len(), 1);
    assert_eq!(r.cmds[0].proto.ident, "glClear");
    assert!(r.cmds[0].is_safe);
}

#[test]
fn duplicate_enum_identifiers_are_dropped() {
    let reg = Registry::new(
        Ns::Gl,
        vec![
            enum_rec("TRUE", "1", Some(v(1, 0)), None, None),
            enum_rec("TRUE", "2", Some(v(1, 0)), None, None),
        ],
        vec![],
    );
    let r = resolve(&reg, None);
    assert_eq!(r.enums.len(), 1);
    assert_eq!(r.enums[0].value, "1");
}

#[test]
fn resolving_twice_yields_identical_registries() {
    let reg = Registry::new(
        Ns::Gl,
        vec![enum_rec("A", "1", Some(v(1, 0)), None, None)],
        vec![cmd_rec("Clear", true, Some(v(1, 0)), None, None)],
    );
    let f = filter(v(4, 3), Profile::Core, vec!["GL_EXT_foo"]);
    let once = resolve(&reg, Some(&f));
    let twice = resolve(&reg, Some(&f));
    assert_eq!(once, twice);
}

#[test]
fn resolving_a_resolved_registry_changes_nothing() {
    let reg = Registry::new(
        Ns::Gl,
        vec![
            enum_rec("A", "1", Some(v(1, 0)), None, None),
            enum_rec("A", "2", Some(v(1, 0)), None, None),
            enum_rec("B", "3", None, None, Some("GL_EXT_foo")),
        ],
        vec![cmd_rec("Clear", true, Some(v(1, 0)), None, None)],
    );
    let f = filter(v(4, 3), Profile::Core, vec!["GL_EXT_foo"]);
    let once = resolve(&reg, Some(&f));
    let again = resolve(&once, Some(&f));
    assert_eq!(once, again);
}

#[test]
fn unknown_extension_contributes_nothing_and_is_reported() {
    let reg = Registry::new(
        Ns::Gl,
        vec![enum_rec("EXT_ONLY", "9", None, None, Some("GL_EXT_foo"))],
        vec![],
    );
    let f = filter(v(4, 3), Profile::Core, vec!["GL_EXT_missing", "GL_EXT_foo"]);
    let r = resolve(&reg, Some(&f));
    assert_eq!(r.enums.len(), 1);
    let missing = unknown_extensions(&reg, &f);
    assert_eq!(missing, vec!["GL_EXT_missing".to_string()]);
}

#[test]
fn resolved_registry_keeps_namespace_and_order() {
    let reg = Registry::new(
        Ns::Glx,
        vec![
            enum_rec("B", "2", Some(v(1, 0)), None, None),
            enum_rec("A", "1", Some(v(1, 0)), None, None),
        ],
        vec![],
    );
    let r = resolve(&reg, None);
    assert_eq!(r.namespace(), Ns::Glx);
    assert_eq!(r.enums()[0].ident, "B");
    assert_eq!(r.enums()[1].ident, "A");
}
