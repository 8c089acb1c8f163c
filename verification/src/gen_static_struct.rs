//! The struct-of-stub-methods generator: one marker value type whose
//! methods each delegate, at the call site, to a plain externally
//! linked symbol.  A trivial `load_with` exists only for interface
//! parity and performs no real loading.

use vstd::prelude::*;

use crate::emit::{
    first_block_err, gen_param_ident_list, gen_param_list, gen_return_suffix, gen_struct_name,
    gen_symbol_name, lemma_blocks_push, lemma_blocks_some, lemma_first_block_err_at, render_enum,
    spec_cmd_blocks, spec_enum_line, spec_param_ident_list, spec_param_list, spec_return_suffix,
    spec_struct_name, spec_symbol_name,
};
use crate::error::GenError;
use crate::gen_global::{fn_err_of, spec_fn_err};
use crate::registry::{Cmd, CmdV, Enum, EnumV, Ns, Registry};
use crate::resolve::{cmd_key, dedup_cmds, dedup_enums, enum_key, first_seen};
use crate::text::append_lines;
use crate::types::spec_aliases_for;

verus! {

/// The import module of the emitted bindings.
pub open spec fn spec_ss_header() -> Seq<Seq<char>> {
    seq![
        "mod __gl_imports {"@,
        "    pub use std::mem;"@,
        "    pub use std::os::raw;"@,
        "}"@,
    ]
}

/// Emits the import module holding the external symbols the bindings
/// need.
pub fn write_header() -> (r: Vec<String>)
    ensures
        r.deep_view() == spec_ss_header(),
{
    let mut out: Vec<String> = Vec::new();
    out.push(String::from_str("mod __gl_imports {"));
    out.push(String::from_str("    pub use std::mem;"));
    out.push(String::from_str("    pub use std::os::raw;"));
    out.push(String::from_str("}"));
    proof {
        assert(out.deep_view() =~= spec_ss_header());
    }
    out
}

/// One rendered type-alias declaration of the `types` module.
pub open spec fn spec_ss_alias_line(a: crate::registry::TypeAliasV) -> Seq<char> {
    "    pub type "@ + a.alias + " = "@ + a.ty + ";"@
}

/// The `types` module of the emitted bindings.
pub open spec fn spec_ss_type_aliases(ns: Ns) -> Seq<Seq<char>> {
    seq!["pub mod types {"@] + spec_aliases_for(ns).map_values(
        |a: crate::registry::TypeAliasV| spec_ss_alias_line(a),
    ) + seq!["}"@]
}

/// Emits the `types` module holding the namespace's type aliases.
pub fn write_type_aliases(registry: &Registry) -> (r: Vec<String>)
    ensures
        r.deep_view() == spec_ss_type_aliases(registry.ns),
{
    let ghost av = spec_aliases_for(registry.ns);
    let mut out: Vec<String> = Vec::new();
    out.push(String::from_str("pub mod types {"));
    let ghost mid = out.deep_view();
    let aliases = registry.type_aliases();
    let n = aliases.len();
    let mut i: usize = 0;
    proof {
        assert(out.deep_view() =~= mid + av.subrange(0, 0).map_values(
            |a: crate::registry::TypeAliasV| spec_ss_alias_line(a),
        ));
    }
    while i < n
        invariant
            i <= n,
            n == aliases@.len(),
            crate::types::aliases_view(aliases@) == av,
            av.len() == n,
            out.deep_view() == mid + av.subrange(0, i as int).map_values(
                |a: crate::registry::TypeAliasV| spec_ss_alias_line(a),
            ),
        decreases n - i,
    {
        let a = &aliases[i];
        out.push(
            String::from_str("    pub type ").concat(a.alias.as_str()).concat(" = ").concat(
                a.ty.as_str(),
            ).concat(";"),
        );
        proof {
            assert(a@ == av[i as int]);
            assert(av[i as int].alias == a.alias@);
            assert(av[i as int].ty == a.ty@);
            assert(av.subrange(0, i + 1 as int).map_values(
                |a: crate::registry::TypeAliasV| spec_ss_alias_line(a),
            ) =~= av.subrange(0, i as int).map_values(
                |a: crate::registry::TypeAliasV| spec_ss_alias_line(a),
            ).push(spec_ss_alias_line(av[i as int])));
            assert(out.deep_view() =~= (mid + av.subrange(0, i as int).map_values(
                |a: crate::registry::TypeAliasV| spec_ss_alias_line(a),
            )).push(spec_ss_alias_line(av[i as int])));
            assert(out.deep_view() =~= mid + av.subrange(0, i + 1 as int).map_values(
                |a: crate::registry::TypeAliasV| spec_ss_alias_line(a),
            ));
        }
        i = i + 1;
    }
    out.push(String::from_str("}"));
    proof {
        assert(av.subrange(0, n as int) =~= av);
        assert(mid =~= seq!["pub mod types {"@]);
        assert(out.deep_view() =~= (mid + av.map_values(
            |a: crate::registry::TypeAliasV| spec_ss_alias_line(a),
        )).push("}"@));
        assert(out.deep_view() =~= spec_ss_type_aliases(registry.ns));
    }
    out
}

/// The constant definitions of the emitted bindings, typed under the
/// `types::` prefix.
pub open spec fn spec_ss_enums(raw: Seq<EnumV>) -> Seq<Seq<char>> {
    first_seen(raw, enum_key()).map_values(|e: EnumV| spec_enum_line(e, "types::"@, "GLenum"@))
}

/// Emits every deduplicated constant definition.
pub fn write_enums(registry: &Registry) -> (r: Vec<String>)
    ensures
        r.deep_view() == spec_ss_enums(registry@.enums),
{
    let ghost fs = first_seen(registry@.enums, enum_key());
    let es = dedup_enums(&registry.enums);
    let mut out: Vec<String> = Vec::new();
    let n = es.len();
    let mut i: usize = 0;
    proof {
        assert(out.deep_view() =~= fs.subrange(0, 0).map_values(
            |e: EnumV| spec_enum_line(e, "types::"@, "GLenum"@),
        ));
    }
    while i < n
        invariant
            i <= n,
            n == es@.len(),
            es@.map_values(|e: Enum| e@) == fs,
            out.deep_view() == fs.subrange(0, i as int).map_values(
                |e: EnumV| spec_enum_line(e, "types::"@, "GLenum"@),
            ),
        decreases n - i,
    {
        out.push(render_enum(&es[i], "types::", "GLenum"));
        proof {
            assert(es@[i as int]@ == fs[i as int]);
            assert(fs.subrange(0, i + 1 as int).map_values(
                |e: EnumV| spec_enum_line(e, "types::"@, "GLenum"@),
            ) =~= fs.subrange(0, i as int).map_values(
                |e: EnumV| spec_enum_line(e, "types::"@, "GLenum"@),
            ).push(spec_enum_line(fs[i as int], "types::"@, "GLenum"@)));
            assert(out.deep_view() =~= fs.subrange(0, i + 1 as int).map_values(
                |e: EnumV| spec_enum_line(e, "types::"@, "GLenum"@),
            ));
        }
        i = i + 1;
    }
    proof {
        assert(fs.subrange(0, n as int) =~= fs);
    }
    out
}

/// The marker struct of the emitted bindings.
pub open spec fn spec_ss_struct(ns: Ns) -> Seq<Seq<char>> {
    seq![
        "#[allow(non_camel_case_types, non_snake_case, dead_code)]"@,
        "#[derive(Copy, Clone)]"@,
        "pub struct "@ + spec_struct_name(ns) + ";"@,
    ]
}

/// Emits the marker struct named after the namespace; it stores no
/// state.
pub fn write_struct(registry: &Registry) -> (r: Vec<String>)
    ensures
        r.deep_view() == spec_ss_struct(registry.ns),
{
    let mut out: Vec<String> = Vec::new();
    out.push(String::from_str("#[allow(non_camel_case_types, non_snake_case, dead_code)]"));
    out.push(String::from_str("#[derive(Copy, Clone)]"));
    out.push(
        String::from_str("pub struct ").concat(gen_struct_name(registry.ns).as_str()).concat(";"),
    );
    proof {
        assert(out.deep_view() =~= spec_ss_struct(registry.ns));
    }
    out
}

/// One stub method delegating to the externally linked symbol.
pub open spec fn spec_ss_method(c: CmdV) -> Option<Seq<Seq<char>>> {
    match (spec_param_list(c, true), spec_return_suffix(c.proto.ty)) {
        (Some(p), Some(r)) => Some(
            seq![
                "    #[allow(non_snake_case, dead_code)]"@,
                "    #[inline]"@,
                "    pub unsafe fn "@ + c.proto.ident + "(&self, "@ + p + ")"@ + r + " {"@,
                "        "@ + c.proto.ident + "("@ + spec_param_ident_list(c) + ")"@,
                "    }"@,
            ],
        ),
        _ => None,
    }
}

/// The per-command stub-method block.
pub open spec fn ss_method_maker() -> spec_fn(CmdV) -> Option<Seq<Seq<char>>> {
    |c: CmdV| spec_ss_method(c)
}

fn ss_method(c: &Cmd) -> (r: Result<Vec<String>, GenError>)
    ensures
        (r is Ok) == (spec_ss_method(c@) is Some),
        r matches Ok(v) ==> Some(v.deep_view()) == spec_ss_method(c@),
        r matches Err(e) ==> e@ == spec_fn_err(c@),
{
    let params = match gen_param_list(c, true) {
        Ok(t) => t,
        Err(e) => return Err(e),
    };
    let ret = match gen_return_suffix(c) {
        Ok(t) => t,
        Err(e) => return Err(e),
    };
    let mut out: Vec<String> = Vec::new();
    out.push(String::from_str("    #[allow(non_snake_case, dead_code)]"));
    out.push(String::from_str("    #[inline]"));
    out.push(
        String::from_str("    pub unsafe fn ").concat(c.proto.ident.as_str()).concat(
            "(&self, ",
        ).concat(params.as_str()).concat(")").concat(ret.as_str()).concat(" {"),
    );
    out.push(
        String::from_str("        ").concat(c.proto.ident.as_str()).concat("(").concat(
            gen_param_ident_list(c).as_str(),
        ).concat(")"),
    );
    out.push(String::from_str("    }"));
    proof {
        assert(out.deep_view() =~= spec_ss_method(c@)->0);
    }
    Ok(out)
}

/// The `impl` block of the marker struct: the parity `load_with` stub
/// and one delegating method per deduplicated command.
pub open spec fn spec_ss_impl(reg: crate::registry::RegistryV) -> Option<Seq<Seq<char>>> {
    match spec_cmd_blocks(first_seen(reg.cmds, cmd_key()), ss_method_maker()) {
        Some(ls) => Some(
            seq![
                "impl "@ + spec_struct_name(reg.ns) + " {"@,
                "    /// Stub function."@,
                "    #[allow(dead_code)]"@,
                "    pub fn load_with<F>(mut _loadfn: F) -> "@ + spec_struct_name(reg.ns)
                    + " where F: FnMut(&'static str) -> *const __gl_imports::raw::c_void {"@,
                "        "@ + spec_struct_name(reg.ns),
                "    }"@,
            ] + ls + seq!["}"@],
        ),
        None => None,
    }
}

/// Emits the `impl` of the marker struct: a stub `load_with` that
/// performs no loading, and one unsafe method per command delegating
/// to the external symbol.  Fails on the first command with an unknown
/// type name.
pub fn write_impl(registry: &Registry) -> (r: Result<Vec<String>, GenError>)
    ensures
        (r is Ok) == (spec_ss_impl(registry@) is Some),
        r matches Ok(v) ==> Some(v.deep_view()) == spec_ss_impl(registry@),
        r matches Err(e) ==> Some(e@) == first_block_err(
            first_seen(registry@.cmds, cmd_key()),
            ss_method_maker(),
            fn_err_of(),
        ),
{
    let ghost fs = first_seen(registry@.cmds, cmd_key());
    let cmds = dedup_cmds(&registry.cmds);
    let mut tmp: Vec<String> = Vec::new();
    let n = cmds.len();
    let mut i: usize = 0;
    proof {
        assert(Some(tmp.deep_view()) == spec_cmd_blocks(fs.subrange(0, 0), ss_method_maker()))
            by {
            assert(fs.subrange(0, 0) =~= Seq::<CmdV>::empty());
            assert(tmp.deep_view() =~= Seq::<Seq<char>>::empty());
        }
    }
    while i < n
        invariant
            i <= n,
            n == cmds@.len(),
            cmds@.map_values(|c: Cmd| c@) == fs,
            forall|j: int| 0 <= j < i ==> ss_method_maker()(#[trigger] fs[j]) is Some,
            Some(tmp.deep_view()) == spec_cmd_blocks(fs.subrange(0, i as int), ss_method_maker()),
        decreases n - i,
    {
        proof {
            assert(cmds@[i as int]@ == fs[i as int]);
        }
        match ss_method(&cmds[i]) {
            Ok(v) => {
                let ghost vv = v.deep_view();
                append_lines(&mut tmp, &v);
                proof {
                    assert(fs.subrange(0, i + 1 as int) =~= fs.subrange(0, i as int).push(
                        fs[i as int],
                    ));
                    lemma_blocks_push(fs.subrange(0, i as int), fs[i as int], ss_method_maker());
                }
            },
            Err(e) => {
                proof {
                    assert(ss_method_maker()(fs[i as int]) is None);
                    lemma_first_block_err_at(fs, ss_method_maker(), fn_err_of(), i as int);
                    lemma_blocks_some(fs, ss_method_maker());
                }
                return Err(e);
            },
        }
        i = i + 1;
    }
    proof {
        assert(fs.subrange(0, n as int) =~= fs);
    }
    let name = gen_struct_name(registry.ns);
    let mut out: Vec<String> = Vec::new();
    out.push(String::from_str("impl ").concat(name.as_str()).concat(" {"));
    out.push(String::from_str("    /// Stub function."));
    out.push(String::from_str("    #[allow(dead_code)]"));
    out.push(
        String::from_str("    pub fn load_with<F>(mut _loadfn: F) -> ").concat(
            name.as_str(),
        ).concat(" where F: FnMut(&'static str) -> *const __gl_imports::raw::c_void {"),
    );
    out.push(String::from_str("        ").concat(name.as_str()));
    out.push(String::from_str("    }"));
    let ghost hd = out.deep_view();
    proof {
        assert(hd =~= seq![
            "impl "@ + spec_struct_name(registry.ns) + " {"@,
            "    /// Stub function."@,
            "    #[allow(dead_code)]"@,
            "    pub fn load_with<F>(mut _loadfn: F) -> "@ + spec_struct_name(registry.ns)
                + " where F: FnMut(&'static str) -> *const __gl_imports::raw::c_void {"@,
            "        "@ + spec_struct_name(registry.ns),
            "    }"@,
        ]);
    }
    append_lines(&mut out, &tmp);
    out.push(String::from_str("}"));
    proof {
        assert(out.deep_view() =~= (hd + tmp.deep_view()).push("}"@));
        assert(out.deep_view() =~= spec_ss_impl(registry@)->0);
    }
    Ok(out)
}

/// One external declaration linked by symbol name.
pub open spec fn spec_ss_fn(ns: Ns, c: CmdV) -> Option<Seq<Seq<char>>> {
    match (spec_param_list(c, true), spec_return_suffix(c.proto.ty)) {
        (Some(p), Some(r)) => Some(
            seq![
                "    #[link_name=\""@ + spec_symbol_name(ns, c.proto.ident) + "\"] fn "@
                    + c.proto.ident + "("@ + p + ")"@ + r + ";"@,
            ],
        ),
        _ => None,
    }
}

/// The per-command external-declaration block.
pub open spec fn ss_fn_maker(ns: Ns) -> spec_fn(CmdV) -> Option<Seq<Seq<char>>> {
    |c: CmdV| spec_ss_fn(ns, c)
}

fn ss_fn(ns: Ns, c: &Cmd) -> (r: Result<String, GenError>)
    ensures
        (r is Ok) == (spec_ss_fn(ns, c@) is Some),
        r matches Ok(s) ==> Some(seq![s@]) == spec_ss_fn(ns, c@),
        r matches Err(e) ==> e@ == spec_fn_err(c@),
{
    let params = match gen_param_list(c, true) {
        Ok(t) => t,
        Err(e) => return Err(e),
    };
    let ret = match gen_return_suffix(c) {
        Ok(t) => t,
        Err(e) => return Err(e),
    };
    Ok(
        String::from_str("    #[link_name=\"").concat(gen_symbol_name(ns, c).as_str()).concat(
            "\"] fn ",
        ).concat(c.proto.ident.as_str()).concat("(").concat(params.as_str()).concat(")").concat(
            ret.as_str(),
        ).concat(";"),
    )
}

/// The foreign block of the emitted bindings: one external declaration
/// per deduplicated command.
pub open spec fn spec_ss_fns(reg: crate::registry::RegistryV) -> Option<Seq<Seq<char>>> {
    match spec_cmd_blocks(first_seen(reg.cmds, cmd_key()), ss_fn_maker(reg.ns)) {
        Some(ls) => Some(
            seq![
                "#[allow(non_snake_case)]"@,
                "#[allow(unused_variables)]"@,
                "#[allow(dead_code)]"@,
                "extern \"system\" {"@,
            ] + ls + seq!["}"@],
        ),
        None => None,
    }
}

/// Emits the foreign block: the statically linked symbol declarations
/// that the stub methods delegate to.  Fails on the first command with
/// an unknown type name.
pub fn write_fns(registry: &Registry) -> (r: Result<Vec<String>, GenError>)
    ensures
        (r is Ok) == (spec_ss_fns(registry@) is Some),
        r matches Ok(v) ==> Some(v.deep_view()) == spec_ss_fns(registry@),
        r matches Err(e) ==> Some(e@) == first_block_err(
            first_seen(registry@.cmds, cmd_key()),
            ss_fn_maker(registry.ns),
            fn_err_of(),
        ),
{
    let ghost fs = first_seen(registry@.cmds, cmd_key());
    let ghost ns = registry.ns;
    let cmds = dedup_cmds(&registry.cmds);
    let mut tmp: Vec<String> = Vec::new();
    let n = cmds.len();
    let mut i: usize = 0;
    proof {
        assert(Some(tmp.deep_view()) == spec_cmd_blocks(fs.subrange(0, 0), ss_fn_maker(ns))) by {
            assert(fs.subrange(0, 0) =~= Seq::<CmdV>::empty());
            assert(tmp.deep_view() =~= Seq::<Seq<char>>::empty());
        }
    }
    while i < n
        invariant
            i <= n,
            n == cmds@.len(),
            ns == registry.ns,
            cmds@.map_values(|c: Cmd| c@) == fs,
            forall|j: int| 0 <= j < i ==> ss_fn_maker(ns)(#[trigger] fs[j]) is Some,
            Some(tmp.deep_view()) == spec_cmd_blocks(fs.subrange(0, i as int), ss_fn_maker(ns)),
        decreases n - i,
    {
        proof {
            assert(cmds@[i as int]@ == fs[i as int]);
        }
        match ss_fn(registry.ns, &cmds[i]) {
            Ok(l) => {
                let ghost lv = l@;
                tmp.push(l);
                proof {
                    assert(fs.subrange(0, i + 1 as int) =~= fs.subrange(0, i as int).push(
                        fs[i as int],
                    ));
                    lemma_blocks_push(fs.subrange(0, i as int), fs[i as int], ss_fn_maker(ns));
                    assert(ss_fn_maker(ns)(fs[i as int]) == Some(seq![lv]));
                    assert(tmp.deep_view() =~= spec_cmd_blocks(
                        fs.subrange(0, i as int),
                        ss_fn_maker(ns),
                    )->0 + seq![lv]);
                }
            },
            Err(e) => {
                proof {
                    assert(ss_fn_maker(ns)(fs[i as int]) is None);
                    lemma_first_block_err_at(fs, ss_fn_maker(ns), fn_err_of(), i as int);
                    lemma_blocks_some(fs, ss_fn_maker(ns));
                }
                return Err(e);
            },
        }
        i = i + 1;
    }
    proof {
        assert(fs.subrange(0, n as int) =~= fs);
    }
    let mut out: Vec<String> = Vec::new();
    out.push(String::from_str("#[allow(non_snake_case)]"));
    out.push(String::from_str("#[allow(unused_variables)]"));
    out.push(String::from_str("#[allow(dead_code)]"));
    out.push(String::from_str("extern \"system\" {"));
    let ghost hd = out.deep_view();
    proof {
        assert(hd =~= seq![
            "#[allow(non_snake_case)]"@,
            "#[allow(unused_variables)]"@,
            "#[allow(dead_code)]"@,
            "extern \"system\" {"@,
        ]);
    }
    append_lines(&mut out, &tmp);
    out.push(String::from_str("}"));
    proof {
        assert(out.deep_view() =~= (hd + tmp.deep_view()).push("}"@));
        assert(out.deep_view() =~= spec_ss_fns(registry@)->0);
    }
    Ok(out)
}

/// The whole output of the struct-of-stub-methods generator.
pub open spec fn spec_static_struct_output(reg: crate::registry::RegistryV) -> Option<
    Seq<Seq<char>>,
> {
    match (spec_ss_impl(reg), spec_ss_fns(reg)) {
        (Some(im), Some(fns)) => Some(
            spec_ss_header() + spec_ss_type_aliases(reg.ns) + spec_ss_enums(reg.enums)
                + spec_ss_struct(reg.ns) + im + fns,
        ),
        _ => None,
    }
}

/// The struct-of-stub-methods strategy.
pub struct StaticStructGenerator;

impl StaticStructGenerator {
    /// Emits the whole binding: imports, type aliases, constants, the
    /// marker struct, its delegating methods and the foreign block —
    /// in that order.  Fails, with no output, exactly when some
    /// command of the registry carries an unknown type name; the first
    /// such command's failure is reported.
    pub fn write(&self, registry: &Registry) -> (r: Result<Vec<String>, GenError>)
        ensures
            (r is Ok) == (spec_static_struct_output(registry@) is Some),
            r matches Ok(v) ==> Some(v.deep_view()) == spec_static_struct_output(registry@),
            r matches Err(e) ==> Some(e@) == first_block_err(
                first_seen(registry@.cmds, cmd_key()),
                ss_method_maker(),
                fn_err_of(),
            ),
    {
        let ghost fs = first_seen(registry@.cmds, cmd_key());
        let mut out = write_header();
        let aliases = write_type_aliases(registry);
        append_lines(&mut out, &aliases);
        let enums = write_enums(registry);
        append_lines(&mut out, &enums);
        let st = write_struct(registry);
        append_lines(&mut out, &st);
        let im = match write_impl(registry) {
            Ok(v) => v,
            Err(e) => {
                return Err(e);
            },
        };
        append_lines(&mut out, &im);
        let fns = match write_fns(registry) {
            Ok(v) => v,
            Err(e) => {
                proof {
                    lemma_blocks_some(fs, ss_method_maker());
                    assert forall|j: int| 0 <= j < fs.len() implies ss_fn_maker(registry.ns)(
                        #[trigger] fs[j],
                    ) is Some by {}
                    lemma_blocks_some(fs, ss_fn_maker(registry.ns));
                    assert(false);
                }
                return Err(e);
            },
        };
        append_lines(&mut out, &fns);
        proof {
            assert(out.deep_view() =~= spec_static_struct_output(registry@)->0);
        }
        Ok(out)
    }
}

} // verus!
