//! The struct-of-pointers generator: one aggregate value type holds one
//! function-pointer field per command.  Construction populates every
//! field through a caller-supplied symbol resolver, falling back to the
//! loud-failure stub per unresolved symbol; methods on the aggregate
//! invoke the stored pointer.

use vstd::prelude::*;

use crate::emit::{
    first_block_err, gen_param_ident_list, gen_param_list, gen_param_ty_list, gen_return_suffix,
    gen_struct_name, gen_symbol_name, lemma_blocks_push, lemma_blocks_some,
    lemma_first_block_err_at, spec_cmd_blocks, spec_param_ident_list, spec_param_list,
    spec_param_one, spec_param_ty_list, spec_return_suffix, spec_struct_name, spec_symbol_name,
};
use crate::error::GenError;
use crate::gen_global::{
    failing_err_of, failing_line, failing_maker, spec_failing_err, spec_fn_err,
};
use crate::gen_static_struct::{
    spec_ss_enums, spec_ss_header, spec_ss_type_aliases, write_enums, write_header,
    write_type_aliases,
};
use crate::registry::{Cmd, CmdV, Ns, Registry};
use crate::resolve::{cmd_key, dedup_cmds, first_seen};
use crate::text::append_lines;

verus! {

/// The `FnPtr` struct of the emitted bindings.
pub open spec fn spec_sg_fnptr() -> Seq<Seq<char>> {
    seq![
        "pub struct FnPtr<F> { f: F, is_loaded: bool }"@,
        "impl<F> FnPtr<F> {"@,
        "    pub fn new(ptr: Option<extern \"C\" fn()>, failing_fn: F) -> FnPtr<F> {"@,
        "        match ptr {"@,
        "            Some(p) => FnPtr { f: unsafe { std::cast::transmute(p) }, is_loaded: true },"@,
        "            None => FnPtr { f: failing_fn, is_loaded: false },"@,
        "        }"@,
        "    }"@,
        "}"@,
    ]
}

fn write_fnptr() -> (r: Vec<String>)
    ensures
        r.deep_view() == spec_sg_fnptr(),
{
    let mut out: Vec<String> = Vec::new();
    out.push(String::from_str("pub struct FnPtr<F> { f: F, is_loaded: bool }"));
    out.push(String::from_str("impl<F> FnPtr<F> {"));
    out.push(String::from_str("    pub fn new(ptr: Option<extern \"C\" fn()>, failing_fn: F) -> FnPtr<F> {"));
    out.push(String::from_str("        match ptr {"));
    out.push(String::from_str("            Some(p) => FnPtr { f: unsafe { std::cast::transmute(p) }, is_loaded: true },"));
    out.push(String::from_str("            None => FnPtr { f: failing_fn, is_loaded: false },"));
    out.push(String::from_str("        }"));
    out.push(String::from_str("    }"));
    out.push(String::from_str("}"));
    proof {
        assert(out.deep_view() =~= spec_sg_fnptr());
    }
    out
}

/// The `failing` module of the emitted bindings.
pub open spec fn spec_sg_failing(reg: crate::registry::RegistryV) -> Option<Seq<Seq<char>>> {
    match spec_cmd_blocks(first_seen(reg.cmds, cmd_key()), failing_maker()) {
        Some(ls) => Some(
            seq![
                "mod failing {"@,
                "    use std::libc::*;"@,
                "    use super::types::*;"@,
                "    macro_rules! failing("@,
                "        (fn $name:ident()) => (pub extern \"C\" fn $name() { fail!(stringify!($name was not loaded)) });"@,
                "        (fn $name:ident() -> $ret_ty:ty) => (pub extern \"C\" fn $name() -> $ret_ty { fail!(stringify!($name was not loaded)) });"@,
                "        (fn $name:ident($($arg_ty:ty),*)) => (pub extern \"C\" fn $name($(_: $arg_ty),*) { fail!(stringify!($name was not loaded)) });"@,
                "        (fn $name:ident($($arg_ty:ty),*) -> $ret_ty:ty) => (pub extern \"C\" fn $name($(_: $arg_ty),*) -> $ret_ty { fail!(stringify!($name was not loaded)) });"@,
                "    )"@,
            ] + ls.map_values(|l: Seq<char>| "    "@ + l) + seq!["}"@],
        ),
        None => None,
    }
}

/// One pointer field of the aggregate.
pub open spec fn spec_field_line(c: CmdV) -> Option<Seq<char>> {
    match (spec_param_ty_list(c), spec_return_suffix(c.proto.ty)) {
        (Some(t), Some(r)) => Some(
            c.proto.ident + ": FnPtr<extern \"C\" fn("@ + t + ")"@ + r + ">,"@,
        ),
        _ => None,
    }
}

/// The per-command field block.
pub open spec fn field_maker() -> spec_fn(CmdV) -> Option<Seq<Seq<char>>> {
    |c: CmdV|
        match spec_field_line(c) {
            Some(l) => Some(seq![l]),
            None => None,
        }
}

fn field_line(c: &Cmd) -> (r: Result<String, GenError>)
    ensures
        (r is Ok) == (spec_field_line(c@) is Some),
        r matches Ok(s) ==> Some(s@) == spec_field_line(c@),
        r matches Err(e) ==> e@ == spec_failing_err(c@),
{
    let tys = match gen_param_ty_list(c) {
        Ok(t) => t,
        Err(e) => return Err(e),
    };
    let ret = match gen_return_suffix(c) {
        Ok(t) => t,
        Err(e) => return Err(e),
    };
    Ok(
        c.proto.ident.as_str().to_owned().concat(": FnPtr<extern \"C\" fn(").concat(
            tys.as_str(),
        ).concat(")").concat(ret.as_str()).concat(">,"),
    )
}

/// The aggregate struct: one pointer field per deduplicated command.
pub open spec fn spec_sg_struct(reg: crate::registry::RegistryV) -> Option<Seq<Seq<char>>> {
    match spec_cmd_blocks(first_seen(reg.cmds, cmd_key()), field_maker()) {
        Some(ls) => Some(
            seq!["pub struct "@ + spec_struct_name(reg.ns) + " {"@] + ls.map_values(
                |l: Seq<char>| "    "@ + l,
            ) + seq!["}"@],
        ),
        None => None,
    }
}

/// One constructor entry populating a pointer field.
pub open spec fn spec_ctor_line(ns: Ns, c: CmdV) -> Seq<char> {
    c.proto.ident + ": FnPtr::new(loadfn(\""@ + spec_symbol_name(ns, c.proto.ident)
        + "\"), failing::"@ + c.proto.ident + "),"@
}

fn ctor_line(ns: Ns, c: &Cmd) -> (r: String)
    ensures
        r@ == spec_ctor_line(ns, c@),
{
    c.proto.ident.as_str().to_owned().concat(": FnPtr::new(loadfn(\"").concat(
        gen_symbol_name(ns, c).as_str(),
    ).concat("\"), failing::").concat(c.proto.ident.as_str()).concat("),")
}

/// One method of the aggregate, invoking the stored pointer.
pub open spec fn spec_method_line(c: CmdV) -> Option<Seq<char>> {
    match (spec_param_list(c, true), spec_return_suffix(c.proto.ty)) {
        (Some(p), Some(r)) => Some(
            "#[inline] pub unsafe fn "@ + c.proto.ident + "(&self, "@ + p + ")"@ + r + " { (self."@
                + c.proto.ident + ".f)("@ + spec_param_ident_list(c) + ") }"@,
        ),
        _ => None,
    }
}

/// The per-command method block.
pub open spec fn method_maker() -> spec_fn(CmdV) -> Option<Seq<Seq<char>>> {
    |c: CmdV|
        match spec_method_line(c) {
            Some(l) => Some(seq![l]),
            None => None,
        }
}

fn method_line(c: &Cmd) -> (r: Result<String, GenError>)
    ensures
        (r is Ok) == (spec_method_line(c@) is Some),
        r matches Ok(s) ==> Some(s@) == spec_method_line(c@),
        r matches Err(e) ==> e@ == spec_fn_err(c@),
{
    let params = match gen_param_list(c, true) {
        Ok(t) => t,
        Err(e) => return Err(e),
    };
    let ret = match gen_return_suffix(c) {
        Ok(t) => t,
        Err(e) => return Err(e),
    };
    Ok(
        String::from_str("#[inline] pub unsafe fn ").concat(c.proto.ident.as_str()).concat(
            "(&self, ",
        ).concat(params.as_str()).concat(")").concat(ret.as_str()).concat(" { (self.").concat(
            c.proto.ident.as_str(),
        ).concat(".f)(").concat(gen_param_ident_list(c).as_str()).concat(") }"),
    )
}

/// The `impl` of the aggregate: the loading constructor and one
/// pointer-invoking method per deduplicated command.
pub open spec fn spec_sg_impl(reg: crate::registry::RegistryV) -> Option<Seq<Seq<char>>> {
    match spec_cmd_blocks(first_seen(reg.cmds, cmd_key()), method_maker()) {
        Some(ms) => Some(
            seq![
                "impl "@ + spec_struct_name(reg.ns) + " {"@,
                "    /// Load every symbol through a caller-supplied resolver; unresolved"@,
                "    /// symbols fall back to their loud-failure stubs."@,
                "    pub fn load_with(loadfn: &fn(symbol: &str) -> Option<extern \"C\" fn()>) -> "@
                    + spec_struct_name(reg.ns) + " {"@,
                "        "@ + spec_struct_name(reg.ns) + " {"@,
            ] + first_seen(reg.cmds, cmd_key()).map_values(
                |c: CmdV| "            "@ + spec_ctor_line(reg.ns, c),
            ) + seq![
                "        }"@,
                "    }"@,
            ] + ms.map_values(|l: Seq<char>| "    "@ + l) + seq!["}"@],
        ),
        None => None,
    }
}

/// The whole output of the struct-of-pointers generator.
pub open spec fn spec_struct_output(reg: crate::registry::RegistryV) -> Option<Seq<Seq<char>>> {
    match (spec_sg_failing(reg), spec_sg_struct(reg), spec_sg_impl(reg)) {
        (Some(fl), Some(st), Some(im)) => Some(
            spec_ss_header() + spec_ss_type_aliases(reg.ns) + spec_ss_enums(reg.enums)
                + spec_sg_fnptr() + fl + st + im,
        ),
        _ => None,
    }
}

/// The struct-of-pointers strategy.
pub struct StructGenerator;

impl StructGenerator {
    /// Emits the whole binding: imports, type aliases, constants, the
    /// `FnPtr` type, the failure stubs, the aggregate struct and its
    /// `impl` — in that order.  Fails, with no output, exactly when
    /// some command of the registry carries an unknown type name; the
    /// first such command's failure is reported.
    #[verifier::rlimit(80)]
    pub fn write(&self, registry: &Registry) -> (r: Result<Vec<String>, GenError>)
        ensures
            (r is Ok) == (spec_struct_output(registry@) is Some),
            r matches Ok(v) ==> Some(v.deep_view()) == spec_struct_output(registry@),
            r matches Err(e) ==> Some(e@) == first_block_err(
                first_seen(registry@.cmds, cmd_key()),
                failing_maker(),
                failing_err_of(),
            ),
    {
        let ghost fs = first_seen(registry@.cmds, cmd_key());
        let ghost ns = registry.ns;
        let cmds = dedup_cmds(&registry.cmds);

        let mut stubs: Vec<String> = Vec::new();
        let mut fields: Vec<String> = Vec::new();
        let mut ctors: Vec<String> = Vec::new();
        let mut methods: Vec<String> = Vec::new();
        let n = cmds.len();
        let mut i: usize = 0;
        proof {
            assert(fs.subrange(0, 0) =~= Seq::<CmdV>::empty());
            assert(stubs.deep_view() =~= Seq::<Seq<char>>::empty());
            assert(fields.deep_view() =~= Seq::<Seq<char>>::empty());
            assert(methods.deep_view() =~= Seq::<Seq<char>>::empty());
            assert(ctors.deep_view() =~= fs.subrange(0, 0).map_values(
                |c: CmdV| "            "@ + spec_ctor_line(ns, c),
            ));
        }
        while i < n
            invariant
                i <= n,
                n == cmds@.len(),
                ns == registry.ns,
                cmds@.map_values(|c: Cmd| c@) == fs,
                forall|j: int| 0 <= j < i ==> failing_maker()(#[trigger] fs[j]) is Some,
                Some(stubs.deep_view()) == spec_cmd_blocks(
                    fs.subrange(0, i as int),
                    failing_maker(),
                ),
                Some(fields.deep_view()) == spec_cmd_blocks(
                    fs.subrange(0, i as int),
                    field_maker(),
                ),
                Some(methods.deep_view()) == spec_cmd_blocks(
                    fs.subrange(0, i as int),
                    method_maker(),
                ),
                ctors.deep_view() == fs.subrange(0, i as int).map_values(
                    |c: CmdV| "            "@ + spec_ctor_line(ns, c),
                ),
            decreases n - i,
        {
            proof {
                assert(cmds@[i as int]@ == fs[i as int]);
            }
            let c = &cmds[i];
            let stub = match failing_line(c) {
                Ok(l) => l,
                Err(e) => {
                    proof {
                        assert(failing_maker()(fs[i as int]) is None);
                        lemma_first_block_err_at(fs, failing_maker(), failing_err_of(), i as int);
                        lemma_blocks_some(fs, failing_maker());
                    }
                    return Err(e);
                },
            };
            let field = match field_line(c) {
                Ok(l) => l,
                Err(e) => {
                    proof {
                        assert(failing_maker()(fs[i as int]) is Some);
                        assert(field_maker()(fs[i as int]) is None);
                        assert(false);
                    }
                    return Err(e);
                },
            };
            let method = match method_line(c) {
                Ok(l) => l,
                Err(e) => {
                    proof {
                        assert(failing_maker()(fs[i as int]) is Some);
                        crate::emit::lemma_render_some(fs[i as int].params, true, true);
                        crate::emit::lemma_render_some(fs[i as int].params, true, false);
                        assert forall|k: int|
                            0 <= k < fs[i as int].params.len() implies (spec_param_one(
                            #[trigger] fs[i as int].params[k],
                            true,
                            true,
                        ) is Some) == (spec_param_one(
                            fs[i as int].params[k],
                            true,
                            false,
                        ) is Some) by {}
                        assert(method_maker()(fs[i as int]) is None);
                        assert(false);
                    }
                    return Err(e);
                },
            };
            let ghost sv = stub@;
            let ghost fv = field@;
            let ghost mv = method@;
            stubs.push(stub);
            fields.push(field);
            methods.push(method);
            ctors.push(
                String::from_str("            ").concat(ctor_line(registry.ns, c).as_str()),
            );
            proof {
                assert(fs.subrange(0, i + 1 as int) =~= fs.subrange(0, i as int).push(
                    fs[i as int],
                ));
                lemma_blocks_push(fs.subrange(0, i as int), fs[i as int], failing_maker());
                lemma_blocks_push(fs.subrange(0, i as int), fs[i as int], field_maker());
                lemma_blocks_push(fs.subrange(0, i as int), fs[i as int], method_maker());
                assert(failing_maker()(fs[i as int]) == Some(seq![sv]));
                assert(field_maker()(fs[i as int]) == Some(seq![fv]));
                assert(method_maker()(fs[i as int]) == Some(seq![mv]));
                assert(stubs.deep_view() =~= spec_cmd_blocks(
                    fs.subrange(0, i as int),
                    failing_maker(),
                )->0 + seq![sv]);
                assert(fields.deep_view() =~= spec_cmd_blocks(
                    fs.subrange(0, i as int),
                    field_maker(),
                )->0 + seq![fv]);
                assert(methods.deep_view() =~= spec_cmd_blocks(
                    fs.subrange(0, i as int),
                    method_maker(),
                )->0 + seq![mv]);
                assert(fs.subrange(0, i + 1 as int).map_values(
                    |c: CmdV| "            "@ + spec_ctor_line(ns, c),
                ) =~= fs.subrange(0, i as int).map_values(
                    |c: CmdV| "            "@ + spec_ctor_line(ns, c),
                ).push("            "@ + spec_ctor_line(ns, fs[i as int])));
                assert(ctors.deep_view() =~= fs.subrange(0, i as int).map_values(
                    |c: CmdV| "            "@ + spec_ctor_line(ns, c),
                ).push("            "@ + spec_ctor_line(ns, fs[i as int])));
            }
            i = i + 1;
        }
        proof {
            assert(fs.subrange(0, n as int) =~= fs);
        }

        let mut out = write_header();
        let aliases = write_type_aliases(registry);
        append_lines(&mut out, &aliases);
        let enums = write_enums(registry);
        append_lines(&mut out, &enums);
        let fnptr = write_fnptr();
        append_lines(&mut out, &fnptr);

        let ghost before_failing = out.deep_view();
        out.push(String::from_str("mod failing {"));
        out.push(String::from_str("    use std::libc::*;"));
        out.push(String::from_str("    use super::types::*;"));
        out.push(String::from_str("    macro_rules! failing("));
        out.push(String::from_str("        (fn $name:ident()) => (pub extern \"C\" fn $name() { fail!(stringify!($name was not loaded)) });"));
        out.push(String::from_str("        (fn $name:ident() -> $ret_ty:ty) => (pub extern \"C\" fn $name() -> $ret_ty { fail!(stringify!($name was not loaded)) });"));
        out.push(String::from_str("        (fn $name:ident($($arg_ty:ty),*)) => (pub extern \"C\" fn $name($(_: $arg_ty),*) { fail!(stringify!($name was not loaded)) });"));
        out.push(String::from_str("        (fn $name:ident($($arg_ty:ty),*) -> $ret_ty:ty) => (pub extern \"C\" fn $name($(_: $arg_ty),*) -> $ret_ty { fail!(stringify!($name was not loaded)) });"));
        out.push(String::from_str("    )"));
        let ghost failing_head = out.deep_view();
        proof {
            assert(failing_head =~= before_failing + seq![
                "mod failing {"@,
                "    use std::libc::*;"@,
                "    use super::types::*;"@,
                "    macro_rules! failing("@,
                "        (fn $name:ident()) => (pub extern \"C\" fn $name() { fail!(stringify!($name was not loaded)) });"@,
                "        (fn $name:ident() -> $ret_ty:ty) => (pub extern \"C\" fn $name() -> $ret_ty { fail!(stringify!($name was not loaded)) });"@,
                "        (fn $name:ident($($arg_ty:ty),*)) => (pub extern \"C\" fn $name($(_: $arg_ty),*) { fail!(stringify!($name was not loaded)) });"@,
                "        (fn $name:ident($($arg_ty:ty),*) -> $ret_ty:ty) => (pub extern \"C\" fn $name($(_: $arg_ty),*) -> $ret_ty { fail!(stringify!($name was not loaded)) });"@,
                "    )"@,
            ]);
        }
        let m = stubs.len();
        let mut j: usize = 0;
        proof {
            assert(out.deep_view() =~= failing_head + stubs.deep_view().subrange(0, 0).map_values(
                |l: Seq<char>| "    "@ + l,
            ));
        }
        while j < m
            invariant
                j <= m,
                m == stubs@.len(),
                out.deep_view() == failing_head + stubs.deep_view().subrange(0, j as int)
                    .map_values(|l: Seq<char>| "    "@ + l),
            decreases m - j,
        {
            out.push(String::from_str("    ").concat(stubs[j].as_str()));
            proof {
                let sd = stubs.deep_view();
                assert(sd.subrange(0, j + 1 as int).map_values(|l: Seq<char>| "    "@ + l)
                    =~= sd.subrange(0, j as int).map_values(|l: Seq<char>| "    "@ + l).push(
                    "    "@ + sd[j as int],
                ));
                assert(out.deep_view() =~= (failing_head + sd.subrange(0, j as int).map_values(
                    |l: Seq<char>| "    "@ + l,
                )).push("    "@ + sd[j as int]));
                assert(out.deep_view() =~= failing_head + sd.subrange(0, j + 1 as int).map_values(
                    |l: Seq<char>| "    "@ + l,
                ));
            }
            j = j + 1;
        }
        out.push(String::from_str("}"));
        proof {
            assert(stubs.deep_view().subrange(0, m as int) =~= stubs.deep_view());
            assert(out.deep_view() =~= (failing_head + stubs.deep_view().map_values(
                |l: Seq<char>| "    "@ + l,
            )).push("}"@));
            assert(out.deep_view() =~= before_failing + spec_sg_failing(registry@)->0);
        }

        let name = gen_struct_name(registry.ns);
        let ghost before_struct = out.deep_view();
        out.push(String::from_str("pub struct ").concat(name.as_str()).concat(" {"));
        let ghost struct_head = out.deep_view();
        let fm = fields.len();
        let mut k: usize = 0;
        proof {
            assert(struct_head =~= before_struct + seq![
                "pub struct "@ + spec_struct_name(registry.ns) + " {"@,
            ]);
            assert(out.deep_view() =~= struct_head + fields.deep_view().subrange(0, 0).map_values(
                |l: Seq<char>| "    "@ + l,
            ));
        }
        while k < fm
            invariant
                k <= fm,
                fm == fields@.len(),
                out.deep_view() == struct_head + fields.deep_view().subrange(0, k as int)
                    .map_values(|l: Seq<char>| "    "@ + l),
            decreases fm - k,
        {
            out.push(String::from_str("    ").concat(fields[k].as_str()));
            proof {
                let fd = fields.deep_view();
                assert(fd.subrange(0, k + 1 as int).map_values(|l: Seq<char>| "    "@ + l)
                    =~= fd.subrange(0, k as int).map_values(|l: Seq<char>| "    "@ + l).push(
                    "    "@ + fd[k as int],
                ));
                assert(out.deep_view() =~= (struct_head + fd.subrange(0, k as int).map_values(
                    |l: Seq<char>| "    "@ + l,
                )).push("    "@ + fd[k as int]));
                assert(out.deep_view() =~= struct_head + fd.subrange(0, k + 1 as int).map_values(
                    |l: Seq<char>| "    "@ + l,
                ));
            }
            k = k + 1;
        }
        out.push(String::from_str("}"));
        proof {
            assert(fields.deep_view().subrange(0, fm as int) =~= fields.deep_view());
            assert(out.deep_view() =~= (struct_head + fields.deep_view().map_values(
                |l: Seq<char>| "    "@ + l,
            )).push("}"@));
            assert(out.deep_view() =~= before_struct + spec_sg_struct(registry@)->0);
        }

        let ghost before_impl = out.deep_view();
        out.push(String::from_str("impl ").concat(name.as_str()).concat(" {"));
        out.push(String::from_str("    /// Load every symbol through a caller-supplied resolver; unresolved"));
        out.push(String::from_str("    /// symbols fall back to their loud-failure stubs."));
        out.push(
            String::from_str(
                "    pub fn load_with(loadfn: &fn(symbol: &str) -> Option<extern \"C\" fn()>) -> ",
            ).concat(name.as_str()).concat(" {"),
        );
        out.push(String::from_str("        ").concat(name.as_str()).concat(" {"));
        let ghost impl_head = out.deep_view();
        proof {
            assert(impl_head =~= before_impl + seq![
                "impl "@ + spec_struct_name(registry.ns) + " {"@,
                "    /// Load every symbol through a caller-supplied resolver; unresolved"@,
                "    /// symbols fall back to their loud-failure stubs."@,
                "    pub fn load_with(loadfn: &fn(symbol: &str) -> Option<extern \"C\" fn()>) -> "@
                    + spec_struct_name(registry.ns) + " {"@,
                "        "@ + spec_struct_name(registry.ns) + " {"@,
            ]);
        }
        append_lines(&mut out, &ctors);
        out.push(String::from_str("        }"));
        out.push(String::from_str("    }"));
        let ghost method_head = out.deep_view();
        proof {
            assert(method_head =~= impl_head + ctors.deep_view() + seq![
                "        }"@,
                "    }"@,
            ]);
        }
        let mm = methods.len();
        let mut q: usize = 0;
        proof {
            assert(out.deep_view() =~= method_head + methods.deep_view().subrange(0, 0)
                .map_values(|l: Seq<char>| "    "@ + l));
        }
        while q < mm
            invariant
                q <= mm,
                mm == methods@.len(),
                out.deep_view() == method_head + methods.deep_view().subrange(0, q as int)
                    .map_values(|l: Seq<char>| "    "@ + l),
            decreases mm - q,
        {
            out.push(String::from_str("    ").concat(methods[q].as_str()));
            proof {
                let md = methods.deep_view();
                assert(md.subrange(0, q + 1 as int).map_values(|l: Seq<char>| "    "@ + l)
                    =~= md.subrange(0, q as int).map_values(|l: Seq<char>| "    "@ + l).push(
                    "    "@ + md[q as int],
                ));
                assert(out.deep_view() =~= (method_head + md.subrange(0, q as int).map_values(
                    |l: Seq<char>| "    "@ + l,
                )).push("    "@ + md[q as int]));
                assert(out.deep_view() =~= method_head + md.subrange(0, q + 1 as int).map_values(
                    |l: Seq<char>| "    "@ + l,
                ));
            }
            q = q + 1;
        }
        out.push(String::from_str("}"));
        proof {
            assert(methods.deep_view().subrange(0, mm as int) =~= methods.deep_view());
            assert(out.deep_view() =~= (method_head + methods.deep_view().map_values(
                |l: Seq<char>| "    "@ + l,
            )).push("}"@));
            assert(before_failing =~= spec_ss_header() + spec_ss_type_aliases(registry.ns)
                + spec_ss_enums(registry@.enums) + spec_sg_fnptr());
            assert(before_struct =~= before_failing + spec_sg_failing(registry@)->0);
            assert(before_impl =~= before_struct + spec_sg_struct(registry@)->0);
            assert(out.deep_view() =~= before_impl + spec_sg_impl(registry@)->0);
            assert(out.deep_view() =~= spec_struct_output(registry@)->0);
        }
        Ok(out)
    }
}

} // verus!
