//! The global-function generator: every command becomes a free function
//! backed by a per-command function-pointer slot, with per-command
//! submodules for querying and loading the pointer, loud-failure stubs
//! for unloaded slots, and one aggregate load operation.  The generator
//! builds an ordered buffer of source lines; nothing is written
//! anywhere else.

use vstd::prelude::*;

use crate::emit::{
    first_block_err, gen_param_ident_list, gen_param_list, gen_param_ty_list,
    gen_return_suffix, gen_symbol_name, lemma_blocks_push, lemma_blocks_some, spec_param_one,
    lemma_first_block_err_at, ns_name, render_enum, spec_cmd_blocks, spec_enum_line,
    spec_ns_name, spec_param_ident_list, spec_param_list, spec_param_ty_list,
    spec_return_suffix, spec_symbol_name,
};
use crate::error::{GenError, GenErrorV};
use crate::registry::{Cmd, CmdV, Enum, EnumV, Ns, Registry};
use crate::resolve::{enum_key, cmd_key, first_seen};

verus! {

/// The indentation of `n` levels: four spaces each.
pub open spec fn spec_indent(n: nat) -> Seq<char>
    decreases n,
{
    if n == 0 {
        Seq::empty()
    } else {
        spec_indent((n - 1) as nat) + "    "@
    }
}

/// One output line at the given indentation level.
pub open spec fn line_at(ind: nat, s: Seq<char>) -> Seq<char> {
    spec_indent(ind) + s
}

/// The generator state: the namespace, the resolved registry the output
/// is driven from, the current indentation level, and the ordered
/// buffer of emitted source lines.
pub struct Generator {
    pub ns: Ns,
    pub registry: Registry,
    pub indent: usize,
    pub out: Vec<String>,
}

impl Generator {
    /// A fresh generator over a resolved registry, with an empty output
    /// buffer.
    pub fn new(registry: Registry, ns: Ns) -> (g: Generator)
        ensures
            g.ns == ns,
            g.registry == registry,
            g.indent == 0,
            g.out@ == Seq::<String>::empty(),
    {
        Generator { ns, registry, indent: 0, out: Vec::new() }
    }

    /// One level deeper.
    pub fn incr_indent(&mut self)
        requires
            old(self).indent < usize::MAX,
        ensures
            final(self).indent == old(self).indent + 1,
            final(self).ns == old(self).ns,
            final(self).registry == old(self).registry,
            final(self).out == old(self).out,
    {
        self.indent = self.indent + 1;
    }

    /// One level back, never below zero.
    pub fn decr_indent(&mut self)
        ensures
            final(self).indent == if old(self).indent > 0 {
                (old(self).indent - 1) as usize
            } else {
                0usize
            },
            final(self).ns == old(self).ns,
            final(self).registry == old(self).registry,
            final(self).out == old(self).out,
    {
        if self.indent > 0 {
            self.indent = self.indent - 1;
        }
    }

    /// The indentation of the current level.
    pub fn write_indent(&self) -> (r: String)
        ensures
            r@ == spec_indent(self.indent as nat),
    {
        let mut r = String::new();
        let mut i: usize = 0;
        while i < self.indent
            invariant
                i <= self.indent,
                r@ == spec_indent(i as nat),
            decreases self.indent - i,
        {
            r.append("    ");
            i = i + 1;
        }
        r
    }

    /// Appends one line at the current indentation.
    pub fn write_line(&mut self, s: &str)
        ensures
            final(self).out.deep_view() == old(self).out.deep_view().push(
                line_at(old(self).indent as nat, s@),
            ),
            final(self).indent == old(self).indent,
            final(self).ns == old(self).ns,
            final(self).registry == old(self).registry,
    {
        let line = self.write_indent().concat(s);
        self.out.push(line);
        proof {
            assert(self.out.deep_view() =~= old(self).out.deep_view().push(
                line_at(old(self).indent as nat, s@),
            ));
        }
    }

    /// Appends one comment line.
    pub fn write_comment(&mut self, s: &str)
        ensures
            final(self).out.deep_view() == old(self).out.deep_view().push(
                line_at(old(self).indent as nat, "// "@ + s@),
            ),
            final(self).indent == old(self).indent,
            final(self).ns == old(self).ns,
            final(self).registry == old(self).registry,
    {
        let line = String::from_str("// ").concat(s);
        self.write_line(line.as_str());
    }

    /// Appends one doc-comment line.
    pub fn write_doc_comment(&mut self, s: &str)
        ensures
            final(self).out.deep_view() == old(self).out.deep_view().push(
                line_at(old(self).indent as nat, "/// "@ + s@),
            ),
            final(self).indent == old(self).indent,
            final(self).ns == old(self).ns,
            final(self).registry == old(self).registry,
    {
        let line = String::from_str("/// ").concat(s);
        self.write_line(line.as_str());
    }

    /// The enums to emit: first occurrence of each identifier wins,
    /// later duplicates are dropped.
    pub fn for_enums(&self) -> (r: Vec<Enum>)
        ensures
            r@.map_values(|e: Enum| e@) == first_seen(self.registry@.enums, enum_key()),
    {
        crate::resolve::dedup_enums(&self.registry.enums)
    }

    /// The commands to emit: first occurrence of each identifier wins.
    pub fn for_cmds(&self) -> (r: Vec<Cmd>)
        ensures
            r@.map_values(|c: Cmd| c@) == first_seen(self.registry@.cmds, cmd_key()),
    {
        crate::resolve::dedup_cmds(&self.registry.cmds)
    }

    /// Appends one constant definition under the caller-supplied
    /// default type.
    pub fn write_enum(&mut self, enm: &Enum, ty: &str)
        ensures
            final(self).out.deep_view() == old(self).out.deep_view().push(
                line_at(old(self).indent as nat, spec_enum_line(enm@, ""@, ty@)),
            ),
            final(self).indent == old(self).indent,
            final(self).ns == old(self).ns,
            final(self).registry == old(self).registry,
    {
        let line = render_enum(enm, "", ty);
        self.write_line(line.as_str());
    }

    /// Appends every deduplicated constant definition, typed `GLenum`
    /// by default.
    pub fn write_enums(&mut self)
        ensures
            final(self).out.deep_view() == old(self).out.deep_view() + spec_enums_block(
                old(self).registry@.enums,
                old(self).indent as nat,
            ),
            final(self).indent == old(self).indent,
            final(self).ns == old(self).ns,
            final(self).registry == old(self).registry,
    {
        let ghost base = self.out.deep_view();
        let ghost fs = first_seen(self.registry@.enums, enum_key());
        let ghost ind = self.indent as nat;
        let es = self.for_enums();
        let n = es.len();
        let mut i: usize = 0;
        proof {
            assert(base + spec_enum_lines(fs.subrange(0, 0), ind) =~= base);
        }
        while i < n
            invariant
                i <= n,
                n == es@.len(),
                es@.map_values(|e: Enum| e@) == fs,
                fs == first_seen(self.registry@.enums, enum_key()),
                ind == self.indent as nat,
                self.out.deep_view() == base + spec_enum_lines(fs.subrange(0, i as int), ind),
                self.ns == old(self).ns,
                self.registry == old(self).registry,
                self.indent == old(self).indent,
            decreases n - i,
        {
            self.write_enum(&es[i], "GLenum");
            proof {
                assert(es@[i as int]@ == fs[i as int]);
                assert(spec_enum_lines(fs.subrange(0, i + 1 as int), ind) =~= spec_enum_lines(
                    fs.subrange(0, i as int),
                    ind,
                ).push(line_at(ind, spec_enum_line(fs[i as int], ""@, "GLenum"@))));
                assert(self.out.deep_view() =~= base + spec_enum_lines(
                    fs.subrange(0, i + 1 as int),
                    ind,
                ));
            }
            i = i + 1;
        }
        proof {
            assert(fs.subrange(0, n as int) =~= fs);
        }
    }
}

impl Generator {
    /// Appends the header: the license of the emitted bindings, their
    /// crate metadata and their imports.
    pub fn write_header(&mut self)
        ensures
            final(self).out.deep_view() == old(self).out.deep_view() + spec_header_block(
                old(self).ns,
                old(self).indent as nat,
            ),
            final(self).indent == old(self).indent,
            final(self).ns == old(self).ns,
            final(self).registry == old(self).registry,
    {
        self.write_line("// Copyright 2013 The gl-rs developers. For a full listing of the authors,");
        self.write_line("// refer to the AUTHORS file at the top-level directory of this distribution.");
        self.write_line("// ");
        self.write_line("// Licensed under the Apache License, Version 2.0 (the \"License\");");
        self.write_line("// you may not use this file except in compliance with the License.");
        self.write_line("// You may obtain a copy of the License at");
        self.write_line("// ");
        self.write_line("//     http://www.apache.org/licenses/LICENSE-2.0");
        self.write_line("// ");
        self.write_line("// Unless required by applicable law or agreed to in writing, software");
        self.write_line("// distributed under the License is distributed on an \"AS IS\" BASIS,");
        self.write_line("// WITHOUT WARRANTIES OR CONDITIONS OF ANY KIND, either express or implied.");
        self.write_line("// See the License for the specific language governing permissions and");
        self.write_line("// limitations under the License.");
        self.write_line("");
        let link = String::from_str("#[link(name = \"").concat(ns_name(self.ns).as_str()).concat(
            "\",",
        );
        self.write_line(link.as_str());
        self.write_line("       author = \"Brendan Zabarauskas\",");
        self.write_line("       url = \"https://github.com/bjz/gl-rs\",");
        self.write_line("       vers = \"0.1\")];");
        self.write_line("#[comment = \"An OpenGL function loader.\"];");
        self.write_line("#[license = \"ASL2\"];");
        self.write_line("#[crate_type = \"lib\"];");
        self.write_line("");
        self.write_line("use std::libc::*;");
        self.write_line("use self::types::*;");
        proof {
            assert(self.out.deep_view() =~= old(self).out.deep_view() + spec_header_block(
                old(self).ns,
                old(self).indent as nat,
            ));
        }
    }

    /// Appends the `types` module holding the namespace's type aliases.
    pub fn write_type_aliases(&mut self)
        requires
            old(self).indent < usize::MAX,
        ensures
            final(self).out.deep_view() == old(self).out.deep_view() + spec_type_aliases_block(
                old(self).ns,
                old(self).indent as nat,
            ),
            final(self).indent == old(self).indent,
            final(self).ns == old(self).ns,
            final(self).registry == old(self).registry,
    {
        let ghost ind = self.indent as nat;
        let ghost base = self.out.deep_view();
        self.write_line("pub mod types {");
        self.incr_indent();
        self.write_line("use std::libc::*;");
        self.write_line("");
        let aliases = crate::types::aliases_for(self.ns);
        let ghost av = crate::types::spec_aliases_for(self.ns);
        let ghost mid = self.out.deep_view();
        let n = aliases.len();
        let mut i: usize = 0;
        proof {
            assert(mid + av.subrange(0, 0).map_values(
                |a: crate::registry::TypeAliasV| line_at(ind + 1, spec_alias_line(a)),
            ) =~= mid);
        }
        while i < n
            invariant
                i <= n,
                n == aliases@.len(),
                crate::types::aliases_view(aliases@) == av,
                av.len() == n,
                ind + 1 == self.indent as nat,
                self.out.deep_view() == mid + av.subrange(0, i as int).map_values(
                    |a: crate::registry::TypeAliasV| line_at(ind + 1, spec_alias_line(a)),
                ),
                self.ns == old(self).ns,
                self.registry == old(self).registry,
            decreases n - i,
        {
            let a = &aliases[i];
            let line = String::from_str("pub type ").concat(a.alias.as_str()).concat(
                " = ",
            ).concat(a.ty.as_str()).concat(";");
            self.write_line(line.as_str());
            proof {
                assert(a@ == av[i as int]);
                assert(av.subrange(0, i + 1 as int).map_values(
                    |a: crate::registry::TypeAliasV| line_at(ind + 1, spec_alias_line(a)),
                ) =~= av.subrange(0, i as int).map_values(
                    |a: crate::registry::TypeAliasV| line_at(ind + 1, spec_alias_line(a)),
                ).push(line_at(ind + 1, spec_alias_line(av[i as int]))));
                assert(self.out.deep_view() =~= mid + av.subrange(0, i + 1 as int).map_values(
                    |a: crate::registry::TypeAliasV| line_at(ind + 1, spec_alias_line(a)),
                ));
            }
            i = i + 1;
        }
        proof {
            assert(av.subrange(0, n as int) =~= av);
        }
        self.decr_indent();
        self.write_line("}");
        proof {
            assert(self.out.deep_view() =~= base + spec_type_aliases_block(old(self).ns, ind));
        }
    }

    /// Appends the `FnPtr` struct definition of the emitted bindings.
    pub fn write_fnptr_struct_def(&mut self)
        ensures
            final(self).out.deep_view() == old(self).out.deep_view() + spec_fnptr_block(
                old(self).indent as nat,
            ),
            final(self).indent == old(self).indent,
            final(self).ns == old(self).ns,
            final(self).registry == old(self).registry,
    {
        self.write_line("pub struct FnPtr<F> { f: F, is_loaded: bool }");
        self.write_line("");
        self.write_line("impl<F> FnPtr<F> {");
        self.write_line("    pub fn new(ptr: Option<extern \"C\" fn()>, failing_fn: F) -> FnPtr<F> {");
        self.write_line("        use std::cast::transmute;");
        self.write_line("        match ptr {");
        self.write_line("            Some(p) => FnPtr { f: unsafe { transmute(p) }, is_loaded: true },");
        self.write_line("            None => FnPtr { f: failing_fn, is_loaded: false },");
        self.write_line("        }");
        self.write_line("    }");
        self.write_line("}");
        proof {
            assert(self.out.deep_view() =~= old(self).out.deep_view() + spec_fnptr_block(
                old(self).indent as nat,
            ));
        }
    }
}

/// One rendered type-alias declaration.
pub open spec fn spec_alias_line(a: crate::registry::TypeAliasV) -> Seq<char> {
    "pub type "@ + a.alias + " = "@ + a.ty + ";"@
}

/// The header block of the emitted bindings.
pub open spec fn spec_header_block(ns: Ns, ind: nat) -> Seq<Seq<char>> {
    seq![
        line_at(ind, "// Copyright 2013 The gl-rs developers. For a full listing of the authors,"@),
        line_at(ind, "// refer to the AUTHORS file at the top-level directory of this distribution."@),
        line_at(ind, "// "@),
        line_at(ind, "// Licensed under the Apache License, Version 2.0 (the \"License\");"@),
        line_at(ind, "// you may not use this file except in compliance with the License."@),
        line_at(ind, "// You may obtain a copy of the License at"@),
        line_at(ind, "// "@),
        line_at(ind, "//     http://www.apache.org/licenses/LICENSE-2.0"@),
        line_at(ind, "// "@),
        line_at(ind, "// Unless required by applicable law or agreed to in writing, software"@),
        line_at(ind, "// distributed under the License is distributed on an \"AS IS\" BASIS,"@),
        line_at(ind, "// WITHOUT WARRANTIES OR CONDITIONS OF ANY KIND, either express or implied."@),
        line_at(ind, "// See the License for the specific language governing permissions and"@),
        line_at(ind, "// limitations under the License."@),
        line_at(ind, ""@),
        line_at(ind, "#[link(name = \""@ + spec_ns_name(ns) + "\","@),
        line_at(ind, "       author = \"Brendan Zabarauskas\","@),
        line_at(ind, "       url = \"https://github.com/bjz/gl-rs\","@),
        line_at(ind, "       vers = \"0.1\")];"@),
        line_at(ind, "#[comment = \"An OpenGL function loader.\"];"@),
        line_at(ind, "#[license = \"ASL2\"];"@),
        line_at(ind, "#[crate_type = \"lib\"];"@),
        line_at(ind, ""@),
        line_at(ind, "use std::libc::*;"@),
        line_at(ind, "use self::types::*;"@),
    ]
}

/// The `types` module block: the namespace's type aliases.
pub open spec fn spec_type_aliases_block(ns: Ns, ind: nat) -> Seq<Seq<char>> {
    seq![
        line_at(ind, "pub mod types {"@),
        line_at(ind + 1, "use std::libc::*;"@),
        line_at(ind + 1, ""@),
    ] + crate::types::spec_aliases_for(ns).map_values(
        |a: crate::registry::TypeAliasV| line_at(ind + 1, spec_alias_line(a)),
    ) + seq![line_at(ind, "}"@)]
}

/// The `FnPtr` struct block of the emitted bindings.
pub open spec fn spec_fnptr_block(ind: nat) -> Seq<Seq<char>> {
    seq![
        line_at(ind, "pub struct FnPtr<F> { f: F, is_loaded: bool }"@),
        line_at(ind, ""@),
        line_at(ind, "impl<F> FnPtr<F> {"@),
        line_at(ind, "    pub fn new(ptr: Option<extern \"C\" fn()>, failing_fn: F) -> FnPtr<F> {"@),
        line_at(ind, "        use std::cast::transmute;"@),
        line_at(ind, "        match ptr {"@),
        line_at(ind, "            Some(p) => FnPtr { f: unsafe { transmute(p) }, is_loaded: true },"@),
        line_at(ind, "            None => FnPtr { f: failing_fn, is_loaded: false },"@),
        line_at(ind, "        }"@),
        line_at(ind, "    }"@),
        line_at(ind, "}"@),
    ]
}

/// One loud-failure stub declaration.
pub open spec fn spec_failing_line(c: CmdV) -> Option<Seq<char>> {
    match (spec_param_ty_list(c), spec_return_suffix(c.proto.ty)) {
        (Some(t), Some(r)) => Some(
            "failing!(fn "@ + c.proto.ident + "("@ + t + ")"@ + r + ")"@,
        ),
        _ => None,
    }
}

/// The failure a command reports from its stub declaration.
pub open spec fn spec_failing_err(c: CmdV) -> GenErrorV {
    if spec_param_ty_list(c) is None {
        GenErrorV::UnknownType {
            ty: crate::emit::first_failing(c.params, true, false)->0,
            owner: c.proto.ident,
        }
    } else {
        GenErrorV::UnknownType { ty: c.proto.ty, owner: c.proto.ident }
    }
}

pub(crate) fn failing_line(c: &Cmd) -> (r: Result<String, GenError>)
    ensures
        (r is Ok) == (spec_failing_line(c@) is Some),
        r matches Ok(s) ==> Some(s@) == spec_failing_line(c@),
        r matches Err(e) ==> e@ == spec_failing_err(c@),
{
    let tys = match gen_param_ty_list(c) {
        Ok(t) => t,
        Err(e) => return Err(e),
    };
    let ret = match gen_return_suffix(c) {
        Ok(t) => t,
        Err(e) => return Err(e),
    };
    Ok(
        String::from_str("failing!(fn ").concat(c.proto.ident.as_str()).concat("(").concat(
            tys.as_str(),
        ).concat(")").concat(ret.as_str()).concat(")"),
    )
}

/// One generated free function dispatching through its pointer slot.
pub open spec fn spec_fn_line(c: CmdV) -> Option<Seq<char>> {
    match (spec_param_list(c, true), spec_return_suffix(c.proto.ty)) {
        (Some(p), Some(r)) => Some(
            "#[fixed_stack_segment] #[inline] pub "@ + (if c.is_safe {
                ""@
            } else {
                "unsafe "@
            }) + "fn "@ + c.proto.ident + "("@ + p + ")"@ + r + " { "@ + (if c.is_safe {
                "unsafe { "@
            } else {
                ""@
            }) + "(storage::"@ + c.proto.ident + ".f)("@ + spec_param_ident_list(c) + ")"@ + (
            if c.is_safe {
                " }"@
            } else {
                ""@
            }) + " }"@,
        ),
        _ => None,
    }
}

/// The failure a command reports from its free function.
pub open spec fn spec_fn_err(c: CmdV) -> GenErrorV {
    if spec_param_list(c, true) is None {
        GenErrorV::UnknownType {
            ty: crate::emit::first_failing(c.params, true, true)->0,
            owner: c.proto.ident,
        }
    } else {
        GenErrorV::UnknownType { ty: c.proto.ty, owner: c.proto.ident }
    }
}

fn fn_line(c: &Cmd) -> (r: Result<String, GenError>)
    ensures
        (r is Ok) == (spec_fn_line(c@) is Some),
        r matches Ok(s) ==> Some(s@) == spec_fn_line(c@),
        r matches Err(e) ==> e@ == spec_fn_err(c@),
{
    let params = match gen_param_list(c, true) {
        Ok(t) => t,
        Err(e) => return Err(e),
    };
    let ret = match gen_return_suffix(c) {
        Ok(t) => t,
        Err(e) => return Err(e),
    };
    let idents = gen_param_ident_list(c);
    let u1: &str = if c.is_safe {
        ""
    } else {
        "unsafe "
    };
    let u2: &str = if c.is_safe {
        "unsafe { "
    } else {
        ""
    };
    let u3: &str = if c.is_safe {
        " }"
    } else {
        ""
    };
    Ok(
        String::from_str("#[fixed_stack_segment] #[inline] pub ").concat(u1).concat(
            "fn ",
        ).concat(c.proto.ident.as_str()).concat("(").concat(params.as_str()).concat(")").concat(
            ret.as_str(),
        ).concat(" { ").concat(u2).concat("(storage::").concat(c.proto.ident.as_str()).concat(
            ".f)(",
        ).concat(idents.as_str()).concat(")").concat(u3).concat(" }"),
    )
}

/// One generated function-pointer slot.
pub open spec fn spec_ptr_line(c: CmdV) -> Option<Seq<char>> {
    match (spec_param_list(c, true), spec_return_suffix(c.proto.ty)) {
        (Some(p), Some(r)) => Some(
            "fn_ptr!(fn "@ + c.proto.ident + "("@ + p + ")"@ + r + ")"@,
        ),
        _ => None,
    }
}

fn ptr_line(c: &Cmd) -> (r: Result<String, GenError>)
    ensures
        (r is Ok) == (spec_ptr_line(c@) is Some),
        r matches Ok(s) ==> Some(s@) == spec_ptr_line(c@),
        r matches Err(e) ==> e@ == spec_fn_err(c@),
{
    let params = match gen_param_list(c, true) {
        Ok(t) => t,
        Err(e) => return Err(e),
    };
    let ret = match gen_return_suffix(c) {
        Ok(t) => t,
        Err(e) => return Err(e),
    };
    Ok(
        String::from_str("fn_ptr!(fn ").concat(c.proto.ident.as_str()).concat("(").concat(
            params.as_str(),
        ).concat(")").concat(ret.as_str()).concat(")"),
    )
}

/// One per-command submodule instantiation.
pub open spec fn spec_mod_line(ns: Ns, c: CmdV) -> Seq<char> {
    "fn_mod!("@ + c.proto.ident + ", \""@ + spec_symbol_name(ns, c.proto.ident) + "\")"@
}

fn mod_line(ns: Ns, c: &Cmd) -> (r: String)
    ensures
        r@ == spec_mod_line(ns, c@),
{
    String::from_str("fn_mod!(").concat(c.proto.ident.as_str()).concat(", \"").concat(
        gen_symbol_name(ns, c).as_str(),
    ).concat("\")")
}

/// One per-command load call of the aggregate loader.
pub open spec fn spec_load_line(c: CmdV) -> Seq<char> {
    c.proto.ident + "::load_with(|s| loadfn(s));"@
}

fn load_line(c: &Cmd) -> (r: String)
    ensures
        r@ == spec_load_line(c@),
{
    c.proto.ident.as_str().to_owned().concat("::load_with(|s| loadfn(s));")
}

/// The per-command stub block.
pub open spec fn failing_maker() -> spec_fn(CmdV) -> Option<Seq<Seq<char>>> {
    |c: CmdV|
        match spec_failing_line(c) {
            Some(l) => Some(seq![l]),
            None => None,
        }
}

/// The per-command free-function block.
pub open spec fn fn_maker() -> spec_fn(CmdV) -> Option<Seq<Seq<char>>> {
    |c: CmdV|
        match spec_fn_line(c) {
            Some(l) => Some(seq![l]),
            None => None,
        }
}

/// The per-command pointer-slot block.
pub open spec fn ptr_maker() -> spec_fn(CmdV) -> Option<Seq<Seq<char>>> {
    |c: CmdV|
        match spec_ptr_line(c) {
            Some(l) => Some(seq![l]),
            None => None,
        }
}

/// The failure reported for the free-function and pointer blocks.
pub open spec fn fn_err_of() -> spec_fn(CmdV) -> GenErrorV {
    |c: CmdV| spec_fn_err(c)
}

/// The failure reported for the stub block.
pub open spec fn failing_err_of() -> spec_fn(CmdV) -> GenErrorV {
    |c: CmdV| spec_failing_err(c)
}

/// The free-function block: one dispatching function per deduplicated
/// command.
pub open spec fn spec_fns_block(raw: Seq<CmdV>, ind: nat) -> Option<Seq<Seq<char>>> {
    match spec_cmd_blocks(first_seen(raw, cmd_key()), fn_maker()) {
        Some(ls) => Some(ls.map_values(|l: Seq<char>| line_at(ind, l))),
        None => None,
    }
}

/// The `storage` module block: one mutable pointer slot per command.
pub open spec fn spec_ptrs_block(raw: Seq<CmdV>, ind: nat) -> Option<Seq<Seq<char>>> {
    match spec_cmd_blocks(first_seen(raw, cmd_key()), ptr_maker()) {
        Some(ls) => Some(
            seq![
                line_at(ind, "mod storage {"@),
                line_at(ind + 1, "use std::libc::*;"@),
                line_at(ind + 1, "use super::types::*;"@),
                line_at(ind + 1, ""@),
                line_at(ind + 1, "macro_rules! fn_ptr("@),
                line_at(ind + 1, "    (fn $name:ident()) => ("@),
                line_at(ind + 1, "        pub static mut $name: ::FnPtr<extern \"C\" fn()> = ::FnPtr { f: ::failing::$name, is_loaded: false };"@),
                line_at(ind + 1, "    );"@),
                line_at(ind + 1, "    (fn $name:ident() -> $ret_ty:ty) => ("@),
                line_at(ind + 1, "        pub static mut $name: ::FnPtr<extern \"C\" fn() -> $ret_ty> = ::FnPtr { f: ::failing::$name, is_loaded: false };"@),
                line_at(ind + 1, "    );"@),
                line_at(ind + 1, "    (fn $name:ident($($arg:ident : $arg_ty:ty),*)) => ("@),
                line_at(ind + 1, "        pub static mut $name: ::FnPtr<extern \"C\" fn($($arg: $arg_ty),*)> = ::FnPtr { f: ::failing::$name, is_loaded: false };"@),
                line_at(ind + 1, "    );"@),
                line_at(ind + 1, "    (fn $name:ident($($arg:ident : $arg_ty:ty),*) -> $ret_ty:ty) => ("@),
                line_at(ind + 1, "        pub static mut $name: ::FnPtr<extern \"C\" fn($($arg: $arg_ty),*) -> $ret_ty> = ::FnPtr { f: ::failing::$name, is_loaded: false };"@),
                line_at(ind + 1, "    );"@),
                line_at(ind + 1, ")"@),
                line_at(ind + 1, ""@),
            ] + ls.map_values(|l: Seq<char>| line_at(ind + 1, l)) + seq![line_at(ind, "}"@)],
        ),
        None => None,
    }
}

/// The `failing` module block: one loud-failure stub per command.
pub open spec fn spec_failing_block(raw: Seq<CmdV>, ind: nat) -> Option<Seq<Seq<char>>> {
    match spec_cmd_blocks(first_seen(raw, cmd_key()), failing_maker()) {
        Some(ls) => Some(
            seq![
                line_at(ind, "mod failing {"@),
                line_at(ind + 1, "use std::libc::*;"@),
                line_at(ind + 1, "use super::types::*;"@),
                line_at(ind + 1, ""@),
                line_at(ind + 1, "macro_rules! failing("@),
                line_at(ind + 1, "    (fn $name:ident()) => (pub extern \"C\" fn $name() { fail!(stringify!($name was not loaded)) });"@),
                line_at(ind + 1, "    (fn $name:ident() -> $ret_ty:ty) => (pub extern \"C\" fn $name() -> $ret_ty { fail!(stringify!($name was not loaded)) });"@),
                line_at(ind + 1, "    (fn $name:ident($($arg_ty:ty),*)) => (pub extern \"C\" fn $name($(_: $arg_ty),*) { fail!(stringify!($name was not loaded)) });"@),
                line_at(ind + 1, "    (fn $name:ident($($arg_ty:ty),*) -> $ret_ty:ty) => (pub extern \"C\" fn $name($(_: $arg_ty),*) -> $ret_ty { fail!(stringify!($name was not loaded)) });"@),
                line_at(ind + 1, ")"@),
                line_at(ind + 1, ""@),
            ] + ls.map_values(|l: Seq<char>| line_at(ind + 1, l)) + seq![line_at(ind, "}"@)],
        ),
        None => None,
    }
}

/// The per-command submodule block: an `is_loaded` query and a
/// `load_with` operation for every pointer slot.
pub open spec fn spec_fn_mods_block(raw: Seq<CmdV>, ns: Ns, ind: nat) -> Seq<Seq<char>> {
    seq![
        line_at(ind, "macro_rules! fn_mod("@),
        line_at(ind, "    ($name:ident, $sym:expr) => ("@),
        line_at(ind, "        pub mod $name {"@),
        line_at(ind, "            #[inline]"@),
        line_at(ind, "            pub fn is_loaded() -> bool { unsafe { ::storage::$name.is_loaded } }"@),
        line_at(ind, "            "@),
        line_at(ind, "            #[inline]"@),
        line_at(ind, "            pub fn load_with(loadfn: &fn(symbol: &str) -> Option<extern \"C\" fn()>) {"@),
        line_at(ind, "                unsafe { ::storage::$name = ::FnPtr::new(loadfn($sym), ::failing::$name) }"@),
        line_at(ind, "            }"@),
        line_at(ind, "        }"@),
        line_at(ind, "    )"@),
        line_at(ind, ")"@),
        line_at(ind, ""@),
    ] + first_seen(raw, cmd_key()).map_values(|c: CmdV| line_at(ind, spec_mod_line(ns, c)))
}

/// The aggregate loader block: loads every pointer slot in one pass.
pub open spec fn spec_load_fn_block(raw: Seq<CmdV>, ind: nat) -> Seq<Seq<char>> {
    seq![
        line_at(ind, "/// Load each OpenGL symbol using a custom load function. This allows for the"@),
        line_at(ind, "/// use of functions like `glfwGetProcAddress` or `SDL_GL_GetProcAddress`."@),
        line_at(ind, "///"@),
        line_at(ind, "/// ~~~"@),
        line_at(ind, "/// let gl = gl::load_with(glfw::get_proc_address);"@),
        line_at(ind, "/// ~~~"@),
        line_at(ind, "pub fn load_with(loadfn: &fn(symbol: &str) -> Option<extern \"C\" fn()>) {"@),
    ] + first_seen(raw, cmd_key()).map_values(|c: CmdV| line_at(ind + 1, spec_load_line(c)))
        + seq![line_at(ind, "}"@)]
}

impl Generator {
    /// Appends one free function per deduplicated command, each
    /// dispatching through its pointer slot; safe commands wrap the
    /// dispatch in an unsafe block, unsafe commands are themselves
    /// unsafe.  Fails on the first command with an unknown type name,
    /// leaving the buffer untouched.
    pub fn write_fns(&mut self) -> (r: Result<(), GenError>)
        ensures
            (r is Ok) == (spec_fns_block(old(self).registry@.cmds, old(self).indent as nat)
                is Some),
            r is Ok ==> final(self).out.deep_view() == old(self).out.deep_view() + spec_fns_block(
                old(self).registry@.cmds,
                old(self).indent as nat,
            )->0,
            r is Ok ==> final(self).indent == old(self).indent && final(self).ns == old(self).ns
                && final(self).registry == old(self).registry,
            r matches Err(e) ==> *final(self) == *old(self) && Some(e@) == first_block_err(
                first_seen(old(self).registry@.cmds, cmd_key()),
                fn_maker(),
                fn_err_of(),
            ),
    {
        let ghost fs = first_seen(self.registry@.cmds, cmd_key());
        let ghost ind = self.indent as nat;
        let ghost base = self.out.deep_view();
        let cmds = self.for_cmds();
        let mut tmp: Vec<String> = Vec::new();
        let n = cmds.len();
        let mut i: usize = 0;
        proof {
            assert(Some(tmp.deep_view()) == spec_cmd_blocks(fs.subrange(0, 0), fn_maker())) by {
                assert(fs.subrange(0, 0) =~= Seq::<CmdV>::empty());
                assert(tmp.deep_view() =~= Seq::<Seq<char>>::empty());
            }
        }
        while i < n
            invariant
                i <= n,
                n == cmds@.len(),
                cmds@.map_values(|c: Cmd| c@) == fs,
                forall|j: int| 0 <= j < i ==> fn_maker()(#[trigger] fs[j]) is Some,
                Some(tmp.deep_view()) == spec_cmd_blocks(fs.subrange(0, i as int), fn_maker()),
            decreases n - i,
        {
            proof {
                assert(cmds@[i as int]@ == fs[i as int]);
            }
            match fn_line(&cmds[i]) {
                Ok(l) => {
                    let ghost lv = l@;
                    tmp.push(l);
                    proof {
                        assert(fs.subrange(0, i + 1 as int) =~= fs.subrange(0, i as int).push(
                            fs[i as int],
                        ));
                        lemma_blocks_push(fs.subrange(0, i as int), fs[i as int], fn_maker());
                        assert(fn_maker()(fs[i as int]) == Some(seq![lv]));
                        assert(tmp.deep_view() =~= spec_cmd_blocks(
                            fs.subrange(0, i as int),
                            fn_maker(),
                        )->0 + seq![lv]);
                    }
                },
                Err(e) => {
                    proof {
                        assert(fn_maker()(fs[i as int]) is None);
                        lemma_first_block_err_at(fs, fn_maker(), fn_err_of(), i as int);
                        lemma_blocks_some(fs, fn_maker());
                    }
                    return Err(e);
                },
            }
            i = i + 1;
        }
        proof {
            assert(fs.subrange(0, n as int) =~= fs);
        }
        let m = tmp.len();
        let mut j: usize = 0;
        while j < m
            invariant
                j <= m,
                m == tmp@.len(),
                Some(tmp.deep_view()) == spec_cmd_blocks(fs, fn_maker()),
                self.indent == old(self).indent,
                ind == self.indent as nat,
                self.ns == old(self).ns,
                self.registry == old(self).registry,
                self.out.deep_view() == base + tmp.deep_view().subrange(0, j as int).map_values(
                    |l: Seq<char>| line_at(ind, l),
                ),
            decreases m - j,
        {
            self.write_line(tmp[j].as_str());
            proof {
                assert(tmp.deep_view().subrange(0, j + 1 as int).map_values(
                    |l: Seq<char>| line_at(ind, l),
                ) =~= tmp.deep_view().subrange(0, j as int).map_values(
                    |l: Seq<char>| line_at(ind, l),
                ).push(line_at(ind, tmp.deep_view()[j as int])));
                assert(self.out.deep_view() =~= base + tmp.deep_view().subrange(
                    0,
                    j + 1 as int,
                ).map_values(|l: Seq<char>| line_at(ind, l)));
            }
            j = j + 1;
        }
        proof {
            assert(tmp.deep_view().subrange(0, m as int) =~= tmp.deep_view());
            assert(self.out.deep_view() =~= base + spec_fns_block(
                old(self).registry@.cmds,
                ind,
            )->0);
        }
        Ok(())
    }
}

impl Generator {
    /// Appends the `storage` module: one process-wide mutable pointer
    /// slot per deduplicated command, each starting at its loud-failure
    /// stub.  Fails on the first command with an unknown type name,
    /// leaving the buffer untouched.
    pub fn write_ptrs(&mut self) -> (r: Result<(), GenError>)
        requires
            old(self).indent < usize::MAX,
        ensures
            (r is Ok) == (spec_ptrs_block(old(self).registry@.cmds, old(self).indent as nat)
                is Some),
            r is Ok ==> final(self).out.deep_view() == old(self).out.deep_view() + spec_ptrs_block(
                old(self).registry@.cmds,
                old(self).indent as nat,
            )->0,
            r is Ok ==> final(self).indent == old(self).indent && final(self).ns == old(self).ns
                && final(self).registry == old(self).registry,
            r matches Err(e) ==> *final(self) == *old(self) && Some(e@) == first_block_err(
                first_seen(old(self).registry@.cmds, cmd_key()),
                ptr_maker(),
                fn_err_of(),
            ),
    {
        let ghost fs = first_seen(self.registry@.cmds, cmd_key());
        let ghost ind = self.indent as nat;
        let ghost base = self.out.deep_view();
        let cmds = self.for_cmds();
        let mut tmp: Vec<String> = Vec::new();
        let n = cmds.len();
        let mut i: usize = 0;
        proof {
            assert(Some(tmp.deep_view()) == spec_cmd_blocks(fs.subrange(0, 0), ptr_maker())) by {
                assert(fs.subrange(0, 0) =~= Seq::<CmdV>::empty());
                assert(tmp.deep_view() =~= Seq::<Seq<char>>::empty());
            }
        }
        while i < n
            invariant
                i <= n,
                n == cmds@.len(),
                cmds@.map_values(|c: Cmd| c@) == fs,
                forall|j: int| 0 <= j < i ==> ptr_maker()(#[trigger] fs[j]) is Some,
                Some(tmp.deep_view()) == spec_cmd_blocks(fs.subrange(0, i as int), ptr_maker()),
            decreases n - i,
        {
            proof {
                assert(cmds@[i as int]@ == fs[i as int]);
            }
            match ptr_line(&cmds[i]) {
                Ok(l) => {
                    let ghost lv = l@;
                    tmp.push(l);
                    proof {
                        assert(fs.subrange(0, i + 1 as int) =~= fs.subrange(0, i as int).push(
                            fs[i as int],
                        ));
                        lemma_blocks_push(fs.subrange(0, i as int), fs[i as int], ptr_maker());
                        assert(ptr_maker()(fs[i as int]) == Some(seq![lv]));
                        assert(tmp.deep_view() =~= spec_cmd_blocks(
                            fs.subrange(0, i as int),
                            ptr_maker(),
                        )->0 + seq![lv]);
                    }
                },
                Err(e) => {
                    proof {
                        assert(ptr_maker()(fs[i as int]) is None);
                        lemma_first_block_err_at(fs, ptr_maker(), fn_err_of(), i as int);
                        lemma_blocks_some(fs, ptr_maker());
                    }
                    return Err(e);
                },
            }
            i = i + 1;
        }
        proof {
            assert(fs.subrange(0, n as int) =~= fs);
        }
        self.write_line("mod storage {");
        self.incr_indent();
        self.write_line("use std::libc::*;");
        self.write_line("use super::types::*;");
        self.write_line("");
        self.write_line("macro_rules! fn_ptr(");
        self.write_line("    (fn $name:ident()) => (");
        self.write_line("        pub static mut $name: ::FnPtr<extern \"C\" fn()> = ::FnPtr { f: ::failing::$name, is_loaded: false };");
        self.write_line("    );");
        self.write_line("    (fn $name:ident() -> $ret_ty:ty) => (");
        self.write_line("        pub static mut $name: ::FnPtr<extern \"C\" fn() -> $ret_ty> = ::FnPtr { f: ::failing::$name, is_loaded: false };");
        self.write_line("    );");
        self.write_line("    (fn $name:ident($($arg:ident : $arg_ty:ty),*)) => (");
        self.write_line("        pub static mut $name: ::FnPtr<extern \"C\" fn($($arg: $arg_ty),*)> = ::FnPtr { f: ::failing::$name, is_loaded: false };");
        self.write_line("    );");
        self.write_line("    (fn $name:ident($($arg:ident : $arg_ty:ty),*) -> $ret_ty:ty) => (");
        self.write_line("        pub static mut $name: ::FnPtr<extern \"C\" fn($($arg: $arg_ty),*) -> $ret_ty> = ::FnPtr { f: ::failing::$name, is_loaded: false };");
        self.write_line("    );");
        self.write_line(")");
        self.write_line("");
        let ghost mid = self.out.deep_view();
        let m = tmp.len();
        let mut j: usize = 0;
        while j < m
            invariant
                j <= m,
                m == tmp@.len(),
                Some(tmp.deep_view()) == spec_cmd_blocks(fs, ptr_maker()),
                self.indent == old(self).indent + 1,
                ind == old(self).indent as nat,
                self.ns == old(self).ns,
                self.registry == old(self).registry,
                self.out.deep_view() == mid + tmp.deep_view().subrange(0, j as int).map_values(
                    |l: Seq<char>| line_at(ind + 1, l),
                ),
            decreases m - j,
        {
            self.write_line(tmp[j].as_str());
            proof {
                assert(tmp.deep_view().subrange(0, j + 1 as int).map_values(
                    |l: Seq<char>| line_at(ind + 1, l),
                ) =~= tmp.deep_view().subrange(0, j as int).map_values(
                    |l: Seq<char>| line_at(ind + 1, l),
                ).push(line_at(ind + 1, tmp.deep_view()[j as int])));
                assert(self.out.deep_view() =~= mid + tmp.deep_view().subrange(
                    0,
                    j + 1 as int,
                ).map_values(|l: Seq<char>| line_at(ind + 1, l)));
            }
            j = j + 1;
        }
        self.decr_indent();
        self.write_line("}");
        proof {
            assert(tmp.deep_view().subrange(0, m as int) =~= tmp.deep_view());
            assert(self.out.deep_view() =~= base + spec_ptrs_block(
                old(self).registry@.cmds,
                ind,
            )->0);
        }
        Ok(())
    }

    /// Appends the `failing` module: one loud-failure stub per
    /// deduplicated command, invoked when an unloaded slot is called.
    /// Fails on the first command with an unknown type name, leaving
    /// the buffer untouched.
    pub fn write_failing_fns(&mut self) -> (r: Result<(), GenError>)
        requires
            old(self).indent < usize::MAX,
        ensures
            (r is Ok) == (spec_failing_block(old(self).registry@.cmds, old(self).indent as nat)
                is Some),
            r is Ok ==> final(self).out.deep_view() == old(self).out.deep_view()
                + spec_failing_block(old(self).registry@.cmds, old(self).indent as nat)->0,
            r is Ok ==> final(self).indent == old(self).indent && final(self).ns == old(self).ns
                && final(self).registry == old(self).registry,
            r matches Err(e) ==> *final(self) == *old(self) && Some(e@) == first_block_err(
                first_seen(old(self).registry@.cmds, cmd_key()),
                failing_maker(),
                failing_err_of(),
            ),
    {
        let ghost fs = first_seen(self.registry@.cmds, cmd_key());
        let ghost ind = self.indent as nat;
        let ghost base = self.out.deep_view();
        let cmds = self.for_cmds();
        let mut tmp: Vec<String> = Vec::new();
        let n = cmds.len();
        let mut i: usize = 0;
        proof {
            assert(Some(tmp.deep_view()) == spec_cmd_blocks(fs.subrange(0, 0), failing_maker()))
                by {
                assert(fs.subrange(0, 0) =~= Seq::<CmdV>::empty());
                assert(tmp.deep_view() =~= Seq::<Seq<char>>::empty());
            }
        }
        while i < n
            invariant
                i <= n,
                n == cmds@.len(),
                cmds@.map_values(|c: Cmd| c@) == fs,
                forall|j: int| 0 <= j < i ==> failing_maker()(#[trigger] fs[j]) is Some,
                Some(tmp.deep_view()) == spec_cmd_blocks(
                    fs.subrange(0, i as int),
                    failing_maker(),
                ),
            decreases n - i,
        {
            proof {
                assert(cmds@[i as int]@ == fs[i as int]);
            }
            match failing_line(&cmds[i]) {
                Ok(l) => {
                    let ghost lv = l@;
                    tmp.push(l);
                    proof {
                        assert(fs.subrange(0, i + 1 as int) =~= fs.subrange(0, i as int).push(
                            fs[i as int],
                        ));
                        lemma_blocks_push(fs.subrange(0, i as int), fs[i as int], failing_maker());
                        assert(failing_maker()(fs[i as int]) == Some(seq![lv]));
                        assert(tmp.deep_view() =~= spec_cmd_blocks(
                            fs.subrange(0, i as int),
                            failing_maker(),
                        )->0 + seq![lv]);
                    }
                },
                Err(e) => {
                    proof {
                        assert(failing_maker()(fs[i as int]) is None);
                        lemma_first_block_err_at(fs, failing_maker(), failing_err_of(), i as int);
                        lemma_blocks_some(fs, failing_maker());
                    }
                    return Err(e);
                },
            }
            i = i + 1;
        }
        proof {
            assert(fs.subrange(0, n as int) =~= fs);
        }
        self.write_line("mod failing {");
        self.incr_indent();
        self.write_line("use std::libc::*;");
        self.write_line("use super::types::*;");
        self.write_line("");
        self.write_line("macro_rules! failing(");
        self.write_line("    (fn $name:ident()) => (pub extern \"C\" fn $name() { fail!(stringify!($name was not loaded)) });");
        self.write_line("    (fn $name:ident() -> $ret_ty:ty) => (pub extern \"C\" fn $name() -> $ret_ty { fail!(stringify!($name was not loaded)) });");
        self.write_line("    (fn $name:ident($($arg_ty:ty),*)) => (pub extern \"C\" fn $name($(_: $arg_ty),*) { fail!(stringify!($name was not loaded)) });");
        self.write_line("    (fn $name:ident($($arg_ty:ty),*) -> $ret_ty:ty) => (pub extern \"C\" fn $name($(_: $arg_ty),*) -> $ret_ty { fail!(stringify!($name was not loaded)) });");
        self.write_line(")");
        self.write_line("");
        let ghost mid = self.out.deep_view();
        let m = tmp.len();
        let mut j: usize = 0;
        while j < m
            invariant
                j <= m,
                m == tmp@.len(),
                Some(tmp.deep_view()) == spec_cmd_blocks(fs, failing_maker()),
                self.indent == old(self).indent + 1,
                ind == old(self).indent as nat,
                self.ns == old(self).ns,
                self.registry == old(self).registry,
                self.out.deep_view() == mid + tmp.deep_view().subrange(0, j as int).map_values(
                    |l: Seq<char>| line_at(ind + 1, l),
                ),
            decreases m - j,
        {
            self.write_line(tmp[j].as_str());
            proof {
                assert(tmp.deep_view().subrange(0, j + 1 as int).map_values(
                    |l: Seq<char>| line_at(ind + 1, l),
                ) =~= tmp.deep_view().subrange(0, j as int).map_values(
                    |l: Seq<char>| line_at(ind + 1, l),
                ).push(line_at(ind + 1, tmp.deep_view()[j as int])));
                assert(self.out.deep_view() =~= mid + tmp.deep_view().subrange(
                    0,
                    j + 1 as int,
                ).map_values(|l: Seq<char>| line_at(ind + 1, l)));
            }
            j = j + 1;
        }
        self.decr_indent();
        self.write_line("}");
        proof {
            assert(tmp.deep_view().subrange(0, m as int) =~= tmp.deep_view());
            assert(self.out.deep_view() =~= base + spec_failing_block(
                old(self).registry@.cmds,
                ind,
            )->0);
        }
        Ok(())
    }

    /// Appends the per-command submodules: for every pointer slot an
    /// `is_loaded` query and a `load_with` operation.
    pub fn write_fn_mods(&mut self)
        ensures
            final(self).out.deep_view() == old(self).out.deep_view() + spec_fn_mods_block(
                old(self).registry@.cmds,
                old(self).ns,
                old(self).indent as nat,
            ),
            final(self).indent == old(self).indent,
            final(self).ns == old(self).ns,
            final(self).registry == old(self).registry,
    {
        let ghost fs = first_seen(self.registry@.cmds, cmd_key());
        let ghost ind = self.indent as nat;
        let ghost base = self.out.deep_view();
        self.write_line("macro_rules! fn_mod(");
        self.write_line("    ($name:ident, $sym:expr) => (");
        self.write_line("        pub mod $name {");
        self.write_line("            #[inline]");
        self.write_line("            pub fn is_loaded() -> bool { unsafe { ::storage::$name.is_loaded } }");
        self.write_line("            ");
        self.write_line("            #[inline]");
        self.write_line("            pub fn load_with(loadfn: &fn(symbol: &str) -> Option<extern \"C\" fn()>) {");
        self.write_line("                unsafe { ::storage::$name = ::FnPtr::new(loadfn($sym), ::failing::$name) }");
        self.write_line("            }");
        self.write_line("        }");
        self.write_line("    )");
        self.write_line(")");
        self.write_line("");
        let ghost mid = self.out.deep_view();
        let ns = self.ns;
        let cmds = self.for_cmds();
        let n = cmds.len();
        let mut i: usize = 0;
        proof {
            assert(mid + fs.subrange(0, 0).map_values(|c: CmdV| line_at(ind, spec_mod_line(ns, c)))
                =~= mid);
        }
        while i < n
            invariant
                i <= n,
                n == cmds@.len(),
                cmds@.map_values(|c: Cmd| c@) == fs,
                ns == old(self).ns,
                self.ns == old(self).ns,
                self.registry == old(self).registry,
                self.indent == old(self).indent,
                ind == self.indent as nat,
                self.out.deep_view() == mid + fs.subrange(0, i as int).map_values(
                    |c: CmdV| line_at(ind, spec_mod_line(ns, c)),
                ),
            decreases n - i,
        {
            let line = mod_line(ns, &cmds[i]);
            self.write_line(line.as_str());
            proof {
                assert(cmds@[i as int]@ == fs[i as int]);
                assert(fs.subrange(0, i + 1 as int).map_values(
                    |c: CmdV| line_at(ind, spec_mod_line(ns, c)),
                ) =~= fs.subrange(0, i as int).map_values(
                    |c: CmdV| line_at(ind, spec_mod_line(ns, c)),
                ).push(line_at(ind, spec_mod_line(ns, fs[i as int]))));
                assert(self.out.deep_view() =~= mid + fs.subrange(0, i + 1 as int).map_values(
                    |c: CmdV| line_at(ind, spec_mod_line(ns, c)),
                ));
            }
            i = i + 1;
        }
        proof {
            assert(fs.subrange(0, n as int) =~= fs);
            assert(self.out.deep_view() =~= base + spec_fn_mods_block(
                old(self).registry@.cmds,
                old(self).ns,
                ind,
            ));
        }
    }

    /// Appends the aggregate loader: a single operation that loads
    /// every pointer slot through a caller-supplied symbol resolver.
    pub fn write_load_fn(&mut self)
        requires
            old(self).indent < usize::MAX,
        ensures
            final(self).out.deep_view() == old(self).out.deep_view() + spec_load_fn_block(
                old(self).registry@.cmds,
                old(self).indent as nat,
            ),
            final(self).indent == old(self).indent,
            final(self).ns == old(self).ns,
            final(self).registry == old(self).registry,
    {
        let ghost fs = first_seen(self.registry@.cmds, cmd_key());
        let ghost ind = self.indent as nat;
        let ghost base = self.out.deep_view();
        self.write_line("/// Load each OpenGL symbol using a custom load function. This allows for the");
        self.write_line("/// use of functions like `glfwGetProcAddress` or `SDL_GL_GetProcAddress`.");
        self.write_line("///");
        self.write_line("/// ~~~");
        self.write_line("/// let gl = gl::load_with(glfw::get_proc_address);");
        self.write_line("/// ~~~");
        self.write_line("pub fn load_with(loadfn: &fn(symbol: &str) -> Option<extern \"C\" fn()>) {");
        self.incr_indent();
        let ghost mid = self.out.deep_view();
        let cmds = self.for_cmds();
        let n = cmds.len();
        let mut i: usize = 0;
        proof {
            assert(mid + fs.subrange(0, 0).map_values(
                |c: CmdV| line_at(ind + 1, spec_load_line(c)),
            ) =~= mid);
        }
        while i < n
            invariant
                i <= n,
                n == cmds@.len(),
                cmds@.map_values(|c: Cmd| c@) == fs,
                self.ns == old(self).ns,
                self.registry == old(self).registry,
                self.indent == old(self).indent + 1,
                ind == old(self).indent as nat,
                self.out.deep_view() == mid + fs.subrange(0, i as int).map_values(
                    |c: CmdV| line_at(ind + 1, spec_load_line(c)),
                ),
            decreases n - i,
        {
            let line = load_line(&cmds[i]);
            self.write_line(line.as_str());
            proof {
                assert(cmds@[i as int]@ == fs[i as int]);
                assert(fs.subrange(0, i + 1 as int).map_values(
                    |c: CmdV| line_at(ind + 1, spec_load_line(c)),
                ) =~= fs.subrange(0, i as int).map_values(
                    |c: CmdV| line_at(ind + 1, spec_load_line(c)),
                ).push(line_at(ind + 1, spec_load_line(fs[i as int]))));
                assert(self.out.deep_view() =~= mid + fs.subrange(0, i + 1 as int).map_values(
                    |c: CmdV| line_at(ind + 1, spec_load_line(c)),
                ));
            }
            i = i + 1;
        }
        self.decr_indent();
        self.write_line("}");
        proof {
            assert(fs.subrange(0, n as int) =~= fs);
            assert(self.out.deep_view() =~= base + spec_load_fn_block(
                old(self).registry@.cmds,
                ind,
            ));
        }
    }
}

/// One blank separator line.
pub open spec fn spec_blank(ind: nat) -> Seq<Seq<char>> {
    seq![line_at(ind, ""@)]
}

/// The whole output of the global-function generator, or nothing when
/// some command carries an unknown type name.
pub open spec fn spec_global_output(reg: crate::registry::RegistryV, ns: Ns) -> Option<
    Seq<Seq<char>>,
> {
    match (spec_fns_block(reg.cmds, 0), spec_ptrs_block(reg.cmds, 0), spec_failing_block(
        reg.cmds,
        0,
    )) {
        (Some(f), Some(p), Some(fl)) => Some(
            spec_header_block(ns, 0) + spec_blank(0) + spec_type_aliases_block(ns, 0)
                + spec_blank(0) + spec_enums_block(reg.enums, 0) + spec_blank(0) + f + spec_blank(0)
                + spec_fnptr_block(0) + spec_blank(0) + p + spec_blank(0) + spec_fn_mods_block(
                reg.cmds,
                ns,
                0,
            ) + spec_blank(0) + fl + spec_blank(0) + spec_load_fn_block(reg.cmds, 0) + spec_blank(
                0,
            ),
        ),
        _ => None,
    }
}

/// A command renders in the free-function block exactly when it
/// renders in the pointer and stub blocks: all three need every
/// parameter type and the return type to be known.
proof fn lemma_makers_agree(c: CmdV)
    ensures
        (fn_maker()(c) is Some) == (ptr_maker()(c) is Some),
        (fn_maker()(c) is Some) == (failing_maker()(c) is Some),
{
    crate::emit::lemma_render_some(c.params, true, true);
    crate::emit::lemma_render_some(c.params, true, false);
    assert forall|j: int| 0 <= j < c.params.len() implies (spec_param_one(
        #[trigger] c.params[j],
        true,
        true,
    ) is Some) == (spec_param_one(c.params[j], true, false) is Some) by {}
}

impl Generator {
    /// Emits the whole binding: header, type aliases, constants, the
    /// dispatching functions, the pointer-slot machinery, the
    /// per-command submodules, the failure stubs and the aggregate
    /// loader — in that order, as one ordered sequence of source
    /// fragments.  Fails, with no output, exactly when some command of
    /// the registry carries an unknown type name; the first such
    /// command's failure is reported.
    pub fn write(registry: Registry, ns: Ns) -> (r: Result<Vec<String>, GenError>)
        ensures
            (r is Ok) == (spec_global_output(registry@, ns) is Some),
            r matches Ok(v) ==> Some(v.deep_view()) == spec_global_output(registry@, ns),
            r matches Err(e) ==> Some(e@) == first_block_err(
                first_seen(registry@.cmds, cmd_key()),
                fn_maker(),
                fn_err_of(),
            ),
    {
        let ghost regv = registry@;
        let ghost fs = first_seen(regv.cmds, cmd_key());
        let mut g = Generator::new(registry, ns);
        proof {
            assert(g.out.deep_view() =~= Seq::<Seq<char>>::empty());
        }
        g.write_header();
        proof {
            assert(g.out.deep_view() =~= spec_header_block(ns, 0));
        }
        g.write_line("");
        let ghost acc1 = spec_header_block(ns, 0) + spec_blank(0);
        proof {
            assert(g.out.deep_view() =~= acc1);
        }
        g.write_type_aliases();
        g.write_line("");
        let ghost acc2 = acc1 + spec_type_aliases_block(ns, 0) + spec_blank(0);
        proof {
            assert(g.out.deep_view() =~= acc2);
        }
        g.write_enums();
        g.write_line("");
        let ghost acc3 = acc2 + spec_enums_block(regv.enums, 0) + spec_blank(0);
        proof {
            assert(g.out.deep_view() =~= acc3);
        }
        match g.write_fns() {
            Ok(_) => {},
            Err(e) => {
                return Err(e);
            },
        }
        g.write_line("");
        let ghost acc4 = acc3 + spec_fns_block(regv.cmds, 0)->0 + spec_blank(0);
        proof {
            assert(g.out.deep_view() =~= acc4);
        }
        g.write_fnptr_struct_def();
        g.write_line("");
        let ghost acc5 = acc4 + spec_fnptr_block(0) + spec_blank(0);
        proof {
            assert(g.out.deep_view() =~= acc5);
        }
        match g.write_ptrs() {
            Ok(_) => {},
            Err(e) => {
                proof {
                    lemma_blocks_some(fs, fn_maker());
                    assert forall|j: int| 0 <= j < fs.len() implies ptr_maker()(
                        #[trigger] fs[j],
                    ) is Some by {
                        lemma_makers_agree(fs[j]);
                    }
                    lemma_blocks_some(fs, ptr_maker());
                    assert(false);
                }
                return Err(e);
            },
        }
        g.write_line("");
        let ghost acc6 = acc5 + spec_ptrs_block(regv.cmds, 0)->0 + spec_blank(0);
        proof {
            assert(g.out.deep_view() =~= acc6);
        }
        g.write_fn_mods();
        g.write_line("");
        let ghost acc7 = acc6 + spec_fn_mods_block(regv.cmds, ns, 0) + spec_blank(0);
        proof {
            assert(g.out.deep_view() =~= acc7);
        }
        match g.write_failing_fns() {
            Ok(_) => {},
            Err(e) => {
                proof {
                    lemma_blocks_some(fs, fn_maker());
                    assert forall|j: int| 0 <= j < fs.len() implies failing_maker()(
                        #[trigger] fs[j],
                    ) is Some by {
                        lemma_makers_agree(fs[j]);
                    }
                    lemma_blocks_some(fs, failing_maker());
                    assert(false);
                }
                return Err(e);
            },
        }
        g.write_line("");
        let ghost acc8 = acc7 + spec_failing_block(regv.cmds, 0)->0 + spec_blank(0);
        proof {
            assert(g.out.deep_view() =~= acc8);
        }
        g.write_load_fn();
        g.write_line("");
        proof {
            assert(g.out.deep_view() =~= acc8 + spec_load_fn_block(regv.cmds, 0) + spec_blank(0));
            assert(g.out.deep_view() =~= spec_global_output(regv, ns)->0);
        }
        Ok(g.out)
    }
}

/// The lines of a sequence of constant definitions at one indentation.
pub open spec fn spec_enum_lines(es: Seq<EnumV>, ind: nat) -> Seq<Seq<char>> {
    es.map_values(|e: EnumV| line_at(ind, spec_enum_line(e, ""@, "GLenum"@)))
}

/// The enum block: the deduplicated constants of the registry.
pub open spec fn spec_enums_block(raw: Seq<EnumV>, ind: nat) -> Seq<Seq<char>> {
    spec_enum_lines(first_seen(raw, enum_key()), ind)
}

} // verus!
