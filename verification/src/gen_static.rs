//! The all-functions-linked generator: every command is a directly
//! externally linked symbol with no indirection layer at all — a free
//! unsafe wrapper delegates straight to the foreign declaration.

use vstd::prelude::*;

use crate::emit::{
    first_block_err, gen_param_ident_list, gen_param_list, gen_return_suffix, lemma_blocks_push,
    lemma_blocks_some, lemma_first_block_err_at, spec_cmd_blocks, spec_param_ident_list,
    spec_param_list, spec_return_suffix,
};
use crate::error::GenError;
use crate::gen_global::{fn_err_of, spec_fn_err};
use crate::gen_static_struct::{
    spec_ss_enums, spec_ss_fns, spec_ss_header, spec_ss_type_aliases, ss_fn_maker, write_enums,
    write_fns, write_header, write_type_aliases,
};
use crate::registry::{Cmd, CmdV, Registry};
use crate::resolve::{cmd_key, dedup_cmds, first_seen};
use crate::text::append_lines;

verus! {

/// One free unsafe wrapper delegating to the foreign declaration.
pub open spec fn spec_wrapper_line(c: CmdV) -> Option<Seq<char>> {
    match (spec_param_list(c, true), spec_return_suffix(c.proto.ty)) {
        (Some(p), Some(r)) => Some(
            "#[allow(non_snake_case, dead_code)] #[inline] pub unsafe fn "@ + c.proto.ident
                + "("@ + p + ")"@ + r + " { "@ + c.proto.ident + "("@ + spec_param_ident_list(c)
                + ") }"@,
        ),
        _ => None,
    }
}

/// The per-command wrapper block.
pub open spec fn wrapper_maker() -> spec_fn(CmdV) -> Option<Seq<Seq<char>>> {
    |c: CmdV|
        match spec_wrapper_line(c) {
            Some(l) => Some(seq![l]),
            None => None,
        }
}

fn wrapper_line(c: &Cmd) -> (r: Result<String, GenError>)
    ensures
        (r is Ok) == (spec_wrapper_line(c@) is Some),
        r matches Ok(s) ==> Some(s@) == spec_wrapper_line(c@),
        r matches Err(e) ==> e@ == spec_fn_err(c@),
{
    let params = match gen_param_list(c, true) {
        Ok(t) => t,
        Err(e) => return Err(e),
    };
    let ret = match gen_return_suffix(c) {
        Ok(t) => t,
        Err(e) => return Err(e),
    };
    Ok(
        String::from_str("#[allow(non_snake_case, dead_code)] #[inline] pub unsafe fn ").concat(
            c.proto.ident.as_str(),
        ).concat("(").concat(params.as_str()).concat(")").concat(ret.as_str()).concat(
            " { ",
        ).concat(c.proto.ident.as_str()).concat("(").concat(
            gen_param_ident_list(c).as_str(),
        ).concat(") }"),
    )
}

/// The wrapper block: one free unsafe function per deduplicated
/// command.
pub open spec fn spec_wrappers(reg: crate::registry::RegistryV) -> Option<Seq<Seq<char>>> {
    spec_cmd_blocks(first_seen(reg.cmds, cmd_key()), wrapper_maker())
}

/// The whole output of the all-functions-linked generator.
pub open spec fn spec_static_output(reg: crate::registry::RegistryV) -> Option<Seq<Seq<char>>> {
    match (spec_wrappers(reg), spec_ss_fns(reg)) {
        (Some(w), Some(fns)) => Some(
            spec_ss_header() + spec_ss_type_aliases(reg.ns) + spec_ss_enums(reg.enums) + w + fns,
        ),
        _ => None,
    }
}

/// The all-functions-linked strategy.
pub struct StaticGenerator;

impl StaticGenerator {
    /// Emits the whole binding: imports, type aliases, constants, the
    /// free wrappers and the foreign block — in that order.  Fails,
    /// with no output, exactly when some command of the registry
    /// carries an unknown type name; the first such command's failure
    /// is reported.
    pub fn write(&self, registry: &Registry) -> (r: Result<Vec<String>, GenError>)
        ensures
            (r is Ok) == (spec_static_output(registry@) is Some),
            r matches Ok(v) ==> Some(v.deep_view()) == spec_static_output(registry@),
            r matches Err(e) ==> Some(e@) == first_block_err(
                first_seen(registry@.cmds, cmd_key()),
                wrapper_maker(),
                fn_err_of(),
            ),
    {
        let ghost fs = first_seen(registry@.cmds, cmd_key());
        let cmds = dedup_cmds(&registry.cmds);
        let mut tmp: Vec<String> = Vec::new();
        let n = cmds.len();
        let mut i: usize = 0;
        proof {
            assert(Some(tmp.deep_view()) == spec_cmd_blocks(fs.subrange(0, 0), wrapper_maker()))
                by {
                assert(fs.subrange(0, 0) =~= Seq::<CmdV>::empty());
                assert(tmp.deep_view() =~= Seq::<Seq<char>>::empty());
            }
        }
        while i < n
            invariant
                i <= n,
                n == cmds@.len(),
                cmds@.map_values(|c: Cmd| c@) == fs,
                forall|j: int| 0 <= j < i ==> wrapper_maker()(#[trigger] fs[j]) is Some,
                Some(tmp.deep_view()) == spec_cmd_blocks(
                    fs.subrange(0, i as int),
                    wrapper_maker(),
                ),
            decreases n - i,
        {
            proof {
                assert(cmds@[i as int]@ == fs[i as int]);
            }
            match wrapper_line(&cmds[i]) {
                Ok(l) => {
                    let ghost lv = l@;
                    tmp.push(l);
                    proof {
                        assert(fs.subrange(0, i + 1 as int) =~= fs.subrange(0, i as int).push(
                            fs[i as int],
                        ));
                        lemma_blocks_push(fs.subrange(0, i as int), fs[i as int], wrapper_maker());
                        assert(wrapper_maker()(fs[i as int]) == Some(seq![lv]));
                        assert(tmp.deep_view() =~= spec_cmd_blocks(
                            fs.subrange(0, i as int),
                            wrapper_maker(),
                        )->0 + seq![lv]);
                    }
                },
                Err(e) => {
                    proof {
                        assert(wrapper_maker()(fs[i as int]) is None);
                        lemma_first_block_err_at(fs, wrapper_maker(), fn_err_of(), i as int);
                        lemma_blocks_some(fs, wrapper_maker());
                    }
                    return Err(e);
                },
            }
            i = i + 1;
        }
        proof {
            assert(fs.subrange(0, n as int) =~= fs);
        }
        let mut out = write_header();
        let aliases = write_type_aliases(registry);
        append_lines(&mut out, &aliases);
        let enums = write_enums(registry);
        append_lines(&mut out, &enums);
        append_lines(&mut out, &tmp);
        let fns = match write_fns(registry) {
            Ok(v) => v,
            Err(e) => {
                proof {
                    assert forall|j: int| 0 <= j < fs.len() implies ss_fn_maker(registry.ns)(
                        #[trigger] fs[j],
                    ) is Some by {}
                    lemma_blocks_some(fs, ss_fn_maker(registry.ns));
                    assert(false);
                }
                return Err(e);
            },
        };
        append_lines(&mut out, &fns);
        proof {
            assert(out.deep_view() =~= spec_static_output(registry@)->0);
        }
        Ok(out)
    }
}

} // verus!
