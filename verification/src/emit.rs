//! Shared emission helpers: symbol names, parameter lists in their four
//! rendering modes, return types and constant definitions.  All are pure
//! and deterministic; every generator strategy goes through them.

use vstd::prelude::*;

use crate::error::{GenError, GenErrorV};
use crate::registry::{Binding, BindingV, Cmd, CmdV, Enum, EnumV, Ns};
use crate::text::{spec_is_digit, spec_join, join, str_eq};
use crate::types::{spec_to_rust_ty, to_rust_ty};

verus! {

/// The renamed form of a parameter identifier: reserved words of the
/// target surface syntax get a trailing underscore; without identifiers
/// the placeholder `_` stands in.
pub open spec fn spec_binding_ident(id: Seq<char>, use_idents: bool) -> Seq<char> {
    if !use_idents {
        "_"@
    } else if id == "in"@ {
        "in_"@
    } else if id == "ref"@ {
        "ref_"@
    } else if id == "type"@ {
        "type_"@
    } else {
        id
    }
}

/// Renders a parameter identifier, renaming reserved words.
pub fn gen_binding_ident(binding: &Binding, use_idents: bool) -> (r: String)
    ensures
        r@ == spec_binding_ident(binding@.ident, use_idents),
{
    if !use_idents {
        String::from_str("_")
    } else if str_eq(binding.ident.as_str(), "in") {
        String::from_str("in_")
    } else if str_eq(binding.ident.as_str(), "ref") {
        String::from_str("ref_")
    } else if str_eq(binding.ident.as_str(), "type") {
        String::from_str("type_")
    } else {
        binding.ident.as_str().to_owned()
    }
}

/// One binding rendered as `ident: type`; unknown type names render as
/// nothing.
pub open spec fn spec_binding(b: BindingV, use_idents: bool) -> Option<Seq<char>> {
    match spec_to_rust_ty(b.ty) {
        Some(t) => Some(spec_binding_ident(b.ident, use_idents) + ": "@ + t),
        None => None,
    }
}

/// Renders one binding as `ident: type`; an unknown type name is fatal
/// and is reported with the owning identifier.
pub fn gen_binding(binding: &Binding, use_idents: bool, owner: &String) -> (r: Result<
    String,
    GenError,
>)
    ensures
        (r is Ok) == (spec_binding(binding@, use_idents) is Some),
        r matches Ok(s) ==> Some(s@) == spec_binding(binding@, use_idents),
        r matches Err(e) ==> e@ == (GenErrorV::UnknownType { ty: binding@.ty, owner: owner@ }),
{
    match to_rust_ty(binding.ty.as_str()) {
        Some(t) => Ok(gen_binding_ident(binding, use_idents).concat(": ").concat(t.as_str())),
        None => Err(
            GenError::UnknownType { ty: binding.ty.clone(), owner: owner.clone() },
        ),
    }
}

/// One parameter in the chosen rendering mode: `ident: type` with both
/// flags, the type alone, the (renamed) identifier alone, or the
/// positional placeholder `_`.
pub open spec fn spec_param_one(b: BindingV, types: bool, idents: bool) -> Option<Seq<char>> {
    if types {
        if idents {
            spec_binding(b, true)
        } else {
            spec_to_rust_ty(b.ty)
        }
    } else {
        Some(spec_binding_ident(b.ident, idents))
    }
}

/// The whole parameter list in the chosen rendering mode, or nothing if
/// a type must be rendered and some type name is unknown.
pub open spec fn spec_render_parameters(
    params: Seq<BindingV>,
    types: bool,
    idents: bool,
) -> Option<Seq<Seq<char>>>
    decreases params.len(),
{
    if params.len() == 0 {
        Some(Seq::empty())
    } else {
        match (spec_render_parameters(params.drop_last(), types, idents), spec_param_one(
            params.last(),
            types,
            idents,
        )) {
            (Some(l), Some(x)) => Some(l.push(x)),
            _ => None,
        }
    }
}

/// The type name of the first parameter whose rendering fails.
pub open spec fn first_failing(params: Seq<BindingV>, types: bool, idents: bool) -> Option<
    Seq<char>,
>
    decreases params.len(),
{
    if params.len() == 0 {
        None
    } else if spec_param_one(params[0], types, idents) is None {
        Some(params[0].ty)
    } else {
        first_failing(params.drop_first(), types, idents)
    }
}

proof fn lemma_render_push(params: Seq<BindingV>, b: BindingV, types: bool, idents: bool)
    ensures
        spec_render_parameters(params.push(b), types, idents) == match (spec_render_parameters(
            params,
            types,
            idents,
        ), spec_param_one(b, types, idents)) {
            (Some(l), Some(x)) => Some(l.push(x)),
            _ => None,
        },
{
    assert(params.push(b).drop_last() =~= params);
}

/// Rendering succeeds exactly when every parameter renders.
pub proof fn lemma_render_some(params: Seq<BindingV>, types: bool, idents: bool)
    ensures
        (spec_render_parameters(params, types, idents) is Some) <==> (forall|j: int|
            0 <= j < params.len() ==> spec_param_one(#[trigger] params[j], types, idents) is Some),
    decreases params.len(),
{
    if params.len() > 0 {
        let init = params.drop_last();
        lemma_render_some(init, types, idents);
        assert forall|j: int| 0 <= j < init.len() implies init[j] == params[j] by {}
        if forall|j: int|
            0 <= j < params.len() ==> spec_param_one(#[trigger] params[j], types, idents) is Some {
            assert(spec_param_one(params[params.len() - 1], types, idents) is Some);
        }
    }
}

/// A successful rendering has one entry per parameter, in parameter
/// order.
pub proof fn lemma_render_index(params: Seq<BindingV>, types: bool, idents: bool)
    ensures
        spec_render_parameters(params, types, idents) matches Some(l) ==> l.len() == params.len()
            && (forall|i: int|
            0 <= i < params.len() ==> Some(l[i]) == spec_param_one(
                #[trigger] params[i],
                types,
                idents,
            )),
    decreases params.len(),
{
    if params.len() > 0 {
        let init = params.drop_last();
        lemma_render_index(init, types, idents);
        assert forall|j: int| 0 <= j < init.len() implies init[j] == params[j] by {}
    }
}

proof fn lemma_first_failing_at(params: Seq<BindingV>, types: bool, idents: bool, i: int)
    requires
        0 <= i < params.len(),
        forall|j: int| 0 <= j < i ==> spec_param_one(#[trigger] params[j], types, idents) is Some,
        spec_param_one(params[i], types, idents) is None,
    ensures
        first_failing(params, types, idents) == Some(params[i].ty),
    decreases i,
{
    if i == 0 {
    } else {
        let rest = params.drop_first();
        assert(spec_param_one(params[0], types, idents) is Some);
        assert forall|j: int| 0 <= j < i - 1 implies spec_param_one(
            #[trigger] rest[j],
            types,
            idents,
        ) is Some by {
            assert(rest[j] == params[j + 1]);
        }
        assert(rest[i - 1] == params[i]);
        lemma_first_failing_at(rest, types, idents, i - 1);
    }
}

/// In typed-and-named mode and in named-only mode the rendered
/// parameter lists have identical length and identical relative order:
/// the named-only list always renders, entry `i` of each list renders
/// parameter `i`, and a typed mode, when it renders at all, has exactly
/// the same number of entries.
pub proof fn lemma_param_modes_agree(c: CmdV)
    ensures
        spec_render_parameters(c.params, false, true) is Some,
        spec_render_parameters(c.params, false, true)->0.len() == c.params.len(),
        forall|i: int|
            0 <= i < c.params.len() ==> Some(spec_render_parameters(c.params, false, true)->0[i])
                == spec_param_one(#[trigger] c.params[i], false, true),
        spec_render_parameters(c.params, true, true) matches Some(l) ==> l.len() == c.params.len()
            && (forall|i: int|
            0 <= i < c.params.len() ==> Some(l[i]) == spec_param_one(
                #[trigger] c.params[i],
                true,
                true,
            )),
{
    assert forall|j: int| 0 <= j < c.params.len() implies spec_param_one(
        #[trigger] c.params[j],
        false,
        true,
    ) is Some by {}
    lemma_render_some(c.params, false, true);
    lemma_render_index(c.params, false, true);
    lemma_render_index(c.params, true, true);
}

/// Renders a command's parameter list in one of four modes: typed and
/// named, typed only, named only (with reserved-word renaming), or
/// positional placeholders.  All modes agree on parameter count and
/// order.  An unknown type name is fatal; the first one is reported,
/// with the owning command's identifier.
pub fn render_parameters(cmd: &Cmd, include_types: bool, include_idents: bool) -> (r: Result<
    Vec<String>,
    GenError,
>)
    ensures
        (r is Ok) == (spec_render_parameters(cmd@.params, include_types, include_idents) is Some),
        r matches Ok(v) ==> Some(v.deep_view()) == spec_render_parameters(
            cmd@.params,
            include_types,
            include_idents,
        ),
        r matches Err(e) ==> (first_failing(cmd@.params, include_types, include_idents)
            matches Some(t) && e@ == (GenErrorV::UnknownType { ty: t, owner: cmd@.proto.ident })),
{
    let ghost ps = cmd@.params;
    let mut out: Vec<String> = Vec::new();
    let n = cmd.params.len();
    let mut i: usize = 0;
    proof {
        assert(out.deep_view() =~= Seq::<Seq<char>>::empty());
        assert(Some(out.deep_view()) == spec_render_parameters(
            ps.subrange(0, 0),
            include_types,
            include_idents,
        )) by {
            assert(ps.subrange(0, 0) =~= Seq::<BindingV>::empty());
        }
    }
    while i < n
        invariant
            i <= n,
            n == cmd.params@.len(),
            ps == cmd@.params,
            ps.len() == n,
            forall|j: int|
                0 <= j < i ==> spec_param_one(#[trigger] ps[j], include_types, include_idents)
                    is Some,
            Some(out.deep_view()) == spec_render_parameters(
                ps.subrange(0, i as int),
                include_types,
                include_idents,
            ),
        decreases n - i,
    {
        let b = &cmd.params[i];
        proof {
            assert(b@ == ps[i as int]);
        }
        let piece: String = if include_types {
            match to_rust_ty(b.ty.as_str()) {
                Some(t) => {
                    if include_idents {
                        gen_binding_ident(b, true).concat(": ").concat(t.as_str())
                    } else {
                        t
                    }
                },
                None => {
                    proof {
                        lemma_first_failing_at(ps, include_types, include_idents, i as int);
                        lemma_render_some(ps, include_types, include_idents);
                    }
                    return Err(
                        GenError::UnknownType {
                            ty: b.ty.clone(),
                            owner: cmd.proto.ident.clone(),
                        },
                    );
                },
            }
        } else {
            gen_binding_ident(b, include_idents)
        };
        out.push(piece);
        proof {
            let prefix = ps.subrange(0, i as int);
            assert(ps.subrange(0, i + 1 as int) =~= prefix.push(ps[i as int]));
            lemma_render_push(prefix, ps[i as int], include_types, include_idents);
            assert(out.deep_view() =~= spec_render_parameters(
                prefix,
                include_types,
                include_idents,
            )->0.push(piece@));
        }
        i = i + 1;
    }
    proof {
        assert(ps.subrange(0, n as int) =~= ps);
    }
    Ok(out)
}

/// The typed parameter list joined with `", "`.
pub open spec fn spec_param_list(c: CmdV, use_idents: bool) -> Option<Seq<char>> {
    match spec_render_parameters(c.params, true, use_idents) {
        Some(l) => Some(spec_join(l, ", "@)),
        None => None,
    }
}

/// Renders the typed parameter list, `", "`-separated: `ident: type`
/// pairs with identifiers, bare types without.
pub fn gen_param_list(cmd: &Cmd, use_idents: bool) -> (r: Result<String, GenError>)
    ensures
        (r is Ok) == (spec_param_list(cmd@, use_idents) is Some),
        r matches Ok(s) ==> Some(s@) == spec_param_list(cmd@, use_idents),
        r matches Err(e) ==> (first_failing(cmd@.params, true, use_idents) matches Some(t) && e@
            == (GenErrorV::UnknownType { ty: t, owner: cmd@.proto.ident })),
{
    match render_parameters(cmd, true, use_idents) {
        Ok(v) => Ok(join(&v, ", ")),
        Err(e) => Err(e),
    }
}

/// The renamed identifier list joined with `", "`.
pub open spec fn spec_param_ident_list(c: CmdV) -> Seq<char> {
    spec_join(spec_render_parameters(c.params, false, true)->0, ", "@)
}

/// Renders the `", "`-separated list of (renamed) parameter identifiers.
pub fn gen_param_ident_list(cmd: &Cmd) -> (r: String)
    ensures
        r@ == spec_param_ident_list(cmd@),
{
    match render_parameters(cmd, false, true) {
        Ok(v) => join(&v, ", "),
        Err(_) => {
            proof {
                assert forall|j: int| 0 <= j < cmd@.params.len() implies spec_param_one(
                    #[trigger] cmd@.params[j],
                    false,
                    true,
                ) is Some by {}
                lemma_render_some(cmd@.params, false, true);
                assert(false);
            }
            String::new()
        },
    }
}

/// The type list joined with `", "`.
pub open spec fn spec_param_ty_list(c: CmdV) -> Option<Seq<char>> {
    match spec_render_parameters(c.params, true, false) {
        Some(l) => Some(spec_join(l, ", "@)),
        None => None,
    }
}

/// Renders the `", "`-separated list of parameter types.
pub fn gen_param_ty_list(cmd: &Cmd) -> (r: Result<String, GenError>)
    ensures
        (r is Ok) == (spec_param_ty_list(cmd@) is Some),
        r matches Ok(s) ==> Some(s@) == spec_param_ty_list(cmd@),
        r matches Err(e) ==> (first_failing(cmd@.params, true, false) matches Some(t) && e@
            == (GenErrorV::UnknownType { ty: t, owner: cmd@.proto.ident })),
{
    match render_parameters(cmd, true, false) {
        Ok(v) => Ok(join(&v, ", ")),
        Err(e) => Err(e),
    }
}

/// The return suffix: empty for `void`, otherwise ` -> ` and the mapped
/// return type.
pub open spec fn spec_return_suffix(ty: Seq<char>) -> Option<Seq<char>> {
    if ty == "void"@ {
        Some(Seq::empty())
    } else {
        match spec_to_rust_ty(ty) {
            Some(t) => Some(" -> "@ + t),
            None => None,
        }
    }
}

/// Renders the return suffix of a command: empty for `void`, otherwise
/// ` -> ` and the mapped return type; an unknown return type name is
/// fatal.
pub fn gen_return_suffix(cmd: &Cmd) -> (r: Result<String, GenError>)
    ensures
        (r is Ok) == (spec_return_suffix(cmd@.proto.ty) is Some),
        r matches Ok(s) ==> Some(s@) == spec_return_suffix(cmd@.proto.ty),
        r matches Err(e) ==> e@ == (GenErrorV::UnknownType {
            ty: cmd@.proto.ty,
            owner: cmd@.proto.ident,
        }),
{
    if str_eq(cmd.proto.ty.as_str(), "void") {
        let r = String::new();
        proof {
            assert(r@ =~= Seq::<char>::empty());
        }
        Ok(r)
    } else {
        match to_rust_ty(cmd.proto.ty.as_str()) {
            Some(t) => Ok(String::from_str(" -> ").concat(t.as_str())),
            None => Err(
                GenError::UnknownType {
                    ty: cmd.proto.ty.clone(),
                    owner: cmd.proto.ident.clone(),
                },
            ),
        }
    }
}

/// The symbol prefix of a namespace.
pub open spec fn spec_ns_prefix(ns: Ns) -> Seq<char> {
    match ns {
        Ns::Gl | Ns::Gles1 | Ns::Gles2 => "gl"@,
        Ns::Glx => "glx"@,
        Ns::Wgl => "wgl"@,
        Ns::Egl => "egl"@,
    }
}

/// The external-linkage symbol name of a command: namespace prefix plus
/// identifier.
pub open spec fn spec_symbol_name(ns: Ns, ident: Seq<char>) -> Seq<char> {
    spec_ns_prefix(ns) + ident
}

/// Constructs the external-linkage name used both as the lookup key for
/// dynamic loading and as the external-declaration name.
pub fn gen_symbol_name(ns: Ns, cmd: &Cmd) -> (r: String)
    ensures
        r@ == spec_symbol_name(ns, cmd@.proto.ident),
{
    let prefix = match ns {
        Ns::Gl | Ns::Gles1 | Ns::Gles2 => "gl",
        Ns::Glx => "glx",
        Ns::Wgl => "wgl",
        Ns::Egl => "egl",
    };
    String::from_str(prefix).concat(cmd.proto.ident.as_str())
}

/// The name of a namespace, as used in the generated crate metadata.
pub open spec fn spec_ns_name(ns: Ns) -> Seq<char> {
    match ns {
        Ns::Gl => "gl"@,
        Ns::Glx => "glx"@,
        Ns::Wgl => "wgl"@,
        Ns::Egl => "egl"@,
        Ns::Gles1 => "gles1"@,
        Ns::Gles2 => "gles2"@,
    }
}

/// Renders the name of a namespace.
pub fn ns_name(ns: Ns) -> (r: String)
    ensures
        r@ == spec_ns_name(ns),
{
    match ns {
        Ns::Gl => String::from_str("gl"),
        Ns::Glx => String::from_str("glx"),
        Ns::Wgl => String::from_str("wgl"),
        Ns::Egl => String::from_str("egl"),
        Ns::Gles1 => String::from_str("gles1"),
        Ns::Gles2 => String::from_str("gles2"),
    }
}

/// The name of the aggregate struct emitted for a namespace.
pub open spec fn spec_struct_name(ns: Ns) -> Seq<char> {
    match ns {
        Ns::Gl => "Gl"@,
        Ns::Glx => "Glx"@,
        Ns::Wgl => "Wgl"@,
        Ns::Egl => "Egl"@,
        Ns::Gles1 => "Gles1"@,
        Ns::Gles2 => "Gles2"@,
    }
}

/// Renders the name of the aggregate struct of a namespace.
pub fn gen_struct_name(ns: Ns) -> (r: String)
    ensures
        r@ == spec_struct_name(ns),
{
    match ns {
        Ns::Gl => String::from_str("Gl"),
        Ns::Glx => String::from_str("Glx"),
        Ns::Wgl => String::from_str("Wgl"),
        Ns::Egl => String::from_str("Egl"),
        Ns::Gles1 => String::from_str("Gles1"),
        Ns::Gles2 => String::from_str("Gles2"),
    }
}

/// The escaped identifier of a constant: identifiers that are not valid
/// bare identifiers (they begin with a digit) receive a fixed
/// underscore prefix.
pub open spec fn spec_enum_ident(id: Seq<char>) -> Seq<char> {
    if id.len() > 0 && spec_is_digit(id[0]) {
        "_"@ + id
    } else {
        id
    }
}

/// The type of a rendered constant: the boolean-valued identifiers
/// `TRUE` and `FALSE` always get the boolean-constant type, overriding
/// both the explicit override and the caller-supplied type; otherwise an
/// explicit override wins over the caller-supplied type.  The chosen
/// type is qualified with the caller's type prefix.
pub open spec fn spec_enum_ty(e: EnumV, prefix: Seq<char>, ty: Seq<char>) -> Seq<char> {
    let ident = spec_enum_ident(e.ident);
    if ident == "TRUE"@ || ident == "FALSE"@ {
        prefix + "GLboolean"@
    } else {
        match e.ty {
            Some(o) => prefix + o,
            None => prefix + ty,
        }
    }
}

/// One rendered constant definition.
pub open spec fn spec_enum_line(e: EnumV, prefix: Seq<char>, ty: Seq<char>) -> Seq<char> {
    "pub static "@ + spec_enum_ident(e.ident) + ": "@ + spec_enum_ty(e, prefix, ty) + " = "@
        + e.value + ";"@
}

/// The source fragments that a sequence of commands contributes: each
/// command's fragment block, concatenated in order; nothing if any
/// block fails to render.
pub open spec fn spec_cmd_blocks(
    cs: Seq<CmdV>,
    f: spec_fn(CmdV) -> Option<Seq<Seq<char>>>,
) -> Option<Seq<Seq<char>>>
    decreases cs.len(),
{
    if cs.len() == 0 {
        Some(Seq::empty())
    } else {
        match (spec_cmd_blocks(cs.drop_last(), f), f(cs.last())) {
            (Some(a), Some(b)) => Some(a + b),
            _ => None,
        }
    }
}

/// The failure of the first command whose block fails to render, where
/// `g` names the failure each command would report.
pub open spec fn first_block_err(
    cs: Seq<CmdV>,
    f: spec_fn(CmdV) -> Option<Seq<Seq<char>>>,
    g: spec_fn(CmdV) -> GenErrorV,
) -> Option<GenErrorV>
    decreases cs.len(),
{
    if cs.len() == 0 {
        None
    } else if f(cs[0]) is None {
        Some(g(cs[0]))
    } else {
        first_block_err(cs.drop_first(), f, g)
    }
}

pub proof fn lemma_blocks_push(
    cs: Seq<CmdV>,
    c: CmdV,
    f: spec_fn(CmdV) -> Option<Seq<Seq<char>>>,
)
    ensures
        spec_cmd_blocks(cs.push(c), f) == match (spec_cmd_blocks(cs, f), f(c)) {
            (Some(a), Some(b)) => Some(a + b),
            _ => None,
        },
{
    assert(cs.push(c).drop_last() =~= cs);
}

/// Rendering the blocks succeeds exactly when every command's block
/// renders.
pub proof fn lemma_blocks_some(cs: Seq<CmdV>, f: spec_fn(CmdV) -> Option<Seq<Seq<char>>>)
    ensures
        (spec_cmd_blocks(cs, f) is Some) <==> (forall|j: int|
            0 <= j < cs.len() ==> f(#[trigger] cs[j]) is Some),
    decreases cs.len(),
{
    if cs.len() > 0 {
        let init = cs.drop_last();
        lemma_blocks_some(init, f);
        assert forall|j: int| 0 <= j < init.len() implies init[j] == cs[j] by {}
        if forall|j: int| 0 <= j < cs.len() ==> f(#[trigger] cs[j]) is Some {
            assert(f(cs[cs.len() - 1]) is Some);
        }
    }
}

pub proof fn lemma_first_block_err_at(
    cs: Seq<CmdV>,
    f: spec_fn(CmdV) -> Option<Seq<Seq<char>>>,
    g: spec_fn(CmdV) -> GenErrorV,
    i: int,
)
    requires
        0 <= i < cs.len(),
        forall|j: int| 0 <= j < i ==> f(#[trigger] cs[j]) is Some,
        f(cs[i]) is None,
    ensures
        first_block_err(cs, f, g) == Some(g(cs[i])),
    decreases i,
{
    if i > 0 {
        let rest = cs.drop_first();
        assert(f(cs[0]) is Some);
        assert forall|j: int| 0 <= j < i - 1 implies f(#[trigger] rest[j]) is Some by {
            assert(rest[j] == cs[j + 1]);
        }
        assert(rest[i - 1] == cs[i]);
        lemma_first_block_err_at(rest, f, g, i - 1);
    }
}

/// Renders one constant definition under the caller-supplied type
/// prefix and default type.
pub fn render_enum(e: &Enum, ty_prefix: &str, ty: &str) -> (r: String)
    ensures
        r@ == spec_enum_line(e@, ty_prefix@, ty@),
{
    let ident: String = if e.ident.as_str().unicode_len() > 0 {
        let c = e.ident.as_str().get_char(0) as u32;
        if 48 <= c && c <= 57 {
            String::from_str("_").concat(e.ident.as_str())
        } else {
            e.ident.as_str().to_owned()
        }
    } else {
        e.ident.as_str().to_owned()
    };
    proof {
        assert(ident@ == spec_enum_ident(e@.ident));
    }
    let t: String = if str_eq(ident.as_str(), "TRUE") || str_eq(ident.as_str(), "FALSE") {
        String::from_str(ty_prefix).concat("GLboolean")
    } else {
        match &e.ty {
            Some(o) => String::from_str(ty_prefix).concat(o.as_str()),
            None => String::from_str(ty_prefix).concat(ty),
        }
    };
    String::from_str("pub static ").concat(ident.as_str()).concat(": ").concat(t.as_str()).concat(
        " = ",
    ).concat(e.value.as_str()).concat(";")
}

} // verus!
