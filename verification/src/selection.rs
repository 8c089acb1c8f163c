//! The request side: the raw selection fields as they arrive from the
//! caller (namespace, profile, version string, extension list and
//! generator style), their validation against the sets of accepted
//! values, and the one-shot entry that turns a raw registry and a
//! selection into emitted source fragments.

use vstd::prelude::*;

use crate::emit::first_block_err;
use crate::error::{GenError, GenErrorV};
use crate::registry::{Filter, FilterV, Ns, Profile, Registry, RegistryV, Version};
use crate::resolve::{
    cmd_key, first_seen, kept, known_extension, resolve, resolved_cmds, resolved_enums,
    unknown_extensions,
};
use crate::text::{spec_is_digit, str_eq};

verus! {

/// Ten to the `n`.
pub open spec fn pow10(n: nat) -> int
    decreases n,
{
    if n == 0 {
        1
    } else {
        10 * pow10((n - 1) as nat)
    }
}

/// Every character is a decimal digit.
pub open spec fn all_digits(s: Seq<char>) -> bool {
    forall|i: int| 0 <= i < s.len() ==> spec_is_digit(#[trigger] s[i])
}

/// The value of a digit string, most significant digit first.
pub open spec fn digits_val(s: Seq<char>) -> int
    decreases s.len(),
{
    if s.len() == 0 {
        0
    } else {
        digits_val(s.drop_last()) * 10 + (s.last() as u32 - 48)
    }
}

/// The position of the first `.`, or a negative number when there is
/// none.
pub open spec fn first_dot(s: Seq<char>) -> int
    decreases s.len(),
{
    if s.len() == 0 {
        -1
    } else if s[0] == '.' {
        0
    } else if first_dot(s.drop_first()) < 0 {
        -1
    } else {
        first_dot(s.drop_first()) + 1
    }
}

/// The version that a requested version string stands for: the digits
/// before the first `.` are the major number, the digits after it the
/// minor number; both parts must be one to nine digits of nothing but
/// digits, so any well-formed component fits the number type.
pub open spec fn spec_parse_version(s: Seq<char>) -> Option<Version> {
    let i = first_dot(s);
    if i < 0 {
        None
    } else {
        let maj = s.subrange(0, i);
        let min = s.subrange(i + 1, s.len() as int);
        if 1 <= maj.len() <= 9 && all_digits(maj) && 1 <= min.len() <= 9 && all_digits(min) {
            Some(
                Version { major: digits_val(maj) as u32, minor: digits_val(min) as u32 },
            )
        } else {
            None
        }
    }
}

proof fn lemma_first_dot(s: Seq<char>)
    ensures
        first_dot(s) >= 0 ==> 0 <= first_dot(s) < s.len() && s[first_dot(s)] == '.' && (forall|
            j: int,
        |
            0 <= j < first_dot(s) ==> s[j] != '.'),
        first_dot(s) < 0 ==> forall|j: int| 0 <= j < s.len() ==> s[j] != '.',
    decreases s.len(),
{
    if s.len() > 0 && s[0] != '.' {
        let rest = s.drop_first();
        lemma_first_dot(rest);
        assert forall|j: int| 0 <= j < rest.len() implies rest[j] == s[j + 1] by {}
        if first_dot(rest) >= 0 {
            assert(s[first_dot(s)] == rest[first_dot(rest)]);
            assert forall|j: int| 0 <= j < first_dot(s) implies s[j] != '.' by {
                if j > 0 {
                    assert(s[j] == rest[j - 1]);
                    assert(rest[j - 1] != '.');
                }
            }
        } else {
            assert forall|j: int| 0 <= j < s.len() implies s[j] != '.' by {
                if j > 0 {
                    assert(s[j] == rest[j - 1]);
                    assert(rest[j - 1] != '.');
                }
            }
        }
    }
}

proof fn lemma_pow10_pos(n: nat)
    ensures
        pow10(n) >= 1,
    decreases n,
{
    if n > 0 {
        lemma_pow10_pos((n - 1) as nat);
    }
}

proof fn lemma_pow10_mono(a: nat, b: nat)
    requires
        a <= b,
    ensures
        pow10(a) <= pow10(b),
    decreases b,
{
    if a < b {
        lemma_pow10_mono(a, (b - 1) as nat);
        lemma_pow10_pos((b - 1) as nat);
    }
}

proof fn lemma_digits_bound(s: Seq<char>)
    requires
        all_digits(s),
    ensures
        0 <= digits_val(s) < pow10(s.len()),
    decreases s.len(),
{
    if s.len() > 0 {
        let init = s.drop_last();
        assert forall|j: int| 0 <= j < init.len() implies spec_is_digit(#[trigger] init[j]) by {
            assert(init[j] == s[j]);
        }
        lemma_digits_bound(init);
        assert(spec_is_digit(s.last()));
    }
}

/// Parses one digit run of a version string.
fn parse_decimal(s: &str, from: usize, to: usize) -> (r: Option<u32>)
    requires
        from <= to <= s@.len(),
    ensures
        (r is Some) == (1 <= s@.subrange(from as int, to as int).len() <= 9 && all_digits(
            s@.subrange(from as int, to as int),
        )),
        r matches Some(v) ==> v as int == digits_val(s@.subrange(from as int, to as int)),
{
    let ghost part = s@.subrange(from as int, to as int);
    if to - from == 0 || to - from > 9 {
        return None;
    }
    let mut acc: u32 = 0;
    let mut j: usize = from;
    proof {
        assert(part.subrange(0, 0) =~= Seq::<char>::empty());
    }
    while j < to
        invariant
            from <= j <= to,
            to <= s@.len(),
            1 <= to - from <= 9,
            part == s@.subrange(from as int, to as int),
            all_digits(part.subrange(0, j - from)),
            acc as int == digits_val(part.subrange(0, j - from)),
        decreases to - j,
    {
        let c = s.get_char(j);
        let d = c as u32;
        proof {
            assert(part[j - from] == s@[j as int]);
        }
        if d < 48 || d > 57 {
            proof {
                assert(!spec_is_digit(part[j - from]));
                assert(!all_digits(part));
            }
            return None;
        }
        proof {
            let pre = part.subrange(0, j - from);
            lemma_digits_bound(pre);
            lemma_pow10_mono(pre.len() as nat, 8);
            assert(pow10(0) == 1);
            assert(pow10(1) == 10);
            assert(pow10(2) == 100);
            assert(pow10(3) == 1000);
            assert(pow10(4) == 10000);
            assert(pow10(5) == 100000);
            assert(pow10(6) == 1000000);
            assert(pow10(7) == 10000000);
            assert(pow10(8) == 100000000);
            assert(acc < 100000000);
            assert(part.subrange(0, j + 1 - from).drop_last() =~= pre);
            assert(part.subrange(0, j + 1 - from).last() == part[j - from]);
            assert forall|k: int| 0 <= k < j + 1 - from implies spec_is_digit(
                #[trigger] part.subrange(0, j + 1 - from)[k],
            ) by {
                if k < j - from {
                    assert(part.subrange(0, j + 1 - from)[k] == part.subrange(0, j - from)[k]);
                }
            }
        }
        acc = acc * 10 + (d - 48);
        j = j + 1;
    }
    proof {
        assert(part.subrange(0, to - from) =~= part);
    }
    Some(acc)
}

/// Parses a requested version string into a comparable
/// major/minor pair; `None` is a malformed version string.
pub fn parse_version(s: &str) -> (r: Option<Version>)
    ensures
        r == spec_parse_version(s@),
{
    let n = s.unicode_len();
    let mut found = false;
    let mut dot: usize = 0;
    let mut i: usize = 0;
    while i < n && !found
        invariant
            i <= n,
            n == s@.len(),
            !found ==> forall|j: int| 0 <= j < i ==> s@[j] != '.',
            found ==> dot < n && s@[dot as int] == '.' && (forall|j: int|
                0 <= j < dot ==> s@[j] != '.'),
        decreases n - i, (if found {
            0int
        } else {
            1int
        }),
    {
        if s.get_char(i) == '.' {
            found = true;
            dot = i;
        } else {
            i = i + 1;
        }
    }
    proof {
        lemma_first_dot(s@);
    }
    if !found {
        proof {
            assert(first_dot(s@) < 0) by {
                if first_dot(s@) >= 0 {
                    assert(s@[first_dot(s@)] == '.');
                }
            }
        }
        return None;
    }
    proof {
        assert(first_dot(s@) == dot as int) by {
            assert(first_dot(s@) >= 0) by {
                if first_dot(s@) < 0 {
                    assert(s@[dot as int] != '.');
                }
            }
            if first_dot(s@) < dot as int {
                assert(s@[first_dot(s@)] != '.');
            }
            if first_dot(s@) > dot as int {
                assert(s@[dot as int] != '.');
            }
        }
    }
    let maj = parse_decimal(s, 0, dot);
    let min = parse_decimal(s, dot + 1, n);
    match (maj, min) {
        (Some(a), Some(b)) => {
            proof {
                lemma_digits_bound(s@.subrange(0, dot as int));
                lemma_digits_bound(s@.subrange(dot + 1 as int, n as int));
            }
            Some(Version { major: a, minor: b })
        },
        _ => None,
    }
}

/// The profile that a requested profile name stands for.
pub open spec fn spec_parse_profile(n: Seq<char>) -> Option<Profile> {
    if n == "core"@ {
        Some(Profile::Core)
    } else if n == "compatibility"@ {
        Some(Profile::Compatibility)
    } else {
        None
    }
}

/// Parses a profile name; only "core" and "compatibility" are
/// accepted.
pub fn parse_profile(name: &str) -> (r: Option<Profile>)
    ensures
        r == spec_parse_profile(name@),
{
    if str_eq(name, "core") {
        Some(Profile::Core)
    } else if str_eq(name, "compatibility") {
        Some(Profile::Compatibility)
    } else {
        None
    }
}

/// The API family that a requested namespace name stands for.
pub open spec fn spec_parse_api(n: Seq<char>) -> Option<Ns> {
    if n == "gl"@ {
        Some(Ns::Gl)
    } else if n == "glx"@ {
        Some(Ns::Glx)
    } else if n == "wgl"@ {
        Some(Ns::Wgl)
    } else if n == "egl"@ {
        Some(Ns::Egl)
    } else if n == "gles1"@ {
        Some(Ns::Gles1)
    } else if n == "gles2"@ {
        Some(Ns::Gles2)
    } else {
        None
    }
}

/// Parses a namespace name into its API family.
pub fn parse_api(name: &str) -> (r: Option<Ns>)
    ensures
        r == spec_parse_api(name@),
{
    if str_eq(name, "gl") {
        Some(Ns::Gl)
    } else if str_eq(name, "glx") {
        Some(Ns::Glx)
    } else if str_eq(name, "wgl") {
        Some(Ns::Wgl)
    } else if str_eq(name, "egl") {
        Some(Ns::Egl)
    } else if str_eq(name, "gles1") {
        Some(Ns::Gles1)
    } else if str_eq(name, "gles2") {
        Some(Ns::Gles2)
    } else {
        None
    }
}

/// One of the four interchangeable output strategies.
#[derive(Clone, Copy, Debug, PartialEq, Eq, Structural)]
pub enum GeneratorKind {
    Static,
    Global,
    Struct,
    StaticStruct,
}

/// The strategy that a generator-style name stands for.
pub open spec fn spec_generator_for_name(n: Seq<char>) -> Option<GeneratorKind> {
    if n == "static"@ {
        Some(GeneratorKind::Static)
    } else if n == "global"@ {
        Some(GeneratorKind::Global)
    } else if n == "struct"@ {
        Some(GeneratorKind::Struct)
    } else if n == "static_struct"@ {
        Some(GeneratorKind::StaticStruct)
    } else {
        None
    }
}

/// Resolves a generator-style name; an unrecognized name is fatal and
/// reported with the offending value.
pub fn generator_for_name(name: &str) -> (r: Result<GeneratorKind, GenError>)
    ensures
        (r is Ok) == (spec_generator_for_name(name@) is Some),
        r matches Ok(k) ==> Some(k) == spec_generator_for_name(name@),
        r matches Err(e) ==> e@ == (GenErrorV::UnknownGenerator { value: name@ }),
{
    if str_eq(name, "static") {
        Ok(GeneratorKind::Static)
    } else if str_eq(name, "global") {
        Ok(GeneratorKind::Global)
    } else if str_eq(name, "struct") {
        Ok(GeneratorKind::Struct)
    } else if str_eq(name, "static_struct") {
        Ok(GeneratorKind::StaticStruct)
    } else {
        Err(GenError::UnknownGenerator { value: name.to_owned() })
    }
}

/// The raw, not yet validated selection fields of one request.
#[derive(Debug, PartialEq, Eq)]
pub struct GeneratorFilter {
    pub extensions: Vec<String>,
    pub profile: String,
    pub version: String,
    pub api: String,
}

/// Ghost record of a [`GeneratorFilter`].
pub ghost struct GeneratorFilterV {
    pub extensions: Seq<Seq<char>>,
    pub profile: Seq<char>,
    pub version: Seq<char>,
    pub api: Seq<char>,
}

impl View for GeneratorFilter {
    type V = GeneratorFilterV;

    open spec fn view(&self) -> GeneratorFilterV {
        GeneratorFilterV {
            extensions: self.extensions@.map_values(|s: String| s@),
            profile: self.profile@,
            version: self.version@,
            api: self.api@,
        }
    }
}

/// The options of one generation request: an absent filter means
/// "full" mode, everything the document defines.
#[derive(Debug, PartialEq, Eq)]
pub struct GeneratorOptions {
    pub filter: Option<GeneratorFilter>,
}

/// Ghost record of [`GeneratorOptions`].
pub ghost struct GeneratorOptionsV {
    pub filter: Option<GeneratorFilterV>,
}

impl View for GeneratorOptions {
    type V = GeneratorOptionsV;

    open spec fn view(&self) -> GeneratorOptionsV {
        GeneratorOptionsV {
            filter: match self.filter {
                Some(g) => Some(g@),
                None => None,
            },
        }
    }
}

/// The validated filter that raw selection fields stand for, or
/// nothing when a field is not accepted.
pub open spec fn spec_filter_ok(g: GeneratorFilterV) -> Option<FilterV> {
    match (spec_parse_api(g.api), spec_parse_profile(g.profile), spec_parse_version(g.version)) {
        (Some(api), Some(profile), Some(version)) => Some(
            FilterV { api, version, profile, extensions: g.extensions },
        ),
        _ => None,
    }
}

/// The failure reported for raw selection fields: the first field, in
/// namespace/profile/version order, that is not accepted.
pub open spec fn spec_filter_err(g: GeneratorFilterV) -> GenErrorV {
    if spec_parse_api(g.api) is None {
        GenErrorV::UnknownApi { value: g.api }
    } else if spec_parse_profile(g.profile) is None {
        GenErrorV::UnknownProfile { value: g.profile }
    } else {
        GenErrorV::BadVersion { value: g.version }
    }
}

/// Validates the raw selection fields into a resolver filter: the
/// namespace, profile and version must each be accepted, and the
/// extension list carries over unchanged.
pub fn build_filter(gf: &GeneratorFilter) -> (r: Result<Filter, GenError>)
    ensures
        (r is Ok) == (spec_filter_ok(gf@) is Some),
        r matches Ok(f) ==> Some(f@) == spec_filter_ok(gf@),
        r matches Err(e) ==> spec_filter_ok(gf@) is None && e@ == spec_filter_err(gf@),
{
    let api = match parse_api(gf.api.as_str()) {
        Some(a) => a,
        None => {
            return Err(GenError::UnknownApi { value: gf.api.clone() });
        },
    };
    let profile = match parse_profile(gf.profile.as_str()) {
        Some(p) => p,
        None => {
            return Err(GenError::UnknownProfile { value: gf.profile.clone() });
        },
    };
    let version = match parse_version(gf.version.as_str()) {
        Some(v) => v,
        None => {
            return Err(GenError::BadVersion { value: gf.version.clone() });
        },
    };
    let mut extensions: Vec<String> = Vec::new();
    let n = gf.extensions.len();
    let mut i: usize = 0;
    while i < n
        invariant
            i <= n,
            n == gf.extensions@.len(),
            extensions@.len() == i,
            forall|j: int| 0 <= j < i ==> extensions@[j]@ == gf.extensions@[j]@,
        decreases n - i,
    {
        extensions.push(gf.extensions[i].clone());
        i = i + 1;
    }
    let f = Filter { api, version, profile, extensions };
    proof {
        assert(f@.extensions =~= gf@.extensions);
    }
    Ok(f)
}

/// The ghost registry that resolving leaves.
pub open spec fn spec_resolved(reg: RegistryV, f: Option<FilterV>) -> RegistryV {
    RegistryV { ns: reg.ns, enums: resolved_enums(reg.enums, f), cmds: resolved_cmds(reg.cmds, f) }
}

/// The optional filter a request stands for: `Some(None)` is full
/// mode, `Some(Some(f))` a validated filter, `None` invalid fields.
pub open spec fn sel_filter(o: GeneratorOptionsV) -> Option<Option<FilterV>> {
    match o.filter {
        None => Some(None),
        Some(g) => match spec_filter_ok(g) {
            Some(f) => Some(Some(f)),
            None => None,
        },
    }
}

/// Under strict validation, the requested extension names the registry
/// does not know — when that list is non-empty it aborts the request.
pub open spec fn sel_blocked_exts(reg: RegistryV, o: GeneratorOptionsV, strict: bool) -> Option<
    Seq<Seq<char>>,
> {
    if !strict {
        None
    } else {
        match sel_filter(o) {
            Some(Some(f)) => {
                let u = kept(f.extensions, |x: Seq<char>| !known_extension(reg, x));
                if u.len() > 0 {
                    Some(u)
                } else {
                    None
                }
            },
            _ => None,
        }
    }
}

/// The output of the chosen strategy over a resolved registry.
pub open spec fn spec_output_for(kind: GeneratorKind, rv: RegistryV) -> Option<Seq<Seq<char>>> {
    match kind {
        GeneratorKind::Static => crate::gen_static::spec_static_output(rv),
        GeneratorKind::Global => crate::gen_global::spec_global_output(rv, rv.ns),
        GeneratorKind::Struct => crate::gen_struct::spec_struct_output(rv),
        GeneratorKind::StaticStruct => crate::gen_static_struct::spec_static_struct_output(rv),
    }
}

/// The failure the chosen strategy reports over a resolved registry.
pub open spec fn spec_output_err(kind: GeneratorKind, rv: RegistryV) -> Option<GenErrorV> {
    let fs = first_seen(rv.cmds, cmd_key());
    match kind {
        GeneratorKind::Static => first_block_err(
            fs,
            crate::gen_static::wrapper_maker(),
            crate::gen_global::fn_err_of(),
        ),
        GeneratorKind::Global => first_block_err(
            fs,
            crate::gen_global::fn_maker(),
            crate::gen_global::fn_err_of(),
        ),
        GeneratorKind::Struct => first_block_err(
            fs,
            crate::gen_global::failing_maker(),
            crate::gen_global::failing_err_of(),
        ),
        GeneratorKind::StaticStruct => first_block_err(
            fs,
            crate::gen_static_struct::ss_method_maker(),
            crate::gen_global::fn_err_of(),
        ),
    }
}

/// One generation request, end to end: validate the selection, resolve
/// the raw registry against it, and drive the chosen strategy over the
/// resolved subset.  Every fatal kind aborts the whole request with a
/// single descriptive failure and no partial output.  An extension
/// name absent from the document is fatal only under
/// `strict_extensions`; otherwise it simply contributes nothing.
pub fn generate_bindings(
    registry: &Registry,
    options: &GeneratorOptions,
    kind: GeneratorKind,
    strict_extensions: bool,
) -> (r: Result<Vec<String>, GenError>)
    ensures
        sel_filter(options@) is None ==> (r matches Err(e) && options@.filter matches Some(g)
            && e@ == spec_filter_err(g)),
        sel_blocked_exts(registry@, options@, strict_extensions) matches Some(u) ==> (r matches Err(
            e,
        ) && e@ == (GenErrorV::UnknownExtensions { names: u })),
        sel_filter(options@) matches Some(f) ==> (sel_blocked_exts(
            registry@,
            options@,
            strict_extensions,
        ) is None ==> {
            let rv = spec_resolved(registry@, f);
            &&& (r is Ok) == (spec_output_for(kind, rv) is Some)
            &&& (r matches Ok(v) ==> Some(v.deep_view()) == spec_output_for(kind, rv))
            &&& (r matches Err(e) ==> Some(e@) == spec_output_err(kind, rv))
        }),
{
    let filter: Option<Filter> = match &options.filter {
        None => None,
        Some(gf) => match build_filter(gf) {
            Ok(f) => Some(f),
            Err(e) => {
                return Err(e);
            },
        },
    };
    if strict_extensions {
        match &filter {
            Some(f) => {
                let missing = unknown_extensions(registry, f);
                if missing.len() > 0 {
                    proof {
                        assert(missing@.map_values(|s: String| s@).len() > 0);
                    }
                    return Err(GenError::UnknownExtensions { names: missing });
                }
            },
            None => {},
        }
    }
    let borrowed: Option<&Filter> = match &filter {
        Some(f) => Some(f),
        None => None,
    };
    let resolved = resolve(registry, borrowed);
    let ns = resolved.ns;
    proof {
        assert(resolved@ == spec_resolved(registry@, crate::resolve::filter_view(borrowed)));
    }
    match kind {
        GeneratorKind::Static => (crate::gen_static::StaticGenerator).write(&resolved),
        GeneratorKind::Global => crate::gen_global::Generator::write(resolved, ns),
        GeneratorKind::Struct => (crate::gen_struct::StructGenerator).write(&resolved),
        GeneratorKind::StaticStruct => (crate::gen_static_struct::StaticStructGenerator).write(
            &resolved,
        ),
    }
}

/// A minimal model of the host's plugin registry: the names under
/// which syntax extensions have been registered, in registration
/// order.
#[derive(Debug, PartialEq, Eq)]
pub struct PluginRegistry {
    pub macros: Vec<String>,
}

impl PluginRegistry {
    /// An empty registry: nothing registered yet.
    pub fn new() -> (r: PluginRegistry)
        ensures
            r.macros@ == Seq::<String>::empty(),
    {
        PluginRegistry { macros: Vec::new() }
    }
}

/// Registers the binding-generation macro with the host: after the
/// call exactly one name has been added, the macro's own.
pub fn plugin_registrar(reg: &mut PluginRegistry)
    ensures
        final(reg).macros.deep_view() == old(reg).macros.deep_view().push(
            "generate_gl_bindings"@,
        ),
{
    reg.macros.push(String::from_str("generate_gl_bindings"));
    proof {
        assert(reg.macros.deep_view() =~= old(reg).macros.deep_view().push(
            "generate_gl_bindings"@,
        ));
    }
}

} // verus!
