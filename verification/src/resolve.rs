//! The filter resolver: computes, from a raw registry and a filter, the
//! resolved subset of enums and commands — version-gated, profile-aware,
//! extension-extended, deduplicated by identifier with the first
//! occurrence in document order winning.

use vstd::prelude::*;

use crate::registry::{Cmd, CmdV, Enum, EnumV, Filter, FilterV, Profile, Registry, Removal, Version};

verus! {

/// Version order: `a` is at or before `b`.
pub open spec fn version_le(a: Version, b: Version) -> bool {
    a.major < b.major || (a.major == b.major && a.minor <= b.minor)
}

impl Version {
    /// Whether `self` is at or before `other`.
    pub fn le(self, other: Version) -> (r: bool)
        ensures
            r == version_le(self, other),
    {
        self.major < other.major || (self.major == other.major && self.minor <= other.minor)
    }
}

/// Whether a removal mark excludes a definition at the requested version
/// and profile.  The "core" profile honors every removal at or before the
/// requested version; "compatibility" ignores removals that only apply to
/// the "core" profile.
pub open spec fn removal_applies(r: Removal, version: Version, profile: Profile) -> bool {
    version_le(r.version, version) && (profile == Profile::Core || r.profile == profile)
}

/// Whether a definition belongs to the version-gated core set: introduced
/// at or before the requested version and not removed for the requested
/// profile at or before it.
pub open spec fn in_core(
    intro: Option<Version>,
    removed: Option<Removal>,
    version: Version,
    profile: Profile,
) -> bool {
    match intro {
        Some(v0) => version_le(v0, version) && match removed {
            Some(r) => !removal_applies(r, version, profile),
            None => true,
        },
        None => false,
    }
}

/// Whether a definition's extension is one of the requested extensions.
pub open spec fn ext_listed(ext: Option<Seq<char>>, requested: Seq<Seq<char>>) -> bool {
    match ext {
        Some(e) => requested.contains(e),
        None => false,
    }
}

/// Whether an enum is included by a present filter.
pub open spec fn enum_included(e: EnumV, f: FilterV) -> bool {
    in_core(e.introduced_in, e.removed_in, f.version, f.profile) || ext_listed(
        e.extension,
        f.extensions,
    )
}

/// Whether an enum is included; an absent filter ("full" mode) includes
/// everything.
pub open spec fn enum_included_opt(e: EnumV, f: Option<FilterV>) -> bool {
    match f {
        None => true,
        Some(f) => enum_included(e, f),
    }
}

/// Whether a command is included by a present filter.
pub open spec fn cmd_included(c: CmdV, f: FilterV) -> bool {
    in_core(c.introduced_in, c.removed_in, f.version, f.profile) || ext_listed(
        c.extension,
        f.extensions,
    )
}

/// Whether a command is included; an absent filter includes everything.
pub open spec fn cmd_included_opt(c: CmdV, f: Option<FilterV>) -> bool {
    match f {
        None => true,
        Some(f) => cmd_included(c, f),
    }
}

/// The subsequence of `s` whose elements satisfy `p`, in order.
pub open spec fn kept<T>(s: Seq<T>, p: spec_fn(T) -> bool) -> Seq<T>
    decreases s.len(),
{
    if s.len() == 0 {
        Seq::empty()
    } else if p(s.last()) {
        kept(s.drop_last(), p).push(s.last())
    } else {
        kept(s.drop_last(), p)
    }
}

/// Whether some element of `s` has key `id`.
pub open spec fn has_key<T>(s: Seq<T>, key: spec_fn(T) -> Seq<char>, id: Seq<char>) -> bool {
    exists|j: int| 0 <= j < s.len() && key(s[j]) == id
}

/// The subsequence of `s` that keeps, for each key, only the first
/// element carrying it.
pub open spec fn first_seen<T>(s: Seq<T>, key: spec_fn(T) -> Seq<char>) -> Seq<T>
    decreases s.len(),
{
    if s.len() == 0 {
        Seq::empty()
    } else if has_key(s.drop_last(), key, key(s.last())) {
        first_seen(s.drop_last(), key)
    } else {
        first_seen(s.drop_last(), key).push(s.last())
    }
}

/// No two elements of `s` share a key.
pub open spec fn distinct_keys<T>(s: Seq<T>, key: spec_fn(T) -> Seq<char>) -> bool {
    forall|i: int, j: int| 0 <= i < j < s.len() ==> key(s[i]) != key(s[j])
}

/// An enum's key is its identifier.
pub open spec fn enum_key() -> spec_fn(EnumV) -> Seq<char> {
    |e: EnumV| e.ident
}

/// A command's key is its prototype's identifier.
pub open spec fn cmd_key() -> spec_fn(CmdV) -> Seq<char> {
    |c: CmdV| c.proto.ident
}

/// The inclusion predicate for enums under an optional filter.
pub open spec fn enum_pred(f: Option<FilterV>) -> spec_fn(EnumV) -> bool {
    |e: EnumV| enum_included_opt(e, f)
}

/// The inclusion predicate for commands under an optional filter.
pub open spec fn cmd_pred(f: Option<FilterV>) -> spec_fn(CmdV) -> bool {
    |c: CmdV| cmd_included_opt(c, f)
}

/// The resolved enum sequence: included definitions in document order,
/// first occurrence of each identifier winning.
pub open spec fn resolved_enums(s: Seq<EnumV>, f: Option<FilterV>) -> Seq<EnumV> {
    first_seen(kept(s, enum_pred(f)), enum_key())
}

/// The resolved command sequence.
pub open spec fn resolved_cmds(s: Seq<CmdV>, f: Option<FilterV>) -> Seq<CmdV> {
    first_seen(kept(s, cmd_pred(f)), cmd_key())
}

/// The ghost filter that an optional borrowed filter stands for.
pub open spec fn filter_view(f: Option<&Filter>) -> Option<FilterV> {
    match f {
        None => None,
        Some(f) => Some(f@),
    }
}

pub(crate) proof fn lemma_kept_push<T>(s: Seq<T>, x: T, p: spec_fn(T) -> bool)
    ensures
        kept(s.push(x), p) == if p(x) {
            kept(s, p).push(x)
        } else {
            kept(s, p)
        },
{
    assert(s.push(x).drop_last() =~= s);
}

pub(crate) proof fn lemma_has_key_push<T>(s: Seq<T>, x: T, key: spec_fn(T) -> Seq<char>, id: Seq<char>)
    ensures
        has_key(s.push(x), key, id) <==> (has_key(s, key, id) || key(x) == id),
{
    if has_key(s.push(x), key, id) {
        let j = choose|j: int| 0 <= j < s.push(x).len() && key(s.push(x)[j]) == id;
        if j < s.len() {
            assert(s.push(x)[j] == s[j]);
            assert(has_key(s, key, id));
        } else {
            assert(s.push(x)[j] == x);
        }
    }
    if has_key(s, key, id) {
        let j = choose|j: int| 0 <= j < s.len() && key(s[j]) == id;
        assert(s.push(x)[j] == s[j]);
        assert(has_key(s.push(x), key, id));
    }
    if key(x) == id {
        assert(s.push(x)[s.len() as int] == x);
        assert(has_key(s.push(x), key, id));
    }
}

pub(crate) proof fn lemma_first_seen_push<T>(s: Seq<T>, x: T, key: spec_fn(T) -> Seq<char>)
    ensures
        first_seen(s.push(x), key) == if has_key(s, key, key(x)) {
            first_seen(s, key)
        } else {
            first_seen(s, key).push(x)
        },
{
    assert(s.push(x).drop_last() =~= s);
}

/// Keys survive deduplication: an identifier occurs in `first_seen(s)`
/// exactly when it occurs in `s`.
pub(crate) proof fn lemma_first_seen_same_keys<T>(s: Seq<T>, key: spec_fn(T) -> Seq<char>, id: Seq<char>)
    ensures
        has_key(first_seen(s, key), key, id) <==> has_key(s, key, id),
    decreases s.len(),
{
    if s.len() == 0 {
        assert(!has_key(s, key, id));
    } else {
        let init = s.drop_last();
        let x = s.last();
        lemma_first_seen_same_keys(init, key, id);
        assert(init.push(x) =~= s);
        lemma_has_key_push(init, x, key, id);
        if !has_key(init, key, key(x)) {
            lemma_has_key_push(first_seen(init, key), x, key, id);
        }
    }
}

/// Deduplication leaves pairwise distinct keys.
proof fn lemma_first_seen_distinct<T>(s: Seq<T>, key: spec_fn(T) -> Seq<char>)
    ensures
        distinct_keys(first_seen(s, key), key),
    decreases s.len(),
{
    if s.len() > 0 {
        let init = s.drop_last();
        let x = s.last();
        lemma_first_seen_distinct(init, key);
        if !has_key(init, key, key(x)) {
            lemma_first_seen_same_keys(init, key, key(x));
            let fs = first_seen(init, key);
            assert forall|i: int, j: int|
                0 <= i < j < fs.push(x).len() implies key(fs.push(x)[i]) != key(
                fs.push(x)[j],
            ) by {
                if j < fs.len() {
                    assert(fs.push(x)[i] == fs[i]);
                    assert(fs.push(x)[j] == fs[j]);
                } else {
                    assert(fs.push(x)[j] == x);
                    assert(fs.push(x)[i] == fs[i]);
                    assert(!has_key(fs, key, key(x)));
                    assert(key(fs[i]) != key(x));
                }
            }
        }
    }
}

/// An identifier occurs in `kept(s, p)` exactly when some element of `s`
/// carries it and satisfies `p`.
proof fn lemma_kept_member<T>(s: Seq<T>, p: spec_fn(T) -> bool, key: spec_fn(T) -> Seq<char>, id: Seq<char>)
    ensures
        has_key(kept(s, p), key, id) <==> exists|j: int|
            0 <= j < s.len() && key(s[j]) == id && p(s[j]),
    decreases s.len(),
{
    if s.len() == 0 {
    } else {
        let init = s.drop_last();
        let x = s.last();
        lemma_kept_member(init, p, key, id);
        assert(init.push(x) =~= s);
        if p(x) {
            lemma_has_key_push(kept(init, p), x, key, id);
        }
        assert forall|j: int| 0 <= j < init.len() implies s[j] == init[j] by {}
        if exists|j: int| 0 <= j < s.len() && key(s[j]) == id && p(s[j]) {
            let j = choose|j: int| 0 <= j < s.len() && key(s[j]) == id && p(s[j]);
            if j < init.len() {
                assert(init[j] == s[j]);
                assert(has_key(kept(init, p), key, id));
            } else {
                assert(s[j] == x);
            }
        }
    }
}

/// A weaker inclusion predicate keeps every identifier that a stronger
/// one keeps.
proof fn lemma_kept_mono<T>(
    s: Seq<T>,
    p1: spec_fn(T) -> bool,
    p2: spec_fn(T) -> bool,
    key: spec_fn(T) -> Seq<char>,
    id: Seq<char>,
)
    requires
        forall|t: T| #[trigger] p1(t) ==> p2(t),
        has_key(kept(s, p1), key, id),
    ensures
        has_key(kept(s, p2), key, id),
{
    lemma_kept_member(s, p1, key, id);
    lemma_kept_member(s, p2, key, id);
    let j = choose|j: int| 0 <= j < s.len() && key(s[j]) == id && p1(s[j]);
    assert(p2(s[j]));
}

/// Keeping everything keeps the sequence as it is.
proof fn lemma_kept_all<T>(s: Seq<T>, p: spec_fn(T) -> bool)
    requires
        forall|j: int| 0 <= j < s.len() ==> p(#[trigger] s[j]),
    ensures
        kept(s, p) == s,
    decreases s.len(),
{
    if s.len() > 0 {
        let init = s.drop_last();
        assert forall|j: int| 0 <= j < init.len() implies p(#[trigger] init[j]) by {
            assert(init[j] == s[j]);
        }
        lemma_kept_all(init, p);
        assert(p(s[s.len() - 1]));
        assert(kept(s, p) =~= s);
    }
}

/// Every element kept satisfies the predicate.
proof fn lemma_kept_elements<T>(s: Seq<T>, p: spec_fn(T) -> bool)
    ensures
        forall|j: int| 0 <= j < kept(s, p).len() ==> p(#[trigger] kept(s, p)[j]),
    decreases s.len(),
{
    if s.len() > 0 {
        let init = s.drop_last();
        lemma_kept_elements(init, p);
        if p(s.last()) {
            assert forall|j: int| 0 <= j < kept(s, p).len() implies p(
                #[trigger] kept(s, p)[j],
            ) by {
                if j < kept(init, p).len() {
                    assert(kept(s, p)[j] == kept(init, p)[j]);
                }
            }
        }
    }
}

/// A property of every element survives deduplication.
proof fn lemma_first_seen_elements<T>(s: Seq<T>, key: spec_fn(T) -> Seq<char>, p: spec_fn(T) -> bool)
    requires
        forall|j: int| 0 <= j < s.len() ==> p(#[trigger] s[j]),
    ensures
        forall|j: int| 0 <= j < first_seen(s, key).len() ==> p(#[trigger] first_seen(s, key)[j]),
    decreases s.len(),
{
    if s.len() > 0 {
        let init = s.drop_last();
        assert forall|j: int| 0 <= j < init.len() implies p(#[trigger] init[j]) by {
            assert(init[j] == s[j]);
        }
        lemma_first_seen_elements(init, key, p);
        if !has_key(init, key, key(s.last())) {
            assert(p(s[s.len() - 1]));
            assert forall|j: int| 0 <= j < first_seen(s, key).len() implies p(
                #[trigger] first_seen(s, key)[j],
            ) by {
                if j < first_seen(init, key).len() {
                    assert(first_seen(s, key)[j] == first_seen(init, key)[j]);
                }
            }
        }
    }
}

/// With pairwise distinct keys there is nothing to deduplicate.
proof fn lemma_first_seen_of_distinct<T>(s: Seq<T>, key: spec_fn(T) -> Seq<char>)
    requires
        distinct_keys(s, key),
    ensures
        first_seen(s, key) == s,
    decreases s.len(),
{
    if s.len() > 0 {
        let init = s.drop_last();
        assert forall|i: int, j: int| 0 <= i < j < init.len() implies key(#[trigger] init[i])
            != key(#[trigger] init[j]) by {
            assert(init[i] == s[i]);
            assert(init[j] == s[j]);
        }
        lemma_first_seen_of_distinct(init, key);
        assert(!has_key(init, key, key(s.last()))) by {
            if has_key(init, key, key(s.last())) {
                let j = choose|j: int|
                    0 <= j < init.len() && key(init[j]) == key(s.last());
                assert(key(s[j]) == key(s[s.len() - 1]));
            }
        }
        assert(first_seen(s, key) =~= s);
    }
}

/// Resolution is a fixpoint: a resolved registry resolves to itself
/// under the same filter — every kept definition is still included and
/// already deduplicated, so generators need not (and must not)
/// re-filter.
pub proof fn lemma_resolve_stable(reg: crate::registry::RegistryV, f: Option<FilterV>)
    ensures
        resolved_enums(resolved_enums(reg.enums, f), f) == resolved_enums(reg.enums, f),
        resolved_cmds(resolved_cmds(reg.cmds, f), f) == resolved_cmds(reg.cmds, f),
{
    let re = resolved_enums(reg.enums, f);
    lemma_kept_elements(reg.enums, enum_pred(f));
    lemma_first_seen_elements(kept(reg.enums, enum_pred(f)), enum_key(), enum_pred(f));
    lemma_kept_all(re, enum_pred(f));
    lemma_first_seen_distinct(kept(reg.enums, enum_pred(f)), enum_key());
    lemma_first_seen_of_distinct(re, enum_key());
    let rc = resolved_cmds(reg.cmds, f);
    lemma_kept_elements(reg.cmds, cmd_pred(f));
    lemma_first_seen_elements(kept(reg.cmds, cmd_pred(f)), cmd_key(), cmd_pred(f));
    lemma_kept_all(rc, cmd_pred(f));
    lemma_first_seen_distinct(kept(reg.cmds, cmd_pred(f)), cmd_key());
    lemma_first_seen_of_distinct(rc, cmd_key());
}

/// Whether `name` is one of the requested extension names.
fn contains_string(list: &Vec<String>, name: &String) -> (r: bool)
    ensures
        r == list@.map_values(|s: String| s@).contains(name@),
{
    let ghost m = list@.map_values(|s: String| s@);
    let n = list.len();
    let mut i: usize = 0;
    while i < n
        invariant
            i <= n,
            n == list@.len(),
            forall|j: int| 0 <= j < i ==> list@[j]@ != name@,
        decreases n - i,
    {
        if list[i].eq(name) {
            proof {
                assert(m[i as int] == name@);
            }
            return true;
        }
        i = i + 1;
    }
    proof {
        assert(!m.contains(name@)) by {
            assert forall|j: int| 0 <= j < m.len() implies m[j] != name@ by {
                assert(m[j] == list@[j]@);
            }
        }
    }
    false
}

/// Whether an enum is included under the given filter.
pub fn enum_included_exec(e: &Enum, filter: Option<&Filter>) -> (r: bool)
    ensures
        r == enum_included_opt(e@, filter_view(filter)),
{
    match filter {
        None => true,
        Some(f) => {
            let core = match &e.introduced_in {
                Some(v0) => v0.le(f.version) && match &e.removed_in {
                    Some(rm) => !(rm.version.le(f.version) && (f.profile == Profile::Core
                        || rm.profile == f.profile)),
                    None => true,
                },
                None => false,
            };
            let ext = match &e.extension {
                Some(x) => contains_string(&f.extensions, x),
                None => false,
            };
            core || ext
        },
    }
}

/// Whether a command is included under the given filter.
pub fn cmd_included_exec(c: &Cmd, filter: Option<&Filter>) -> (r: bool)
    ensures
        r == cmd_included_opt(c@, filter_view(filter)),
{
    match filter {
        None => true,
        Some(f) => {
            let core = match &c.introduced_in {
                Some(v0) => v0.le(f.version) && match &c.removed_in {
                    Some(rm) => !(rm.version.le(f.version) && (f.profile == Profile::Core
                        || rm.profile == f.profile)),
                    None => true,
                },
                None => false,
            };
            let ext = match &c.extension {
                Some(x) => contains_string(&f.extensions, x),
                None => false,
            };
            core || ext
        },
    }
}

/// Whether an already-kept enum with identifier `id` exists in `out`.
pub(crate) fn out_has_enum_ident(out: &Vec<Enum>, id: &String) -> (r: bool)
    ensures
        r == has_key(out@.map_values(|e: Enum| e@), enum_key(), id@),
{
    let ghost m = out@.map_values(|e: Enum| e@);
    let n = out.len();
    let mut i: usize = 0;
    while i < n
        invariant
            i <= n,
            n == out@.len(),
            forall|j: int| 0 <= j < i ==> out@[j]@.ident != id@,
        decreases n - i,
    {
        if out[i].ident.eq(id) {
            proof {
                assert(enum_key()(m[i as int]) == id@);
            }
            return true;
        }
        i = i + 1;
    }
    proof {
        assert(!has_key(m, enum_key(), id@)) by {
            assert forall|j: int| 0 <= j < m.len() implies enum_key()(m[j]) != id@ by {
                assert(m[j] == out@[j]@);
            }
        }
    }
    false
}

/// Whether an already-kept command with identifier `id` exists in `out`.
pub(crate) fn out_has_cmd_ident(out: &Vec<Cmd>, id: &String) -> (r: bool)
    ensures
        r == has_key(out@.map_values(|c: Cmd| c@), cmd_key(), id@),
{
    let ghost m = out@.map_values(|c: Cmd| c@);
    let n = out.len();
    let mut i: usize = 0;
    while i < n
        invariant
            i <= n,
            n == out@.len(),
            forall|j: int| 0 <= j < i ==> out@[j]@.proto.ident != id@,
        decreases n - i,
    {
        if out[i].proto.ident.eq(id) {
            proof {
                assert(cmd_key()(m[i as int]) == id@);
            }
            return true;
        }
        i = i + 1;
    }
    proof {
        assert(!has_key(m, cmd_key(), id@)) by {
            assert forall|j: int| 0 <= j < m.len() implies cmd_key()(m[j]) != id@ by {
                assert(m[j] == out@[j]@);
            }
        }
    }
    false
}

/// Computes the resolved registry: every definition that the filter
/// includes, deduplicated by identifier with the first occurrence in
/// document order winning, original relative order preserved.  An absent
/// filter is "full" mode: everything is included.  Resolution is a pure
/// function of its inputs; the raw registry is not changed.
pub fn resolve(reg: &Registry, filter: Option<&Filter>) -> (r: Registry)
    ensures
        r.ns == reg.ns,
        r@.enums == resolved_enums(reg@.enums, filter_view(filter)),
        r@.cmds == resolved_cmds(reg@.cmds, filter_view(filter)),
{
    let ghost fv = filter_view(filter);
    let mut enums: Vec<Enum> = Vec::new();
    let n = reg.enums.len();
    let mut i: usize = 0;
    while i < n
        invariant
            i <= n,
            n == reg.enums@.len(),
            enums@.map_values(|e: Enum| e@) == resolved_enums(
                reg@.enums.subrange(0, i as int),
                fv,
            ),
        decreases n - i,
    {
        let e = &reg.enums[i];
        let ghost prefix = reg@.enums.subrange(0, i as int);
        let ghost ev = e@;
        proof {
            assert(reg@.enums.subrange(0, i + 1 as int) =~= prefix.push(ev));
            lemma_kept_push(prefix, ev, enum_pred(fv));
            if enum_pred(fv)(ev) {
                lemma_first_seen_push(kept(prefix, enum_pred(fv)), ev, enum_key());
                lemma_first_seen_same_keys(kept(prefix, enum_pred(fv)), enum_key(), ev.ident);
            }
        }
        if enum_included_exec(e, filter) {
            if !out_has_enum_ident(&enums, &e.ident) {
                enums.push(e.duplicate());
                proof {
                    assert(enums@.map_values(|e: Enum| e@) =~= resolved_enums(
                        prefix,
                        fv,
                    ).push(ev));
                }
            }
        }
        i = i + 1;
    }
    proof {
        assert(reg@.enums.subrange(0, n as int) =~= reg@.enums);
    }
    let mut cmds: Vec<Cmd> = Vec::new();
    let m = reg.cmds.len();
    let mut k: usize = 0;
    while k < m
        invariant
            k <= m,
            m == reg.cmds@.len(),
            cmds@.map_values(|c: Cmd| c@) == resolved_cmds(reg@.cmds.subrange(0, k as int), fv),
        decreases m - k,
    {
        let c = &reg.cmds[k];
        let ghost prefix = reg@.cmds.subrange(0, k as int);
        let ghost cv = c@;
        proof {
            assert(reg@.cmds.subrange(0, k + 1 as int) =~= prefix.push(cv));
            lemma_kept_push(prefix, cv, cmd_pred(fv));
            if cmd_pred(fv)(cv) {
                lemma_first_seen_push(kept(prefix, cmd_pred(fv)), cv, cmd_key());
                lemma_first_seen_same_keys(kept(prefix, cmd_pred(fv)), cmd_key(), cv.proto.ident);
            }
        }
        if cmd_included_exec(c, filter) {
            if !out_has_cmd_ident(&cmds, &c.proto.ident) {
                cmds.push(c.duplicate());
                proof {
                    assert(cmds@.map_values(|c: Cmd| c@) =~= resolved_cmds(prefix, fv).push(cv));
                }
            }
        }
        k = k + 1;
    }
    proof {
        assert(reg@.cmds.subrange(0, m as int) =~= reg@.cmds);
    }
    Registry { ns: reg.ns, enums, cmds }
}

/// Deduplicates enums by identifier, first occurrence winning.
pub fn dedup_enums(enums: &Vec<Enum>) -> (r: Vec<Enum>)
    ensures
        r@.map_values(|e: Enum| e@) == first_seen(enums@.map_values(|e: Enum| e@), enum_key()),
{
    let ghost full = enums@.map_values(|e: Enum| e@);
    let mut out: Vec<Enum> = Vec::new();
    let n = enums.len();
    let mut i: usize = 0;
    proof {
        assert(out@.map_values(|e: Enum| e@) =~= first_seen(full.subrange(0, 0), enum_key()));
    }
    while i < n
        invariant
            i <= n,
            n == enums@.len(),
            full == enums@.map_values(|e: Enum| e@),
            out@.map_values(|e: Enum| e@) == first_seen(full.subrange(0, i as int), enum_key()),
        decreases n - i,
    {
        let e = &enums[i];
        let ghost prefix = full.subrange(0, i as int);
        let ghost ev = e@;
        proof {
            assert(full.subrange(0, i + 1 as int) =~= prefix.push(ev));
            lemma_first_seen_push(prefix, ev, enum_key());
            lemma_first_seen_same_keys(prefix, enum_key(), ev.ident);
        }
        if !out_has_enum_ident(&out, &e.ident) {
            out.push(e.duplicate());
            proof {
                assert(out@.map_values(|e: Enum| e@) =~= first_seen(prefix, enum_key()).push(ev));
            }
        }
        i = i + 1;
    }
    proof {
        assert(full.subrange(0, n as int) =~= full);
    }
    out
}

/// Deduplicates commands by identifier, first occurrence winning.
pub fn dedup_cmds(cmds: &Vec<Cmd>) -> (r: Vec<Cmd>)
    ensures
        r@.map_values(|c: Cmd| c@) == first_seen(cmds@.map_values(|c: Cmd| c@), cmd_key()),
{
    let ghost full = cmds@.map_values(|c: Cmd| c@);
    let mut out: Vec<Cmd> = Vec::new();
    let n = cmds.len();
    let mut i: usize = 0;
    proof {
        assert(out@.map_values(|c: Cmd| c@) =~= first_seen(full.subrange(0, 0), cmd_key()));
    }
    while i < n
        invariant
            i <= n,
            n == cmds@.len(),
            full == cmds@.map_values(|c: Cmd| c@),
            out@.map_values(|c: Cmd| c@) == first_seen(full.subrange(0, i as int), cmd_key()),
        decreases n - i,
    {
        let c = &cmds[i];
        let ghost prefix = full.subrange(0, i as int);
        let ghost cv = c@;
        proof {
            assert(full.subrange(0, i + 1 as int) =~= prefix.push(cv));
            lemma_first_seen_push(prefix, cv, cmd_key());
            lemma_first_seen_same_keys(prefix, cmd_key(), cv.proto.ident);
        }
        if !out_has_cmd_ident(&out, &c.proto.ident) {
            out.push(c.duplicate());
            proof {
                assert(out@.map_values(|c: Cmd| c@) =~= first_seen(prefix, cmd_key()).push(cv));
            }
        }
        i = i + 1;
    }
    proof {
        assert(full.subrange(0, n as int) =~= full);
    }
    out
}

/// Dedup invariant: in a resolved registry no two enums and no two
/// commands share an identifier.
pub proof fn lemma_resolved_distinct(reg: crate::registry::RegistryV, f: Option<FilterV>)
    ensures
        distinct_keys(resolved_enums(reg.enums, f), enum_key()),
        distinct_keys(resolved_cmds(reg.cmds, f), cmd_key()),
{
    lemma_first_seen_distinct(kept(reg.enums, enum_pred(f)), enum_key());
    lemma_first_seen_distinct(kept(reg.cmds, cmd_pred(f)), cmd_key());
}

/// Resolution is deterministic: the same raw registry and the same
/// filter yield the same resolved definitions, run after run.
pub proof fn lemma_resolve_deterministic(
    a: crate::registry::RegistryV,
    b: crate::registry::RegistryV,
    f: Option<FilterV>,
    g: Option<FilterV>,
)
    requires
        a == b,
        f == g,
    ensures
        resolved_enums(a.enums, f) == resolved_enums(b.enums, g),
        resolved_cmds(a.cmds, f) == resolved_cmds(b.cmds, g),
{
}

/// The "compatibility" profile yields a superset: every identifier
/// resolved under "core" is also resolved under "compatibility" at the
/// same version and extensions.
pub proof fn lemma_compatibility_superset(
    reg: crate::registry::RegistryV,
    f: FilterV,
    g: FilterV,
    id: Seq<char>,
)
    requires
        f.profile == Profile::Core,
        g.profile == Profile::Compatibility,
        g.version == f.version,
        g.extensions == f.extensions,
    ensures
        has_key(resolved_enums(reg.enums, Some(f)), enum_key(), id) ==> has_key(
            resolved_enums(reg.enums, Some(g)),
            enum_key(),
            id,
        ),
        has_key(resolved_cmds(reg.cmds, Some(f)), cmd_key(), id) ==> has_key(
            resolved_cmds(reg.cmds, Some(g)),
            cmd_key(),
            id,
        ),
{
    assert forall|e: EnumV| #[trigger] enum_pred(Some(f))(e) implies enum_pred(Some(g))(e) by {}
    assert forall|c: CmdV| #[trigger] cmd_pred(Some(f))(c) implies cmd_pred(Some(g))(c) by {}
    if has_key(resolved_enums(reg.enums, Some(f)), enum_key(), id) {
        lemma_first_seen_same_keys(kept(reg.enums, enum_pred(Some(f))), enum_key(), id);
        lemma_kept_mono(reg.enums, enum_pred(Some(f)), enum_pred(Some(g)), enum_key(), id);
        lemma_first_seen_same_keys(kept(reg.enums, enum_pred(Some(g))), enum_key(), id);
    }
    if has_key(resolved_cmds(reg.cmds, Some(f)), cmd_key(), id) {
        lemma_first_seen_same_keys(kept(reg.cmds, cmd_pred(Some(f))), cmd_key(), id);
        lemma_kept_mono(reg.cmds, cmd_pred(Some(f)), cmd_pred(Some(g)), cmd_key(), id);
        lemma_first_seen_same_keys(kept(reg.cmds, cmd_pred(Some(g))), cmd_key(), id);
    }
}

/// Adding extension names never removes an identifier from the resolved
/// set; it only adds.
pub proof fn lemma_extension_monotone(
    reg: crate::registry::RegistryV,
    f: FilterV,
    g: FilterV,
    id: Seq<char>,
)
    requires
        g.version == f.version,
        g.profile == f.profile,
        forall|x: Seq<char>| #[trigger] f.extensions.contains(x) ==> g.extensions.contains(x),
    ensures
        has_key(resolved_enums(reg.enums, Some(f)), enum_key(), id) ==> has_key(
            resolved_enums(reg.enums, Some(g)),
            enum_key(),
            id,
        ),
        has_key(resolved_cmds(reg.cmds, Some(f)), cmd_key(), id) ==> has_key(
            resolved_cmds(reg.cmds, Some(g)),
            cmd_key(),
            id,
        ),
{
    assert forall|e: EnumV| #[trigger] enum_pred(Some(f))(e) implies enum_pred(Some(g))(e) by {}
    assert forall|c: CmdV| #[trigger] cmd_pred(Some(f))(c) implies cmd_pred(Some(g))(c) by {}
    if has_key(resolved_enums(reg.enums, Some(f)), enum_key(), id) {
        lemma_first_seen_same_keys(kept(reg.enums, enum_pred(Some(f))), enum_key(), id);
        lemma_kept_mono(reg.enums, enum_pred(Some(f)), enum_pred(Some(g)), enum_key(), id);
        lemma_first_seen_same_keys(kept(reg.enums, enum_pred(Some(g))), enum_key(), id);
    }
    if has_key(resolved_cmds(reg.cmds, Some(f)), cmd_key(), id) {
        lemma_first_seen_same_keys(kept(reg.cmds, cmd_pred(Some(f))), cmd_key(), id);
        lemma_kept_mono(reg.cmds, cmd_pred(Some(f)), cmd_pred(Some(g)), cmd_key(), id);
        lemma_first_seen_same_keys(kept(reg.cmds, cmd_pred(Some(g))), cmd_key(), id);
    }
}

/// An absent filter ("full" mode) yields a superset of every possible
/// filtered resolution over the same raw registry.
pub proof fn lemma_full_mode_superset(
    reg: crate::registry::RegistryV,
    f: FilterV,
    id: Seq<char>,
)
    ensures
        has_key(resolved_enums(reg.enums, Some(f)), enum_key(), id) ==> has_key(
            resolved_enums(reg.enums, None),
            enum_key(),
            id,
        ),
        has_key(resolved_cmds(reg.cmds, Some(f)), cmd_key(), id) ==> has_key(
            resolved_cmds(reg.cmds, None),
            cmd_key(),
            id,
        ),
{
    assert forall|e: EnumV| #[trigger] enum_pred(Some(f))(e) implies enum_pred(None)(e) by {}
    assert forall|c: CmdV| #[trigger] cmd_pred(Some(f))(c) implies cmd_pred(None)(c) by {}
    if has_key(resolved_enums(reg.enums, Some(f)), enum_key(), id) {
        lemma_first_seen_same_keys(kept(reg.enums, enum_pred(Some(f))), enum_key(), id);
        lemma_kept_mono(reg.enums, enum_pred(Some(f)), enum_pred(None), enum_key(), id);
        lemma_first_seen_same_keys(kept(reg.enums, enum_pred(None)), enum_key(), id);
    }
    if has_key(resolved_cmds(reg.cmds, Some(f)), cmd_key(), id) {
        lemma_first_seen_same_keys(kept(reg.cmds, cmd_pred(Some(f))), cmd_key(), id);
        lemma_kept_mono(reg.cmds, cmd_pred(Some(f)), cmd_pred(None), cmd_key(), id);
        lemma_first_seen_same_keys(kept(reg.cmds, cmd_pred(None)), cmd_key(), id);
    }
}

/// Whether some definition of the registry is introduced by extension `x`.
pub open spec fn known_extension(reg: crate::registry::RegistryV, x: Seq<char>) -> bool {
    (exists|j: int| 0 <= j < reg.enums.len() && reg.enums[j].extension == Some(x)) || (exists|
        j: int,
    |
        0 <= j < reg.cmds.len() && reg.cmds[j].extension == Some(x))
}

/// The requested extension names that the registry does not know, in
/// request order.  By policy this is not an error by itself — an unknown
/// name simply contributes nothing — but strict callers may treat a
/// non-empty result as fatal.
pub fn unknown_extensions(reg: &Registry, f: &Filter) -> (r: Vec<String>)
    ensures
        r@.map_values(|s: String| s@) == kept(
            f@.extensions,
            |x: Seq<char>| !known_extension(reg@, x),
        ),
{
    let mut r: Vec<String> = Vec::new();
    let n = f.extensions.len();
    let mut i: usize = 0;
    while i < n
        invariant
            i <= n,
            n == f.extensions@.len(),
            r@.map_values(|s: String| s@) == kept(
                f@.extensions.subrange(0, i as int),
                |x: Seq<char>| !known_extension(reg@, x),
            ),
        decreases n - i,
    {
        let name = &f.extensions[i];
        let ghost prefix = f@.extensions.subrange(0, i as int);
        proof {
            assert(f@.extensions.subrange(0, i + 1 as int) =~= prefix.push(name@));
            lemma_kept_push(prefix, name@, |x: Seq<char>| !known_extension(reg@, x));
        }
        if !extension_known_exec(reg, name) {
            r.push(name.clone());
            proof {
                assert(r@.map_values(|s: String| s@) =~= kept(
                    prefix,
                    |x: Seq<char>| !known_extension(reg@, x),
                ).push(name@));
            }
        }
        i = i + 1;
    }
    proof {
        assert(f@.extensions.subrange(0, n as int) =~= f@.extensions);
    }
    r
}

/// Whether the registry knows extension `name`.
fn extension_known_exec(reg: &Registry, name: &String) -> (r: bool)
    ensures
        r == known_extension(reg@, name@),
{
    let n = reg.enums.len();
    let mut i: usize = 0;
    while i < n
        invariant
            i <= n,
            n == reg.enums@.len(),
            forall|j: int| 0 <= j < i ==> reg@.enums[j].extension != Some(name@),
        decreases n - i,
    {
        match &reg.enums[i].extension {
            Some(x) => {
                if x.eq(name) {
                    proof {
                        assert(reg@.enums[i as int].extension == Some(name@));
                    }
                    return true;
                }
            },
            None => {},
        }
        i = i + 1;
    }
    let m = reg.cmds.len();
    let mut k: usize = 0;
    while k < m
        invariant
            k <= m,
            m == reg.cmds@.len(),
            forall|j: int| 0 <= j < k ==> reg@.cmds[j].extension != Some(name@),
        decreases m - k,
    {
        match &reg.cmds[k].extension {
            Some(x) => {
                if x.eq(name) {
                    proof {
                        assert(reg@.cmds[k as int].extension == Some(name@));
                    }
                    return true;
                }
            },
            None => {},
        }
        k = k + 1;
    }
    false
}

} // verus!
