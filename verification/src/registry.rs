//! The registry model: enums, commands, type aliases and the request-side
//! filter, together with the ghost records that contracts speak about.

use vstd::prelude::*;

verus! {

/// A `major.minor` version pair, parsed from a requested version string.
#[derive(Clone, Copy, Debug, PartialEq, Eq, Structural)]
pub struct Version {
    pub major: u32,
    pub minor: u32,
}

/// The strict "core" profile, or the "compatibility" superset that keeps
/// deprecated-but-not-removed definitions.
#[derive(Clone, Copy, Debug, PartialEq, Eq, Structural)]
pub enum Profile {
    Core,
    Compatibility,
}

/// One supported API family.
#[derive(Clone, Copy, Debug, PartialEq, Eq, Structural)]
pub enum Ns {
    Gl,
    Glx,
    Wgl,
    Egl,
    Gles1,
    Gles2,
}

/// A removal mark: the version at which a definition was removed, and the
/// profile that the removal applies to.
#[derive(Clone, Copy, Debug, PartialEq, Eq, Structural)]
pub struct Removal {
    pub version: Version,
    pub profile: Profile,
}

/// One function parameter or return slot: an identifier and a registry
/// type name.
#[derive(Debug, PartialEq, Eq)]
pub struct Binding {
    pub ident: String,
    pub ty: String,
}

/// Ghost record of a [`Binding`].
pub ghost struct BindingV {
    pub ident: Seq<char>,
    pub ty: Seq<char>,
}

impl View for Binding {
    type V = BindingV;

    open spec fn view(&self) -> BindingV {
        BindingV { ident: self.ident@, ty: self.ty@ }
    }
}

/// One named constant: an identifier, the literal text of its value, an
/// optional explicit type override, and the version/extension annotations
/// that gate it.
#[derive(Debug, PartialEq, Eq)]
pub struct Enum {
    pub ident: String,
    pub value: String,
    pub ty: Option<String>,
    pub introduced_in: Option<Version>,
    pub removed_in: Option<Removal>,
    pub extension: Option<String>,
}

/// Ghost record of an [`Enum`].
pub ghost struct EnumV {
    pub ident: Seq<char>,
    pub value: Seq<char>,
    pub ty: Option<Seq<char>>,
    pub introduced_in: Option<Version>,
    pub removed_in: Option<Removal>,
    pub extension: Option<Seq<char>>,
}

impl View for Enum {
    type V = EnumV;

    open spec fn view(&self) -> EnumV {
        EnumV {
            ident: self.ident@,
            value: self.value@,
            ty: match self.ty {
                Some(t) => Some(t@),
                None => None,
            },
            introduced_in: self.introduced_in,
            removed_in: self.removed_in,
            extension: match self.extension {
                Some(e) => Some(e@),
                None => None,
            },
        }
    }
}

/// One API function: its return slot, its ordered parameters, whether it
/// is safe to expose without an unsafe wrapper, an optional alias, and the
/// version/extension annotations that gate it.
#[derive(Debug, PartialEq, Eq)]
pub struct Cmd {
    pub proto: Binding,
    pub params: Vec<Binding>,
    pub is_safe: bool,
    pub alias: Option<String>,
    pub introduced_in: Option<Version>,
    pub removed_in: Option<Removal>,
    pub extension: Option<String>,
}

/// Ghost record of a [`Cmd`].
pub ghost struct CmdV {
    pub proto: BindingV,
    pub params: Seq<BindingV>,
    pub is_safe: bool,
    pub alias: Option<Seq<char>>,
    pub introduced_in: Option<Version>,
    pub removed_in: Option<Removal>,
    pub extension: Option<Seq<char>>,
}

impl View for Cmd {
    type V = CmdV;

    open spec fn view(&self) -> CmdV {
        CmdV {
            proto: self.proto@,
            params: self.params@.map_values(|b: Binding| b@),
            is_safe: self.is_safe,
            alias: match self.alias {
                Some(a) => Some(a@),
                None => None,
            },
            introduced_in: self.introduced_in,
            removed_in: self.removed_in,
            extension: match self.extension {
                Some(e) => Some(e@),
                None => None,
            },
        }
    }
}

/// One type alias of the target surface: the alias name and the type
/// expression it stands for.
#[derive(Debug, PartialEq, Eq)]
pub struct TypeAlias {
    pub alias: String,
    pub ty: String,
}

/// Ghost record of a [`TypeAlias`].
pub ghost struct TypeAliasV {
    pub alias: Seq<char>,
    pub ty: Seq<char>,
}

impl View for TypeAlias {
    type V = TypeAliasV;

    open spec fn view(&self) -> TypeAliasV {
        TypeAliasV { alias: self.alias@, ty: self.ty@ }
    }
}

/// The aggregate: a namespace, the declared enums and the declared
/// commands, in document order.  A value is "raw" when it holds everything
/// the document declares and "resolved" once [`crate::resolve::resolve`]
/// has filtered and deduplicated it.
#[derive(Debug, PartialEq, Eq)]
pub struct Registry {
    pub ns: Ns,
    pub enums: Vec<Enum>,
    pub cmds: Vec<Cmd>,
}

/// Ghost record of a [`Registry`].
pub ghost struct RegistryV {
    pub ns: Ns,
    pub enums: Seq<EnumV>,
    pub cmds: Seq<CmdV>,
}

impl View for Registry {
    type V = RegistryV;

    open spec fn view(&self) -> RegistryV {
        RegistryV {
            ns: self.ns,
            enums: self.enums@.map_values(|e: Enum| e@),
            cmds: self.cmds@.map_values(|c: Cmd| c@),
        }
    }
}

/// The request-side filter: target namespace, requested version, profile,
/// and the extensions to pull in besides the version-gated core set.
#[derive(Debug, PartialEq, Eq)]
pub struct Filter {
    pub api: Ns,
    pub version: Version,
    pub profile: Profile,
    pub extensions: Vec<String>,
}

/// Ghost record of a [`Filter`].
pub ghost struct FilterV {
    pub api: Ns,
    pub version: Version,
    pub profile: Profile,
    pub extensions: Seq<Seq<char>>,
}

impl View for Filter {
    type V = FilterV;

    open spec fn view(&self) -> FilterV {
        FilterV {
            api: self.api,
            version: self.version,
            profile: self.profile,
            extensions: self.extensions@.map_values(|s: String| s@),
        }
    }
}

impl Registry {
    /// Construction is the only producer: the parsing collaborator hands
    /// over the declared definitions and the registry is immutable after.
    pub fn new(ns: Ns, enums: Vec<Enum>, cmds: Vec<Cmd>) -> (r: Registry)
        ensures
            r.ns == ns,
            r.enums == enums,
            r.cmds == cmds,
    {
        Registry { ns, enums, cmds }
    }

    /// The namespace this registry describes.
    pub fn namespace(&self) -> (r: Ns)
        ensures
            r == self.ns,
    {
        self.ns
    }

    /// Read-only access to the declared enums, in document order.
    pub fn enums(&self) -> (r: &Vec<Enum>)
        ensures
            r == &self.enums,
    {
        &self.enums
    }

    /// Read-only access to the declared commands, in document order.
    pub fn cmds(&self) -> (r: &Vec<Cmd>)
        ensures
            r == &self.cmds,
    {
        &self.cmds
    }
}

impl Binding {
    /// A field-for-field copy.
    pub fn duplicate(&self) -> (r: Binding)
        ensures
            r@ == self@,
    {
        Binding { ident: self.ident.clone(), ty: self.ty.clone() }
    }
}

/// A field-for-field copy of an optional string.
pub fn duplicate_opt_string(s: &Option<String>) -> (r: Option<String>)
    ensures
        match (s, &r) {
            (Some(a), Some(b)) => a@ == b@,
            (None, None) => true,
            _ => false,
        },
{
    match s {
        Some(a) => Some(a.clone()),
        None => None,
    }
}

impl Enum {
    /// A field-for-field copy.
    pub fn duplicate(&self) -> (r: Enum)
        ensures
            r@ == self@,
    {
        Enum {
            ident: self.ident.clone(),
            value: self.value.clone(),
            ty: duplicate_opt_string(&self.ty),
            introduced_in: self.introduced_in,
            removed_in: self.removed_in,
            extension: duplicate_opt_string(&self.extension),
        }
    }
}

impl Cmd {
    /// A field-for-field copy.
    pub fn duplicate(&self) -> (r: Cmd)
        ensures
            r@ == self@,
    {
        let mut params: Vec<Binding> = Vec::new();
        let n = self.params.len();
        let mut i: usize = 0;
        while i < n
            invariant
                i <= n,
                params@.len() == i,
                forall|j: int| 0 <= j < i ==> params@[j]@ == self.params@[j]@,
            decreases n - i,
        {
            params.push(self.params[i].duplicate());
            i = i + 1;
        }
        let r = Cmd {
            proto: self.proto.duplicate(),
            params,
            is_safe: self.is_safe,
            alias: duplicate_opt_string(&self.alias),
            introduced_in: self.introduced_in,
            removed_in: self.removed_in,
            extension: duplicate_opt_string(&self.extension),
        };
        proof {
            assert(r@.params =~= self@.params);
        }
        r
    }
}

} // verus!
