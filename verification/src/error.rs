//! The failure value of a generation request.  Every fatal kind aborts
//! the whole request: no partial output is ever returned beside one of
//! these.

use vstd::prelude::*;

use crate::text::{spec_join, join};

verus! {

/// Why a generation request failed.
#[derive(Debug, PartialEq, Eq)]
pub enum GenError {
    /// A binding or return type name is absent from the type table.
    UnknownType { ty: String, owner: String },
    /// The requested namespace is not one of the supported API families.
    UnknownApi { value: String },
    /// The requested profile is neither "core" nor "compatibility".
    UnknownProfile { value: String },
    /// The requested version string is not a `major.minor` pair.
    BadVersion { value: String },
    /// The requested generator style name is not recognized.
    UnknownGenerator { value: String },
    /// Extensions requested but absent from the registry; fatal only
    /// under strict extension validation.
    UnknownExtensions { names: Vec<String> },
}

/// Ghost record of a [`GenError`].
pub ghost enum GenErrorV {
    UnknownType { ty: Seq<char>, owner: Seq<char> },
    UnknownApi { value: Seq<char> },
    UnknownProfile { value: Seq<char> },
    BadVersion { value: Seq<char> },
    UnknownGenerator { value: Seq<char> },
    UnknownExtensions { names: Seq<Seq<char>> },
}

impl View for GenError {
    type V = GenErrorV;

    open spec fn view(&self) -> GenErrorV {
        match self {
            GenError::UnknownType { ty, owner } => GenErrorV::UnknownType {
                ty: ty@,
                owner: owner@,
            },
            GenError::UnknownApi { value } => GenErrorV::UnknownApi { value: value@ },
            GenError::UnknownProfile { value } => GenErrorV::UnknownProfile { value: value@ },
            GenError::BadVersion { value } => GenErrorV::BadVersion { value: value@ },
            GenError::UnknownGenerator { value } => GenErrorV::UnknownGenerator { value: value@ },
            GenError::UnknownExtensions { names } => GenErrorV::UnknownExtensions {
                names: names@.map_values(|s: String| s@),
            },
        }
    }
}

/// The descriptive text of a failure: its kind, the offending value and,
/// for selection fields, the set of accepted values.
pub open spec fn spec_describe(e: GenErrorV) -> Seq<char> {
    match e {
        GenErrorV::UnknownType { ty, owner } => "unknown type name `"@ + ty + "` in `"@ + owner
            + "`"@,
        GenErrorV::UnknownApi { value } => "unknown API `"@ + value
            + "`, expected one of: gl, glx, wgl, egl, gles1, gles2"@,
        GenErrorV::UnknownProfile { value } => "unknown profile `"@ + value
            + "`, expected one of: core, compatibility"@,
        GenErrorV::BadVersion { value } => "cannot parse version `"@ + value
            + "`, expected `major.minor`"@,
        GenErrorV::UnknownGenerator { value } => "unknown generator `"@ + value
            + "`, expected one of: static, global, struct, static_struct"@,
        GenErrorV::UnknownExtensions { names } => "extensions not declared by the registry: "@
            + spec_join(names, ", "@),
    }
}

impl GenError {
    /// Renders the failure as one descriptive line.
    pub fn describe(&self) -> (r: String)
        ensures
            r@ == spec_describe(self@),
    {
        match self {
            GenError::UnknownType { ty, owner } => String::from_str("unknown type name `").concat(
                ty.as_str(),
            ).concat("` in `").concat(owner.as_str()).concat("`"),
            GenError::UnknownApi { value } => String::from_str("unknown API `").concat(
                value.as_str(),
            ).concat("`, expected one of: gl, glx, wgl, egl, gles1, gles2"),
            GenError::UnknownProfile { value } => String::from_str("unknown profile `").concat(
                value.as_str(),
            ).concat("`, expected one of: core, compatibility"),
            GenError::BadVersion { value } => String::from_str("cannot parse version `").concat(
                value.as_str(),
            ).concat("`, expected `major.minor`"),
            GenError::UnknownGenerator { value } => String::from_str("unknown generator `").concat(
                value.as_str(),
            ).concat("`, expected one of: static, global, struct, static_struct"),
            GenError::UnknownExtensions { names } => {
                let r = String::from_str("extensions not declared by the registry: ").concat(
                    join(names, ", ").as_str(),
                );
                proof {
                    assert(names.deep_view() =~= names@.map_values(|s: String| s@));
                }
                r
            },
        }
    }
}

} // verus!
