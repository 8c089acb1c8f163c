//! The type-mapping table: registry type names rendered as target type
//! expressions, and the fixed per-namespace lists of type aliases that
//! the generated bindings declare.

use vstd::prelude::*;

use crate::registry::{Ns, Registry, TypeAlias, TypeAliasV};
use crate::text::{spec_ends_with, spec_starts_with, str_ends_with, str_eq, str_starts_with};

verus! {

/// Whether `n` is a scalar type name of the core graphics API.
pub open spec fn is_gl_scalar(n: Seq<char>) -> bool {
    ||| n == "GLenum"@
    ||| n == "GLboolean"@
    ||| n == "GLbitfield"@
    ||| n == "GLvoid"@
    ||| n == "GLbyte"@
    ||| n == "GLshort"@
    ||| n == "GLint"@
    ||| n == "GLclampx"@
    ||| n == "GLubyte"@
    ||| n == "GLushort"@
    ||| n == "GLuint"@
    ||| n == "GLsizei"@
    ||| n == "GLfloat"@
    ||| n == "GLclampf"@
    ||| n == "GLdouble"@
    ||| n == "GLclampd"@
    ||| n == "GLchar"@
    ||| n == "GLintptr"@
    ||| n == "GLsizeiptr"@
    ||| n == "GLint64"@
    ||| n == "GLuint64"@
    ||| n == "GLsync"@
    ||| n == "GLfixed"@
    ||| n == "GLhalf"@
    ||| n == "GLDEBUGPROC"@
    ||| n == "GLeglImageOES"@
}

/// Whether `n` is a scalar type name of one of the windowing-system APIs.
pub open spec fn is_platform_scalar(n: Seq<char>) -> bool {
    ||| n == "XID"@
    ||| n == "GLXContext"@
    ||| n == "GLXDrawable"@
    ||| n == "HDC"@
    ||| n == "HGLRC"@
    ||| n == "PROC"@
    ||| n == "EGLBoolean"@
    ||| n == "EGLint"@
    ||| n == "EGLDisplay"@
    ||| n == "EGLSurface"@
    ||| n == "EGLContext"@
}

/// The rendered form of a non-pointer registry type name: the C `void`
/// becomes `c_void`, a known scalar name stands for itself, anything
/// else is unknown.
pub open spec fn spec_scalar_ty(n: Seq<char>) -> Option<Seq<char>> {
    if n == "void"@ {
        Some("c_void"@)
    } else if is_gl_scalar(n) || is_platform_scalar(n) {
        Some(n)
    } else {
        None
    }
}

/// The rendered form of a registry type name: `const T *` becomes
/// `*const T`, `T *` becomes `*mut T`, and a bare name maps through
/// [`spec_scalar_ty`].  `None` is an unknown type name.
pub open spec fn spec_to_rust_ty(n: Seq<char>) -> Option<Seq<char>> {
    if n.len() >= 8 && spec_starts_with(n, "const "@) && spec_ends_with(n, " *"@) {
        match spec_scalar_ty(n.subrange(6, n.len() - 2)) {
            Some(t) => Some("*const "@ + t),
            None => None,
        }
    } else if n.len() >= 2 && spec_ends_with(n, " *"@) {
        match spec_scalar_ty(n.subrange(0, n.len() - 2)) {
            Some(t) => Some("*mut "@ + t),
            None => None,
        }
    } else {
        spec_scalar_ty(n)
    }
}

/// Whether the name is a known scalar type name.
fn is_scalar_exec(n: &str) -> (r: bool)
    ensures
        r == (is_gl_scalar(n@) || is_platform_scalar(n@)),
{
    str_eq(n, "GLenum") || str_eq(n, "GLboolean") || str_eq(n, "GLbitfield") || str_eq(
        n,
        "GLvoid",
    ) || str_eq(n, "GLbyte") || str_eq(n, "GLshort") || str_eq(n, "GLint") || str_eq(n, "GLclampx")
        || str_eq(n, "GLubyte") || str_eq(n, "GLushort") || str_eq(n, "GLuint") || str_eq(
        n,
        "GLsizei",
    ) || str_eq(n, "GLfloat") || str_eq(n, "GLclampf") || str_eq(n, "GLdouble") || str_eq(
        n,
        "GLclampd",
    ) || str_eq(n, "GLchar") || str_eq(n, "GLintptr") || str_eq(n, "GLsizeiptr") || str_eq(
        n,
        "GLint64",
    ) || str_eq(n, "GLuint64") || str_eq(n, "GLsync") || str_eq(n, "GLfixed") || str_eq(
        n,
        "GLhalf",
    ) || str_eq(n, "GLDEBUGPROC") || str_eq(n, "GLeglImageOES") || str_eq(n, "XID") || str_eq(
        n,
        "GLXContext",
    ) || str_eq(n, "GLXDrawable") || str_eq(n, "HDC") || str_eq(n, "HGLRC") || str_eq(n, "PROC")
        || str_eq(n, "EGLBoolean") || str_eq(n, "EGLint") || str_eq(n, "EGLDisplay") || str_eq(
        n,
        "EGLSurface",
    ) || str_eq(n, "EGLContext")
}

/// Renders a non-pointer registry type name.
fn scalar_ty_exec(n: &str) -> (r: Option<String>)
    ensures
        crate::text::opt_str_view(r) == spec_scalar_ty(n@),
{
    if str_eq(n, "void") {
        Some(String::from_str("c_void"))
    } else if is_scalar_exec(n) {
        Some(n.to_owned())
    } else {
        None
    }
}

/// Renders a registry type name as a target type expression, or reports
/// an unknown name with `None`.
pub fn to_rust_ty(name: &str) -> (r: Option<String>)
    ensures
        crate::text::opt_str_view(r) == spec_to_rust_ty(name@),
{
    let n = name.unicode_len();
    if n >= 8 && str_starts_with(name, "const ") && str_ends_with(name, " *") {
        let inner = name.substring_char(6, n - 2);
        proof {
            reveal_strlit("const ");
            reveal_strlit(" *");
        }
        match scalar_ty_exec(inner) {
            Some(t) => Some(String::from_str("*const ").concat(t.as_str())),
            None => None,
        }
    } else if n >= 2 && str_ends_with(name, " *") {
        let inner = name.substring_char(0, n - 2);
        proof {
            reveal_strlit(" *");
        }
        match scalar_ty_exec(inner) {
            Some(t) => Some(String::from_str("*mut ").concat(t.as_str())),
            None => None,
        }
    } else {
        scalar_ty_exec(name)
    }
}

/// Ghost records of a type alias list.
pub open spec fn aliases_view(s: Seq<TypeAlias>) -> Seq<TypeAliasV> {
    s.map_values(|x: TypeAlias| x@)
}

/// Shorthand for one ghost type-alias record.
pub open spec fn tav(a: Seq<char>, t: Seq<char>) -> TypeAliasV {
    TypeAliasV { alias: a, ty: t }
}

/// Appends one alias record built from literal text.
fn push_alias(v: &mut Vec<TypeAlias>, a: &str, t: &str)
    ensures
        aliases_view(final(v)@) == aliases_view(old(v)@).push(tav(a@, t@)),
{
    v.push(TypeAlias { alias: String::from_str(a), ty: String::from_str(t) });
    proof {
        assert(aliases_view(v@) =~= aliases_view(old(v)@).push(tav(a@, t@)));
    }
}

/// The alias table of the core graphics API.
pub open spec fn spec_gl_aliases() -> Seq<TypeAliasV> {
    seq![
        tav("GLenum"@, "c_uint"@),
        tav("GLboolean"@, "c_uchar"@),
        tav("GLbitfield"@, "c_uint"@),
        tav("GLvoid"@, "c_void"@),
        tav("GLbyte"@, "c_schar"@),
        tav("GLshort"@, "c_short"@),
        tav("GLint"@, "c_int"@),
        tav("GLclampx"@, "c_int"@),
        tav("GLubyte"@, "c_uchar"@),
        tav("GLushort"@, "c_ushort"@),
        tav("GLuint"@, "c_uint"@),
        tav("GLsizei"@, "c_int"@),
        tav("GLfloat"@, "c_float"@),
        tav("GLclampf"@, "c_float"@),
        tav("GLdouble"@, "c_double"@),
        tav("GLclampd"@, "c_double"@),
        tav("GLchar"@, "c_char"@),
        tav("GLintptr"@, "isize"@),
        tav("GLsizeiptr"@, "isize"@),
        tav("GLint64"@, "i64"@),
        tav("GLuint64"@, "u64"@),
        tav("GLsync"@, "*const c_void"@),
        tav("GLfixed"@, "i32"@),
        tav("GLhalf"@, "u16"@),
        tav("GLDEBUGPROC"@, "*const c_void"@),
        tav("GLeglImageOES"@, "*const c_void"@),
    ]
}

/// The alias table shared by the X windowing bindings.
pub open spec fn spec_x_aliases() -> Seq<TypeAliasV> {
    seq![tav("XID"@, "c_ulong"@), tav("Bool"@, "c_int"@)]
}

/// The alias table of the GLX bindings.
pub open spec fn spec_glx_aliases() -> Seq<TypeAliasV> {
    seq![
        tav("GLXFBConfigID"@, "XID"@),
        tav("GLXFBConfig"@, "*const c_void"@),
        tav("GLXContextID"@, "XID"@),
        tav("GLXContext"@, "*const c_void"@),
        tav("GLXPixmap"@, "XID"@),
        tav("GLXDrawable"@, "XID"@),
        tav("GLXWindow"@, "XID"@),
        tav("GLXPbuffer"@, "XID"@),
    ]
}

/// The alias table shared by the Windows bindings.
pub open spec fn spec_win_aliases() -> Seq<TypeAliasV> {
    seq![
        tav("BOOL"@, "c_int"@),
        tav("BYTE"@, "c_uchar"@),
        tav("DWORD"@, "c_ulong"@),
        tav("FLOAT"@, "c_float"@),
        tav("INT"@, "c_int"@),
        tav("UINT"@, "c_uint"@),
        tav("WORD"@, "c_ushort"@),
        tav("HDC"@, "*const c_void"@),
        tav("HGLRC"@, "*const c_void"@),
        tav("HWND"@, "*const c_void"@),
        tav("PROC"@, "*const c_void"@),
    ]
}

/// The alias table of the WGL bindings.
pub open spec fn spec_wgl_aliases() -> Seq<TypeAliasV> {
    seq![
        tav("HPBUFFERARB"@, "*const c_void"@),
        tav("HPBUFFEREXT"@, "*const c_void"@),
        tav("HGPUNV"@, "*const c_void"@),
        tav("HVIDEOOUTPUTDEVICENV"@, "*const c_void"@),
    ]
}

/// The alias table of the EGL bindings.
pub open spec fn spec_egl_aliases() -> Seq<TypeAliasV> {
    seq![
        tav("EGLBoolean"@, "c_uint"@),
        tav("EGLenum"@, "c_uint"@),
        tav("EGLint"@, "i32"@),
        tav("EGLDisplay"@, "*const c_void"@),
        tav("EGLConfig"@, "*const c_void"@),
        tav("EGLContext"@, "*const c_void"@),
        tav("EGLSurface"@, "*const c_void"@),
        tav("EGLNativeDisplayType"@, "*const c_void"@),
    ]
}

/// The alias table applicable to a namespace.
pub open spec fn spec_aliases_for(ns: Ns) -> Seq<TypeAliasV> {
    match ns {
        Ns::Gl | Ns::Gles1 | Ns::Gles2 => spec_gl_aliases(),
        Ns::Glx => spec_x_aliases() + spec_glx_aliases(),
        Ns::Wgl => spec_win_aliases() + spec_wgl_aliases(),
        Ns::Egl => spec_egl_aliases(),
    }
}

/// Builds the alias table applicable to a namespace.
pub fn aliases_for(ns: Ns) -> (r: Vec<TypeAlias>)
    ensures
        aliases_view(r@) == spec_aliases_for(ns),
{
    let mut v: Vec<TypeAlias> = Vec::new();
    proof {
        assert(aliases_view(v@) =~= Seq::<TypeAliasV>::empty());
    }
    match ns {
        Ns::Gl | Ns::Gles1 | Ns::Gles2 => {
            push_alias(&mut v, "GLenum", "c_uint");
            push_alias(&mut v, "GLboolean", "c_uchar");
            push_alias(&mut v, "GLbitfield", "c_uint");
            push_alias(&mut v, "GLvoid", "c_void");
            push_alias(&mut v, "GLbyte", "c_schar");
            push_alias(&mut v, "GLshort", "c_short");
            push_alias(&mut v, "GLint", "c_int");
            push_alias(&mut v, "GLclampx", "c_int");
            push_alias(&mut v, "GLubyte", "c_uchar");
            push_alias(&mut v, "GLushort", "c_ushort");
            push_alias(&mut v, "GLuint", "c_uint");
            push_alias(&mut v, "GLsizei", "c_int");
            push_alias(&mut v, "GLfloat", "c_float");
            push_alias(&mut v, "GLclampf", "c_float");
            push_alias(&mut v, "GLdouble", "c_double");
            push_alias(&mut v, "GLclampd", "c_double");
            push_alias(&mut v, "GLchar", "c_char");
            push_alias(&mut v, "GLintptr", "isize");
            push_alias(&mut v, "GLsizeiptr", "isize");
            push_alias(&mut v, "GLint64", "i64");
            push_alias(&mut v, "GLuint64", "u64");
            push_alias(&mut v, "GLsync", "*const c_void");
            push_alias(&mut v, "GLfixed", "i32");
            push_alias(&mut v, "GLhalf", "u16");
            push_alias(&mut v, "GLDEBUGPROC", "*const c_void");
            push_alias(&mut v, "GLeglImageOES", "*const c_void");
            proof {
                assert(aliases_view(v@) =~= spec_aliases_for(ns));
            }
        },
        Ns::Glx => {
            push_alias(&mut v, "XID", "c_ulong");
            push_alias(&mut v, "Bool", "c_int");
            push_alias(&mut v, "GLXFBConfigID", "XID");
            push_alias(&mut v, "GLXFBConfig", "*const c_void");
            push_alias(&mut v, "GLXContextID", "XID");
            push_alias(&mut v, "GLXContext", "*const c_void");
            push_alias(&mut v, "GLXPixmap", "XID");
            push_alias(&mut v, "GLXDrawable", "XID");
            push_alias(&mut v, "GLXWindow", "XID");
            push_alias(&mut v, "GLXPbuffer", "XID");
            proof {
                assert(aliases_view(v@) =~= spec_aliases_for(ns));
            }
        },
        Ns::Wgl => {
            push_alias(&mut v, "BOOL", "c_int");
            push_alias(&mut v, "BYTE", "c_uchar");
            push_alias(&mut v, "DWORD", "c_ulong");
            push_alias(&mut v, "FLOAT", "c_float");
            push_alias(&mut v, "INT", "c_int");
            push_alias(&mut v, "UINT", "c_uint");
            push_alias(&mut v, "WORD", "c_ushort");
            push_alias(&mut v, "HDC", "*const c_void");
            push_alias(&mut v, "HGLRC", "*const c_void");
            push_alias(&mut v, "HWND", "*const c_void");
            push_alias(&mut v, "PROC", "*const c_void");
            push_alias(&mut v, "HPBUFFERARB", "*const c_void");
            push_alias(&mut v, "HPBUFFEREXT", "*const c_void");
            push_alias(&mut v, "HGPUNV", "*const c_void");
            push_alias(&mut v, "HVIDEOOUTPUTDEVICENV", "*const c_void");
            proof {
                assert(aliases_view(v@) =~= spec_aliases_for(ns));
            }
        },
        Ns::Egl => {
            push_alias(&mut v, "EGLBoolean", "c_uint");
            push_alias(&mut v, "EGLenum", "c_uint");
            push_alias(&mut v, "EGLint", "i32");
            push_alias(&mut v, "EGLDisplay", "*const c_void");
            push_alias(&mut v, "EGLConfig", "*const c_void");
            push_alias(&mut v, "EGLContext", "*const c_void");
            push_alias(&mut v, "EGLSurface", "*const c_void");
            push_alias(&mut v, "EGLNativeDisplayType", "*const c_void");
            proof {
                assert(aliases_view(v@) =~= spec_aliases_for(ns));
            }
        },
    }
    v
}

impl Registry {
    /// The type aliases applicable to this registry's namespace.
    pub fn type_aliases(&self) -> (r: Vec<TypeAlias>)
        ensures
            aliases_view(r@) == spec_aliases_for(self.ns),
    {
        aliases_for(self.ns)
    }
}

} // verus!
