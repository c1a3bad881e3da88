//! The structural shape of a record declaration, as a code generator sees it
//! before any name resolution.
use vstd::prelude::*;
use vstd::string::StringExecFns;

verus! {

/// One generic argument inside angle brackets.
pub enum GenericArg {
    /// A type argument (`T` in `Option<T>`).
    Type(TypeExpr),
    /// Any other argument: a lifetime, a constant, an associated binding.
    Other,
}

/// The arguments that follow a path segment.
pub enum PathArgs {
    /// No arguments (`Option`).
    Bare,
    /// Angle-bracketed arguments (`Option<T>`, `Map<K, V>`).
    AngleBracketed(Vec<GenericArg>),
    /// Parenthesised arguments (`Fn(A) -> B`).
    Parenthesized,
}

/// One segment of a path (`option` and `Option<T>` in `option::Option<T>`).
pub struct PathSegment {
    pub ident: String,
    pub args: PathArgs,
}

/// What a type is, as far as the optional-wrapper match looks.
pub enum TypeKind {
    /// A named path type, by its segments; a leading `::` or a
    /// qualified-self prefix is not recorded.
    Path(Vec<PathSegment>),
    /// Any other type: a reference, a tuple, an array, a slice.
    Other,
}

/// A type as written in a declaration: its source text, which the generator
/// copies into what it emits, and its structure.
pub struct TypeExpr {
    pub text: String,
    pub kind: TypeKind,
}

/// A named field of a record declaration.
pub struct Field {
    pub name: String,
    pub ty: TypeExpr,
}

/// The body of a declaration.
pub enum DeclBody {
    /// A record with named fields, in declaration order.
    Named(Vec<Field>),
    /// A struct with positional fields.
    Tuple,
    /// A struct without fields.
    Unit,
    /// An enum.
    Enum,
    /// A union.
    Union,
}

/// A declaration handed to the generator: its name and its body.
pub struct Declaration {
    pub name: String,
    pub body: DeclBody,
}

/// The identifier of the optional wrapper, matched by name only.
pub open spec fn wrapper_name() -> Seq<char> {
    seq!['O', 'p', 't', 'i', 'o', 'n']
}

/// The inner type of `ty` when `ty` is structurally a single-argument optional
/// wrapper: a path of one segment named `Option`, carrying exactly one
/// angle-bracketed argument, and that argument a type.
pub open spec fn inner_type_of(ty: TypeExpr) -> Option<TypeExpr> {
    match ty.kind {
        TypeKind::Path(segments) => {
            if segments@.len() == 1 && segments@[0].ident@ == wrapper_name() {
                match segments@[0].args {
                    PathArgs::AngleBracketed(args) => {
                        if args@.len() == 1 {
                            match args@[0] {
                                GenericArg::Type(t) => Some(t),
                                GenericArg::Other => None,
                            }
                        } else {
                            None
                        }
                    },
                    _ => None,
                }
            } else {
                None
            }
        },
        TypeKind::Other => None,
    }
}

/// Whether `ty` is structurally an optional wrapper.
pub open spec fn is_wrapper(ty: TypeExpr) -> bool {
    inner_type_of(ty) is Some
}

fn is_wrapper_ident(ident: &String) -> (r: bool)
    ensures
        r == (ident@ == wrapper_name()),
{
    let name = String::from_str("Option");
    proof {
        reveal_strlit("Option");
    }
    assert(name@ =~= wrapper_name());
    ident.eq(&name)
}

/// The type wrapped by `ty` when `ty` has the optional-wrapper shape.
///
/// The match is by name and arity only: an alias or a re-export of the
/// wrapper under another name, or a path of more than one segment
/// (`std::option::Option<T>`), is not recognised.
pub fn ty_inner_type(ty: &TypeExpr) -> (r: Option<&TypeExpr>)
    ensures
        r == match inner_type_of(*ty) {
            Some(t) => Some(&t),
            None => None::<&TypeExpr>,
        },
{
    match &ty.kind {
        TypeKind::Path(segments) => {
            if segments.len() != 1 || !is_wrapper_ident(&segments[0].ident) {
                return None;
            }
            match &segments[0].args {
                PathArgs::AngleBracketed(args) => {
                    if args.len() != 1 {
                        return None;
                    }
                    match &args[0] {
                        GenericArg::Type(t) => Some(t),
                        GenericArg::Other => None,
                    }
                },
                _ => None,
            }
        },
        TypeKind::Other => None,
    }
}

/// The type of a field's slot in the builder: the declared type itself for
/// an optional wrapper (no double wrapping), else `Option` of the declared type.
pub open spec fn slot_type_text(ty: TypeExpr) -> Seq<char> {
    if is_wrapper(ty) {
        ty.text@
    } else {
        "std::option::Option<"@ + ty.text@ + ">"@
    }
}

/// The parameter type of a field's setter: the inner type for an optional
/// wrapper, so that callers pass the bare value, else the declared type.
pub open spec fn setter_param_text(ty: TypeExpr) -> Seq<char> {
    match inner_type_of(ty) {
        Some(inner) => inner.text@,
        None => ty.text@,
    }
}

/// The source text of the builder slot type for a field of type `ty`.
pub fn slot_type(ty: &TypeExpr) -> (r: String)
    ensures
        r@ == slot_type_text(*ty),
{
    if ty_inner_type(ty).is_some() {
        ty.text.clone()
    } else {
        let mut r = String::from_str("std::option::Option<");
        r.append(ty.text.as_str());
        r.append(">");
        r
    }
}

/// The source text of the setter parameter type for a field of type `ty`.
pub fn setter_param_type(ty: &TypeExpr) -> (r: String)
    ensures
        r@ == setter_param_text(*ty),
{
    match ty_inner_type(ty) {
        Some(inner) => inner.text.clone(),
        None => ty.text.clone(),
    }
}

} // verus!
