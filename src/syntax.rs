//! A closed grammar of type expressions, with the expressions, paths, generic
//! arguments, bounds and where-predicates that they may contain.

use vstd::prelude::*;

verus! {

/// A region (lifetime) such as `'a`; `ident` is the name without the quote.
pub struct Lifetime {
    pub ident: String,
}

/// A type expression.
pub enum Type {
    /// `T`, `a::b::C<T>`, or `<Q as Trait>::Item` with `qself` set to `Q`.
    Path { qself: Option<Box<Type>>, path: Path },
    /// `[T]`
    Slice(Box<Type>),
    /// `(T)`
    Paren(Box<Type>),
    /// `*const T` or `*mut T`
    Ptr(Box<Type>),
    /// `&'a T` or `&T`
    Reference { lifetime: Option<Lifetime>, elem: Box<Type> },
    /// `(T, U)`
    Tuple(Vec<Type>),
    /// `fn(T) -> U`
    BareFn(TypeBareFn),
    /// `[T; N]`; the length expression is not inspected.
    Array { elem: Box<Type>, len: Expr },
    /// `!`
    Never,
    /// A macro invocation in type position.
    Macro,
    /// `dyn Trait`
    TraitObject,
    /// `impl Trait`
    ImplTrait,
    /// `_`
    Infer,
}

/// A function-pointer type: its argument types and its return type, if any.
pub struct TypeBareFn {
    pub inputs: Vec<Type>,
    pub output: Option<Box<Type>>,
}

/// A path: its segments, and whether it starts with a leading `::`.
pub struct Path {
    pub global: bool,
    pub segments: Vec<PathSegment>,
}

pub struct PathSegment {
    pub ident: String,
    pub arguments: PathArguments,
}

/// What follows a path segment.
pub enum PathArguments {
    /// Nothing follows the segment.
    Empty,
    /// `<'a, T, Item = U, 3>`
    AngleBracketed(Vec<GenericArgument>),
    /// `(A, B) -> C`
    Parenthesized { inputs: Vec<Type>, output: Option<Box<Type>> },
}

pub enum GenericArgument {
    Lifetime(Lifetime),
    Type(Type),
    /// An associated-type binding `Item = T`.
    Binding { ident: String, ty: Type },
    /// A const argument; not inspected.
    Const(Expr),
}

/// An expression, as it may occur inside a type (an array length, a const
/// argument).
pub enum Expr {
    Call { func: Box<Expr>, args: Vec<Expr> },
    Binary { left: Box<Expr>, right: Box<Expr> },
    Index { expr: Box<Expr>, index: Box<Expr> },
    Unary(Box<Expr>),
    Paren(Box<Expr>),
    Cast { expr: Box<Expr>, ty: Box<Type> },
    Path(Path),
    Lit,
}

/// A bound on a type parameter.
pub enum TypeParamBound {
    /// `for<'a> Trait<..>`; `lifetimes` are those of the `for<..>`.
    Trait { lifetimes: Vec<LifetimeDef>, path: Path },
    Lifetime(Lifetime),
}

/// A declared type parameter `T: Bounds = Default`.
pub struct TypeParam {
    pub ident: String,
    pub bounds: Vec<TypeParamBound>,
    pub default: Option<Type>,
}

/// A declared region parameter `'a: 'b + 'c`.
pub struct LifetimeDef {
    pub lifetime: Lifetime,
    pub bounds: Vec<Lifetime>,
}

/// One predicate of a where-clause.
#[allow(inconsistent_fields)]
pub enum WherePredicate {
    /// `for<'a> T: Bounds`
    Type { lifetimes: Vec<LifetimeDef>, bounded_ty: Type, bounds: Vec<TypeParamBound> },
    /// `'a: 'b + 'c`
    Lifetime { lifetime: Lifetime, bounds: Vec<Lifetime> },
    /// `T = U`
    Eq { lhs_ty: Type, rhs_ty: Type },
}

} // verus!
