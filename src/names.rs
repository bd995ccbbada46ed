//! Every identifier written in a type expression, and the proof that the
//! collected identifiers are among them.

use vstd::prelude::*;
use crate::collect::{
    bare_fn_idents, expr_idents, exprs_idents, generic_arg_idents, generic_args_idents, opt_type_idents, path_arguments_idents,
    path_idents, segments_idents, type_idents, types_idents,
};
use crate::syntax::{Expr, GenericArgument, Path, PathArguments, PathSegment, Type};

verus! {

broadcast use {vstd::std_specs::vec::group_vec_axioms, vstd::seq::group_seq_axioms};

pub open spec fn opt_type_names(t: Option<Box<Type>>) -> Set<Seq<char>>
    decreases t,
{
    match t {
        Some(b) => type_names(*b),
        None => Set::empty(),
    }
}

/// Every identifier written in `t`: path segments, regions, binding names, and
/// what the expressions inside it write.
pub open spec fn type_names(t: Type) -> Set<Seq<char>>
    decreases t,
{
    match t {
        Type::Path { qself, path } => opt_type_names(qself).union(path_names(path)),
        Type::Slice(elem) => type_names(*elem),
        Type::Paren(elem) => type_names(*elem),
        Type::Ptr(elem) => type_names(*elem),
        Type::Reference { lifetime, elem } => match lifetime {
            Some(l) => set![l.ident@].union(type_names(*elem)),
            None => type_names(*elem),
        },
        Type::Tuple(elems) => types_names(elems@),
        Type::BareFn(f) => types_names(f.inputs@).union(opt_type_names(f.output)),
        Type::Array { elem, len } => type_names(*elem).union(expr_names(len)),
        Type::Never | Type::Macro | Type::TraitObject | Type::ImplTrait | Type::Infer => Set::empty(),
    }
}

pub open spec fn types_names(s: Seq<Type>) -> Set<Seq<char>>
    decreases s,
{
    if s.len() == 0 {
        Set::empty()
    } else {
        types_names(s.drop_last()).union(type_names(s.last()))
    }
}

pub open spec fn path_names(p: Path) -> Set<Seq<char>>
    decreases p,
{
    segments_names(p.segments@)
}

pub open spec fn segments_names(s: Seq<PathSegment>) -> Set<Seq<char>>
    decreases s,
{
    if s.len() == 0 {
        Set::empty()
    } else {
        segments_names(s.drop_last()).insert(s.last().ident@).union(
            path_arguments_names(s.last().arguments),
        )
    }
}

pub open spec fn path_arguments_names(a: PathArguments) -> Set<Seq<char>>
    decreases a,
{
    match a {
        PathArguments::Empty => Set::empty(),
        PathArguments::AngleBracketed(args) => generic_args_names(args@),
        PathArguments::Parenthesized { inputs, output } => types_names(inputs@).union(
            opt_type_names(output),
        ),
    }
}

pub open spec fn generic_arg_names(a: GenericArgument) -> Set<Seq<char>>
    decreases a,
{
    match a {
        GenericArgument::Lifetime(l) => set![l.ident@],
        GenericArgument::Type(t) => type_names(t),
        GenericArgument::Binding { ident, ty } => type_names(ty).insert(ident@),
        GenericArgument::Const(e) => expr_names(e),
    }
}

pub open spec fn generic_args_names(s: Seq<GenericArgument>) -> Set<Seq<char>>
    decreases s,
{
    if s.len() == 0 {
        Set::empty()
    } else {
        generic_args_names(s.drop_last()).union(generic_arg_names(s.last()))
    }
}

pub open spec fn expr_names(e: Expr) -> Set<Seq<char>>
    decreases e,
{
    match e {
        Expr::Call { func, args } => expr_names(*func).union(exprs_names(args@)),
        Expr::Binary { left, right } => expr_names(*left).union(expr_names(*right)),
        Expr::Index { expr, index } => expr_names(*expr).union(expr_names(*index)),
        Expr::Unary(inner) => expr_names(*inner),
        Expr::Paren(inner) => expr_names(*inner),
        Expr::Cast { expr, ty } => type_names(*ty).union(expr_names(*expr)),
        Expr::Path(p) => path_names(p),
        Expr::Lit => Set::empty(),
    }
}

pub open spec fn exprs_names(s: Seq<Expr>) -> Set<Seq<char>>
    decreases s,
{
    if s.len() == 0 {
        Set::empty()
    } else {
        exprs_names(s.drop_last()).union(expr_names(s.last()))
    }
}

proof fn lemma_opt_type_sound(t: Option<Box<Type>>)
    ensures
        opt_type_idents(t).subset_of(opt_type_names(t)),
    decreases t,
{
    if let Some(b) = t {
        lemma_type_sound(*b);
    }
}

proof fn lemma_union_subset(a: Set<Seq<char>>, b: Set<Seq<char>>, c: Set<Seq<char>>, d: Set<Seq<char>>)
    requires
        a.subset_of(c),
        b.subset_of(d),
    ensures
        a.union(b).subset_of(c.union(d)),
{
}

/// For a type that writes only identifiers of `g`, every identifier that the
/// collector finds in it is in `g`.
pub proof fn lemma_idents_within(t: Type, g: Set<Seq<char>>)
    requires
        type_names(t).subset_of(g),
    ensures
        type_idents(t).subset_of(g),
{
    lemma_type_sound(t);
}

/// Every identifier that the collector finds in `t` is written in `t`.
pub proof fn lemma_type_sound(t: Type)
    ensures
        type_idents(t).subset_of(type_names(t)),
    decreases t,
{
    match t {
        Type::Path { qself, path } => {
            lemma_opt_type_sound(qself);
            lemma_path_sound(path);
            lemma_union_subset(
                opt_type_idents(qself),
                path_idents(path),
                opt_type_names(qself),
                path_names(path),
            );
        },
        Type::Slice(elem) => lemma_type_sound(*elem),
        Type::Paren(elem) => lemma_type_sound(*elem),
        Type::Ptr(elem) => lemma_type_sound(*elem),
        Type::Reference { lifetime, elem } => {
            lemma_type_sound(*elem);
            if let Some(l) = lifetime {
                lemma_union_subset(set![l.ident@], type_idents(*elem), set![l.ident@], type_names(*elem));
            }
        },
        Type::Tuple(elems) => lemma_types_sound(elems@),
        Type::BareFn(f) => {
            lemma_types_sound(f.inputs@);
            lemma_opt_type_sound(f.output);
            lemma_union_subset(
                types_idents(f.inputs@),
                opt_type_idents(f.output),
                types_names(f.inputs@),
                opt_type_names(f.output),
            );
            assert(bare_fn_idents(f) == types_idents(f.inputs@).union(opt_type_idents(f.output)));
        },
        Type::Array { elem, len } => {
            lemma_type_sound(*elem);
            lemma_union_subset(type_idents(*elem), Set::empty(), type_names(*elem), expr_names(len));
            assert(type_idents(*elem).union(Set::empty()) =~= type_idents(*elem));
        },
        _ => {},
    }
}

proof fn lemma_types_sound(s: Seq<Type>)
    ensures
        types_idents(s).subset_of(types_names(s)),
    decreases s,
{
    if s.len() > 0 {
        lemma_types_sound(s.drop_last());
        lemma_type_sound(s.last());
    }
}

/// Every identifier that the collector finds in `p` is written in `p`.
pub proof fn lemma_path_sound(p: Path)
    ensures
        path_idents(p).subset_of(path_names(p)),
    decreases p,
{
    let s = p.segments@;
    lemma_segments_sound(s);
    if s.len() == 1 {
        assert(s.drop_last().len() == 0);
        assert(s.last() == s[0]);
    }
}

proof fn lemma_segments_sound(s: Seq<PathSegment>)
    ensures
        segments_idents(s).subset_of(segments_names(s)),
    decreases s,
{
    if s.len() > 0 {
        lemma_segments_sound(s.drop_last());
        lemma_path_arguments_sound(s.last().arguments);
    }
}

proof fn lemma_path_arguments_sound(a: PathArguments)
    ensures
        path_arguments_idents(a).subset_of(path_arguments_names(a)),
    decreases a,
{
    match a {
        PathArguments::Empty => {},
        PathArguments::AngleBracketed(args) => lemma_generic_args_sound(args@),
        PathArguments::Parenthesized { inputs, output } => {
            lemma_types_sound(inputs@);
            lemma_opt_type_sound(output);
        },
    }
}

proof fn lemma_generic_args_sound(s: Seq<GenericArgument>)
    ensures
        generic_args_idents(s).subset_of(generic_args_names(s)),
    decreases s,
{
    if s.len() > 0 {
        lemma_generic_args_sound(s.drop_last());
        lemma_generic_arg_sound(s.last());
    }
}

proof fn lemma_generic_arg_sound(a: GenericArgument)
    ensures
        generic_arg_idents(a).subset_of(generic_arg_names(a)),
    decreases a,
{
    match a {
        GenericArgument::Lifetime(l) => {},
        GenericArgument::Type(t) => lemma_type_sound(t),
        GenericArgument::Binding { ident, ty } => lemma_type_sound(ty),
        GenericArgument::Const(e) => {},
    }
}

/// Every identifier that the collector finds in `e` is written in `e`.
pub proof fn lemma_expr_sound(e: Expr)
    ensures
        expr_idents(e).subset_of(expr_names(e)),
    decreases e,
{
    match e {
        Expr::Call { func, args } => {
            lemma_expr_sound(*func);
            lemma_exprs_sound(args@);
        },
        Expr::Binary { left, right } => {
            lemma_expr_sound(*left);
            lemma_expr_sound(*right);
        },
        Expr::Index { expr, index } => {
            lemma_expr_sound(*expr);
            lemma_expr_sound(*index);
        },
        Expr::Unary(inner) => lemma_expr_sound(*inner),
        Expr::Paren(inner) => lemma_expr_sound(*inner),
        Expr::Cast { expr, ty } => {
            lemma_type_sound(*ty);
            lemma_expr_sound(*expr);
        },
        Expr::Path(p) => lemma_path_sound(p),
        Expr::Lit => {},
    }
}

proof fn lemma_exprs_sound(s: Seq<Expr>)
    ensures
        exprs_idents(s).subset_of(exprs_names(s)),
    decreases s,
{
    if s.len() > 0 {
        lemma_exprs_sound(s.drop_last());
        lemma_expr_sound(s.last());
    }
}

} // verus!
