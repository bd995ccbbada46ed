//! Which identifiers a type expression may use as generic type or region
//! parameters.
//!
//! A single-segment path without a leading `::` might name a parameter, so its
//! identifier is collected; a longer path cannot, so only its generic arguments
//! are searched. Declared parameters contribute their own names. The result may
//! hold names of ordinary types as well: callers intersect it with the declared
//! parameters.

use vstd::prelude::*;
use crate::ident_set::IdentSet;
use crate::syntax::{
    Expr, GenericArgument, Lifetime, LifetimeDef, Path, PathArguments, PathSegment, Type,
    TypeBareFn, TypeParam, TypeParamBound, WherePredicate,
};

verus! {

broadcast use {vstd::std_specs::vec::group_vec_axioms, vstd::seq::group_seq_axioms};

pub open spec fn lifetime_idents(l: Lifetime) -> Set<Seq<char>> {
    set![l.ident@]
}

pub open spec fn opt_type_idents(t: Option<Box<Type>>) -> Set<Seq<char>>
    decreases t,
{
    match t {
        Some(b) => type_idents(*b),
        None => Set::empty(),
    }
}

pub open spec fn type_idents(t: Type) -> Set<Seq<char>>
    decreases t,
{
    match t {
        Type::Path { qself, path } => opt_type_idents(qself).union(path_idents(path)),
        Type::Slice(elem) => type_idents(*elem),
        Type::Paren(elem) => type_idents(*elem),
        Type::Ptr(elem) => type_idents(*elem),
        Type::Reference { lifetime, elem } => match lifetime {
            Some(l) => lifetime_idents(l).union(type_idents(*elem)),
            None => type_idents(*elem),
        },
        Type::Tuple(elems) => types_idents(elems@),
        Type::BareFn(f) => bare_fn_idents(f),
        Type::Array { elem, len } => type_idents(*elem),
        Type::Never | Type::Macro | Type::TraitObject | Type::ImplTrait | Type::Infer => Set::empty(),
    }
}

pub open spec fn types_idents(s: Seq<Type>) -> Set<Seq<char>>
    decreases s,
{
    if s.len() == 0 {
        Set::empty()
    } else {
        types_idents(s.drop_last()).union(type_idents(s.last()))
    }
}

pub open spec fn bare_fn_idents(f: TypeBareFn) -> Set<Seq<char>>
    decreases f,
{
    types_idents(f.inputs@).union(opt_type_idents(f.output))
}

/// What a path itself may name: its identifier, when it is a single segment
/// without a leading `::`.
pub open spec fn path_head_idents(p: Path) -> Set<Seq<char>> {
    if p.segments@.len() == 1 && !p.global {
        set![p.segments@[0].ident@]
    } else {
        Set::empty()
    }
}

pub open spec fn path_idents(p: Path) -> Set<Seq<char>>
    decreases p,
{
    path_head_idents(p).union(segments_idents(p.segments@))
}

/// What the generic arguments of a sequence of path segments may name.
pub open spec fn segments_idents(s: Seq<PathSegment>) -> Set<Seq<char>>
    decreases s,
{
    if s.len() == 0 {
        Set::empty()
    } else {
        segments_idents(s.drop_last()).union(path_arguments_idents(s.last().arguments))
    }
}

pub open spec fn path_arguments_idents(a: PathArguments) -> Set<Seq<char>>
    decreases a,
{
    match a {
        PathArguments::Empty => Set::empty(),
        PathArguments::AngleBracketed(args) => generic_args_idents(args@),
        PathArguments::Parenthesized { inputs, output } => types_idents(inputs@).union(
            opt_type_idents(output),
        ),
    }
}

pub open spec fn generic_arg_idents(a: GenericArgument) -> Set<Seq<char>>
    decreases a,
{
    match a {
        GenericArgument::Lifetime(l) => lifetime_idents(l),
        GenericArgument::Type(t) => type_idents(t),
        GenericArgument::Binding { ident, ty } => type_idents(ty),
        GenericArgument::Const(e) => Set::empty(),
    }
}

pub open spec fn generic_args_idents(s: Seq<GenericArgument>) -> Set<Seq<char>>
    decreases s,
{
    if s.len() == 0 {
        Set::empty()
    } else {
        generic_args_idents(s.drop_last()).union(generic_arg_idents(s.last()))
    }
}

pub open spec fn expr_idents(e: Expr) -> Set<Seq<char>>
    decreases e,
{
    match e {
        Expr::Call { func, args } => expr_idents(*func).union(exprs_idents(args@)),
        Expr::Binary { left, right } => expr_idents(*left).union(expr_idents(*right)),
        Expr::Index { expr, index } => expr_idents(*expr).union(expr_idents(*index)),
        Expr::Unary(inner) => expr_idents(*inner),
        Expr::Paren(inner) => expr_idents(*inner),
        Expr::Cast { expr, ty } => type_idents(*ty).union(expr_idents(*expr)),
        Expr::Path(p) => path_idents(p),
        Expr::Lit => Set::empty(),
    }
}

pub open spec fn exprs_idents(s: Seq<Expr>) -> Set<Seq<char>>
    decreases s,
{
    if s.len() == 0 {
        Set::empty()
    } else {
        exprs_idents(s.drop_last()).union(expr_idents(s.last()))
    }
}

pub open spec fn lifetimes_idents(s: Seq<Lifetime>) -> Set<Seq<char>>
    decreases s.len(),
{
    if s.len() == 0 {
        Set::empty()
    } else {
        lifetimes_idents(s.drop_last()).union(lifetime_idents(s.last()))
    }
}

pub open spec fn lifetime_def_idents(d: LifetimeDef) -> Set<Seq<char>> {
    lifetimes_idents(d.bounds@).union(lifetime_idents(d.lifetime))
}

pub open spec fn lifetime_defs_idents(s: Seq<LifetimeDef>) -> Set<Seq<char>>
    decreases s.len(),
{
    if s.len() == 0 {
        Set::empty()
    } else {
        lifetime_defs_idents(s.drop_last()).union(lifetime_def_idents(s.last()))
    }
}

pub open spec fn bound_idents(b: TypeParamBound) -> Set<Seq<char>>
    decreases b,
{
    match b {
        TypeParamBound::Trait { lifetimes, path } => lifetime_defs_idents(lifetimes@).union(
            path_idents(path),
        ),
        TypeParamBound::Lifetime(l) => lifetime_idents(l),
    }
}

pub open spec fn bounds_idents(s: Seq<TypeParamBound>) -> Set<Seq<char>>
    decreases s,
{
    if s.len() == 0 {
        Set::empty()
    } else {
        bounds_idents(s.drop_last()).union(bound_idents(s.last()))
    }
}

pub open spec fn type_param_idents(p: TypeParam) -> Set<Seq<char>> {
    let default = match p.default {
        Some(t) => type_idents(t),
        None => Set::empty(),
    };
    default.union(bounds_idents(p.bounds@)).insert(p.ident@)
}

pub open spec fn where_predicate_idents(w: WherePredicate) -> Set<Seq<char>> {
    match w {
        WherePredicate::Type { lifetimes, bounded_ty, bounds } => lifetime_defs_idents(
            lifetimes@,
        ).union(bounds_idents(bounds@)).union(type_idents(bounded_ty)),
        WherePredicate::Lifetime { lifetime, bounds } => lifetimes_idents(bounds@).union(
            lifetime_idents(lifetime),
        ),
        WherePredicate::Eq { lhs_ty, rhs_ty } => type_idents(lhs_ty).union(type_idents(rhs_ty)),
    }
}

/// Collects the identifiers that could be generic type or region parameters.
pub trait CollectIdents {
    /// The identifiers that this node may use as parameters.
    spec fn idents(&self) -> Set<Seq<char>>;

    /// Adds to `idents` every identifier that this node may use as a generic
    /// type or region parameter.
    fn collect_idents(&self, idents: &mut IdentSet)
        requires
            old(idents).wf(),
        ensures
            final(idents).wf(),
            final(idents)@ == old(idents)@.union(self.idents()),
    ;
}

// Each helper below adds what the items of a sequence may name.

fn collect_types(items: &Vec<Type>, idents: &mut IdentSet)
    requires
        old(idents).wf(),
    ensures
        final(idents).wf(),
        final(idents)@ == old(idents)@.union(types_idents(items@)),
        decreases items,
{
    let mut i: usize = 0;
    while i < items.len()
        invariant
            0 <= i <= items.len(),
            idents.wf(),
            idents@ == old(idents)@.union(types_idents(items@.subrange(0, i as int))),
        decreases items.len() - i,
    {
        proof {
            assert(decreases_to!(items => items[i as int]));
        }
        items[i].collect_idents(idents);
        proof {
            let next = items@.subrange(0, i + 1);
            assert(next.drop_last() =~= items@.subrange(0, i as int));
            assert(idents@ =~= old(idents)@.union(types_idents(next)));
        }
        i += 1;
    }
    assert(items@.subrange(0, items.len() as int) =~= items@);
}

fn collect_segments(items: &Vec<PathSegment>, idents: &mut IdentSet)
    requires
        old(idents).wf(),
    ensures
        final(idents).wf(),
        final(idents)@ == old(idents)@.union(segments_idents(items@)),
        decreases items,
{
    let mut i: usize = 0;
    while i < items.len()
        invariant
            0 <= i <= items.len(),
            idents.wf(),
            idents@ == old(idents)@.union(segments_idents(items@.subrange(0, i as int))),
        decreases items.len() - i,
    {
        proof {
            assert(decreases_to!(items => items[i as int]));
        }
        items[i].arguments.collect_idents(idents);
        proof {
            let next = items@.subrange(0, i + 1);
            assert(next.drop_last() =~= items@.subrange(0, i as int));
            assert(idents@ =~= old(idents)@.union(segments_idents(next)));
        }
        i += 1;
    }
    assert(items@.subrange(0, items.len() as int) =~= items@);
}

fn collect_generic_args(items: &Vec<GenericArgument>, idents: &mut IdentSet)
    requires
        old(idents).wf(),
    ensures
        final(idents).wf(),
        final(idents)@ == old(idents)@.union(generic_args_idents(items@)),
        decreases items,
{
    let mut i: usize = 0;
    while i < items.len()
        invariant
            0 <= i <= items.len(),
            idents.wf(),
            idents@ == old(idents)@.union(generic_args_idents(items@.subrange(0, i as int))),
        decreases items.len() - i,
    {
        proof {
            assert(decreases_to!(items => items[i as int]));
        }
        items[i].collect_idents(idents);
        proof {
            let next = items@.subrange(0, i + 1);
            assert(next.drop_last() =~= items@.subrange(0, i as int));
            assert(idents@ =~= old(idents)@.union(generic_args_idents(next)));
        }
        i += 1;
    }
    assert(items@.subrange(0, items.len() as int) =~= items@);
}

fn collect_exprs(items: &Vec<Expr>, idents: &mut IdentSet)
    requires
        old(idents).wf(),
    ensures
        final(idents).wf(),
        final(idents)@ == old(idents)@.union(exprs_idents(items@)),
        decreases items,
{
    let mut i: usize = 0;
    while i < items.len()
        invariant
            0 <= i <= items.len(),
            idents.wf(),
            idents@ == old(idents)@.union(exprs_idents(items@.subrange(0, i as int))),
        decreases items.len() - i,
    {
        proof {
            assert(decreases_to!(items => items[i as int]));
        }
        items[i].collect_idents(idents);
        proof {
            let next = items@.subrange(0, i + 1);
            assert(next.drop_last() =~= items@.subrange(0, i as int));
            assert(idents@ =~= old(idents)@.union(exprs_idents(next)));
        }
        i += 1;
    }
    assert(items@.subrange(0, items.len() as int) =~= items@);
}

fn collect_bounds(items: &Vec<TypeParamBound>, idents: &mut IdentSet)
    requires
        old(idents).wf(),
    ensures
        final(idents).wf(),
        final(idents)@ == old(idents)@.union(bounds_idents(items@)),
        decreases items,
{
    let mut i: usize = 0;
    while i < items.len()
        invariant
            0 <= i <= items.len(),
            idents.wf(),
            idents@ == old(idents)@.union(bounds_idents(items@.subrange(0, i as int))),
        decreases items.len() - i,
    {
        proof {
            assert(decreases_to!(items => items[i as int]));
        }
        items[i].collect_idents(idents);
        proof {
            let next = items@.subrange(0, i + 1);
            assert(next.drop_last() =~= items@.subrange(0, i as int));
            assert(idents@ =~= old(idents)@.union(bounds_idents(next)));
        }
        i += 1;
    }
    assert(items@.subrange(0, items.len() as int) =~= items@);
}

fn collect_lifetimes(items: &Vec<Lifetime>, idents: &mut IdentSet)
    requires
        old(idents).wf(),
    ensures
        final(idents).wf(),
        final(idents)@ == old(idents)@.union(lifetimes_idents(items@)),
{
    let mut i: usize = 0;
    while i < items.len()
        invariant
            0 <= i <= items.len(),
            idents.wf(),
            idents@ == old(idents)@.union(lifetimes_idents(items@.subrange(0, i as int))),
        decreases items.len() - i,
    {
        items[i].collect_idents(idents);
        proof {
            let next = items@.subrange(0, i + 1);
            assert(next.drop_last() =~= items@.subrange(0, i as int));
            assert(idents@ =~= old(idents)@.union(lifetimes_idents(next)));
        }
        i += 1;
    }
    assert(items@.subrange(0, items.len() as int) =~= items@);
}

fn collect_lifetime_defs(items: &Vec<LifetimeDef>, idents: &mut IdentSet)
    requires
        old(idents).wf(),
    ensures
        final(idents).wf(),
        final(idents)@ == old(idents)@.union(lifetime_defs_idents(items@)),
{
    let mut i: usize = 0;
    while i < items.len()
        invariant
            0 <= i <= items.len(),
            idents.wf(),
            idents@ == old(idents)@.union(lifetime_defs_idents(items@.subrange(0, i as int))),
        decreases items.len() - i,
    {
        items[i].collect_idents(idents);
        proof {
            let next = items@.subrange(0, i + 1);
            assert(next.drop_last() =~= items@.subrange(0, i as int));
            assert(idents@ =~= old(idents)@.union(lifetime_defs_idents(next)));
        }
        i += 1;
    }
    assert(items@.subrange(0, items.len() as int) =~= items@);
}

fn collect_opt_type(t: &Option<Box<Type>>, idents: &mut IdentSet)
    requires
        old(idents).wf(),
    ensures
        final(idents).wf(),
        final(idents)@ == old(idents)@.union(opt_type_idents(*t)),
    decreases t,
{
    match t {
        Some(b) => b.collect_idents(idents),
        None => {
            assert(idents@ =~= old(idents)@.union(Set::empty()));
        },
    }
}

impl CollectIdents for Lifetime {
    open spec fn idents(&self) -> Set<Seq<char>> {
        lifetime_idents(*self)
    }

    /// Adds the region's own name.
    fn collect_idents(&self, idents: &mut IdentSet)
    {
        idents.insert(self.ident.clone());
        assert(idents@ =~= old(idents)@.union(lifetime_idents(*self)));
    }
}

impl CollectIdents for Type {
    open spec fn idents(&self) -> Set<Seq<char>> {
        type_idents(*self)
    }

    /// Adds every identifier that this type may use as a generic type or
    /// region parameter.
    fn collect_idents(&self, idents: &mut IdentSet)
        decreases self,
    {
        match self {
            Type::Path { qself, path } => {
                collect_opt_type(qself, idents);
                path.collect_idents(idents);
                assert(idents@ =~= old(idents)@.union(type_idents(*self)));
            },
            Type::Slice(elem) => elem.collect_idents(idents),
            Type::Paren(elem) => elem.collect_idents(idents),
            Type::Ptr(elem) => elem.collect_idents(idents),
            Type::Reference { lifetime, elem } => {
                if let Some(l) = lifetime {
                    l.collect_idents(idents);
                }
                elem.collect_idents(idents);
                assert(idents@ =~= old(idents)@.union(type_idents(*self)));
            },
            Type::Tuple(elems) => collect_types(elems, idents),
            Type::BareFn(f) => f.collect_idents(idents),
            Type::Array { elem, len } => elem.collect_idents(idents),
            Type::Never | Type::Macro | Type::TraitObject | Type::ImplTrait | Type::Infer => {
                assert(idents@ =~= old(idents)@.union(type_idents(*self)));
            },
        }
    }
}

impl CollectIdents for TypeBareFn {
    open spec fn idents(&self) -> Set<Seq<char>> {
        bare_fn_idents(*self)
    }

    fn collect_idents(&self, idents: &mut IdentSet)
        decreases self,
    {
        collect_types(&self.inputs, idents);
        collect_opt_type(&self.output, idents);
        assert(idents@ =~= old(idents)@.union(bare_fn_idents(*self)));
    }
}

impl CollectIdents for Path {
    open spec fn idents(&self) -> Set<Seq<char>> {
        path_idents(*self)
    }

    /// Adds the path's own identifier when it is a single segment without a
    /// leading `::`, and what its generic arguments may name.
    fn collect_idents(&self, idents: &mut IdentSet)
        decreases self,
    {
        if self.segments.len() == 1 && !self.global {
            idents.insert(self.segments[0].ident.clone());
        }
        assert(idents@ =~= old(idents)@.union(path_head_idents(*self)));
        collect_segments(&self.segments, idents);
        assert(idents@ =~= old(idents)@.union(path_idents(*self)));
    }
}

impl CollectIdents for PathArguments {
    open spec fn idents(&self) -> Set<Seq<char>> {
        path_arguments_idents(*self)
    }

    fn collect_idents(&self, idents: &mut IdentSet)
        decreases self,
    {
        match self {
            PathArguments::Empty => {
                assert(idents@ =~= old(idents)@.union(path_arguments_idents(*self)));
            },
            PathArguments::AngleBracketed(args) => collect_generic_args(args, idents),
            PathArguments::Parenthesized { inputs, output } => {
                collect_types(inputs, idents);
                collect_opt_type(output, idents);
                assert(idents@ =~= old(idents)@.union(path_arguments_idents(*self)));
            },
        }
    }
}

impl CollectIdents for GenericArgument {
    open spec fn idents(&self) -> Set<Seq<char>> {
        generic_arg_idents(*self)
    }

    /// Const arguments are not searched.
    fn collect_idents(&self, idents: &mut IdentSet)
        decreases self,
    {
        match self {
            GenericArgument::Lifetime(l) => l.collect_idents(idents),
            GenericArgument::Type(t) => t.collect_idents(idents),
            GenericArgument::Binding { ident, ty } => ty.collect_idents(idents),
            GenericArgument::Const(e) => {
                assert(idents@ =~= old(idents)@.union(generic_arg_idents(*self)));
            },
        }
    }
}

impl CollectIdents for Expr {
    open spec fn idents(&self) -> Set<Seq<char>> {
        expr_idents(*self)
    }

    fn collect_idents(&self, idents: &mut IdentSet)
        decreases self,
    {
        match self {
            Expr::Call { func, args } => {
                func.collect_idents(idents);
                collect_exprs(args, idents);
                assert(idents@ =~= old(idents)@.union(expr_idents(*self)));
            },
            Expr::Binary { left, right } => {
                left.collect_idents(idents);
                right.collect_idents(idents);
                assert(idents@ =~= old(idents)@.union(expr_idents(*self)));
            },
            Expr::Index { expr, index } => {
                expr.collect_idents(idents);
                index.collect_idents(idents);
                assert(idents@ =~= old(idents)@.union(expr_idents(*self)));
            },
            Expr::Unary(inner) => inner.collect_idents(idents),
            Expr::Paren(inner) => inner.collect_idents(idents),
            Expr::Cast { expr, ty } => {
                ty.collect_idents(idents);
                expr.collect_idents(idents);
                assert(idents@ =~= old(idents)@.union(expr_idents(*self)));
            },
            Expr::Path(p) => p.collect_idents(idents),
            Expr::Lit => {
                assert(idents@ =~= old(idents)@.union(expr_idents(*self)));
            },
        }
    }
}

impl CollectIdents for TypeParamBound {
    open spec fn idents(&self) -> Set<Seq<char>> {
        bound_idents(*self)
    }

    fn collect_idents(&self, idents: &mut IdentSet)
        decreases self,
    {
        match self {
            TypeParamBound::Trait { lifetimes, path } => {
                collect_lifetime_defs(lifetimes, idents);
                path.collect_idents(idents);
                assert(idents@ =~= old(idents)@.union(bound_idents(*self)));
            },
            TypeParamBound::Lifetime(l) => l.collect_idents(idents),
        }
    }
}

impl CollectIdents for TypeParam {
    open spec fn idents(&self) -> Set<Seq<char>> {
        type_param_idents(*self)
    }

    /// Adds the parameter's own name, and what its default and bounds may name.
    fn collect_idents(&self, idents: &mut IdentSet)
    {
        if let Some(default) = &self.default {
            default.collect_idents(idents);
        }
        collect_bounds(&self.bounds, idents);
        idents.insert(self.ident.clone());
        assert(idents@ =~= old(idents)@.union(type_param_idents(*self)));
    }
}

impl CollectIdents for LifetimeDef {
    open spec fn idents(&self) -> Set<Seq<char>> {
        lifetime_def_idents(*self)
    }

    /// Adds the region's own name and the names of its bounds.
    fn collect_idents(&self, idents: &mut IdentSet)
    {
        collect_lifetimes(&self.bounds, idents);
        self.lifetime.collect_idents(idents);
        assert(idents@ =~= old(idents)@.union(lifetime_def_idents(*self)));
    }
}

impl CollectIdents for WherePredicate {
    open spec fn idents(&self) -> Set<Seq<char>> {
        where_predicate_idents(*self)
    }

    fn collect_idents(&self, idents: &mut IdentSet)
    {
        match self {
            WherePredicate::Type { lifetimes, bounded_ty, bounds } => {
                collect_lifetime_defs(lifetimes, idents);
                collect_bounds(bounds, idents);
                bounded_ty.collect_idents(idents);
            },
            WherePredicate::Lifetime { lifetime, bounds } => {
                collect_lifetimes(bounds, idents);
                lifetime.collect_idents(idents);
            },
            WherePredicate::Eq { lhs_ty, rhs_ty } => {
                lhs_ty.collect_idents(idents);
                rhs_ty.collect_idents(idents);
            },
        }
        assert(idents@ =~= old(idents)@.union(where_predicate_idents(*self)));
    }
}

/// A bare path type `T` (one segment, no leading `::`, no generic arguments,
/// no qualified self) names exactly `T`.
pub proof fn lemma_bare_name(t: Type)
    requires
        t is Path,
        t->qself is None,
        !t->path.global,
        t->path.segments@.len() == 1,
        t->path.segments@[0].arguments is Empty,
    ensures
        type_idents(t) == set![t->path.segments@[0].ident@],
{
    let s = t->path.segments@;
    assert(s.drop_last().len() == 0);
    assert(s.last() == s[0]);
    assert(segments_idents(s.drop_last()) == Set::<Seq<char>>::empty());
    assert(path_arguments_idents(s.last().arguments) == Set::<Seq<char>>::empty());
    assert(segments_idents(s) =~= Set::empty());
    assert(path_idents(t->path) =~= set![s[0].ident@]);
    assert(opt_type_idents(t->qself) == Set::<Seq<char>>::empty());
    assert(type_idents(t) =~= set![s[0].ident@]);
}

proof fn lemma_types_idents_contains(s: Seq<Type>, i: int)
    requires
        0 <= i < s.len(),
    ensures
        type_idents(s[i]).subset_of(types_idents(s)),
    decreases s.len(),
{
    if i < s.len() - 1 {
        lemma_types_idents_contains(s.drop_last(), i);
        assert(s.drop_last()[i] == s[i]);
    }
}

/// A slice, parenthesised, pointer or array type names what its element type
/// names; a reference names what its referent names, and its region if it has
/// one; a tuple names what each of its element types names.
pub proof fn lemma_composite_includes_elem(t: Type)
    ensures
        t is Slice ==> type_idents(t) == type_idents(*t->Slice_0),
        t is Paren ==> type_idents(t) == type_idents(*t->Paren_0),
        t is Ptr ==> type_idents(t) == type_idents(*t->Ptr_0),
        t is Array ==> type_idents(t) == type_idents(*t->Array_elem),
        t is Reference ==> type_idents(*t->Reference_elem).subset_of(type_idents(t)),
        t is Reference && t->lifetime is Some ==> type_idents(t).contains(
            t->lifetime->0.ident@,
        ),
        t is Tuple ==> forall|i: int|
            0 <= i < t->Tuple_0@.len() ==> #[trigger] type_idents(t->Tuple_0@[i]).subset_of(
                type_idents(t),
            ),
{
    if let Type::Tuple(elems) = t {
        assert forall|i: int| 0 <= i < elems@.len() implies #[trigger] type_idents(
            elems@[i],
        ).subset_of(type_idents(t)) by {
            lemma_types_idents_contains(elems@, i);
        }
    }
}

/// A tuple of two types names exactly what the two name.
pub proof fn lemma_pair_idents(t: Type)
    requires
        t is Tuple,
        t->Tuple_0@.len() == 2,
    ensures
        type_idents(t) == type_idents(t->Tuple_0@[0]).union(type_idents(t->Tuple_0@[1])),
{
    let s = t->Tuple_0@;
    assert(s.drop_last().drop_last().len() == 0);
    assert(s.drop_last().last() == s[0]);
    assert(s.last() == s[1]);
    assert(types_idents(s.drop_last().drop_last()) == Set::<Seq<char>>::empty());
    assert(types_idents(s.drop_last()) =~= type_idents(s[0]));
    assert(type_idents(t) == types_idents(s));
}

/// A path of more than one segment, or one with a leading `::`, cannot itself
/// be a parameter: it names only what its generic arguments name.
pub proof fn lemma_qualified_path(p: Path)
    requires
        p.segments@.len() > 1 || p.global,
    ensures
        path_idents(p) == segments_idents(p.segments@),
{
    assert(path_idents(p) =~= segments_idents(p.segments@));
}

} // verus!
