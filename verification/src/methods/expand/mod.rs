//! The expansions of a method, and what they share: the unified generic
//! parameters, the renaming of `Self`, the cleaning of patterns.

pub mod ext;
pub mod future_type;
pub mod impls;
pub mod poll;

pub use ext::{
    DynamicProvidedMethodImplExpand, ExtMethodExpand, MethodExtImplExpand,
    StaticProvidedMethodImplExpand,
};
pub use future_type::{FutureAliasExpand, FutureStructExpand};
pub use impls::ImplFutureExpand;
pub use poll::PollMethodExpand;

use crate::decl::{
    clone_predicates, FnArg, FnArgView, GenericParam, GenericParamView, Generics, GenericsView,
    InterfaceDeclaration, InterfaceView, MethodDeclaration, MethodView, ParamKind, Pattern,
    PatternView, WherePredicate, WherePredicateView,
};
use crate::diagnostics::Collector;
use crate::input::{trait_input, TraitInput};
use crate::names::same;
use crate::rewrite::{anonymous, is_anonymous, rename, rename_all, renamed, renamed_all};
use crate::syntax::{views, Node, NodeView};
use vstd::prelude::*;

verus! {

/// The name that stands for the implementing type in generated items.
pub open spec fn placeholder() -> Seq<char> {
    "__Self"@
}

/// The name of the lifetime that is made up for borrowed types that name none.
pub open spec fn default_lifetime() -> Seq<char> {
    "__default_lifetime"@
}

/// Whether a parameter borrows without naming a lifetime.
pub open spec fn arg_anonymous(a: FnArgView) -> bool {
    match a {
        FnArgView::Receiver { reference, lifetime, .. } => reference && lifetime is None,
        FnArgView::Typed { ty, .. } => anonymous(ty),
    }
}

/// Whether one of the parameters borrows without naming a lifetime.
pub open spec fn args_anonymous(s: Seq<FnArgView>) -> bool {
    exists|i: int| #![trigger s[i]] 0 <= i < s.len() && arg_anonymous(s[i])
}

/// Whether a parameter borrows without naming a lifetime.
pub fn is_arg_anonymous(a: &FnArg) -> (r: bool)
    ensures
        r == arg_anonymous(a@),
{
    match a {
        FnArg::Receiver { reference, lifetime, .. } => *reference && lifetime.is_none(),
        FnArg::Typed { ty, .. } => is_anonymous(ty),
    }
}

/// Whether one of the parameters borrows without naming a lifetime.
pub fn needs_default_lifetime(args: &Vec<FnArg>) -> (r: bool)
    ensures
        r == args_anonymous(views(args@)),
{
    let mut i: usize = 0;
    while i < args.len()
        invariant
            i <= args.len(),
            forall|j: int| 0 <= j < i ==> !arg_anonymous(#[trigger] args[j]@),
        decreases args.len() - i,
    {
        if is_arg_anonymous(&args[i]) {
            assert(arg_anonymous(views(args@)[i as int]));
            return true;
        }
        i += 1;
    }
    assert forall|j: int| #![trigger views(args@)[j]] 0 <= j < args.len() implies !arg_anonymous(
        views(args@)[j],
    ) by {
        assert(views(args@)[j] == args[j]@);
    }
    false
}

/// The parameters of one kind, in their order.
pub open spec fn of_kind(ps: Seq<GenericParamView>, kind: ParamKind) -> Seq<GenericParamView>
    decreases ps.len(),
{
    if ps.len() == 0 {
        Seq::empty()
    } else if ps.last().kind == kind {
        of_kind(ps.drop_last(), kind).push(ps.last())
    } else {
        of_kind(ps.drop_last(), kind)
    }
}

/// The parameters that are no lifetimes, in their order.
pub open spec fn not_lifetimes(ps: Seq<GenericParamView>) -> Seq<GenericParamView>
    decreases ps.len(),
{
    if ps.len() == 0 {
        Seq::empty()
    } else if ps.last().kind != ParamKind::Lifetime {
        not_lifetimes(ps.drop_last()).push(ps.last())
    } else {
        not_lifetimes(ps.drop_last())
    }
}

/// A parameter used as an argument: its name alone.
pub open spec fn param_arg(p: GenericParamView) -> NodeView {
    if p.kind == ParamKind::Lifetime {
        NodeView::lifetime(p.name)
    } else {
        NodeView::named(p.name, Seq::empty())
    }
}

/// Every parameter of the list as an argument.
pub open spec fn param_args(ps: Seq<GenericParamView>) -> Seq<NodeView> {
    Seq::new(ps.len(), |i: int| param_arg(ps[i]))
}

/// The arguments that name the parameters: lifetimes first, then the others.
pub open spec fn type_args(ps: Seq<GenericParamView>) -> Seq<NodeView> {
    param_args(of_kind(ps, ParamKind::Lifetime)) + param_args(not_lifetimes(ps))
}

/// Appends to `out` the parameters of `ps` that are of `kind`.
pub fn select(ps: &Vec<GenericParam>, kind: ParamKind, out: &mut Vec<GenericParam>)
    ensures
        views(final(out)@) == views(old(out)@) + of_kind(views(ps@), kind),
{
    let ghost start = views(out@);
    let ghost all = views(ps@);
    let mut i: usize = 0;
    assert(all.take(0) =~= Seq::empty());
    assert(views(out@) =~= start + Seq::empty());
    while i < ps.len()
        invariant
            i <= ps.len(),
            all == views(ps@),
            views(out@) == start + of_kind(all.take(i as int), kind),
        decreases ps.len() - i,
    {
        let ghost before = views(out@);
        assert(all.take(i + 1).drop_last() =~= all.take(i as int));
        assert(all.take(i + 1).last() == ps[i as int]@);
        if ps[i].kind == kind {
            out.push(ps[i].clone());
            assert(views(out@) =~= before.push(ps[i as int]@));
        }
        assert(views(out@) =~= start + of_kind(all.take(i + 1), kind));
        i += 1;
    }
    assert(all.take(ps.len() as int) =~= all);
}

/// Appends to `out` the parameters of `ps` that are no lifetimes.
pub fn select_others(ps: &Vec<GenericParam>, out: &mut Vec<GenericParam>)
    ensures
        views(final(out)@) == views(old(out)@) + not_lifetimes(views(ps@)),
{
    let ghost start = views(out@);
    let ghost all = views(ps@);
    let mut i: usize = 0;
    assert(all.take(0) =~= Seq::empty());
    assert(views(out@) =~= start + Seq::empty());
    while i < ps.len()
        invariant
            i <= ps.len(),
            all == views(ps@),
            views(out@) == start + not_lifetimes(all.take(i as int)),
        decreases ps.len() - i,
    {
        let ghost before = views(out@);
        assert(all.take(i + 1).drop_last() =~= all.take(i as int));
        assert(all.take(i + 1).last() == ps[i as int]@);
        if ps[i].kind != ParamKind::Lifetime {
            out.push(ps[i].clone());
            assert(views(out@) =~= before.push(ps[i as int]@));
        }
        assert(views(out@) =~= start + not_lifetimes(all.take(i + 1)));
        i += 1;
    }
    assert(all.take(ps.len() as int) =~= all);
}

/// Writes a parameter as an argument.
pub fn to_arg(p: &GenericParam) -> (r: Node)
    ensures
        r@ == param_arg(p@),
{
    if p.kind == ParamKind::Lifetime {
        Node::lifetime(p.name.as_str())
    } else {
        let none: Vec<Node> = Vec::new();
        assert(views(none@) =~= Seq::empty());
        Node::named(p.name.as_str(), &none)
    }
}

/// Writes every parameter of the list as an argument.
pub fn to_args(ps: &Vec<GenericParam>) -> (r: Vec<Node>)
    ensures
        views(r@) == param_args(views(ps@)),
{
    let mut out: Vec<Node> = Vec::new();
    let mut i: usize = 0;
    while i < ps.len()
        invariant
            i <= ps.len(),
            out.len() == i,
            forall|j: int| 0 <= j < i ==> out[j]@ == param_arg(ps[j]@),
        decreases ps.len() - i,
    {
        out.push(to_arg(&ps[i]));
        i += 1;
    }
    assert(views(out@) =~= param_args(views(ps@)));
    out
}

/// The arguments that name the parameters: lifetimes first, then the others.
pub fn type_generics(ps: &Vec<GenericParam>) -> (r: Vec<Node>)
    ensures
        views(r@) == type_args(views(ps@)),
{
    let mut ordered: Vec<GenericParam> = Vec::new();
    assert(views(ordered@) =~= Seq::empty());
    select(ps, ParamKind::Lifetime, &mut ordered);
    select_others(ps, &mut ordered);
    let r = to_args(&ordered);
    assert(views(r@) =~= type_args(views(ps@)));
    r
}

/// A parameter with every identifier `from` in its bounds and default
/// replaced by `to`.
pub open spec fn renamed_param(p: GenericParamView, from: Seq<char>, to: Seq<char>) -> GenericParamView {
    GenericParamView {
        kind: p.kind,
        name: p.name,
        bounds: renamed_all(p.bounds, from, to),
        default: renamed_all(p.default, from, to),
    }
}

/// Every parameter of the list renamed by [`renamed_param`].
pub open spec fn renamed_params(ps: Seq<GenericParamView>, from: Seq<char>, to: Seq<char>) -> Seq<
    GenericParamView,
> {
    Seq::new(ps.len(), |i: int| renamed_param(ps[i], from, to))
}

/// A predicate with every identifier `from` replaced by `to`.
pub open spec fn renamed_predicate(
    p: WherePredicateView,
    from: Seq<char>,
    to: Seq<char>,
) -> WherePredicateView {
    WherePredicateView {
        subject: renamed(p.subject, from, to),
        bounds: renamed_all(p.bounds, from, to),
    }
}

/// Every predicate of the list renamed by [`renamed_predicate`].
pub open spec fn renamed_predicates(
    ps: Seq<WherePredicateView>,
    from: Seq<char>,
    to: Seq<char>,
) -> Seq<WherePredicateView> {
    Seq::new(ps.len(), |i: int| renamed_predicate(ps[i], from, to))
}

/// Generic parameters and predicates with every identifier `from` replaced
/// by `to`. The names of the parameters themselves stay.
pub open spec fn renamed_generics(g: GenericsView, from: Seq<char>, to: Seq<char>) -> GenericsView {
    GenericsView {
        params: renamed_params(g.params, from, to),
        predicates: renamed_predicates(g.predicates, from, to),
    }
}

/// Replaces every identifier `from` in the generics by `to`.
pub fn rename_generics(g: &Generics, from: &str, to: &str) -> (r: Generics)
    ensures
        r@ == renamed_generics(g@, from@, to@),
{
    let mut params: Vec<GenericParam> = Vec::new();
    let mut i: usize = 0;
    while i < g.params.len()
        invariant
            i <= g.params.len(),
            params.len() == i,
            forall|j: int| 0 <= j < i ==> params[j]@ == renamed_param(g.params[j]@, from@, to@),
        decreases g.params.len() - i,
    {
        let p = &g.params[i];
        params.push(
            GenericParam {
                kind: p.kind,
                name: p.name.clone(),
                bounds: rename_all(&p.bounds, from, to),
                default: rename_all(&p.default, from, to),
            },
        );
        i += 1;
    }
    let mut predicates: Vec<WherePredicate> = Vec::new();
    let mut k: usize = 0;
    while k < g.predicates.len()
        invariant
            k <= g.predicates.len(),
            predicates.len() == k,
            forall|j: int|
                0 <= j < k ==> predicates[j]@ == renamed_predicate(g.predicates[j]@, from@, to@),
        decreases g.predicates.len() - k,
    {
        let p = &g.predicates[k];
        predicates.push(
            WherePredicate {
                subject: rename(&p.subject, from, to),
                bounds: rename_all(&p.bounds, from, to),
            },
        );
        k += 1;
    }
    let r = Generics { params, predicates };
    assert(r@.params =~= renamed_params(g@.params, from@, to@));
    assert(r@.predicates =~= renamed_predicates(g@.predicates, from@, to@));
    r
}

/// The lifetime parameter of the given name, without bounds.
pub open spec fn lifetime_param(name: Seq<char>) -> GenericParamView {
    GenericParamView {
        kind: ParamKind::Lifetime,
        name,
        bounds: Seq::empty(),
        default: Seq::empty(),
    }
}

/// The parameter that stands for the implementing type, bound to the
/// interface with the interface's own parameters as arguments.
pub open spec fn receiver_param(item: InterfaceView) -> GenericParamView {
    GenericParamView {
        kind: ParamKind::Type,
        name: placeholder(),
        bounds: seq![NodeView::named(item.name, type_args(item.generics.params))],
        default: Seq::empty(),
    }
}

/// The generic parameters of an interface and of one of its methods, merged
/// before `Self` is renamed: the lifetimes of the interface, then those of
/// the method, then the made-up lifetime where a parameter borrows without
/// naming one; the types of the interface, then those of the method, then,
/// under static dispatch, the parameter for the implementing type; the
/// constants of the interface, then those of the method.
pub open spec fn merged_params(
    item: InterfaceView,
    m: MethodView,
    lifetime: Seq<char>,
) -> Seq<GenericParamView> {
    of_kind(item.generics.params, ParamKind::Lifetime) + of_kind(
        m.generics.params,
        ParamKind::Lifetime,
    ) + (if args_anonymous(m.inputs) {
        seq![lifetime_param(lifetime)]
    } else {
        Seq::empty()
    }) + of_kind(item.generics.params, ParamKind::Type) + of_kind(
        m.generics.params,
        ParamKind::Type,
    ) + (if !trait_input(item.options).dynamic {
        seq![receiver_param(item)]
    } else {
        Seq::empty()
    }) + of_kind(item.generics.params, ParamKind::Const) + of_kind(
        m.generics.params,
        ParamKind::Const,
    )
}

/// The predicate that binds the parameter for the implementing type to the
/// interface, with the interface's own parameters as arguments.
pub open spec fn receiver_predicate(item: InterfaceView) -> WherePredicateView {
    WherePredicateView {
        subject: NodeView::named(placeholder(), Seq::empty()),
        bounds: seq![NodeView::named(item.name, type_args(item.generics.params))],
    }
}

/// The predicates of an interface and of one of its methods, merged: those
/// of the interface, then those of the method, with `Self` renamed to the
/// placeholder; then, under static dispatch, the predicate that binds the
/// placeholder to the interface.
pub open spec fn merged_predicates(item: InterfaceView, m: MethodView) -> Seq<WherePredicateView> {
    renamed_predicates(
        item.generics.predicates + m.generics.predicates,
        "Self"@,
        placeholder(),
    ) + (if !trait_input(item.options).dynamic {
        seq![receiver_predicate(item)]
    } else {
        Seq::empty()
    })
}

/// The unified generics of a method: the merged parameters, with `Self`
/// renamed to the placeholder in their bounds and defaults, and the merged
/// predicates.
pub open spec fn unified(item: InterfaceView, m: MethodView, lifetime: Seq<char>) -> GenericsView {
    GenericsView {
        params: renamed_params(merged_params(item, m, lifetime), "Self"@, placeholder()),
        predicates: merged_predicates(item, m),
    }
}

/// Merges the generics of an interface and of one of its methods.
pub struct GenericsExpand<'a> {
    pub item: &'a InterfaceDeclaration,
    pub default_lifetime: String,
}

impl<'a> GenericsExpand<'a> {
    /// Runs the expansion on `input`. Nothing is added to the collector's errors.
    pub fn expand(&self, input: &MethodDeclaration, c: &mut Collector) -> (r: Option<Generics>)
        ensures
            *final(c) == *old(c),
            r matches Some(g) && g@ == unified(self.item@, input@, self.default_lifetime@),
    {
        let attrs = TraitInput::from(&self.item.options);
        let ghost item = self.item@;
        let ghost m = input@;
        let mut params: Vec<GenericParam> = Vec::new();
        assert(views(params@) =~= Seq::empty());
        select(&self.item.generics.params, ParamKind::Lifetime, &mut params);
        select(&input.generics.params, ParamKind::Lifetime, &mut params);
        let ghost a = views(params@);
        if needs_default_lifetime(&input.inputs) {
            let none: Vec<Node> = Vec::new();
            assert(views(none@) =~= Seq::empty());
            params.push(
                GenericParam {
                    kind: ParamKind::Lifetime,
                    name: self.default_lifetime.clone(),
                    bounds: none.clone(),
                    default: none,
                },
            );
            assert(views(params@) =~= a + seq![lifetime_param(self.default_lifetime@)]);
        } else {
            assert(views(params@) =~= a + Seq::empty());
        }
        select(&self.item.generics.params, ParamKind::Type, &mut params);
        select(&input.generics.params, ParamKind::Type, &mut params);
        let ghost b = views(params@);
        if !attrs.dynamic {
            let args = type_generics(&self.item.generics.params);
            let mut bounds: Vec<Node> = Vec::new();
            bounds.push(Node::named(self.item.name.as_str(), &args));
            assert(views(bounds@) =~= seq![NodeView::named(item.name, type_args(item.generics.params))]);
            let none: Vec<Node> = Vec::new();
            assert(views(none@) =~= Seq::empty());
            params.push(
                GenericParam { kind: ParamKind::Type, name: "__Self".to_owned(), bounds, default: none },
            );
            assert(views(params@) =~= b + seq![receiver_param(item)]);
        } else {
            assert(views(params@) =~= b + Seq::empty());
        }
        select(&self.item.generics.params, ParamKind::Const, &mut params);
        select(&input.generics.params, ParamKind::Const, &mut params);
        assert(views(params@) == merged_params(item, m, self.default_lifetime@));
        let mut predicates = clone_predicates(&self.item.generics.predicates);
        let mut more = clone_predicates(&input.generics.predicates);
        let ghost ours = predicates@;
        let ghost theirs = more@;
        predicates.append(&mut more);
        assert(views(ours + theirs) =~= views(ours) + views(theirs));
        let merged = Generics { params, predicates };
        let mut unified = rename_generics(&merged, "Self", "__Self");
        let ghost renamed = views(unified.predicates@);
        if !attrs.dynamic {
            let args = type_generics(&self.item.generics.params);
            let mut bounds: Vec<Node> = Vec::new();
            bounds.push(Node::named(self.item.name.as_str(), &args));
            assert(views(bounds@) =~= seq![NodeView::named(item.name, type_args(item.generics.params))]);
            let none: Vec<Node> = Vec::new();
            assert(views(none@) =~= Seq::empty());
            unified.predicates.push(WherePredicate { subject: Node::named("__Self", &none), bounds });
            assert(views(unified.predicates@) =~= renamed + seq![receiver_predicate(item)]);
        } else {
            assert(views(unified.predicates@) =~= renamed + Seq::empty());
        }
        Some(unified)
    }
}

/// Renames `Self` to the placeholder.
pub struct RenameSelf;

impl RenameSelf {
    /// Renames one identifier.
    pub fn visit_ident_mut(&self, i: &mut String)
        ensures
            final(i)@ == (if old(i)@ == "Self"@ {
                placeholder()
            } else {
                old(i)@
            }),
    {
        if same(i, "Self") {
            *i = "__Self".to_owned();
        }
    }

    /// Renames every `Self` in a type.
    pub fn visit_type(&self, ty: &Node) -> (r: Node)
        ensures
            r@ == renamed(ty@, "Self"@, placeholder()),
    {
        rename(ty, "Self", "__Self")
    }

    /// Renames every `Self` in the bounds, defaults and predicates of generics.
    pub fn visit_generics(&self, g: &Generics) -> (r: Generics)
        ensures
            r@ == renamed_generics(g@, "Self"@, placeholder()),
    {
        rename_generics(g, "Self", "__Self")
    }
}

/// A parameter without the `mut` that its pattern does not need: a by-value
/// receiver and a binding lose theirs.
pub open spec fn cleaned_arg(a: FnArgView) -> FnArgView {
    match a {
        FnArgView::Receiver { reference, lifetime, mutable } => FnArgView::Receiver {
            reference,
            lifetime,
            mutable: reference && mutable,
        },
        FnArgView::Typed { pattern, ty } => FnArgView::Typed {
            pattern: match pattern {
                PatternView::Binding { by_ref, mutable, name, rest } => PatternView::Binding {
                    by_ref,
                    mutable: false,
                    name,
                    rest,
                },
                PatternView::Other(tokens) => PatternView::Other(tokens),
            },
            ty,
        },
    }
}

/// Every parameter of the list cleaned by [`cleaned_arg`].
pub open spec fn cleaned_args(s: Seq<FnArgView>) -> Seq<FnArgView> {
    Seq::new(s.len(), |i: int| cleaned_arg(s[i]))
}

/// A method with its parameters cleaned by [`cleaned_arg`].
pub open spec fn cleaned(m: MethodView) -> MethodView {
    MethodView { inputs: cleaned_args(m.inputs), ..m }
}

/// Removes `mut` from a parameter where the pattern does not need it.
pub fn clean_arg(a: &FnArg) -> (r: FnArg)
    ensures
        r@ == cleaned_arg(a@),
{
    match a.clone() {
        FnArg::Receiver { reference, lifetime, mutable } => FnArg::Receiver {
            reference,
            lifetime,
            mutable: reference && mutable,
        },
        FnArg::Typed { pattern, ty } => FnArg::Typed {
            pattern: match pattern {
                Pattern::Binding { by_ref, mutable, name, rest } => Pattern::Binding {
                    by_ref,
                    mutable: false,
                    name,
                    rest,
                },
                Pattern::Other(tokens) => Pattern::Other(tokens),
            },
            ty,
        },
    }
}

/// Removes the `mut` markers that the signature of a method does not need.
pub struct CleanUpMutPatternsExpand;

impl CleanUpMutPatternsExpand {
    /// Runs the expansion on `input`. Nothing is added to the collector's errors.
    pub fn expand(&self, input: &MethodDeclaration, c: &mut Collector) -> (r: Option<
        MethodDeclaration,
    >)
        ensures
            *final(c) == *old(c),
            r matches Some(m) && m@ == cleaned(input@),
    {
        let mut item = input.clone();
        let mut inputs: Vec<FnArg> = Vec::new();
        let mut i: usize = 0;
        while i < item.inputs.len()
            invariant
                i <= item.inputs.len(),
                inputs.len() == i,
                forall|j: int| 0 <= j < i ==> inputs[j]@ == cleaned_arg(item.inputs[j]@),
            decreases item.inputs.len() - i,
        {
            inputs.push(clean_arg(&item.inputs[i]));
            i += 1;
        }
        assert(views(inputs@) =~= cleaned_args(views(item.inputs@)));
        item.inputs = inputs;
        Some(item)
    }
}

} // verus!
