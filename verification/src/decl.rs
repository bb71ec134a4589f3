//! Declarations: generic parameters, method signatures and interfaces.

use crate::input::{ConfigOption, ConfigOptionView};
use crate::syntax::{clone_nodes, opt_view, opt_views, views, Node, NodeView};
use vstd::prelude::*;

verus! {

/// The three kinds of generic parameter.
#[derive(Clone, Copy, PartialEq, Eq, Debug, Structural)]
pub enum ParamKind {
    Lifetime,
    Type,
    Const,
}

/// A generic parameter. A lifetime's name is written without its apostrophe.
/// `bounds` is what follows the colon (for a constant, its type) and `default`
/// what follows the equals sign; either may be empty.
#[derive(PartialEq, Eq, Debug)]
pub struct GenericParam {
    pub kind: ParamKind,
    pub name: String,
    pub bounds: Vec<Node>,
    pub default: Vec<Node>,
}

/// The mathematical value of [`GenericParam`].
pub struct GenericParamView {
    pub kind: ParamKind,
    pub name: Seq<char>,
    pub bounds: Seq<NodeView>,
    pub default: Seq<NodeView>,
}

impl View for GenericParam {
    type V = GenericParamView;

    open spec fn view(&self) -> GenericParamView {
        GenericParamView {
            kind: self.kind,
            name: self.name@,
            bounds: views(self.bounds@),
            default: views(self.default@),
        }
    }
}

impl Clone for GenericParam {
    fn clone(&self) -> (r: GenericParam)
        ensures
            r@ == self@,
    {
        GenericParam {
            kind: self.kind,
            name: self.name.clone(),
            bounds: clone_nodes(&self.bounds),
            default: clone_nodes(&self.default),
        }
    }
}

/// One predicate of a `where` clause: the bounded type or lifetime, and the
/// bounds after the colon.
#[derive(PartialEq, Eq, Debug)]
pub struct WherePredicate {
    pub subject: Node,
    pub bounds: Vec<Node>,
}

/// The mathematical value of [`WherePredicate`].
pub struct WherePredicateView {
    pub subject: NodeView,
    pub bounds: Seq<NodeView>,
}

impl View for WherePredicate {
    type V = WherePredicateView;

    open spec fn view(&self) -> WherePredicateView {
        WherePredicateView { subject: self.subject@, bounds: views(self.bounds@) }
    }
}

impl Clone for WherePredicate {
    fn clone(&self) -> (r: WherePredicate)
        ensures
            r@ == self@,
    {
        WherePredicate { subject: self.subject.clone(), bounds: clone_nodes(&self.bounds) }
    }
}

/// The generic parameters of an item and the predicates of its `where` clause.
#[derive(PartialEq, Eq, Debug)]
pub struct Generics {
    pub params: Vec<GenericParam>,
    pub predicates: Vec<WherePredicate>,
}

/// The mathematical value of [`Generics`].
pub struct GenericsView {
    pub params: Seq<GenericParamView>,
    pub predicates: Seq<WherePredicateView>,
}

impl View for Generics {
    type V = GenericsView;

    open spec fn view(&self) -> GenericsView {
        GenericsView { params: views(self.params@), predicates: views(self.predicates@) }
    }
}

/// A copy of a list of generic parameters.
pub fn clone_params(v: &Vec<GenericParam>) -> (r: Vec<GenericParam>)
    ensures
        views(r@) == views(v@),
{
    let r = v.clone();
    assert(views(r@) =~= views(v@));
    r
}

/// A copy of a list of predicates.
pub fn clone_predicates(v: &Vec<WherePredicate>) -> (r: Vec<WherePredicate>)
    ensures
        views(r@) == views(v@),
{
    let r = v.clone();
    assert(views(r@) =~= views(v@));
    r
}

impl Clone for Generics {
    fn clone(&self) -> (r: Generics)
        ensures
            r@ == self@,
    {
        Generics {
            params: clone_params(&self.params),
            predicates: clone_predicates(&self.predicates),
        }
    }
}

/// The pattern of a parameter.
#[derive(PartialEq, Eq, Debug)]
pub enum Pattern {
    /// A name, possibly with `ref`, `mut` and a sub-pattern after `@`.
    Binding { by_ref: bool, mutable: bool, name: String, rest: Vec<Node> },
    /// Any other pattern, as written.
    Other(Vec<Node>),
}

/// The mathematical value of [`Pattern`].
pub enum PatternView {
    Binding { by_ref: bool, mutable: bool, name: Seq<char>, rest: Seq<NodeView> },
    Other(Seq<NodeView>),
}

impl View for Pattern {
    type V = PatternView;

    open spec fn view(&self) -> PatternView {
        match self {
            Pattern::Binding { by_ref, mutable, name, rest } => PatternView::Binding {
                by_ref: *by_ref,
                mutable: *mutable,
                name: name@,
                rest: views(rest@),
            },
            Pattern::Other(tokens) => PatternView::Other(views(tokens@)),
        }
    }
}

impl Clone for Pattern {
    fn clone(&self) -> (r: Pattern)
        ensures
            r@ == self@,
    {
        match self {
            Pattern::Binding { by_ref, mutable, name, rest } => Pattern::Binding {
                by_ref: *by_ref,
                mutable: *mutable,
                name: name.clone(),
                rest: clone_nodes(rest),
            },
            Pattern::Other(tokens) => Pattern::Other(clone_nodes(tokens)),
        }
    }
}

/// A parameter of a method.
#[derive(PartialEq, Eq, Debug)]
pub enum FnArg {
    /// `self`, `mut self`, `&self`, `&'a mut self` and the like.
    Receiver { reference: bool, lifetime: Option<String>, mutable: bool },
    /// A pattern and its type.
    Typed { pattern: Pattern, ty: Node },
}

/// The mathematical value of [`FnArg`].
pub enum FnArgView {
    Receiver { reference: bool, lifetime: Option<Seq<char>>, mutable: bool },
    Typed { pattern: PatternView, ty: NodeView },
}

impl View for FnArg {
    type V = FnArgView;

    open spec fn view(&self) -> FnArgView {
        match self {
            FnArg::Receiver { reference, lifetime, mutable } => FnArgView::Receiver {
                reference: *reference,
                lifetime: opt_view(*lifetime),
                mutable: *mutable,
            },
            FnArg::Typed { pattern, ty } => FnArgView::Typed { pattern: pattern@, ty: ty@ },
        }
    }
}

/// A copy of an optional name.
pub fn clone_name(o: &Option<String>) -> (r: Option<String>)
    ensures
        opt_view(r) == opt_view(*o),
{
    match o {
        Some(s) => Some(s.clone()),
        None => None,
    }
}

impl Clone for FnArg {
    fn clone(&self) -> (r: FnArg)
        ensures
            r@ == self@,
    {
        match self {
            FnArg::Receiver { reference, lifetime, mutable } => FnArg::Receiver {
                reference: *reference,
                lifetime: clone_name(lifetime),
                mutable: *mutable,
            },
            FnArg::Typed { pattern, ty } => FnArg::Typed {
                pattern: pattern.clone(),
                ty: ty.clone(),
            },
        }
    }
}

/// A copy of a parameter list.
pub fn clone_args(v: &Vec<FnArg>) -> (r: Vec<FnArg>)
    ensures
        views(r@) == views(v@),
{
    let r = v.clone();
    assert(views(r@) =~= views(v@));
    r
}

/// A copy of a list of options.
pub fn clone_options(v: &Vec<ConfigOption>) -> (r: Vec<ConfigOption>)
    ensures
        views(r@) == views(v@),
{
    let r = v.clone();
    assert(views(r@) =~= views(v@));
    r
}

/// A method of an interface.
///
/// `attrs` holds the attributes that are passed through, `options` the
/// options written for this library, `qualifiers` what stands before `fn`
/// other than `async`. `body` is the content of the default block.
#[derive(PartialEq, Eq, Debug)]
pub struct MethodDeclaration {
    pub attrs: Vec<Node>,
    pub options: Vec<ConfigOption>,
    pub qualifiers: Vec<Node>,
    pub asyncness: bool,
    pub name: String,
    pub generics: Generics,
    pub inputs: Vec<FnArg>,
    pub output: Option<Node>,
    pub body: Option<Vec<Node>>,
}

/// The mathematical value of [`MethodDeclaration`].
pub struct MethodView {
    pub attrs: Seq<NodeView>,
    pub options: Seq<ConfigOptionView>,
    pub qualifiers: Seq<NodeView>,
    pub asyncness: bool,
    pub name: Seq<char>,
    pub generics: GenericsView,
    pub inputs: Seq<FnArgView>,
    pub output: Option<NodeView>,
    pub body: Option<Seq<NodeView>>,
}

impl View for MethodDeclaration {
    type V = MethodView;

    open spec fn view(&self) -> MethodView {
        MethodView {
            attrs: views(self.attrs@),
            options: views(self.options@),
            qualifiers: views(self.qualifiers@),
            asyncness: self.asyncness,
            name: self.name@,
            generics: self.generics@,
            inputs: views(self.inputs@),
            output: opt_view(self.output),
            body: opt_views(self.body),
        }
    }
}

/// A copy of an optional node.
pub fn clone_opt_node(o: &Option<Node>) -> (r: Option<Node>)
    ensures
        opt_view(r) == opt_view(*o),
{
    match o {
        Some(n) => Some(n.clone()),
        None => None,
    }
}

/// A copy of an optional list of nodes.
pub fn clone_opt_nodes(o: &Option<Vec<Node>>) -> (r: Option<Vec<Node>>)
    ensures
        opt_views(r) == opt_views(*o),
{
    match o {
        Some(v) => Some(clone_nodes(v)),
        None => None,
    }
}

impl Clone for MethodDeclaration {
    fn clone(&self) -> (r: MethodDeclaration)
        ensures
            r@ == self@,
    {
        MethodDeclaration {
            attrs: clone_nodes(&self.attrs),
            options: clone_options(&self.options),
            qualifiers: clone_nodes(&self.qualifiers),
            asyncness: self.asyncness,
            name: self.name.clone(),
            generics: self.generics.clone(),
            inputs: clone_args(&self.inputs),
            output: clone_opt_node(&self.output),
            body: clone_opt_nodes(&self.body),
        }
    }
}

/// An item of an interface: a method, or anything else as written.
#[derive(PartialEq, Eq, Debug)]
pub enum TraitItem {
    Method(MethodDeclaration),
    Other(Vec<Node>),
}

/// The mathematical value of [`TraitItem`].
pub enum TraitItemView {
    Method(MethodView),
    Other(Seq<NodeView>),
}

impl View for TraitItem {
    type V = TraitItemView;

    open spec fn view(&self) -> TraitItemView {
        match self {
            TraitItem::Method(m) => TraitItemView::Method(m@),
            TraitItem::Other(tokens) => TraitItemView::Other(views(tokens@)),
        }
    }
}

impl Clone for TraitItem {
    fn clone(&self) -> (r: TraitItem)
        ensures
            r@ == self@,
    {
        match self {
            TraitItem::Method(m) => TraitItem::Method(m.clone()),
            TraitItem::Other(tokens) => TraitItem::Other(clone_nodes(tokens)),
        }
    }
}

/// A copy of a list of items.
pub fn clone_items(v: &Vec<TraitItem>) -> (r: Vec<TraitItem>)
    ensures
        views(r@) == views(v@),
{
    let r = v.clone();
    assert(views(r@) =~= views(v@));
    r
}

/// An interface declaration.
///
/// `vis` is the visibility as written, `qualifiers` what stands between it
/// and `trait`. Each element of `supertraits` is one bound.
#[derive(PartialEq, Eq, Debug)]
pub struct InterfaceDeclaration {
    pub attrs: Vec<Node>,
    pub options: Vec<ConfigOption>,
    pub vis: Vec<Node>,
    pub qualifiers: Vec<Node>,
    pub name: String,
    pub generics: Generics,
    pub supertraits: Vec<Node>,
    pub items: Vec<TraitItem>,
}

/// The mathematical value of [`InterfaceDeclaration`].
pub struct InterfaceView {
    pub attrs: Seq<NodeView>,
    pub options: Seq<ConfigOptionView>,
    pub vis: Seq<NodeView>,
    pub qualifiers: Seq<NodeView>,
    pub name: Seq<char>,
    pub generics: GenericsView,
    pub supertraits: Seq<NodeView>,
    pub items: Seq<TraitItemView>,
}

impl View for InterfaceDeclaration {
    type V = InterfaceView;

    open spec fn view(&self) -> InterfaceView {
        InterfaceView {
            attrs: views(self.attrs@),
            options: views(self.options@),
            vis: views(self.vis@),
            qualifiers: views(self.qualifiers@),
            name: self.name@,
            generics: self.generics@,
            supertraits: views(self.supertraits@),
            items: views(self.items@),
        }
    }
}

impl Clone for InterfaceDeclaration {
    fn clone(&self) -> (r: InterfaceDeclaration)
        ensures
            r@ == self@,
    {
        InterfaceDeclaration {
            attrs: clone_nodes(&self.attrs),
            options: clone_options(&self.options),
            vis: clone_nodes(&self.vis),
            qualifiers: clone_nodes(&self.qualifiers),
            name: self.name.clone(),
            generics: self.generics.clone(),
            supertraits: clone_nodes(&self.supertraits),
            items: clone_items(&self.items),
        }
    }
}

} // verus!
