//! Declarations written out as tokens.

use crate::decl::{
    FnArg, FnArgView, GenericParam, GenericParamView, InterfaceDeclaration, InterfaceView,
    MethodDeclaration, MethodView, ParamKind, Pattern, PatternView, TraitItem, TraitItemView,
    WherePredicate, WherePredicateView,
};
use crate::methods::expand::{not_lifetimes, of_kind, select, select_others};
use crate::syntax::{
    append_nodes, clone_nodes, no_nodes, opt_view, push_ident, push_node, push_punct, views, Kind,
    Node, NodeView,
};
use vstd::prelude::*;

verus! {

impl PatternView {
    /// The tokens of a pattern.
    pub open spec fn tokens(self) -> Seq<NodeView> {
        match self {
            PatternView::Binding { by_ref, mutable, name, rest } => (if by_ref {
                seq![NodeView::ident("ref"@)]
            } else {
                Seq::empty()
            }) + (if mutable {
                seq![NodeView::ident("mut"@)]
            } else {
                Seq::empty()
            }).push(NodeView::ident(name)) + rest,
            PatternView::Other(tokens) => tokens,
        }
    }
}

impl Pattern {
    /// Writes the item as tokens.
    pub fn to_tokens(&self) -> (r: Vec<Node>)
        ensures
            views(r@) == self@.tokens(),
    {
        match self {
            Pattern::Binding { by_ref, mutable, name, rest } => {
                let mut out = no_nodes();
                if *by_ref {
                    push_ident(&mut out, "ref");
                }
                if *mutable {
                    push_ident(&mut out, "mut");
                }
                push_ident(&mut out, name.as_str());
                append_nodes(&mut out, clone_nodes(rest));
                assert(views(out@) =~= self@.tokens());
                out
            },
            Pattern::Other(tokens) => clone_nodes(tokens),
        }
    }
}

impl FnArgView {
    /// The tokens of a parameter.
    pub open spec fn tokens(self) -> Seq<NodeView> {
        match self {
            FnArgView::Receiver { reference, lifetime, mutable } => (if reference {
                seq![NodeView::punct("&"@)] + (match lifetime {
                    Some(l) => seq![NodeView::lifetime(l)],
                    None => Seq::empty(),
                })
            } else {
                Seq::empty()
            }) + (if mutable {
                seq![NodeView::ident("mut"@)]
            } else {
                Seq::empty()
            }).push(NodeView::ident("self"@)),
            FnArgView::Typed { pattern, ty } => pattern.tokens().push(NodeView::punct(":"@)).push(ty),
        }
    }

    /// The parameter as one node.
    pub open spec fn node(self) -> NodeView {
        NodeView::tree(Kind::Group, self.tokens())
    }
}

impl FnArg {
    /// Writes the item as tokens.
    pub fn to_tokens(&self) -> (r: Vec<Node>)
        ensures
            views(r@) == self@.tokens(),
    {
        match self {
            FnArg::Receiver { reference, lifetime, mutable } => {
                let mut out = no_nodes();
                if *reference {
                    push_punct(&mut out, "&");
                    if let Some(l) = lifetime {
                        push_node(&mut out, Node::lifetime(l.as_str()));
                    }
                }
                if *mutable {
                    push_ident(&mut out, "mut");
                }
                push_ident(&mut out, "self");
                assert(views(out@) =~= self@.tokens());
                out
            },
            FnArg::Typed { pattern, ty } => {
                let mut out = pattern.to_tokens();
                push_punct(&mut out, ":");
                push_node(&mut out, ty.clone());
                out
            },
        }
    }

    /// Writes the item as one node.
    pub fn to_node(&self) -> (r: Node)
        ensures
            r@ == self@.node(),
    {
        Node::tree(Kind::Group, self.to_tokens())
    }
}

/// The parameters as nodes.
pub open spec fn arg_nodes(s: Seq<FnArgView>) -> Seq<NodeView> {
    Seq::new(s.len(), |i: int| s[i].node())
}

/// A parameter list: the parameters between parentheses, separated by commas.
pub open spec fn arg_list(s: Seq<FnArgView>) -> NodeView {
    NodeView::tree(Kind::Paren, NodeView::separated(arg_nodes(s), NodeView::punct(","@)))
}

/// Writes a parameter list.
pub fn args_to_list(args: &Vec<FnArg>) -> (r: Node)
    ensures
        r@ == arg_list(views(args@)),
{
    Node::tree(Kind::Paren, Node::separated(&args_to_nodes(args), &Node::punct(",")))
}

/// Writes every parameter as one node.
pub fn args_to_nodes(args: &Vec<FnArg>) -> (r: Vec<Node>)
    ensures
        views(r@) == arg_nodes(views(args@)),
{
    let mut nodes: Vec<Node> = Vec::new();
    let mut i: usize = 0;
    while i < args.len()
        invariant
            i <= args.len(),
            nodes.len() == i,
            forall|j: int| 0 <= j < i ==> nodes[j]@ == args[j]@.node(),
        decreases args.len() - i,
    {
        nodes.push(args[i].to_node());
        i += 1;
    }
    assert(views(nodes@) =~= arg_nodes(views(args@)));
    nodes
}

impl GenericParamView {
    /// The declaration of a parameter: its name with its bounds and, where
    /// `defaults` is set, its default.
    pub open spec fn tokens(self, defaults: bool) -> Seq<NodeView> {
        (match self.kind {
            ParamKind::Lifetime => seq![NodeView::lifetime(self.name)],
            ParamKind::Type => seq![NodeView::ident(self.name)],
            ParamKind::Const => seq![NodeView::ident("const"@), NodeView::ident(self.name)],
        }) + (if self.bounds.len() > 0 {
            seq![NodeView::punct(":"@)] + self.bounds
        } else {
            Seq::empty()
        }) + (if defaults && self.default.len() > 0 {
            seq![NodeView::punct("="@)] + self.default
        } else {
            Seq::empty()
        })
    }

    /// The item as one node.
    pub open spec fn node(self, defaults: bool) -> NodeView {
        NodeView::tree(Kind::Group, self.tokens(defaults))
    }
}

impl GenericParam {
    /// Writes the item as one node.
    pub fn to_node(&self, defaults: bool) -> (r: Node)
        ensures
            r@ == self@.node(defaults),
    {
        let mut out = no_nodes();
        match self.kind {
            ParamKind::Lifetime => {
                push_node(&mut out, Node::lifetime(self.name.as_str()));
            },
            ParamKind::Type => {
                push_ident(&mut out, self.name.as_str());
            },
            ParamKind::Const => {
                push_ident(&mut out, "const");
                push_ident(&mut out, self.name.as_str());
            },
        }
        let ghost head = views(out@);
        if self.bounds.len() > 0 {
            push_punct(&mut out, ":");
            append_nodes(&mut out, clone_nodes(&self.bounds));
            assert(views(out@) =~= head + (seq![NodeView::punct(":"@)] + self@.bounds));
        } else {
            assert(views(out@) =~= head + Seq::empty());
        }
        let ghost middle = views(out@);
        if defaults && self.default.len() > 0 {
            push_punct(&mut out, "=");
            append_nodes(&mut out, clone_nodes(&self.default));
            assert(views(out@) =~= middle + (seq![NodeView::punct("="@)] + self@.default));
        } else {
            assert(views(out@) =~= middle + Seq::empty());
        }
        assert(head =~= (match self@.kind {
            ParamKind::Lifetime => seq![NodeView::lifetime(self@.name)],
            ParamKind::Type => seq![NodeView::ident(self@.name)],
            ParamKind::Const => seq![NodeView::ident("const"@), NodeView::ident(self@.name)],
        }));
        Node::tree(Kind::Group, out)
    }
}

/// The parameters with the lifetimes first.
pub open spec fn ordered(ps: Seq<GenericParamView>) -> Seq<GenericParamView> {
    of_kind(ps, ParamKind::Lifetime) + not_lifetimes(ps)
}

/// The declaration of every parameter of the list, each as one node.
pub open spec fn param_nodes(ps: Seq<GenericParamView>, defaults: bool) -> Seq<NodeView> {
    Seq::new(ps.len(), |i: int| ps[i].node(defaults))
}

/// The declaration of generic parameters: nothing where there are none,
/// else the parameters between `<` and `>`, lifetimes first.
pub open spec fn param_list(ps: Seq<GenericParamView>, defaults: bool) -> Seq<NodeView> {
    NodeView::angled(param_nodes(ordered(ps), defaults))
}

/// Writes the declaration of generic parameters.
pub fn params_to_list(ps: &Vec<GenericParam>, defaults: bool) -> (r: Vec<Node>)
    ensures
        views(r@) == param_list(views(ps@), defaults),
{
    let mut sorted: Vec<GenericParam> = Vec::new();
    assert(views(sorted@) =~= Seq::empty());
    select(ps, ParamKind::Lifetime, &mut sorted);
    select_others(ps, &mut sorted);
    assert(views(sorted@) =~= ordered(views(ps@)));
    let mut nodes: Vec<Node> = Vec::new();
    let mut i: usize = 0;
    while i < sorted.len()
        invariant
            i <= sorted.len(),
            nodes.len() == i,
            forall|j: int| 0 <= j < i ==> nodes[j]@ == sorted[j]@.node(defaults),
        decreases sorted.len() - i,
    {
        nodes.push(sorted[i].to_node(defaults));
        i += 1;
    }
    assert(views(nodes@) =~= param_nodes(views(sorted@), defaults));
    Node::angled(&nodes)
}

impl WherePredicateView {
    /// The item as one node.
    pub open spec fn node(self) -> NodeView {
        NodeView::tree(Kind::Group, seq![self.subject, NodeView::punct(":"@)] + self.bounds)
    }
}

impl WherePredicate {
    /// Writes the item as one node.
    pub fn to_node(&self) -> (r: Node)
        ensures
            r@ == self@.node(),
    {
        let mut out = no_nodes();
        push_node(&mut out, self.subject.clone());
        push_punct(&mut out, ":");
        append_nodes(&mut out, clone_nodes(&self.bounds));
        assert(views(out@) =~= seq![self@.subject, NodeView::punct(":"@)] + self@.bounds);
        Node::tree(Kind::Group, out)
    }
}

/// Every predicate of the list as one node.
pub open spec fn predicate_nodes(ps: Seq<WherePredicateView>) -> Seq<NodeView> {
    Seq::new(ps.len(), |i: int| ps[i].node())
}

/// A `where` clause: nothing where there is no predicate, else `where` and
/// the predicates, separated by commas.
pub open spec fn where_clause(ps: Seq<WherePredicateView>) -> Seq<NodeView> {
    if ps.len() == 0 {
        Seq::empty()
    } else {
        seq![NodeView::ident("where"@)] + NodeView::separated(
            predicate_nodes(ps),
            NodeView::punct(","@),
        )
    }
}

/// Writes a `where` clause.
pub fn predicates_to_clause(ps: &Vec<WherePredicate>) -> (r: Vec<Node>)
    ensures
        views(r@) == where_clause(views(ps@)),
{
    let mut out = no_nodes();
    if ps.len() > 0 {
        let mut nodes: Vec<Node> = Vec::new();
        let mut i: usize = 0;
        while i < ps.len()
            invariant
                i <= ps.len(),
                nodes.len() == i,
                forall|j: int| 0 <= j < i ==> nodes[j]@ == ps[j]@.node(),
            decreases ps.len() - i,
        {
            nodes.push(ps[i].to_node());
            i += 1;
        }
        assert(views(nodes@) =~= predicate_nodes(views(ps@)));
        push_ident(&mut out, "where");
        append_nodes(&mut out, Node::separated(&nodes, &Node::punct(",")));
        assert(views(out@) =~= where_clause(views(ps@)));
    }
    out
}

/// What follows the parameter list of a method: `->` and the return type,
/// where there is one.
pub open spec fn return_tokens(output: Option<NodeView>) -> Seq<NodeView> {
    match output {
        Some(ty) => seq![NodeView::punct("->"@), ty],
        None => Seq::empty(),
    }
}

/// Writes `->` and the return type, where there is one.
pub fn output_to_tokens(output: &Option<Node>) -> (r: Vec<Node>)
    ensures
        views(r@) == return_tokens(opt_view(*output)),
{
    let mut out = no_nodes();
    if let Some(ty) = output {
        push_punct(&mut out, "->");
        push_node(&mut out, ty.clone());
        assert(views(out@) =~= seq![NodeView::punct("->"@), ty@]);
    }
    out
}

impl MethodView {
    /// The tokens of a method: attributes, qualifiers, `async` where it is
    /// asynchronous, the signature, and the body or a semicolon.
    pub open spec fn tokens(self) -> Seq<NodeView> {
        self.attrs + self.qualifiers + (if self.asyncness {
            seq![NodeView::ident("async"@)]
        } else {
            Seq::empty()
        }) + seq![NodeView::ident("fn"@), NodeView::ident(self.name)] + param_list(
            self.generics.params,
            true,
        ).push(arg_list(self.inputs)) + return_tokens(self.output) + where_clause(
            self.generics.predicates,
        ).push(
            match self.body {
                Some(body) => NodeView::tree(Kind::Brace, body),
                None => NodeView::punct(";"@),
            },
        )
    }
}

impl MethodDeclaration {
    /// Writes the item as tokens.
    pub fn to_tokens(&self) -> (r: Vec<Node>)
        ensures
            views(r@) == self@.tokens(),
    {
        let mut out = clone_nodes(&self.attrs);
        append_nodes(&mut out, clone_nodes(&self.qualifiers));
        let ghost a = views(out@);
        if self.asyncness {
            push_ident(&mut out, "async");
            assert(views(out@) =~= a + seq![NodeView::ident("async"@)]);
        } else {
            assert(views(out@) =~= a + Seq::empty());
        }
        let ghost b = views(out@);
        push_ident(&mut out, "fn");
        push_ident(&mut out, self.name.as_str());
        assert(views(out@) =~= b + seq![NodeView::ident("fn"@), NodeView::ident(self@.name)]);
        append_nodes(&mut out, params_to_list(&self.generics.params, true));
        push_node(&mut out, args_to_list(&self.inputs));
        append_nodes(&mut out, output_to_tokens(&self.output));
        append_nodes(&mut out, predicates_to_clause(&self.generics.predicates));
        match &self.body {
            Some(body) => {
                push_node(&mut out, Node::tree(Kind::Brace, clone_nodes(body)));
            },
            None => {
                push_punct(&mut out, ";");
            },
        }
        assert(views(out@) =~= self@.tokens());
        out
    }
}

impl TraitItemView {
    /// The tokens of the item.
    pub open spec fn tokens(self) -> Seq<NodeView> {
        match self {
            TraitItemView::Method(m) => m.tokens(),
            TraitItemView::Other(tokens) => tokens,
        }
    }
}

impl TraitItem {
    /// Writes the item as tokens.
    pub fn to_tokens(&self) -> (r: Vec<Node>)
        ensures
            views(r@) == self@.tokens(),
    {
        match self {
            TraitItem::Method(m) => m.to_tokens(),
            TraitItem::Other(tokens) => clone_nodes(tokens),
        }
    }
}

/// The tokens of the items, one item after the other.
pub open spec fn item_tokens(items: Seq<TraitItemView>) -> Seq<NodeView>
    decreases items.len(),
{
    if items.len() == 0 {
        Seq::empty()
    } else {
        item_tokens(items.drop_last()) + items.last().tokens()
    }
}

/// Writes the items, one after the other.
pub fn items_to_tokens(items: &Vec<TraitItem>) -> (r: Vec<Node>)
    ensures
        views(r@) == item_tokens(views(items@)),
{
    let mut out = no_nodes();
    let ghost all = views(items@);
    let mut i: usize = 0;
    assert(all.take(0) =~= Seq::empty());
    while i < items.len()
        invariant
            i <= items.len(),
            all == views(items@),
            views(out@) == item_tokens(all.take(i as int)),
        decreases items.len() - i,
    {
        assert(all.take(i + 1).drop_last() =~= all.take(i as int));
        assert(all.take(i + 1).last() == items[i as int]@);
        append_nodes(&mut out, items[i].to_tokens());
        i += 1;
    }
    assert(all.take(items.len() as int) =~= all);
    out
}

/// The tokens of the methods, one method after the other.
pub open spec fn method_tokens(methods: Seq<MethodView>) -> Seq<NodeView>
    decreases methods.len(),
{
    if methods.len() == 0 {
        Seq::empty()
    } else {
        method_tokens(methods.drop_last()) + methods.last().tokens()
    }
}

/// Writes the methods, one after the other.
pub fn methods_to_tokens(methods: &Vec<MethodDeclaration>) -> (r: Vec<Node>)
    ensures
        views(r@) == method_tokens(views(methods@)),
{
    let mut out = no_nodes();
    let ghost all = views(methods@);
    let mut i: usize = 0;
    assert(all.take(0) =~= Seq::empty());
    while i < methods.len()
        invariant
            i <= methods.len(),
            all == views(methods@),
            views(out@) == method_tokens(all.take(i as int)),
        decreases methods.len() - i,
    {
        assert(all.take(i + 1).drop_last() =~= all.take(i as int));
        assert(all.take(i + 1).last() == methods[i as int]@);
        append_nodes(&mut out, methods[i].to_tokens());
        i += 1;
    }
    assert(all.take(methods.len() as int) =~= all);
    out
}

impl InterfaceView {
    /// The tokens of an interface.
    pub open spec fn tokens(self) -> Seq<NodeView> {
        self.attrs + self.vis + self.qualifiers + seq![
            NodeView::ident("trait"@),
            NodeView::ident(self.name),
        ] + param_list(self.generics.params, true) + (if self.supertraits.len() > 0 {
            seq![NodeView::punct(":"@)] + NodeView::separated(
                self.supertraits,
                NodeView::punct("+"@),
            )
        } else {
            Seq::empty()
        }) + where_clause(self.generics.predicates).push(
            NodeView::tree(Kind::Brace, item_tokens(self.items)),
        )
    }
}

impl InterfaceDeclaration {
    /// Writes the item as tokens.
    pub fn to_tokens(&self) -> (r: Vec<Node>)
        ensures
            views(r@) == self@.tokens(),
    {
        let mut out = clone_nodes(&self.attrs);
        append_nodes(&mut out, clone_nodes(&self.vis));
        append_nodes(&mut out, clone_nodes(&self.qualifiers));
        let ghost a = views(out@);
        push_ident(&mut out, "trait");
        push_ident(&mut out, self.name.as_str());
        assert(views(out@) =~= a + seq![NodeView::ident("trait"@), NodeView::ident(self@.name)]);
        append_nodes(&mut out, params_to_list(&self.generics.params, true));
        let ghost b = views(out@);
        if self.supertraits.len() > 0 {
            push_punct(&mut out, ":");
            append_nodes(&mut out, Node::separated(&self.supertraits, &Node::punct("+")));
            assert(views(out@) =~= b + (seq![NodeView::punct(":"@)] + NodeView::separated(
                self@.supertraits,
                NodeView::punct("+"@),
            )));
        } else {
            assert(views(out@) =~= b + Seq::empty());
        }
        append_nodes(&mut out, predicates_to_clause(&self.generics.predicates));
        push_node(&mut out, Node::tree(Kind::Brace, items_to_tokens(&self.items)));
        out
    }
}

} // verus!
