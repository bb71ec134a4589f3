//! The analysis of one method: its parameters as fields of a completion
//! handle, with every type sanitized, and what is generated from them.

use crate::decl::{
    clone_args, clone_predicates, FnArg, FnArgView, GenericParam, GenericParamView, Generics,
    GenericsView, InterfaceDeclaration, InterfaceView, MethodDeclaration, MethodView, ParamKind,
    Pattern, PatternView, WherePredicate, WherePredicateView,
};
use crate::diagnostics::Problem;
use crate::items::{
    into_call, push_into_call, FutureImpl, FutureImplView, ItemStruct, ItemStructView, ItemType,
    ItemTypeView,
};
use crate::methods::expand::ext::{
    call_args, inline_body, make_inline_body, make_receiver_name, name_args, named_args,
    phantom_value, receiver_name,
};
use crate::methods::expand::future_type::{
    handle_doc, make_handle_doc, make_phantom, phantom_type,
};
use crate::methods::expand::poll::{
    bind, context_arg, make_context_arg, make_output_type, make_poll_of, output_type,
    plain_binding, poll_of,
};
use crate::methods::expand::{
    lifetime_param, of_kind, param_args, select, to_args, type_args, type_generics,
};
use crate::names::{
    decimal, decimal_text, ext_ident, ext_name, future_ident, future_name, poll_ident, poll_name,
    same,
};

use crate::rewrite::{
    has_lifetime, names_lifetime, rename_outside_items_all, renamed_outside_items_all,
    with_lifetime,
};
use crate::syntax::{
    clone_nodes, lemma_child, no_nodes, opt_view, push_ident, push_node, push_punct, views, Kind,
    Node, NodeView,
};
use vstd::prelude::*;

verus! {

/// The name that stands for the eventual implementing type.
pub open spec fn implementor() -> Seq<char> {
    "SelfTy"@
}

/// The one lifetime that stands for every lifetime left anonymous.
pub open spec fn resolved_lifetime() -> Seq<char> {
    "default_lifetime"@
}

/// The name of a path segment: the text of its first child, where that is
/// an identifier.
pub open spec fn segment_name(n: NodeView) -> Option<Seq<char>> {
    if n.kind == Kind::Segment && n.children.len() > 0 && n.children[0].kind == Kind::Ident {
        Some(n.children[0].text)
    } else {
        None
    }
}

/// Whether the node is a path segment that names `Self` or the interface.
pub open spec fn self_segment(n: NodeView, interface: Seq<char>) -> bool {
    segment_name(n) matches Some(name) && (name == "Self"@ || name == interface)
}

/// The children of a tree, each sanitized.
pub open spec fn sanitized_below(n: NodeView, interface: Seq<char>) -> Seq<NodeView>
    decreases n, 0nat,
{
    Seq::new(
        n.children.len(),
        |i: int|
            if 0 <= i < n.children.len() {
                sanitized(n.children[i], interface)
            } else {
                arbitrary()
            },
    )
}

/// The sanitized form of a type.
///
/// A dynamically dispatched type stays as it is. A path segment that names
/// `Self` or the interface becomes the name of the implementing type, without
/// arguments. An anonymous lifetime `'_` becomes the resolved lifetime, and
/// a borrowed type that names no lifetime gets it. Everything else keeps its
/// shape, with its children sanitized.
pub open spec fn sanitized(n: NodeView, interface: Seq<char>) -> NodeView
    decreases n, 1nat,
{
    if n.kind == Kind::Object {
        n
    } else if self_segment(n, interface) {
        NodeView::segment(implementor(), Seq::empty())
    } else {
        NodeView {
            kind: n.kind,
            text: if n.kind == Kind::Lifetime && n.text == "_"@ {
                resolved_lifetime()
            } else {
                n.text
            },
            children: if n.kind == Kind::Reference && !names_lifetime(n) {
                with_lifetime(sanitized_below(n, interface), resolved_lifetime())
            } else {
                sanitized_below(n, interface)
            },
        }
    }
}

/// Whether sanitizing the type replaces a segment: whether the type names
/// `Self` or the interface outside a dynamically dispatched type.
pub open spec fn self_named(n: NodeView, interface: Seq<char>) -> bool
    decreases n,
{
    n.kind != Kind::Object && (self_segment(n, interface) || exists|i: int|
        #![trigger n.children[i]]
        0 <= i < n.children.len() && self_named(n.children[i], interface))
}

/// Whether sanitizing the type puts the resolved lifetime somewhere.
pub open spec fn lifetime_resolved(n: NodeView, interface: Seq<char>) -> bool
    decreases n,
{
    n.kind != Kind::Object && !self_segment(n, interface) && ((n.kind == Kind::Reference
        && !names_lifetime(n)) || (n.kind == Kind::Lifetime && n.text == "_"@) || exists|i: int|
        #![trigger n.children[i]]
        0 <= i < n.children.len() && lifetime_resolved(n.children[i], interface))
}

/// Sanitizing keeps the kind of a node, and the text of an identifier.
pub proof fn lemma_sanitized_kind(n: NodeView, interface: Seq<char>)
    ensures
        sanitized(n, interface).kind == n.kind,
        n.kind == Kind::Ident ==> sanitized(n, interface).text == n.text,
{
}

/// Sanitizing a sanitized type changes nothing.
pub proof fn lemma_sanitized_idempotent(n: NodeView, interface: Seq<char>)
    ensures
        sanitized(sanitized(n, interface), interface) == sanitized(n, interface),
    decreases n,
{
    reveal_strlit("SelfTy");
    reveal_strlit("Self");
    reveal_strlit("_");
    reveal_strlit("default_lifetime");
    let s = sanitized(n, interface);
    if n.kind == Kind::Object {
    } else if self_segment(n, interface) {
        assert(s.children =~= seq![NodeView::ident(implementor())]);
        assert(implementor().len() == 6);
        assert("Self"@.len() == 4);
        if self_segment(s, interface) {
        } else {
            assert(sanitized_below(s, interface) =~= s.children) by {
                assert(sanitized(s.children[0], interface).children =~= s.children[0].children);
            }
        }
    } else {
        let below = sanitized_below(n, interface);
        assert forall|i: int| 0 <= i < below.len() implies sanitized(
            #[trigger] below[i],
            interface,
        ) == below[i] && below[i].kind == n.children[i].kind by {
            lemma_sanitized_idempotent(n.children[i], interface);
            lemma_sanitized_kind(n.children[i], interface);
        }
        if n.children.len() > 0 {
            lemma_sanitized_kind(n.children[0], interface);
        }
        assert(segment_name(s) == segment_name(n));
        assert(s.text.len() == 16 || s.text == n.text);
        assert("_"@.len() == 1);
        let marker = NodeView::lifetime(resolved_lifetime());
        assert(sanitized(marker, interface) == marker) by {
            assert(sanitized(marker, interface).children =~= marker.children);
        }
        if n.kind == Kind::Reference && !names_lifetime(n) {
            let c = with_lifetime(below, resolved_lifetime());
            assert(s.children == c);
            if below.len() == 0 {
                assert(c[0].kind == Kind::Lifetime);
            } else {
                assert(c[1].kind == Kind::Lifetime);
            }
            assert(names_lifetime(s));
            assert forall|i: int| 0 <= i < c.len() implies sanitized(#[trigger] c[i], interface)
                == c[i] by {
                if below.len() > 0 && i == 0 {
                    assert(c[i] == below[0]);
                } else if below.len() > 0 && i >= 2 {
                    assert(c[i] == below[i - 1]);
                } else {
                    assert(c[i] == marker);
                }
            }
            assert(sanitized_below(s, interface) =~= c);
        } else {
            assert(s.children == below);
            if n.kind == Kind::Reference {
                let w = choose|i: int|
                    0 <= i < n.children.len() && (#[trigger] n.children[i]).kind == Kind::Lifetime;
                assert(s.children[w].kind == Kind::Lifetime);
                assert(names_lifetime(s));
            }
            assert(sanitized_below(s, interface) =~= below);
        }
    }
}

/// Whether the node is a path segment that names `Self` or the interface.
pub fn is_self_segment(n: &Node, interface: &str) -> (r: bool)
    ensures
        r == self_segment(n@, interface@),
{
    if n.kind == Kind::Segment && n.children.len() > 0 {
        proof {
            lemma_child(*n, 0);
        }
        let first = &n.children[0];
        first.kind == Kind::Ident && (same(&first.text, "Self") || same(&first.text, interface))
    } else {
        false
    }
}

/// Puts a lifetime behind the first of the children of a borrowed type.
pub fn insert_lifetime(children: Vec<Node>, lifetime: &str) -> (r: Vec<Node>)
    ensures
        views(r@) == with_lifetime(views(children@), lifetime@),
{
    let mut out = children;
    let ghost before = out@;
    if out.len() == 0 {
        out.push(Node::lifetime(lifetime));
    } else {
        out.insert(1, Node::lifetime(lifetime));
    }
    assert(views(out@) =~= with_lifetime(views(before), lifetime@));
    out
}

/// Sanitizes a type. Returns the sanitized type, whether it named `Self` or
/// the interface, and whether the resolved lifetime was put somewhere.
pub fn sanitize(n: &Node, interface: &str) -> (r: (Node, bool, bool))
    ensures
        r.0@ == sanitized(n@, interface@),
        r.1 == self_named(n@, interface@),
        r.2 == lifetime_resolved(n@, interface@),
    decreases n,
{
    if n.kind == Kind::Object {
        return (n.clone(), false, false);
    }
    if is_self_segment(n, interface) {
        return (Node::segment("SelfTy", &no_nodes()), true, false);
    }
    let mut below: Vec<Node> = Vec::new();
    let mut named = false;
    let mut resolved = false;
    let mut i: usize = 0;
    while i < n.children.len()
        invariant
            i <= n.children.len(),
            below.len() == i,
            forall|j: int| 0 <= j < i ==> below[j]@ == sanitized(n.children[j]@, interface@),
            named == (exists|j: int| 0 <= j < i && self_named(#[trigger] n.children[j]@, interface@)),
            resolved == (exists|j: int|
                0 <= j < i && lifetime_resolved(#[trigger] n.children[j]@, interface@)),
        decreases n.children.len() - i,
    {
        let (c, a, b) = sanitize(&n.children[i], interface);
        below.push(c);
        named = named || a;
        resolved = resolved || b;
        i += 1;
    }
    proof {
        assert forall|j: int| 0 <= j < n.children.len() implies n@.children[j] == n.children[j]@ by {
            lemma_child(*n, j);
        }
        assert(views(below@) =~= sanitized_below(n@, interface@));
        if named {
            let j = choose|j: int|
                0 <= j < n.children.len() && self_named(#[trigger] n.children[j]@, interface@);
            assert(self_named(n@.children[j], interface@));
        }
        if resolved {
            let j = choose|j: int|
                0 <= j < n.children.len() && lifetime_resolved(
                    #[trigger] n.children[j]@,
                    interface@,
                );
            assert(lifetime_resolved(n@.children[j], interface@));
        }
    }
    let insert = n.kind == Kind::Reference && !has_lifetime(n);
    let anonymous = n.kind == Kind::Lifetime && same(&n.text, "_");
    let children = if insert {
        insert_lifetime(below, "default_lifetime")
    } else {
        below
    };
    let text = if anonymous {
        "default_lifetime".to_owned()
    } else {
        n.text.clone()
    };
    let r = Node { kind: n.kind, text, children };
    assert(r@.children =~= views(children@));
    (r, named, resolved || insert || anonymous)
}

/// The analysis of one asynchronous method of an interface.
///
/// `fields` are the types of the fields of the method's completion handle,
/// all sanitized; `poll_args` are the arguments with which the handle calls
/// the polling form of the method. `has_self` says whether a type of the
/// method needs the implementing type, `need_default_lifetime` whether the
/// resolved lifetime stands in one of the fields.
#[derive(PartialEq, Eq, Debug)]
pub struct MethodData {
    pub item: InterfaceDeclaration,
    pub m: MethodDeclaration,
    pub dynamic: bool,
    pub need_default_lifetime: bool,
    pub has_self: bool,
    pub fields: Vec<Node>,
    pub poll_args: Vec<Node>,
}

/// The mathematical value of [`MethodData`].
pub struct MethodDataView {
    pub item: InterfaceView,
    pub m: MethodView,
    pub dynamic: bool,
    pub need_default_lifetime: bool,
    pub has_self: bool,
    pub fields: Seq<NodeView>,
    pub poll_args: Seq<NodeView>,
}

impl View for MethodData {
    type V = MethodDataView;

    open spec fn view(&self) -> MethodDataView {
        MethodDataView {
            item: self.item@,
            m: self.m@,
            dynamic: self.dynamic,
            need_default_lifetime: self.need_default_lifetime,
            has_self: self.has_self,
            fields: views(self.fields@),
            poll_args: views(self.poll_args@),
        }
    }
}

impl Clone for MethodData {
    fn clone(&self) -> (r: MethodData)
        ensures
            r@ == self@,
    {
        MethodData {
            item: self.item.clone(),
            m: self.m.clone(),
            dynamic: self.dynamic,
            need_default_lifetime: self.need_default_lifetime,
            has_self: self.has_self,
            fields: clone_nodes(&self.fields),
            poll_args: clone_nodes(&self.poll_args),
        }
    }
}

/// The expression `this.position`.
pub open spec fn field_access(position: nat) -> NodeView {
    NodeView::tree(
        Kind::Group,
        seq![NodeView::ident("this"@), NodeView::punct("."@), NodeView::literal(decimal(position))],
    )
}

/// Builds the expression `this.position`.
pub fn make_field_access(position: usize) -> (r: Node)
    ensures
        r@ == field_access(position as nat),
{
    let mut out = no_nodes();
    push_ident(&mut out, "this");
    push_punct(&mut out, ".");
    push_node(&mut out, Node::literal(decimal_text(position).as_str()));
    assert(views(out@) =~= seq![
        NodeView::ident("this"@),
        NodeView::punct("."@),
        NodeView::literal(decimal(position as nat)),
    ]);
    Node::tree(Kind::Group, out)
}

/// The analysis after one more field of the given type: the sanitized type
/// is the new last field and, for a parameter, the access to that field is
/// the new last argument. The flags record what sanitizing did.
pub open spec fn with_param(d: MethodDataView, ty: NodeView, param: bool) -> MethodDataView {
    MethodDataView {
        need_default_lifetime: d.need_default_lifetime || lifetime_resolved(ty, d.item.name),
        has_self: d.has_self || self_named(ty, d.item.name),
        fields: d.fields.push(sanitized(ty, d.item.name)),
        poll_args: if param {
            d.poll_args.push(field_access(d.fields.len()))
        } else {
            d.poll_args
        },
        ..d
    }
}

/// The type that a receiver stands for, before it is sanitized: the
/// implementing type under static dispatch, `dyn` and the interface under
/// dynamic dispatch, borrowed as the receiver is.
pub open spec fn receiver_field(
    d: MethodDataView,
    reference: bool,
    lifetime: Option<Seq<char>>,
    mutable: bool,
) -> NodeView {
    let target = if d.dynamic {
        NodeView::tree(
            Kind::Object,
            seq![NodeView::ident("dyn"@), NodeView::named(d.item.name, Seq::empty())],
        )
    } else {
        NodeView::named(implementor(), Seq::empty())
    };
    if reference {
        NodeView::reference(lifetime, mutable, target)
    } else {
        target
    }
}

/// The analysis after a receiver: none where the receiver is taken by value
/// under dynamic dispatch; else one more field for the receiver, which under
/// static dispatch needs the implementing type.
pub open spec fn with_receiver(
    d: MethodDataView,
    reference: bool,
    lifetime: Option<Seq<char>>,
    mutable: bool,
) -> Option<MethodDataView> {
    if d.dynamic && !reference {
        None
    } else {
        Some(
            with_param(
                MethodDataView { has_self: d.has_self || !d.dynamic, ..d },
                receiver_field(d, reference, lifetime, mutable),
                true,
            ),
        )
    }
}

/// The analysis after one more parameter.
pub open spec fn with_arg(d: MethodDataView, a: FnArgView) -> Option<MethodDataView> {
    match a {
        FnArgView::Receiver { reference, lifetime, mutable } => with_receiver(
            d,
            reference,
            lifetime,
            mutable,
        ),
        FnArgView::Typed { ty, .. } => Some(with_param(d, ty, true)),
    }
}

/// The analysis after the parameters of a list, taken in their order; none
/// where one of them has none.
pub open spec fn with_args(d: MethodDataView, inputs: Seq<FnArgView>) -> Option<MethodDataView>
    decreases inputs.len(),
{
    if inputs.len() == 0 {
        Some(d)
    } else {
        match with_arg(d, inputs[0]) {
            Some(next) => with_args(next, inputs.skip(1)),
            None => None,
        }
    }
}

/// The marker type that keeps the implementing type mentioned:
/// `::core::marker::PhantomData<*const Self>`.
pub open spec fn self_marker() -> NodeView {
    phantom_type("Self"@)
}

/// The analysis of a method: none where it takes its receiver by value under
/// dynamic dispatch. Every parameter, the receiver included, gives a field
/// and an argument; the progress context `cx` is the last argument. Where
/// under static dispatch no type needed the implementing type, a marker
/// field follows that mentions it; `has_self` stays unset then.
pub open spec fn analysed(item: InterfaceView, m: MethodView, dynamic: bool) -> Option<
    MethodDataView,
> {
    let start = MethodDataView {
        item,
        m,
        dynamic,
        need_default_lifetime: false,
        has_self: false,
        fields: Seq::empty(),
        poll_args: Seq::empty(),
    };
    match with_args(start, m.inputs) {
        Some(d) => {
            let called = MethodDataView { poll_args: d.poll_args.push(NodeView::ident("cx"@)), ..d };
            if !called.has_self && !dynamic {
                Some(MethodDataView { has_self: false, ..with_param(called, self_marker(), false) })
            } else {
                Some(called)
            }
        },
        None => None,
    }
}

/// A type parameter of the given name, without bounds.
pub open spec fn type_param(name: Seq<char>) -> GenericParamView {
    GenericParamView { kind: ParamKind::Type, name, bounds: Seq::empty(), default: Seq::empty() }
}

/// The predicate `subject: bound`, both plain names.
pub open spec fn name_bound(subject: Seq<char>, bound: Seq<char>) -> WherePredicateView {
    WherePredicateView {
        subject: NodeView::named(subject, Seq::empty()),
        bounds: seq![NodeView::named(bound, Seq::empty())],
    }
}

/// Builds the predicate `subject: bound`.
pub fn make_name_bound(subject: &str, bound: &str) -> (r: WherePredicate)
    ensures
        r@ == name_bound(subject@, bound@),
{
    let mut bounds = no_nodes();
    push_node(&mut bounds, Node::named(bound, &no_nodes()));
    WherePredicate { subject: Node::named(subject, &no_nodes()), bounds }
}

/// A predicate with its subject sanitized.
pub open spec fn sanitized_predicate(p: WherePredicateView, interface: Seq<char>) -> WherePredicateView {
    WherePredicateView { subject: sanitized(p.subject, interface), bounds: p.bounds }
}

/// Every predicate of the list with its subject sanitized.
pub open spec fn sanitized_predicates(ps: Seq<WherePredicateView>, interface: Seq<char>) -> Seq<
    WherePredicateView,
> {
    Seq::new(ps.len(), |i: int| sanitized_predicate(ps[i], interface))
}

impl MethodDataView {
    /// Whether the generics hold the parameter for the implementing type.
    pub open spec fn needs_implementor(self) -> bool {
        self.has_self || !self.dynamic
    }

    /// The generic parameters of the method's handle: the lifetimes of the
    /// interface, then those of the method, then the resolved lifetime if it
    /// is used; the types of the interface, then those of the method, then
    /// the parameter for the implementing type if it is needed; the
    /// constants of the interface, then those of the method.
    pub open spec fn params(self) -> Seq<GenericParamView> {
        of_kind(self.item.generics.params, ParamKind::Lifetime) + of_kind(
            self.m.generics.params,
            ParamKind::Lifetime,
        ) + (if self.need_default_lifetime {
            seq![lifetime_param(resolved_lifetime())]
        } else {
            Seq::empty()
        }) + of_kind(self.item.generics.params, ParamKind::Type) + of_kind(
            self.m.generics.params,
            ParamKind::Type,
        ) + (if self.needs_implementor() {
            seq![type_param(implementor())]
        } else {
            Seq::empty()
        }) + of_kind(self.item.generics.params, ParamKind::Const) + of_kind(
            self.m.generics.params,
            ParamKind::Const,
        )
    }

    /// The predicates of the method's handle: those of the interface, then
    /// those of the method, then the one that binds the implementing type to
    /// the interface if that type is needed; the subject of each sanitized.
    pub open spec fn predicates(self) -> Seq<WherePredicateView> {
        sanitized_predicates(
            self.item.generics.predicates + self.m.generics.predicates + (if self.needs_implementor() {
                seq![name_bound("Self"@, self.item.name)]
            } else {
                Seq::empty()
            }),
            self.item.name,
        )
    }

    /// The unified generics of the method's handle.
    pub open spec fn generics(self) -> GenericsView {
        GenericsView { params: self.params(), predicates: self.predicates() }
    }

    /// The name of the method's handle.
    pub open spec fn handle(self) -> Seq<char> {
        future_name(self.item.name, self.m.name)
    }

    /// The polling form of the method: without `async`, named `poll_` and
    /// its name, with the progress context `cx` as its last parameter,
    /// returning the completion indicator around its declared return type.
    pub open spec fn pollified(self) -> MethodView {
        MethodView {
            asyncness: false,
            name: poll_name(self.m.name),
            inputs: self.m.inputs.push(context_arg("cx"@)),
            output: Some(poll_of(output_type(self.m.output))),
            ..self.m
        }
    }

    /// The record that is the method's handle.
    pub open spec fn record(self) -> ItemStructView {
        ItemStructView {
            doc: handle_doc(self.item, self.m),
            vis: self.item.vis,
            name: self.handle(),
            generics: self.generics(),
            fields: self.fields,
        }
    }

    /// The completion protocol of the method's handle: every argument of
    /// `poll_args`, converted by `.into()`, goes to the polling form.
    pub open spec fn protocol(self) -> FutureImplView {
        FutureImplView {
            generics: self.generics(),
            handle: self.handle(),
            output: output_type(self.m.output),
            receiver: if self.dynamic {
                None
            } else {
                Some(implementor())
            },
            interface: self.item.name,
            interface_args: Seq::empty(),
            method: poll_name(self.m.name),
            method_args: Seq::empty(),
            arguments: converted(self.poll_args),
        }
    }

    /// The alias that is the method's handle: generic over the names of the
    /// unified parameters, outliving each of their lifetimes.
    pub open spec fn alias(self) -> ItemTypeView {
        ItemTypeView {
            doc: handle_doc(self.item, self.m),
            vis: Seq::empty(),
            name: self.handle(),
            generics: GenericsView { params: unbounded(self.params()), predicates: Seq::empty() },
            output: output_type(self.m.output),
            outlives: param_args(of_kind(self.params(), ParamKind::Lifetime)),
        }
    }

    /// The type of the handle as the method returns it: the handle's name
    /// with the unified parameters as arguments, `Self` for the implementing
    /// type and `'_` for the resolved lifetime.
    pub open spec fn handle_type(self) -> NodeView {
        NodeView::named(self.handle(), type_args(restored(self.params())))
    }

    /// What every ergonomic form of the method shares: no `async`, under
    /// static dispatch the predicate `Self: Sized`, and the handle as the
    /// return type.
    pub open spec fn ergonomic(self) -> MethodView {
        MethodView {
            asyncness: false,
            generics: GenericsView {
                params: self.m.generics.params,
                predicates: self.m.generics.predicates + (if self.dynamic {
                    Seq::empty()
                } else {
                    seq![name_bound("Self"@, "Sized"@)]
                }),
            },
            output: Some(self.handle_type()),
            ..self.m
        }
    }

    /// The arguments from which the method builds its handle: the
    /// parameters in their order and, where the handle has the marker field,
    /// the marker value.
    pub open spec fn construct_args(self) -> Seq<NodeView> {
        call_args(self.m.inputs, None, 1) + (if self.has_self || self.dynamic {
            Seq::empty()
        } else {
            seq![phantom_value()]
        })
    }

    /// The parameters of the inner function of a provided method under
    /// dynamic dispatch.
    pub open spec fn inner_params(self) -> Seq<FnArgView> {
        Seq::new(
            self.m.inputs.len(),
            |i: int| inner_param(self.item, named_arg_at(self.m.inputs, i), receiver_name(self.m)),
        )
    }

    /// The inner function of a provided method under dynamic dispatch: the
    /// ergonomic form under the name `inner`, with an explicit receiver
    /// parameter, named by [`receiver_name`], whose body is the written block
    /// inside `async move { }` with every `self` renamed to that parameter,
    /// but for the nested items, in which `self` is another receiver.
    pub open spec fn inner(self) -> MethodView {
        MethodView {
            name: "inner"@,
            inputs: self.inner_params(),
            body: Some(
                inline_body(
                    renamed_outside_items_all(self.m.body->0, "self"@, receiver_name(self.m)),
                ),
            ),
            ..self.ergonomic()
        }
    }

    /// The ergonomic form of the method. Without content it is the
    /// declaration for the extension interface: no body, and no `mut` on a
    /// binding that is taken by value. With content it is the
    /// implementation: for a method without a body the handle built from the
    /// parameters; for a provided method under static dispatch the written
    /// body inside `async move { }`; under dynamic dispatch the inner
    /// function and one call of it with every parameter.
    pub open spec fn extified(self, with_content: bool) -> MethodView {
        if !with_content {
            MethodView { inputs: unmut_args(self.m.inputs), body: None, ..self.ergonomic() }
        } else if self.m.body is None {
            MethodView {
                inputs: named_args(self.m.inputs, None, 1),
                body: Some(
                    seq![
                        NodeView::ident(self.handle()),
                        NodeView::tree(
                            Kind::Paren,
                            NodeView::separated(self.construct_args(), NodeView::punct(","@)),
                        ),
                    ],
                ),
                ..self.ergonomic()
            }
        } else if !self.dynamic {
            MethodView { body: Some(inline_body(self.m.body->0)), ..self.ergonomic() }
        } else {
            MethodView {
                body: Some(
                    self.inner().tokens() + seq![
                        NodeView::ident("inner"@),
                        NodeView::tree(
                            Kind::Paren,
                            NodeView::separated(
                                call_args(self.m.inputs, None, 1),
                                NodeView::punct(","@),
                            ),
                        ),
                    ],
                ),
                ..self.ergonomic()
            }
        }
    }
}

/// The parameter at a position as the forwarding method declares it, with
/// positions counted from one.
pub open spec fn named_arg_at(inputs: Seq<FnArgView>, i: int) -> FnArgView {
    named_args(inputs, None, 1)[i]
}

/// The parameter of the inner function that stands for a parameter of the
/// method: for a borrowed receiver, `this`, a reference with the receiver's
/// lifetime and exclusiveness to the extension interface; for a receiver
/// taken by value, `this` of a type that implements the implementing type's
/// name; any other parameter as it is.
pub open spec fn inner_param(item: InterfaceView, a: FnArgView, this: Seq<char>) -> FnArgView {
    match a {
        FnArgView::Receiver { reference, lifetime, mutable } => FnArgView::Typed {
            pattern: plain_binding(this),
            ty: if reference {
                NodeView::reference(
                    lifetime,
                    mutable,
                    NodeView::tree(
                        Kind::Object,
                        seq![
                            NodeView::ident("dyn"@),
                            NodeView::named(ext_name(item.name), Seq::empty()),
                        ],
                    ),
                )
            } else {
                NodeView::tree(
                    Kind::Group,
                    seq![NodeView::ident("impl"@), NodeView::named(implementor(), Seq::empty())],
                )
            },
        },
        FnArgView::Typed { .. } => a,
    }
}

/// Each argument converted by `.into()`.
pub open spec fn converted(args: Seq<NodeView>) -> Seq<NodeView> {
    Seq::new(args.len(), |i: int| NodeView::tree(Kind::Group, seq![args[i]] + into_call()))
}

/// The parameters without bounds and defaults.
pub open spec fn unbounded(ps: Seq<GenericParamView>) -> Seq<GenericParamView> {
    Seq::new(
        ps.len(),
        |i: int| GenericParamView { bounds: Seq::empty(), default: Seq::empty(), ..ps[i] },
    )
}

/// A parameter under the name that a signature uses for it: `Self` for the
/// implementing type, `'_` for the resolved lifetime.
pub open spec fn restored_param(p: GenericParamView) -> GenericParamView {
    if p.kind == ParamKind::Type && p.name == implementor() {
        GenericParamView { name: "Self"@, ..p }
    } else if p.kind == ParamKind::Lifetime && p.name == resolved_lifetime() {
        GenericParamView { name: "_"@, ..p }
    } else {
        p
    }
}

/// Every parameter of the list under the name that a signature uses for it.
pub open spec fn restored(ps: Seq<GenericParamView>) -> Seq<GenericParamView> {
    Seq::new(ps.len(), |i: int| restored_param(ps[i]))
}

/// A parameter without the `mut` of a binding that is taken by value.
pub open spec fn unmut_arg(a: FnArgView) -> FnArgView {
    match a {
        FnArgView::Typed { pattern: PatternView::Binding { by_ref, mutable, name, rest }, ty } =>
            FnArgView::Typed {
            pattern: PatternView::Binding { by_ref, mutable: by_ref && mutable, name, rest },
            ty,
        },
        _ => a,
    }
}

/// Every parameter of the list without the `mut` of a binding taken by value.
pub open spec fn unmut_args(s: Seq<FnArgView>) -> Seq<FnArgView> {
    Seq::new(s.len(), |i: int| unmut_arg(s[i]))
}

/// Builds the parameter of the inner function for a parameter of the method.
pub fn make_inner_param(item: &InterfaceDeclaration, a: &FnArg, this: &str) -> (r: FnArg)
    ensures
        r@ == inner_param(item@, a@, this@),
{
    match a {
        FnArg::Receiver { reference, lifetime, mutable } => {
            let ty = if *reference {
                let mut object = no_nodes();
                push_ident(&mut object, "dyn");
                push_node(
                    &mut object,
                    Node::named(ext_ident(item.name.as_str()).as_str(), &no_nodes()),
                );
                assert(views(object@) =~= seq![
                    NodeView::ident("dyn"@),
                    NodeView::named(ext_name(item@.name), Seq::empty()),
                ]);
                Node::reference(lifetime, *mutable, Node::tree(Kind::Object, object))
            } else {
                let mut opaque = no_nodes();
                push_ident(&mut opaque, "impl");
                push_node(&mut opaque, Node::named("SelfTy", &no_nodes()));
                assert(views(opaque@) =~= seq![
                    NodeView::ident("impl"@),
                    NodeView::named(implementor(), Seq::empty()),
                ]);
                Node::tree(Kind::Group, opaque)
            };
            FnArg::Typed { pattern: bind(this), ty }
        },
        FnArg::Typed { .. } => a.clone(),
    }
}

/// Converts each argument by `.into()`.
pub fn make_converted(args: &Vec<Node>) -> (r: Vec<Node>)
    ensures
        views(r@) == converted(views(args@)),
{
    let mut out: Vec<Node> = Vec::new();
    let mut i: usize = 0;
    while i < args.len()
        invariant
            i <= args.len(),
            out.len() == i,
            forall|j: int|
                0 <= j < i ==> out[j]@ == NodeView::tree(Kind::Group, seq![args[j]@] + into_call()),
        decreases args.len() - i,
    {
        let mut call = no_nodes();
        push_node(&mut call, args[i].clone());
        assert(views(call@) =~= seq![args[i as int]@]);
        push_into_call(&mut call);
        out.push(Node::tree(Kind::Group, call));
        i += 1;
    }
    assert(views(out@) =~= converted(views(args@)));
    out
}

/// Copies the parameters without bounds and defaults.
pub fn make_unbounded(ps: &Vec<GenericParam>) -> (r: Vec<GenericParam>)
    ensures
        views(r@) == unbounded(views(ps@)),
{
    let mut out: Vec<GenericParam> = Vec::new();
    let mut i: usize = 0;
    while i < ps.len()
        invariant
            i <= ps.len(),
            out.len() == i,
            forall|j: int|
                0 <= j < i ==> out[j]@ == (GenericParamView {
                    bounds: Seq::empty(),
                    default: Seq::empty(),
                    ..ps[j]@
                }),
        decreases ps.len() - i,
    {
        out.push(
            GenericParam {
                kind: ps[i].kind,
                name: ps[i].name.clone(),
                bounds: no_nodes(),
                default: no_nodes(),
            },
        );
        i += 1;
    }
    assert(views(out@) =~= unbounded(views(ps@)));
    out
}

/// Copies the parameters under the names that a signature uses for them.
pub fn make_restored(ps: &Vec<GenericParam>) -> (r: Vec<GenericParam>)
    ensures
        views(r@) == restored(views(ps@)),
{
    let mut out: Vec<GenericParam> = Vec::new();
    let mut i: usize = 0;
    while i < ps.len()
        invariant
            i <= ps.len(),
            out.len() == i,
            forall|j: int| 0 <= j < i ==> out[j]@ == restored_param(ps[j]@),
        decreases ps.len() - i,
    {
        let mut p = ps[i].clone();
        if p.kind == ParamKind::Type && same(&p.name, "SelfTy") {
            p.name = "Self".to_owned();
        } else if p.kind == ParamKind::Lifetime && same(&p.name, "default_lifetime") {
            p.name = "_".to_owned();
        }
        out.push(p);
        i += 1;
    }
    assert(views(out@) =~= restored(views(ps@)));
    out
}

/// Copies the parameters without the `mut` of a binding taken by value.
pub fn make_unmut_args(inputs: &Vec<FnArg>) -> (r: Vec<FnArg>)
    ensures
        views(r@) == unmut_args(views(inputs@)),
{
    let mut out: Vec<FnArg> = Vec::new();
    let mut i: usize = 0;
    while i < inputs.len()
        invariant
            i <= inputs.len(),
            out.len() == i,
            forall|j: int| 0 <= j < i ==> out[j]@ == unmut_arg(inputs[j]@),
        decreases inputs.len() - i,
    {
        let a = match inputs[i].clone() {
            FnArg::Typed { pattern: Pattern::Binding { by_ref, mutable, name, rest }, ty } =>
                FnArg::Typed {
                pattern: Pattern::Binding { by_ref, mutable: by_ref && mutable, name, rest },
                ty,
            },
            other => other,
        };
        out.push(a);
        i += 1;
    }
    assert(views(out@) =~= unmut_args(views(inputs@)));
    out
}

/// Renames `self` in a body to the explicit receiver `this`, but for the
/// nested items of the body.
pub fn rename_self_to_this(b: &Vec<Node>, this: &str) -> (r: Vec<Node>)
    ensures
        views(r@) == renamed_outside_items_all(views(b@), "self"@, this@),
{
    rename_outside_items_all(b, "self", this)
}

impl MethodData {
    /// Analyses a method of an interface. Fails where the method takes its
    /// receiver by value under dynamic dispatch.
    pub fn new(item: InterfaceDeclaration, m: MethodDeclaration, dynamic: bool) -> (r: Result<
        MethodData,
        Problem,
    >)
        ensures
            match analysed(item@, m@, dynamic) {
                Some(d) => r matches Ok(x) && x@ == d,
                None => r matches Err(e) && e == Problem::OwnedSelf,
            },
    {
        let inputs = clone_args(&m.inputs);
        let ghost goal = analysed(item@, m@, dynamic);
        let mut s = MethodData {
            item,
            m,
            dynamic,
            need_default_lifetime: false,
            has_self: false,
            fields: no_nodes(),
            poll_args: no_nodes(),
        };
        let ghost start = s@;
        let ghost all = views(inputs@);
        assert(all.skip(0) =~= all);
        let mut i: usize = 0;
        while i < inputs.len()
            invariant
                i <= inputs.len(),
                all == views(inputs@),
                goal == analysed(item@, m@, dynamic),
                with_args(start, all) is None ==> goal is None,
                with_args(s@, all.skip(i as int)) == with_args(start, all),
                s@.item == start.item,
                s@.m == start.m,
                s.dynamic == dynamic,
            decreases inputs.len() - i,
        {
            assert(all.skip(i as int)[0] == inputs[i as int]@);
            assert(all.skip(i as int).skip(1) =~= all.skip(i + 1));
            let ghost before = s@;
            match &inputs[i] {
                FnArg::Receiver { reference, lifetime, mutable } => {
                    assert(with_arg(before, inputs[i as int]@) == with_receiver(
                        before,
                        *reference,
                        opt_view(*lifetime),
                        *mutable,
                    ));
                    match s.add_receiver(*reference, lifetime, *mutable) {
                        Ok(()) => {},
                        Err(e) => {
                            assert(with_args(before, all.skip(i as int)) is None);
                            return Err(e);
                        },
                    }
                },
                FnArg::Typed { ty, .. } => {
                    s.add_param(ty.clone(), true);
                },
            }
            i += 1;
        }
        push_ident(&mut s.poll_args, "cx");
        if !s.has_self && !dynamic {
            let marked = GenericParam {
                kind: ParamKind::Type,
                name: "Self".to_owned(),
                bounds: no_nodes(),
                default: no_nodes(),
            };
            s.add_param(make_phantom(&marked), false);
            s.has_self = false;
        }
        Ok(s)
    }

    /// The polling form of the method.
    pub fn pollify(&self) -> (r: MethodDeclaration)
        ensures
            r@ == self@.pollified(),
    {
        let mut item = self.m.clone();
        item.asyncness = false;
        item.name = poll_ident(self.m.name.as_str());
        let ghost before = views(item.inputs@);
        item.inputs.push(make_context_arg("cx"));
        assert(views(item.inputs@) =~= before.push(context_arg("cx"@)));
        item.output = Some(make_poll_of(make_output_type(&self.m.output)));
        item
    }

    /// The name of the method's handle.
    pub fn handle_name(&self) -> (r: String)
        ensures
            r@ == self@.handle(),
    {
        future_ident(self.item.name.as_str(), self.m.name.as_str())
    }

    /// The record that is the method's handle.
    pub fn future_struct(&self) -> (r: ItemStruct)
        ensures
            r@ == self@.record(),
    {
        ItemStruct {
            doc: make_handle_doc(&self.item, &self.m),
            vis: clone_nodes(&self.item.vis),
            name: self.handle_name(),
            generics: self.make_generics(),
            fields: clone_nodes(&self.fields),
        }
    }

    /// The ergonomic form of the method: the declaration for the extension
    /// interface, or with content its implementation.
    pub fn extify(&self, with_content: bool) -> (r: MethodDeclaration)
        ensures
            r@ == self@.extified(with_content),
    {
        let mut item = self.m.clone();
        item.asyncness = false;
        let ghost given = views(item.generics.predicates@);
        if !self.dynamic {
            item.generics.predicates.push(make_name_bound("Self", "Sized"));
            assert(views(item.generics.predicates@) =~= given + seq![name_bound("Self"@, "Sized"@)]);
        } else {
            assert(views(item.generics.predicates@) =~= given + Seq::empty());
        }
        let generics = self.make_generics();
        let restored = make_restored(&generics.params);
        let name = self.handle_name();
        item.output = Some(Node::named(name.as_str(), &type_generics(&restored)));
        assert(item@ == self@.ergonomic());
        if !with_content {
            item.inputs = make_unmut_args(&self.m.inputs);
            item.body = None;
        } else if !self.is_provided() {
            let (params, mut args) = name_args(&self.m.inputs, &None, true);
            item.inputs = params;
            let ghost named = views(args@);
            if !(self.has_self || self.dynamic) {
                push_node(&mut args, Node::core_path("marker", "PhantomData", &no_nodes()));
                assert(views(args@) =~= named + seq![phantom_value()]);
            } else {
                assert(views(args@) =~= named + Seq::empty());
            }
            let mut body = no_nodes();
            push_ident(&mut body, name.as_str());
            push_node(&mut body, Node::tree(Kind::Paren, Node::separated(&args, &Node::punct(","))));
            assert(views(body@) =~= seq![
                NodeView::ident(self@.handle()),
                NodeView::tree(
                    Kind::Paren,
                    NodeView::separated(self@.construct_args(), NodeView::punct(","@)),
                ),
            ]);
            item.body = Some(body);
        } else if !self.dynamic {
            let default = match &self.m.body {
                Some(b) => clone_nodes(b),
                None => no_nodes(),
            };
            item.body = Some(make_inline_body(default));
        } else {
            let this = make_receiver_name(&self.m);
            let default = match &self.m.body {
                Some(b) => rename_self_to_this(b, this.as_str()),
                None => no_nodes(),
            };
            let (named, args) = name_args(&self.m.inputs, &None, true);
            let mut params: Vec<FnArg> = Vec::new();
            let mut i: usize = 0;
            while i < named.len()
                invariant
                    i <= named.len(),
                    params.len() == i,
                    forall|j: int|
                        0 <= j < i ==> params[j]@ == inner_param(self.item@, named[j]@, this@),
                decreases named.len() - i,
            {
                params.push(make_inner_param(&self.item, &named[i], this.as_str()));
                i += 1;
            }
            assert(views(named@).len() == self@.m.inputs.len());
            assert forall|j: int| 0 <= j < named.len() implies #[trigger] self@.inner_params()[j]
                == inner_param(self.item@, named[j]@, this@) by {
                assert(views(named@)[j] == named[j]@);
            }
            assert(views(params@) =~= self@.inner_params());
            let mut inner = item.clone();
            inner.name = "inner".to_owned();
            inner.inputs = params;
            inner.body = Some(make_inline_body(default));
            assert(inner@ == self@.inner());
            let mut body = inner.to_tokens();
            let ghost first = views(body@);
            push_ident(&mut body, "inner");
            push_node(&mut body, Node::tree(Kind::Paren, Node::separated(&args, &Node::punct(","))));
            assert(views(body@) =~= first + seq![
                NodeView::ident("inner"@),
                NodeView::tree(
                    Kind::Paren,
                    NodeView::separated(call_args(self@.m.inputs, None, 1), NodeView::punct(","@)),
                ),
            ]);
            item.body = Some(body);
        }
        item
    }

    /// The completion protocol of the method's handle.
    pub fn implement_future(&self) -> (r: FutureImpl)
        ensures
            r@ == self@.protocol(),
    {
        FutureImpl {
            generics: self.make_generics(),
            handle: self.handle_name(),
            output: make_output_type(&self.m.output),
            receiver: if self.dynamic {
                None
            } else {
                Some("SelfTy".to_owned())
            },
            interface: self.item.name.clone(),
            interface_args: no_nodes(),
            method: poll_ident(self.m.name.as_str()),
            method_args: no_nodes(),
            arguments: make_converted(&self.poll_args),
        }
    }

    /// The alias that is the method's handle.
    pub fn future_type_alias(&self) -> (r: ItemType)
        ensures
            r@ == self@.alias(),
    {
        let generics = self.make_generics();
        let mut lifetimes: Vec<GenericParam> = Vec::new();
        assert(views(lifetimes@) =~= Seq::empty());
        select(&generics.params, ParamKind::Lifetime, &mut lifetimes);
        assert(views(lifetimes@) =~= of_kind(self@.params(), ParamKind::Lifetime));
        let predicates: Vec<WherePredicate> = Vec::new();
        assert(views(predicates@) =~= Seq::empty());
        ItemType {
            doc: make_handle_doc(&self.item, &self.m),
            vis: no_nodes(),
            name: self.handle_name(),
            generics: Generics { params: make_unbounded(&generics.params), predicates },
            output: make_output_type(&self.m.output),
            outlives: to_args(&lifetimes),
        }
    }

    /// Whether the method carries a body.
    pub fn is_provided(&self) -> (r: bool)
        ensures
            r == (self@.m.body is Some),
    {
        self.m.body.is_some()
    }

    /// The unified generics of the method's handle.
    pub fn make_generics(&self) -> (r: Generics)
        ensures
            r@ == self@.generics(),
    {
        let mut params: Vec<GenericParam> = Vec::new();
        assert(views(params@) =~= Seq::empty());
        select(&self.item.generics.params, ParamKind::Lifetime, &mut params);
        select(&self.m.generics.params, ParamKind::Lifetime, &mut params);
        let ghost a = views(params@);
        if self.need_default_lifetime {
            params.push(
                GenericParam {
                    kind: ParamKind::Lifetime,
                    name: "default_lifetime".to_owned(),
                    bounds: no_nodes(),
                    default: no_nodes(),
                },
            );
            assert(views(params@) =~= a + seq![lifetime_param(resolved_lifetime())]);
        } else {
            assert(views(params@) =~= a + Seq::empty());
        }
        select(&self.item.generics.params, ParamKind::Type, &mut params);
        select(&self.m.generics.params, ParamKind::Type, &mut params);
        let ghost b = views(params@);
        let needed = self.has_self || !self.dynamic;
        if needed {
            params.push(
                GenericParam {
                    kind: ParamKind::Type,
                    name: "SelfTy".to_owned(),
                    bounds: no_nodes(),
                    default: no_nodes(),
                },
            );
            assert(views(params@) =~= b + seq![type_param(implementor())]);
        } else {
            assert(views(params@) =~= b + Seq::empty());
        }
        select(&self.item.generics.params, ParamKind::Const, &mut params);
        select(&self.m.generics.params, ParamKind::Const, &mut params);
        assert(views(params@) == self@.params());
        let mut merged = clone_predicates(&self.item.generics.predicates);
        let mut more = clone_predicates(&self.m.generics.predicates);
        let ghost ours = merged@;
        let ghost theirs = more@;
        merged.append(&mut more);
        assert(views(ours + theirs) =~= views(ours) + views(theirs));
        let ghost c = views(merged@);
        if needed {
            merged.push(make_name_bound("Self", self.item.name.as_str()));
            assert(views(merged@) =~= c + seq![name_bound("Self"@, self@.item.name)]);
        } else {
            assert(views(merged@) =~= c + Seq::empty());
        }
        let mut predicates: Vec<WherePredicate> = Vec::new();
        let mut i: usize = 0;
        while i < merged.len()
            invariant
                i <= merged.len(),
                predicates.len() == i,
                forall|j: int|
                    0 <= j < i ==> predicates[j]@ == sanitized_predicate(
                        merged[j]@,
                        self@.item.name,
                    ),
            decreases merged.len() - i,
        {
            let (subject, _, _) = sanitize(&merged[i].subject, self.item.name.as_str());
            predicates.push(WherePredicate { subject, bounds: clone_nodes(&merged[i].bounds) });
            i += 1;
        }
        assert(views(predicates@) =~= sanitized_predicates(views(merged@), self@.item.name));
        Generics { params, predicates }
    }

    /// Adds the field and the argument for a receiver. Fails where the
    /// receiver is taken by value under dynamic dispatch, and changes
    /// nothing then.
    pub fn add_receiver(&mut self, reference: bool, lifetime: &Option<String>, mutable: bool) -> (r:
        Result<(), Problem>)
        ensures
            match with_receiver(old(self)@, reference, opt_view(*lifetime), mutable) {
                Some(d) => r is Ok && final(self)@ == d,
                None => r == Err::<(), Problem>(Problem::OwnedSelf) && final(self)@ == old(
                    self,
                )@,
            },
    {
        let ghost before = self@;
        let target = if !self.dynamic {
            Node::named("SelfTy", &no_nodes())
        } else {
            let mut object = no_nodes();
            push_ident(&mut object, "dyn");
            push_node(&mut object, Node::named(self.item.name.as_str(), &no_nodes()));
            assert(views(object@) =~= seq![
                NodeView::ident("dyn"@),
                NodeView::named(self@.item.name, Seq::empty()),
            ]);
            Node::tree(Kind::Object, object)
        };
        let ty = if reference {
            Node::reference(lifetime, mutable, target)
        } else if self.dynamic {
            return Err(Problem::OwnedSelf);
        } else {
            target
        };
        if !self.dynamic {
            self.has_self = true;
        }
        assert(self@ == (MethodDataView { has_self: before.has_self || !before.dynamic, ..before }));
        self.add_param(ty, true);
        Ok(())
    }

    /// Adds a field of the given type, sanitized, and for a parameter the
    /// argument that hands the field on.
    pub fn add_param(&mut self, ty: Node, param: bool)
        ensures
            final(self)@ == with_param(old(self)@, ty@, param),
    {
        let ghost before = self@;
        let ty = self.sanize_type(ty);
        if param {
            let idx = self.fields.len();
            push_node(&mut self.poll_args, make_field_access(idx));
        }
        push_node(&mut self.fields, ty);
    }

    /// Sanitizes a type and records what that did.
    pub fn sanize_type(&mut self, ty: Node) -> (r: Node)
        ensures
            r@ == sanitized(ty@, old(self)@.item.name),
            final(self)@ == (MethodDataView {
                need_default_lifetime: old(self)@.need_default_lifetime || lifetime_resolved(
                    ty@,
                    old(self)@.item.name,
                ),
                has_self: old(self)@.has_self || self_named(ty@, old(self)@.item.name),
                ..old(self)@
            }),
    {
        let (r, named, resolved) = sanitize(&ty, self.item.name.as_str());
        if named {
            self.has_self = true;
        }
        if resolved {
            self.need_default_lifetime = true;
        }
        r
    }
}

} // verus!
