//! The methods of the extension interface and of its implementation.

use crate::decl::{
    FnArg, FnArgView, InterfaceDeclaration, InterfaceView, MethodDeclaration, MethodView, Pattern,
    PatternView,
};
use crate::diagnostics::Collector;
use crate::input::{trait_input, TraitInput};
use crate::methods::expand::future_type::{
    make_field_types, marker_params, select_marked, select_unmentioned,
};
use crate::methods::expand::poll::{bind, plain_binding};
use crate::methods::expand::{
    cleaned, default_lifetime, placeholder, type_args, type_generics, unified,
    CleanUpMutPatternsExpand, GenericsExpand,
};
use crate::methods::future_type;
use crate::names::{arg_ident, arg_name, ext_ident, ext_name, future_name, same};
use crate::render::{
    arg_list, arg_nodes, args_to_list, args_to_nodes, output_to_tokens, predicates_to_clause,
    return_tokens, where_clause,
};
use crate::rewrite::{fresh_name, make_fresh_name, rename_all, renamed_all};
use crate::syntax::{
    append_nodes, clone_nodes, no_nodes, opt_view, push_ident, push_node, views, Kind, Node,
    NodeView,
};
use vstd::prelude::*;

verus! {

/// The type of the completion handle as a method returns it: the handle's
/// name with the unified parameters as arguments, an anonymous lifetime
/// where one was made up, and `Self` for the implementing type.
pub open spec fn handle_type(item: InterfaceView, m: MethodView) -> NodeView {
    NodeView::named(
        future_name(item.name, m.name),
        renamed_all(type_args(unified(item, m, "_"@).params), placeholder(), "Self"@),
    )
}

/// The ergonomic form of a method: an asynchronous method without `async`,
/// options and body, which returns its completion handle.
pub open spec fn ext_method(item: InterfaceView, m: MethodView) -> Option<MethodView> {
    if m.asyncness {
        Some(
            MethodView {
                options: Seq::empty(),
                asyncness: false,
                output: Some(handle_type(item, m)),
                body: None,
                ..m
            },
        )
    } else {
        None
    }
}

/// Writes the unified parameters as arguments, with `Self` for the
/// placeholder.
pub struct RenameSelfExpand;

impl RenameSelfExpand {
    /// Runs the expansion on `input`. Nothing is added to the collector's errors.
    pub fn expand(&self, input: &Vec<Node>, c: &mut Collector) -> (r: Option<Vec<Node>>)
        ensures
            *final(c) == *old(c),
            r matches Some(args) && views(args@) == renamed_all(
                views(input@),
                placeholder(),
                "Self"@,
            ),
    {
        Some(rename_all(input, "__Self", "Self"))
    }
}

/// Gives a method its ergonomic form.
pub struct ExtMethodExpand<'a>(pub &'a InterfaceDeclaration);

impl<'a> ExtMethodExpand<'a> {
    /// Runs the expansion on `input`. Nothing is added to the collector's errors.
    pub fn expand(&self, input: &MethodDeclaration, c: &mut Collector) -> (r: Option<
        MethodDeclaration,
    >)
        ensures
            *final(c) == *old(c),
            opt_view(r) == (if old(c).has_errors() {
                None
            } else {
                ext_method(self.0@, input@)
            }),
    {
        let mut item = input.clone();
        if !item.asyncness {
            return None;
        }
        item.asyncness = false;
        item.body = None;
        if c.has_errors() {
            return None;
        }
        let generics_expand = GenericsExpand { item: self.0, default_lifetime: "_".to_owned() };
        let generics = match generics_expand.expand(input, c) {
            Some(g) => g,
            None => {
                return None;
            },
        };
        let ty_generics = type_generics(&generics.params);
        let args = match RenameSelfExpand.expand(&ty_generics, c) {
            Some(a) => a,
            None => no_nodes(),
        };
        let name = future_type(self.0, input);
        item.output = Some(Node::named(name.as_str(), &args));
        item.options = Vec::new();
        assert(views(item.options@) =~= Seq::empty());
        Some(item)
    }
}

/// The name of a binding in a forwarding method: the name as written, but
/// the receiver's name for a binding called `self` where one is given.
pub open spec fn bound_name(name: Seq<char>, receiver: Option<Seq<char>>) -> Seq<char> {
    match receiver {
        Some(r) => if name == "self"@ {
            r
        } else {
            name
        },
        None => name,
    }
}

/// The expression that names a parameter in a forwarding call: `self` for a
/// receiver, the name of a binding, and a made-up name from the position
/// for any other pattern. Where a name for the receiver is given, a binding
/// called `self` is named by it.
pub open spec fn call_arg(a: FnArgView, position: nat, receiver: Option<Seq<char>>) -> NodeView {
    match a {
        FnArgView::Receiver { .. } => NodeView::ident("self"@),
        FnArgView::Typed { pattern: PatternView::Binding { name, .. }, .. } => NodeView::ident(
            bound_name(name, receiver),
        ),
        FnArgView::Typed { pattern: PatternView::Other(_), .. } => NodeView::ident(
            arg_name(position),
        ),
    }
}

/// The parameter as the forwarding method declares it: the pattern that
/// [`call_arg`] names.
pub open spec fn named_arg(a: FnArgView, position: nat, receiver: Option<Seq<char>>) -> FnArgView {
    match a {
        FnArgView::Receiver { .. } => a,
        FnArgView::Typed { pattern: PatternView::Binding { by_ref, mutable, name, rest }, ty } =>
            FnArgView::Typed {
            pattern: PatternView::Binding {
                by_ref,
                mutable,
                name: bound_name(name, receiver),
                rest,
            },
            ty,
        },
        FnArgView::Typed { pattern: PatternView::Other(_), ty } => FnArgView::Typed {
            pattern: plain_binding(arg_name(position)),
            ty,
        },
    }
}

/// The expressions that name the parameters, where the position of the
/// first parameter counts as `first`.
pub open spec fn call_args(
    inputs: Seq<FnArgView>,
    receiver: Option<Seq<char>>,
    first: nat,
) -> Seq<NodeView> {
    Seq::new(inputs.len(), |i: int| call_arg(inputs[i], (i + first) as nat, receiver))
}

/// The parameters as the forwarding method declares them, where the
/// position of the first parameter counts as `first`.
pub open spec fn named_args(
    inputs: Seq<FnArgView>,
    receiver: Option<Seq<char>>,
    first: nat,
) -> Seq<FnArgView> {
    Seq::new(inputs.len(), |i: int| named_arg(inputs[i], (i + first) as nat, receiver))
}

/// Names one parameter: the parameter as declared, and the expression that
/// names it.
pub fn name_arg(a: &FnArg, position: usize, receiver: &Option<String>) -> (r: (FnArg, Node))
    ensures
        r.0@ == named_arg(a@, position as nat, opt_view(*receiver)),
        r.1@ == call_arg(a@, position as nat, opt_view(*receiver)),
{
    match a {
        FnArg::Receiver { .. } => (a.clone(), Node::ident("self")),
        FnArg::Typed { pattern: Pattern::Binding { by_ref, mutable, name, rest }, ty } => {
            let name = match receiver {
                Some(r) => if same(name, "self") {
                    r.clone()
                } else {
                    name.clone()
                },
                None => name.clone(),
            };
            let arg = Node::ident(name.as_str());
            (
                FnArg::Typed {
                    pattern: Pattern::Binding {
                        by_ref: *by_ref,
                        mutable: *mutable,
                        name,
                        rest: clone_nodes(rest),
                    },
                    ty: ty.clone(),
                },
                arg,
            )
        },
        FnArg::Typed { pattern: Pattern::Other(_), ty } => {
            let name = arg_ident(position);
            (
                FnArg::Typed { pattern: bind(name.as_str()), ty: ty.clone() },
                Node::ident(name.as_str()),
            )
        },
    }
}

/// The number that the first position counts as.
pub open spec fn first_position(from_one: bool) -> nat {
    if from_one {
        1
    } else {
        0
    }
}

/// Names every parameter of a list, counting positions from one or from zero.
pub fn name_args(inputs: &Vec<FnArg>, receiver: &Option<String>, from_one: bool) -> (r: (
    Vec<FnArg>,
    Vec<Node>,
))
    ensures
        views(r.0@) == named_args(views(inputs@), opt_view(*receiver), first_position(from_one)),
        views(r.1@) == call_args(views(inputs@), opt_view(*receiver), first_position(from_one)),
{
    let ghost first = first_position(from_one);
    let mut params: Vec<FnArg> = Vec::new();
    let mut args: Vec<Node> = Vec::new();
    let mut i: usize = 0;
    while i < inputs.len()
        invariant
            i <= inputs.len(),
            params.len() == i,
            args.len() == i,
            first == first_position(from_one),
            forall|j: int|
                0 <= j < i ==> params[j]@ == named_arg(
                    inputs[j]@,
                    (j + first) as nat,
                    opt_view(*receiver),
                ),
            forall|j: int|
                0 <= j < i ==> args[j]@ == call_arg(
                    inputs[j]@,
                    (j + first) as nat,
                    opt_view(*receiver),
                ),
        decreases inputs.len() - i,
    {
        let position = if from_one {
            i + 1
        } else {
            i
        };
        let (p, a) = name_arg(&inputs[i], position, receiver);
        params.push(p);
        args.push(a);
        i += 1;
    }
    assert(views(params@) =~= named_args(views(inputs@), opt_view(*receiver), first));
    assert(views(args@) =~= call_args(views(inputs@), opt_view(*receiver), first));
    (params, args)
}

/// The marker value `::core::marker::PhantomData`.
pub open spec fn phantom_value() -> NodeView {
    NodeView::core_path("marker"@, "PhantomData"@, Seq::empty())
}

/// As many marker values as the handle has marker fields.
pub open spec fn phantom_values(count: nat) -> Seq<NodeView> {
    Seq::new(count, |i: int| phantom_value())
}

/// Builds `count` marker values.
pub fn make_phantom_values(count: usize) -> (r: Vec<Node>)
    ensures
        views(r@) == phantom_values(count as nat),
{
    let mut out: Vec<Node> = Vec::new();
    let mut i: usize = 0;
    while i < count
        invariant
            i <= count,
            out.len() == i,
            forall|j: int| 0 <= j < i ==> out[j]@ == phantom_value(),
        decreases count - i,
    {
        out.push(Node::core_path("marker", "PhantomData", &no_nodes()));
        i += 1;
    }
    assert(views(out@) =~= phantom_values(count as nat));
    out
}

/// The arguments from which a method builds its handle: the parameters in
/// their order, then one marker value for each marker field of the handle.
pub open spec fn construct_args(item: InterfaceView, m: MethodView) -> Seq<NodeView> {
    call_args(m.inputs, None, 0) + phantom_values(marker_params(item, m).len())
}

/// The body that builds the handle: the handle's name applied to
/// [`construct_args`].
pub open spec fn construct_body(item: InterfaceView, m: MethodView) -> Seq<NodeView> {
    seq![
        NodeView::ident(future_name(item.name, m.name)),
        NodeView::tree(
            Kind::Paren,
            NodeView::separated(construct_args(item, m), NodeView::punct(","@)),
        ),
    ]
}

/// The implementation of the ergonomic form of an asynchronous method
/// without a body: every parameter has a name, and the body builds the
/// handle from the parameters.
pub open spec fn ext_impl_method(item: InterfaceView, m: MethodView) -> Option<MethodView> {
    if m.asyncness && m.body is None {
        Some(
            MethodView {
                options: Seq::empty(),
                asyncness: false,
                inputs: named_args(m.inputs, None, 0),
                output: Some(handle_type(item, m)),
                body: Some(construct_body(item, m)),
                ..m
            },
        )
    } else {
        None
    }
}

/// Implements the ergonomic form of a method without a body.
pub struct MethodExtImplExpand<'a>(pub &'a InterfaceDeclaration);

impl<'a> MethodExtImplExpand<'a> {
    /// Runs the expansion on `input`. Nothing is added to the collector's errors.
    pub fn expand(&self, input: &MethodDeclaration, c: &mut Collector) -> (r: Option<
        MethodDeclaration,
    >)
        ensures
            *final(c) == *old(c),
            opt_view(r) == (if old(c).has_errors() {
                None
            } else {
                ext_impl_method(self.0@, input@)
            }),
    {
        if !input.asyncness {
            return None;
        }
        if input.body.is_some() {
            return None;
        }
        let mut item = match ExtMethodExpand(self.0).expand(input, c) {
            Some(m) => m,
            None => {
                return None;
            },
        };
        let (params, mut args) = name_args(&item.inputs, &None, false);
        item.inputs = params;
        let fields = make_field_types(self.0, &input.inputs);
        let generics_expand = GenericsExpand {
            item: self.0,
            default_lifetime: "__default_lifetime".to_owned(),
        };
        let generics = match generics_expand.expand(input, c) {
            Some(g) => g,
            None => {
                return None;
            },
        };
        let markers = select_unmentioned(&select_marked(&generics.params), &fields);
        assert(views(markers@).len() == markers.len());
        append_nodes(&mut args, make_phantom_values(markers.len()));
        let name = future_type(self.0, input);
        let mut body = no_nodes();
        push_ident(&mut body, name.as_str());
        push_node(&mut body, Node::tree(Kind::Paren, Node::separated(&args, &Node::punct(","))));
        assert(views(body@) =~= construct_body(self.0@, input@));
        item.body = Some(body);
        Some(item)
    }
}

/// A written block inside the braces of the body that holds it:
/// `{ { body } }`.
pub open spec fn nested_block(body: Seq<NodeView>) -> NodeView {
    NodeView::tree(Kind::Brace, seq![NodeView::tree(Kind::Brace, body)])
}

/// Puts a written block inside the braces of the body that holds it.
pub fn make_nested_block(body: Vec<Node>) -> (r: Node)
    ensures
        r@ == nested_block(views(body@)),
{
    let mut inner = no_nodes();
    push_node(&mut inner, Node::tree(Kind::Brace, body));
    Node::tree(Kind::Brace, inner)
}

/// The body of a provided method under static dispatch: the written block,
/// as it stands and with its own braces, inside `async move { }`.
pub open spec fn inline_body(body: Seq<NodeView>) -> Seq<NodeView> {
    seq![NodeView::ident("async"@), NodeView::ident("move"@), nested_block(body)]
}

/// Puts a written block inside `async move { }`.
pub fn make_inline_body(body: Vec<Node>) -> (r: Vec<Node>)
    ensures
        views(r@) == inline_body(views(body@)),
{
    let mut out = no_nodes();
    push_ident(&mut out, "async");
    push_ident(&mut out, "move");
    push_node(&mut out, make_nested_block(body));
    assert(views(out@) =~= inline_body(views(body@)));
    out
}

/// The implementation of a provided method under static dispatch: its
/// ergonomic form with the body of [`inline_body`].
pub open spec fn static_provided(item: InterfaceView, m: MethodView) -> Option<MethodView> {
    if !trait_input(item.options).dynamic && m.asyncness && m.body is Some {
        Some(
            MethodView {
                options: Seq::empty(),
                asyncness: false,
                output: Some(handle_type(item, m)),
                body: Some(inline_body(m.body->0)),
                ..m
            },
        )
    } else {
        None
    }
}

/// Implements a provided method under static dispatch.
pub struct StaticProvidedMethodImplExpand<'a>(pub &'a InterfaceDeclaration);

impl<'a> StaticProvidedMethodImplExpand<'a> {
    /// Runs the expansion on `input`. Nothing is added to the collector's errors.
    pub fn expand(&self, input: &MethodDeclaration, c: &mut Collector) -> (r: Option<
        MethodDeclaration,
    >)
        ensures
            *final(c) == *old(c),
            opt_view(r) == (if old(c).has_errors() {
                None
            } else {
                static_provided(self.0@, input@)
            }),
    {
        let attrs = TraitInput::from(&self.0.options);
        if attrs.dynamic {
            return None;
        }
        if !input.asyncness {
            return None;
        }
        let default = match &input.body {
            Some(b) => clone_nodes(b),
            None => {
                return None;
            },
        };
        let mut item = match ExtMethodExpand(self.0).expand(input, c) {
            Some(m) => m,
            None => {
                return None;
            },
        };
        item.body = Some(make_inline_body(default));
        Some(item)
    }
}

/// What a provided method binds: the tokens of its body and of its
/// parameters.
pub open spec fn scope(m: MethodView) -> Seq<NodeView> {
    (match m.body {
        Some(body) => body,
        None => Seq::empty(),
    }) + arg_nodes(m.inputs)
}

/// The name of the trampoline's explicit receiver: `this` where the method
/// uses that name neither among its parameters nor in its body, else a name
/// longer than every identifier that the method uses.
pub open spec fn receiver_name(m: MethodView) -> Seq<char> {
    fresh_name(scope(m), "this"@)
}

/// Chooses the name of the trampoline's explicit receiver.
pub fn make_receiver_name(m: &MethodDeclaration) -> (r: String)
    ensures
        r@ == receiver_name(m@),
{
    let mut scope = match &m.body {
        Some(body) => clone_nodes(body),
        None => no_nodes(),
    };
    append_nodes(&mut scope, args_to_nodes(&m.inputs));
    make_fresh_name(&scope, "this")
}

/// The parameter of the trampoline that stands for a parameter of the
/// method: for a receiver, the explicit receiver `this`, a reference to the
/// extension interface that is exclusive where the receiver is; any other
/// parameter as it is.
pub open spec fn trampoline_param(item: InterfaceView, a: FnArgView, this: Seq<char>) -> FnArgView {
    match a {
        FnArgView::Receiver { mutable, .. } => FnArgView::Typed {
            pattern: plain_binding(this),
            ty: NodeView::reference(
                None,
                mutable,
                NodeView::tree(
                    Kind::Object,
                    seq![NodeView::ident("dyn"@), NodeView::named(ext_name(item.name), Seq::empty())],
                ),
            ),
        },
        FnArgView::Typed { .. } => a,
    }
}

/// The parameters of the trampoline, one for each parameter of the method.
pub open spec fn trampoline_params(
    item: InterfaceView,
    inputs: Seq<FnArgView>,
    this: Seq<char>,
) -> Seq<FnArgView> {
    Seq::new(inputs.len(), |i: int| trampoline_param(item, inputs[i], this))
}

/// Builds the parameter of the trampoline for a parameter of the method.
pub fn make_trampoline_param(item: &InterfaceDeclaration, a: &FnArg, this: &str) -> (r: FnArg)
    ensures
        r@ == trampoline_param(item@, a@, this@),
{
    match a {
        FnArg::Receiver { mutable, .. } => {
            let mut object = no_nodes();
            push_ident(&mut object, "dyn");
            push_node(&mut object, Node::named(ext_ident(item.name.as_str()).as_str(), &no_nodes()));
            assert(views(object@) =~= seq![
                NodeView::ident("dyn"@),
                NodeView::named(ext_name(item@.name), Seq::empty()),
            ]);
            let none: Option<String> = None;
            FnArg::Typed {
                pattern: bind(this),
                ty: Node::reference(&none, *mutable, Node::tree(Kind::Object, object)),
            }
        },
        FnArg::Typed { .. } => a.clone(),
    }
}

/// The body of a provided method under dynamic dispatch: a free asynchronous
/// function `fn_impl`, and one call of it. The function has the unified
/// parameters, the parameters of [`trampoline_params`], the return type and
/// the predicates of the method; its body holds the written block, with its
/// own braces, in which every `self` is renamed to the explicit receiver of
/// [`receiver_name`]. The call hands it every parameter of the method.
pub open spec fn trampoline_body(item: InterfaceView, m: MethodView) -> Seq<NodeView> {
    let generics = unified(item, m, default_lifetime());
    let this = receiver_name(m);
    seq![NodeView::ident("async"@), NodeView::ident("fn"@), NodeView::ident("fn_impl"@)]
        + NodeView::angled(type_args(generics.params)).push(
        arg_list(trampoline_params(item, m.inputs, this)),
    ) + return_tokens(m.output) + where_clause(generics.predicates) + seq![
        nested_block(renamed_all(m.body->0, "self"@, this)),
        NodeView::ident("fn_impl"@),
        NodeView::tree(
            Kind::Paren,
            NodeView::separated(call_args(m.inputs, Some(this), 0), NodeView::punct(","@)),
        ),
    ]
}

/// The implementation of a provided method under dynamic dispatch: its
/// ergonomic form, every parameter named and without a needless `mut`, with
/// the body of [`trampoline_body`].
pub open spec fn dynamic_provided(item: InterfaceView, m: MethodView) -> Option<MethodView> {
    if trait_input(item.options).dynamic && m.asyncness && m.body is Some {
        Some(
            cleaned(
                MethodView {
                    options: Seq::empty(),
                    asyncness: false,
                    inputs: named_args(m.inputs, Some(receiver_name(m)), 0),
                    output: Some(handle_type(item, m)),
                    body: Some(trampoline_body(item, m)),
                    ..m
                },
            ),
        )
    } else {
        None
    }
}

/// Renames `self` to the explicit receiver in a body.
pub struct RenameselfExpand;

impl RenameselfExpand {
    /// Renames every `self` in the body to `this`.
    pub fn visit_block(&self, body: &Vec<Node>, this: &str) -> (r: Vec<Node>)
        ensures
            views(r@) == renamed_all(views(body@), "self"@, this@),
    {
        rename_all(body, "self", this)
    }
}

/// Implements a provided method under dynamic dispatch.
pub struct DynamicProvidedMethodImplExpand<'a>(pub &'a InterfaceDeclaration);

impl<'a> DynamicProvidedMethodImplExpand<'a> {
    /// Runs the expansion on `input`. Nothing is added to the collector's errors.
    pub fn expand(&self, input: &MethodDeclaration, c: &mut Collector) -> (r: Option<
        MethodDeclaration,
    >)
        ensures
            *final(c) == *old(c),
            opt_view(r) == (if old(c).has_errors() {
                None
            } else {
                dynamic_provided(self.0@, input@)
            }),
    {
        let attrs = TraitInput::from(&self.0.options);
        if !attrs.dynamic {
            return None;
        }
        if !input.asyncness {
            return None;
        }
        let this = make_receiver_name(input);
        let default = match &input.body {
            Some(b) => RenameselfExpand.visit_block(b, this.as_str()),
            None => {
                return None;
            },
        };
        let mut item = match ExtMethodExpand(self.0).expand(input, c) {
            Some(m) => m,
            None => {
                return None;
            },
        };
        let mut params: Vec<FnArg> = Vec::new();
        let mut i: usize = 0;
        while i < input.inputs.len()
            invariant
                i <= input.inputs.len(),
                params.len() == i,
                forall|j: int|
                    0 <= j < i ==> params[j]@ == trampoline_param(
                        self.0@,
                        input.inputs[j]@,
                        this@,
                    ),
            decreases input.inputs.len() - i,
        {
            params.push(make_trampoline_param(self.0, &input.inputs[i], this.as_str()));
            i += 1;
        }
        assert(views(params@) =~= trampoline_params(self.0@, input@.inputs, this@));
        let receiver = Some(this);
        let (named, args) = name_args(&item.inputs, &receiver, false);
        item.inputs = named;
        let generics_expand = GenericsExpand {
            item: self.0,
            default_lifetime: "__default_lifetime".to_owned(),
        };
        let generics = match generics_expand.expand(input, c) {
            Some(g) => g,
            None => {
                return None;
            },
        };
        let mut body = no_nodes();
        push_ident(&mut body, "async");
        push_ident(&mut body, "fn");
        push_ident(&mut body, "fn_impl");
        assert(views(body@) =~= seq![
            NodeView::ident("async"@),
            NodeView::ident("fn"@),
            NodeView::ident("fn_impl"@),
        ]);
        append_nodes(&mut body, Node::angled(&type_generics(&generics.params)));
        push_node(&mut body, args_to_list(&params));
        append_nodes(&mut body, output_to_tokens(&input.output));
        append_nodes(&mut body, predicates_to_clause(&generics.predicates));
        let ghost a = views(body@);
        push_node(&mut body, make_nested_block(default));
        push_ident(&mut body, "fn_impl");
        push_node(&mut body, Node::tree(Kind::Paren, Node::separated(&args, &Node::punct(","))));
        assert(views(body@) =~= a + seq![
            nested_block(renamed_all(input@.body->0, "self"@, receiver_name(input@))),
            NodeView::ident("fn_impl"@),
            NodeView::tree(
                Kind::Paren,
                NodeView::separated(
                    call_args(input@.inputs, Some(receiver_name(input@)), 0),
                    NodeView::punct(","@),
                ),
            ),
        ]);
        item.body = Some(body);
        CleanUpMutPatternsExpand.expand(&item, c)
    }
}

} // verus!
