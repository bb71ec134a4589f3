//! The generated items: completion handles and implementations.

use crate::decl::{Generics, GenericsView, MethodDeclaration, MethodView};
use crate::methods::expand::{type_args, type_generics};
use crate::names::{append_str, decimal, decimal_text};
use crate::render::{
    method_tokens, methods_to_tokens, param_list, params_to_list, predicates_to_clause,
    where_clause,
};
use crate::syntax::{
    append_nodes, clone_nodes, no_nodes, opt_view, push_ident, push_node, push_punct, views, Kind,
    Node, NodeView,
};
use vstd::prelude::*;

verus! {

/// A string literal with the given content.
pub open spec fn quoted(text: Seq<char>) -> NodeView {
    NodeView::literal("\""@ + text + "\""@)
}

/// The attribute `#[doc = "text"]`.
pub open spec fn doc_attr(text: Seq<char>) -> Seq<NodeView> {
    seq![
        NodeView::punct("#"@),
        NodeView::tree(
            Kind::Bracket,
            seq![NodeView::ident("doc"@), NodeView::punct("="@), quoted(text)],
        ),
    ]
}

/// Builds the attribute that [`doc_attr`] describes.
pub fn make_doc_attr(text: &str) -> (r: Vec<Node>)
    ensures
        views(r@) == doc_attr(text@),
{
    let literal = append_str(append_str("\"", text).as_str(), "\"");
    let mut inner = no_nodes();
    push_ident(&mut inner, "doc");
    push_punct(&mut inner, "=");
    push_node(&mut inner, Node::literal(literal.as_str()));
    let mut out = no_nodes();
    push_punct(&mut out, "#");
    push_node(&mut out, Node::tree(Kind::Bracket, inner));
    assert(views(inner@) =~= seq![NodeView::ident("doc"@), NodeView::punct("="@), quoted(text@)]);
    assert(views(out@) =~= doc_attr(text@));
    out
}

/// The generic arguments of a call: nothing where there are none, else `::`
/// and the arguments between `<` and `>`.
pub open spec fn turbofish(args: Seq<NodeView>) -> Seq<NodeView> {
    if args.len() == 0 {
        Seq::empty()
    } else {
        seq![NodeView::punct("::"@)] + NodeView::angled(args)
    }
}

/// Builds the generic arguments of a call.
pub fn make_turbofish(args: &Vec<Node>) -> (r: Vec<Node>)
    ensures
        views(r@) == turbofish(views(args@)),
{
    let mut out = no_nodes();
    if args.len() > 0 {
        push_punct(&mut out, "::");
        append_nodes(&mut out, Node::angled(args));
        assert(views(out@) =~= turbofish(views(args@)));
    }
    out
}

/// A completion handle as a record: a tuple struct.
#[derive(PartialEq, Eq, Debug)]
pub struct ItemStruct {
    pub doc: String,
    pub vis: Vec<Node>,
    pub name: String,
    pub generics: Generics,
    pub fields: Vec<Node>,
}

/// The mathematical value of [`ItemStruct`].
pub struct ItemStructView {
    pub doc: Seq<char>,
    pub vis: Seq<NodeView>,
    pub name: Seq<char>,
    pub generics: GenericsView,
    pub fields: Seq<NodeView>,
}

impl View for ItemStruct {
    type V = ItemStructView;

    open spec fn view(&self) -> ItemStructView {
        ItemStructView {
            doc: self.doc@,
            vis: views(self.vis@),
            name: self.name@,
            generics: self.generics@,
            fields: views(self.fields@),
        }
    }
}

impl ItemStructView {
    /// The tokens of the item.
    pub open spec fn tokens(self) -> Seq<NodeView> {
        doc_attr(self.doc) + self.vis + seq![
            NodeView::ident("struct"@),
            NodeView::ident(self.name),
        ] + param_list(self.generics.params, false).push(
            NodeView::tree(Kind::Paren, NodeView::separated(self.fields, NodeView::punct(","@))),
        ) + where_clause(self.generics.predicates).push(NodeView::punct(";"@))
    }
}

impl ItemStruct {
    /// Writes the item as tokens.
    pub fn to_tokens(&self) -> (r: Vec<Node>)
        ensures
            views(r@) == self@.tokens(),
    {
        let mut out = make_doc_attr(self.doc.as_str());
        append_nodes(&mut out, clone_nodes(&self.vis));
        let ghost a = views(out@);
        push_ident(&mut out, "struct");
        push_ident(&mut out, self.name.as_str());
        assert(views(out@) =~= a + seq![NodeView::ident("struct"@), NodeView::ident(self@.name)]);
        append_nodes(&mut out, params_to_list(&self.generics.params, false));
        push_node(
            &mut out,
            Node::tree(Kind::Paren, Node::separated(&self.fields, &Node::punct(","))),
        );
        append_nodes(&mut out, predicates_to_clause(&self.generics.predicates));
        push_punct(&mut out, ";");
        out
    }
}

/// A completion handle as an opaque alias: a name for whatever type the
/// asynchronous body has, known only to complete with `output`.
#[derive(PartialEq, Eq, Debug)]
pub struct ItemType {
    pub doc: String,
    pub vis: Vec<Node>,
    pub name: String,
    pub generics: Generics,
    pub output: Node,
    pub outlives: Vec<Node>,
}

/// The mathematical value of [`ItemType`].
pub struct ItemTypeView {
    pub doc: Seq<char>,
    pub vis: Seq<NodeView>,
    pub name: Seq<char>,
    pub generics: GenericsView,
    pub output: NodeView,
    pub outlives: Seq<NodeView>,
}

impl View for ItemType {
    type V = ItemTypeView;

    open spec fn view(&self) -> ItemTypeView {
        ItemTypeView {
            doc: self.doc@,
            vis: views(self.vis@),
            name: self.name@,
            generics: self.generics@,
            output: self.output@,
            outlives: views(self.outlives@),
        }
    }
}

/// The bound `::core::future::Future<Output = output>`.
pub open spec fn future_bound(output: NodeView) -> NodeView {
    NodeView::core_path(
        "future"@,
        "Future"@,
        seq![
            NodeView::tree(
                Kind::Group,
                seq![NodeView::ident("Output"@), NodeView::punct("="@), output],
            ),
        ],
    )
}

/// Builds the bound that [`future_bound`] describes.
pub fn make_future_bound(output: Node) -> (r: Node)
    ensures
        r@ == future_bound(output@),
{
    let mut binding = no_nodes();
    push_ident(&mut binding, "Output");
    push_punct(&mut binding, "=");
    push_node(&mut binding, output);
    assert(views(binding@) =~= seq![NodeView::ident("Output"@), NodeView::punct("="@), output@]);
    let mut args = no_nodes();
    push_node(&mut args, Node::tree(Kind::Group, binding));
    Node::core_path("future", "Future", &args)
}

/// Each of the items with a `+` before it.
pub open spec fn plus_each(items: Seq<NodeView>) -> Seq<NodeView>
    decreases items.len(),
{
    if items.len() == 0 {
        Seq::empty()
    } else {
        plus_each(items.drop_last()).push(NodeView::punct("+"@)).push(items.last())
    }
}

/// Puts a `+` before each of the items.
pub fn make_plus_each(items: &Vec<Node>) -> (r: Vec<Node>)
    ensures
        views(r@) == plus_each(views(items@)),
{
    let mut out = no_nodes();
    let ghost all = views(items@);
    let mut i: usize = 0;
    assert(all.take(0) =~= Seq::empty());
    while i < items.len()
        invariant
            i <= items.len(),
            all == views(items@),
            views(out@) == plus_each(all.take(i as int)),
        decreases items.len() - i,
    {
        assert(all.take(i + 1).drop_last() =~= all.take(i as int));
        assert(all.take(i + 1).last() == items[i as int]@);
        push_punct(&mut out, "+");
        push_node(&mut out, items[i].clone());
        i += 1;
    }
    assert(all.take(items.len() as int) =~= all);
    out
}

impl ItemTypeView {
    /// The tokens of the item. The predicates stand before the `=`.
    pub open spec fn tokens(self) -> Seq<NodeView> {
        doc_attr(self.doc) + self.vis + seq![
            NodeView::ident("type"@),
            NodeView::ident(self.name),
        ] + param_list(self.generics.params, false) + where_clause(self.generics.predicates)
            + seq![NodeView::punct("="@), NodeView::ident("impl"@), future_bound(self.output)]
            + plus_each(self.outlives).push(NodeView::punct(";"@))
    }
}

impl ItemType {
    /// Writes the item as tokens.
    pub fn to_tokens(&self) -> (r: Vec<Node>)
        ensures
            views(r@) == self@.tokens(),
    {
        let mut out = make_doc_attr(self.doc.as_str());
        append_nodes(&mut out, clone_nodes(&self.vis));
        let ghost a = views(out@);
        push_ident(&mut out, "type");
        push_ident(&mut out, self.name.as_str());
        assert(views(out@) =~= a + seq![NodeView::ident("type"@), NodeView::ident(self@.name)]);
        append_nodes(&mut out, params_to_list(&self.generics.params, false));
        append_nodes(&mut out, predicates_to_clause(&self.generics.predicates));
        let ghost b = views(out@);
        push_punct(&mut out, "=");
        push_ident(&mut out, "impl");
        push_node(&mut out, make_future_bound(self.output.clone()));
        assert(views(out@) =~= b + seq![
            NodeView::punct("="@),
            NodeView::ident("impl"@),
            future_bound(self@.output),
        ]);
        append_nodes(&mut out, make_plus_each(&self.outlives));
        push_punct(&mut out, ";");
        out
    }
}

/// The implementation of the completion protocol for a handle.
///
/// Its one operation binds the handle to `this`, calls `method` of
/// `interface` on `arguments`, and returns what that call returns. The call
/// goes through `receiver` where one is given, and through the interface's
/// name alone where none is.
#[derive(PartialEq, Eq, Debug)]
pub struct FutureImpl {
    pub generics: Generics,
    pub handle: String,
    pub output: Node,
    pub receiver: Option<String>,
    pub interface: String,
    pub interface_args: Vec<Node>,
    pub method: String,
    pub method_args: Vec<Node>,
    pub arguments: Vec<Node>,
}

/// The mathematical value of [`FutureImpl`].
pub struct FutureImplView {
    pub generics: GenericsView,
    pub handle: Seq<char>,
    pub output: NodeView,
    pub receiver: Option<Seq<char>>,
    pub interface: Seq<char>,
    pub interface_args: Seq<NodeView>,
    pub method: Seq<char>,
    pub method_args: Seq<NodeView>,
    pub arguments: Seq<NodeView>,
}

impl View for FutureImpl {
    type V = FutureImplView;

    open spec fn view(&self) -> FutureImplView {
        FutureImplView {
            generics: self.generics@,
            handle: self.handle@,
            output: self.output@,
            receiver: opt_view(self.receiver),
            interface: self.interface@,
            interface_args: views(self.interface_args@),
            method: self.method@,
            method_args: views(self.method_args@),
            arguments: views(self.arguments@),
        }
    }
}

/// The call `.into()`.
pub open spec fn into_call() -> Seq<NodeView> {
    seq![
        NodeView::punct("."@),
        NodeView::ident("into"@),
        NodeView::tree(Kind::Paren, Seq::empty()),
    ]
}

/// The expression `this.position.into()`.
pub open spec fn forwarded_field(position: nat) -> NodeView {
    NodeView::tree(
        Kind::Group,
        seq![NodeView::ident("this"@), NodeView::punct("."@), NodeView::literal(decimal(position))]
            + into_call(),
    )
}

/// The first `count` fields, each forwarded by [`forwarded_field`].
pub open spec fn forwarded_fields(count: nat) -> Seq<NodeView> {
    Seq::new(count, |i: int| forwarded_field(i as nat))
}

/// The arguments that forward a handle: the first `count` fields in their
/// order, each by [`forwarded_field`], then the progress context `cx`.
pub open spec fn forwarded(count: nat) -> Seq<NodeView> {
    forwarded_fields(count).push(NodeView::ident("cx"@))
}

impl FutureImplView {
    /// The function that is called: `<receiver as interface>::method`, or
    /// `interface::method`, each name with its generic arguments.
    pub open spec fn callee(self) -> NodeView {
        let interface = NodeView::tree(
            Kind::Group,
            seq![NodeView::ident(self.interface)] + turbofish(self.interface_args),
        );
        NodeView::tree(
            Kind::Group,
            (match self.receiver {
                Some(r) => seq![
                    NodeView::punct("<"@),
                    NodeView::ident(r),
                    NodeView::ident("as"@),
                    interface,
                    NodeView::punct(">"@),
                ],
                None => seq![interface],
            }) + seq![NodeView::punct("::"@), NodeView::ident(self.method)] + turbofish(
                self.method_args,
            ),
        )
    }

    /// The body of the one operation: `let this = &mut *self;` and the call,
    /// whose value is the value of the body.
    pub open spec fn body(self) -> Seq<NodeView> {
        seq![
            NodeView::ident("let"@),
            NodeView::ident("this"@),
            NodeView::punct("="@),
            NodeView::punct("&"@),
            NodeView::ident("mut"@),
            NodeView::punct("*"@),
            NodeView::ident("self"@),
            NodeView::punct(";"@),
            self.callee(),
            NodeView::tree(
                Kind::Paren,
                NodeView::separated(self.arguments, NodeView::punct(","@)),
            ),
        ]
    }

    /// The tokens of the item.
    pub open spec fn tokens(self) -> Seq<NodeView> {
        seq![NodeView::ident("impl"@)] + param_list(self.generics.params, false) + seq![
            NodeView::core_path("future"@, "Future"@, Seq::empty()),
            NodeView::ident("for"@),
            NodeView::named(self.handle, type_args(self.generics.params)),
        ] + where_clause(self.generics.predicates).push(
            NodeView::tree(
                Kind::Brace,
                seq![
                    NodeView::ident("type"@),
                    NodeView::ident("Output"@),
                    NodeView::punct("="@),
                    self.output,
                    NodeView::punct(";"@),
                    NodeView::ident("fn"@),
                    NodeView::ident("poll"@),
                    poll_params(),
                    NodeView::punct("->"@),
                    poll_result(),
                    NodeView::tree(Kind::Brace, self.body()),
                ],
            ),
        )
    }
}

/// The parameters of the one operation:
/// `(mut self: ::core::pin::Pin<&mut Self>, cx: &mut ::core::task::Context)`.
pub open spec fn poll_params() -> NodeView {
    NodeView::tree(
        Kind::Paren,
        seq![
            NodeView::ident("mut"@),
            NodeView::ident("self"@),
            NodeView::punct(":"@),
            NodeView::core_path(
                "pin"@,
                "Pin"@,
                seq![NodeView::reference(None, true, NodeView::named("Self"@, Seq::empty()))],
            ),
            NodeView::punct(","@),
            NodeView::ident("cx"@),
            NodeView::punct(":"@),
            NodeView::reference(None, true, NodeView::core_path("task"@, "Context"@, Seq::empty())),
        ],
    )
}

/// The result of the one operation: `::core::task::Poll<Self::Output>`.
pub open spec fn poll_result() -> NodeView {
    NodeView::core_path(
        "task"@,
        "Poll"@,
        seq![
            NodeView::tree(
                Kind::Group,
                seq![
                    NodeView::segment("Self"@, Seq::empty()),
                    NodeView::punct("::"@),
                    NodeView::segment("Output"@, Seq::empty()),
                ],
            ),
        ],
    )
}

/// Builds the parameters of the one operation.
pub fn make_poll_params() -> (r: Node)
    ensures
        r@ == poll_params(),
{
    let none: Option<String> = None;
    let mut pinned = no_nodes();
    push_node(&mut pinned, Node::reference(&none, true, Node::named("Self", &no_nodes())));
    let mut out = no_nodes();
    push_ident(&mut out, "mut");
    push_ident(&mut out, "self");
    push_punct(&mut out, ":");
    push_node(&mut out, Node::core_path("pin", "Pin", &pinned));
    push_punct(&mut out, ",");
    push_ident(&mut out, "cx");
    push_punct(&mut out, ":");
    push_node(&mut out, Node::reference(&none, true, Node::core_path("task", "Context", &no_nodes())));
    assert(views(out@) =~= poll_params().children);
    Node::tree(Kind::Paren, out)
}

/// Builds the result of the one operation.
pub fn make_poll_result() -> (r: Node)
    ensures
        r@ == poll_result(),
{
    let mut path = no_nodes();
    push_node(&mut path, Node::segment("Self", &no_nodes()));
    push_punct(&mut path, "::");
    push_node(&mut path, Node::segment("Output", &no_nodes()));
    assert(views(path@) =~= seq![
        NodeView::segment("Self"@, Seq::empty()),
        NodeView::punct("::"@),
        NodeView::segment("Output"@, Seq::empty()),
    ]);
    let mut args = no_nodes();
    push_node(&mut args, Node::tree(Kind::Group, path));
    Node::core_path("task", "Poll", &args)
}

/// Appends the call `.into()` to `out`.
pub fn push_into_call(out: &mut Vec<Node>)
    ensures
        views(final(out)@) == views(old(out)@) + into_call(),
{
    let ghost before = views(out@);
    push_punct(out, ".");
    push_ident(out, "into");
    push_node(out, Node::tree(Kind::Paren, no_nodes()));
    assert(views(out@) =~= before + into_call());
}

/// Builds the expression `this.position.into()`.
pub fn make_forwarded_field(position: usize) -> (r: Node)
    ensures
        r@ == forwarded_field(position as nat),
{
    let mut out = no_nodes();
    push_ident(&mut out, "this");
    push_punct(&mut out, ".");
    push_node(&mut out, Node::literal(decimal_text(position).as_str()));
    assert(views(out@) =~= seq![
        NodeView::ident("this"@),
        NodeView::punct("."@),
        NodeView::literal(decimal(position as nat)),
    ]);
    push_into_call(&mut out);
    Node::tree(Kind::Group, out)
}

/// Builds the arguments that forward a handle with `count` fields.
pub fn make_forwarded(count: usize) -> (r: Vec<Node>)
    ensures
        views(r@) == forwarded(count as nat),
{
    let mut out: Vec<Node> = Vec::new();
    let mut i: usize = 0;
    while i < count
        invariant
            i <= count,
            out.len() == i,
            forall|j: int| 0 <= j < i ==> out[j]@ == forwarded_field(j as nat),
        decreases count - i,
    {
        out.push(make_forwarded_field(i));
        i += 1;
    }
    assert(views(out@) =~= forwarded_fields(count as nat));
    push_ident(&mut out, "cx");
    out
}

impl FutureImpl {
    /// Builds the function that is called.
    pub fn make_callee(&self) -> (r: Node)
        ensures
            r@ == self@.callee(),
    {
        let mut path = no_nodes();
        push_ident(&mut path, self.interface.as_str());
        append_nodes(&mut path, make_turbofish(&self.interface_args));
        assert(views(path@) =~= seq![NodeView::ident(self@.interface)] + turbofish(
            self@.interface_args,
        ));
        let interface = Node::tree(Kind::Group, path);
        let ghost iv = interface@;
        let mut out = no_nodes();
        match &self.receiver {
            Some(r) => {
                push_punct(&mut out, "<");
                push_ident(&mut out, r.as_str());
                push_ident(&mut out, "as");
                push_node(&mut out, interface);
                push_punct(&mut out, ">");
                assert(views(out@) =~= seq![
                    NodeView::punct("<"@),
                    NodeView::ident(r@),
                    NodeView::ident("as"@),
                    iv,
                    NodeView::punct(">"@),
                ]);
            },
            None => {
                push_node(&mut out, interface);
                assert(views(out@) =~= seq![iv]);
            },
        }
        let ghost a = views(out@);
        push_punct(&mut out, "::");
        push_ident(&mut out, self.method.as_str());
        assert(views(out@) =~= a + seq![NodeView::punct("::"@), NodeView::ident(self@.method)]);
        append_nodes(&mut out, make_turbofish(&self.method_args));
        Node::tree(Kind::Group, out)
    }

    /// Builds the body of the one operation.
    pub fn make_body(&self) -> (r: Vec<Node>)
        ensures
            views(r@) == self@.body(),
    {
        let mut out = no_nodes();
        push_ident(&mut out, "let");
        push_ident(&mut out, "this");
        push_punct(&mut out, "=");
        push_punct(&mut out, "&");
        push_ident(&mut out, "mut");
        push_punct(&mut out, "*");
        push_ident(&mut out, "self");
        push_punct(&mut out, ";");
        push_node(&mut out, self.make_callee());
        push_node(
            &mut out,
            Node::tree(Kind::Paren, Node::separated(&self.arguments, &Node::punct(","))),
        );
        assert(views(out@) =~= self@.body());
        out
    }

    /// Writes the item as tokens.
    pub fn to_tokens(&self) -> (r: Vec<Node>)
        ensures
            views(r@) == self@.tokens(),
    {
        let mut inner = no_nodes();
        push_ident(&mut inner, "type");
        push_ident(&mut inner, "Output");
        push_punct(&mut inner, "=");
        push_node(&mut inner, self.output.clone());
        push_punct(&mut inner, ";");
        push_ident(&mut inner, "fn");
        push_ident(&mut inner, "poll");
        push_node(&mut inner, make_poll_params());
        push_punct(&mut inner, "->");
        push_node(&mut inner, make_poll_result());
        push_node(&mut inner, Node::tree(Kind::Brace, self.make_body()));
        assert(views(inner@) =~= seq![
            NodeView::ident("type"@),
            NodeView::ident("Output"@),
            NodeView::punct("="@),
            self@.output,
            NodeView::punct(";"@),
            NodeView::ident("fn"@),
            NodeView::ident("poll"@),
            poll_params(),
            NodeView::punct("->"@),
            poll_result(),
            NodeView::tree(Kind::Brace, self@.body()),
        ]);
        let mut out = no_nodes();
        push_ident(&mut out, "impl");
        assert(views(out@) =~= seq![NodeView::ident("impl"@)]);
        append_nodes(&mut out, params_to_list(&self.generics.params, false));
        let ghost a = views(out@);
        push_node(&mut out, Node::core_path("future", "Future", &no_nodes()));
        push_ident(&mut out, "for");
        push_node(
            &mut out,
            Node::named(self.handle.as_str(), &type_generics(&self.generics.params)),
        );
        assert(views(out@) =~= a + seq![
            NodeView::core_path("future"@, "Future"@, Seq::empty()),
            NodeView::ident("for"@),
            NodeView::named(self@.handle, type_args(self@.generics.params)),
        ]);
        append_nodes(&mut out, predicates_to_clause(&self.generics.predicates));
        push_node(&mut out, Node::tree(Kind::Brace, inner));
        out
    }
}

/// The implementation of the extension interface for every type that
/// implements the interface: `impl<param: interface> extension for param`.
#[derive(PartialEq, Eq, Debug)]
pub struct ExtensionImpl {
    pub param: String,
    pub interface: String,
    pub extension: String,
    pub methods: Vec<MethodDeclaration>,
}

/// The mathematical value of [`ExtensionImpl`].
pub struct ExtensionImplView {
    pub param: Seq<char>,
    pub interface: Seq<char>,
    pub extension: Seq<char>,
    pub methods: Seq<MethodView>,
}

impl View for ExtensionImpl {
    type V = ExtensionImplView;

    open spec fn view(&self) -> ExtensionImplView {
        ExtensionImplView {
            param: self.param@,
            interface: self.interface@,
            extension: self.extension@,
            methods: views(self.methods@),
        }
    }
}

impl ExtensionImplView {
    /// The tokens of the item.
    pub open spec fn tokens(self) -> Seq<NodeView> {
        seq![
            NodeView::ident("impl"@),
            NodeView::punct("<"@),
            NodeView::ident(self.param),
            NodeView::punct(":"@),
            NodeView::ident(self.interface),
            NodeView::punct(">"@),
            NodeView::ident(self.extension),
            NodeView::ident("for"@),
            NodeView::ident(self.param),
            NodeView::tree(Kind::Brace, method_tokens(self.methods)),
        ]
    }
}

impl ExtensionImpl {
    /// Writes the item as tokens.
    pub fn to_tokens(&self) -> (r: Vec<Node>)
        ensures
            views(r@) == self@.tokens(),
    {
        let mut out = no_nodes();
        push_ident(&mut out, "impl");
        push_punct(&mut out, "<");
        push_ident(&mut out, self.param.as_str());
        push_punct(&mut out, ":");
        push_ident(&mut out, self.interface.as_str());
        push_punct(&mut out, ">");
        push_ident(&mut out, self.extension.as_str());
        push_ident(&mut out, "for");
        push_ident(&mut out, self.param.as_str());
        push_node(&mut out, Node::tree(Kind::Brace, methods_to_tokens(&self.methods)));
        assert(views(out@) =~= self@.tokens());
        out
    }
}

} // verus!
