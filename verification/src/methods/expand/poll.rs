//! The polling form of a method.

use crate::decl::{
    FnArg, FnArgView, InterfaceDeclaration, MethodDeclaration, MethodView, Pattern, PatternView,
};
use crate::diagnostics::Collector;
use crate::input::{method_input, MethodInput};
use crate::names::{poll_ident, poll_name};
use crate::syntax::{no_nodes, opt_view, push_node, views, Node, NodeView};
use vstd::prelude::*;

verus! {

/// The pattern that binds `name` and nothing else.
pub open spec fn plain_binding(name: Seq<char>) -> PatternView {
    PatternView::Binding { by_ref: false, mutable: false, name, rest: Seq::empty() }
}

/// Builds the pattern that binds `name` and nothing else.
pub fn bind(name: &str) -> (r: Pattern)
    ensures
        r@ == plain_binding(name@),
{
    Pattern::Binding { by_ref: false, mutable: false, name: name.to_owned(), rest: no_nodes() }
}

/// The parameter that carries the progress context:
/// `name: &mut ::core::task::Context`.
pub open spec fn context_arg(name: Seq<char>) -> FnArgView {
    FnArgView::Typed {
        pattern: plain_binding(name),
        ty: NodeView::reference(
            None,
            true,
            NodeView::core_path("task"@, "Context"@, Seq::empty()),
        ),
    }
}

/// Builds the parameter that carries the progress context.
pub fn make_context_arg(name: &str) -> (r: FnArg)
    ensures
        r@ == context_arg(name@),
{
    let none: Option<String> = None;
    FnArg::Typed {
        pattern: bind(name),
        ty: Node::reference(&none, true, Node::core_path("task", "Context", &no_nodes())),
    }
}

/// The declared return type, `()` where none is written.
pub open spec fn output_type(output: Option<NodeView>) -> NodeView {
    match output {
        Some(ty) => ty,
        None => NodeView::unit(),
    }
}

/// The declared return type, `()` where none is written.
pub fn make_output_type(output: &Option<Node>) -> (r: Node)
    ensures
        r@ == output_type(opt_view(*output)),
{
    match output {
        Some(ty) => ty.clone(),
        None => Node::unit(),
    }
}

/// The completion indicator around a type: `::core::task::Poll<ty>`.
pub open spec fn poll_of(ty: NodeView) -> NodeView {
    NodeView::core_path("task"@, "Poll"@, seq![ty])
}

/// Builds the completion indicator around a type.
pub fn make_poll_of(ty: Node) -> (r: Node)
    ensures
        r@ == poll_of(ty@),
{
    let mut args = no_nodes();
    push_node(&mut args, ty);
    Node::core_path("task", "Poll", &args)
}

/// The polling form of a method.
///
/// A method that is not asynchronous only loses its options. An
/// asynchronous method that is not provided loses `async`, is renamed to
/// `poll_` and its name, gets the progress context as its last parameter,
/// and returns the completion indicator around its declared return type.
/// A provided method has no polling form.
pub open spec fn polled(m: MethodView) -> Option<MethodView> {
    if !m.asyncness {
        Some(MethodView { options: Seq::empty(), ..m })
    } else if !method_input(m.options).provided {
        Some(
            MethodView {
                options: Seq::empty(),
                asyncness: false,
                name: poll_name(m.name),
                inputs: m.inputs.push(context_arg("ctx"@)),
                output: Some(poll_of(output_type(m.output))),
                ..m
            },
        )
    } else {
        None
    }
}

/// Lowers an asynchronous method to its polling form.
pub struct PollMethodExpand<'a>(pub &'a InterfaceDeclaration);

impl<'a> PollMethodExpand<'a> {
    /// Runs the expansion on `input`. Nothing is added to the collector's errors.
    pub fn expand(&self, input: &MethodDeclaration, c: &mut Collector) -> (r: Option<
        MethodDeclaration,
    >)
        ensures
            *final(c) == *old(c),
            opt_view(r) == polled(input@),
    {
        let mut item = input.clone();
        let attrs = MethodInput::from(&item.options);
        if item.asyncness {
            if !attrs.provided {
                item.asyncness = false;
                item.name = poll_ident(input.name.as_str());
                let ghost before = views(item.inputs@);
                item.inputs.push(make_context_arg("ctx"));
                assert(views(item.inputs@) =~= before.push(context_arg("ctx"@)));
                item.output = Some(make_poll_of(make_output_type(&input.output)));
            } else {
                return None;
            }
        }
        item.options = Vec::new();
        assert(views(item.options@) =~= Seq::empty());
        Some(item)
    }
}

} // verus!
