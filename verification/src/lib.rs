//! Lowering of interfaces with asynchronous methods.
//!
//! An interface declaration whose methods may be asynchronous is turned into
//! a lowered interface of polling methods, an extension interface that gives
//! the asynchronous calling surface back, and one completion handle per
//! asynchronous method.

pub mod decl;
pub mod diagnostics;
pub mod impls;
pub mod input;
pub mod items;
pub mod laws;
pub mod method;
pub mod methods;
pub mod names;
pub mod render;
pub mod rewrite;
pub mod syntax;
pub mod text;
pub mod trait_data;
pub mod traits;

use crate::decl::{InterfaceDeclaration, InterfaceView};
use crate::diagnostics::{outcome_view, Collector, Diagnostic};
use crate::impls::expand::{extension_impl, ImplExtTraitExpand};
use crate::methods::lint::{method_lint, MethodAttrLint};
use crate::names::{ext_ident, ext_name};
use crate::syntax::{views, Node, NodeView};
use crate::traits::expand::{
    extension, handles, lowered, ExtensionTraitExpand, PollTraitExpand,
};
use crate::traits::lint::{option_errors, AttributeLint};
use vstd::prelude::*;

verus! {

/// The name of the extension interface of an interface.
pub fn ext_trait_name(input: &InterfaceDeclaration) -> (r: String)
    ensures
        r@ == ext_name(input@.name),
{
    ext_ident(input.name.as_str())
}

/// Every diagnostic of an interface: those of its options, then those of
/// its methods.
pub open spec fn diagnostics(item: InterfaceView) -> Seq<Diagnostic> {
    option_errors(item.options, "dynamic"@, None) + method_lint(item)
}

/// What is emitted for a valid interface: the lowered interface, the
/// completion handles, the extension interface and its implementation.
pub open spec fn emitted(item: InterfaceView) -> Seq<NodeView> {
    lowered(item, false).tokens() + handles(item, item.items) + extension(item, false).tokens()
        + extension_impl(item, false).tokens()
}

/// The outcome of expanding an interface: all that is emitted where nothing
/// is wrong, else all diagnostics and no output.
pub open spec fn expansion(item: InterfaceView) -> Result<Seq<NodeView>, Seq<Diagnostic>> {
    if diagnostics(item).len() == 0 {
        Ok(emitted(item))
    } else {
        Err(diagnostics(item))
    }
}

/// Expands an interface.
pub fn async_trait_ext(item: &InterfaceDeclaration) -> (r: Result<Vec<Node>, Vec<Diagnostic>>)
    ensures
        outcome_view(r) == expansion(item@),
{
    let mut collector = Collector::new();
    AttributeLint.lint(item, &mut collector);
    MethodAttrLint.lint(item, &mut collector);
    assert(collector.errors@ =~= diagnostics(item@));
    if !collector.has_errors() {
        if let Some(t) = PollTraitExpand.expand(item, &mut collector) {
            collector.emit(t.to_tokens());
        }
    }
    if !collector.has_errors() {
        if let Some(t) = ExtensionTraitExpand.expand(item, &mut collector) {
            collector.emit(t.to_tokens());
        }
    }
    if !collector.has_errors() {
        if let Some(t) = ImplExtTraitExpand.expand(item, &mut collector) {
            collector.emit(t.to_tokens());
        }
    }
    proof {
        if diagnostics(item@).len() == 0 {
            assert(views(collector.output@) =~= emitted(item@));
        }
    }
    collector.finish()
}

} // verus!
