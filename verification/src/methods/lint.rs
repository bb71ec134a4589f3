//! The check of the methods of an interface.

use crate::decl::{
    FnArg, FnArgView, InterfaceDeclaration, InterfaceView, MethodDeclaration, MethodView,
    TraitItem, TraitItemView,
};
use crate::diagnostics::{Collector, Diagnostic, Problem};
use crate::input::{method_input, trait_input, MethodInput, TraitInput};
use crate::syntax::views;
use crate::traits::lint::{lint_options, option_errors};
use vstd::prelude::*;

verus! {

/// Whether the first parameter of a method is a receiver taken by value.
pub open spec fn owned_receiver(m: MethodView) -> bool {
    m.inputs.len() > 0 && (m.inputs[0] matches FnArgView::Receiver { reference, .. } && !reference)
}

/// Whether the first parameter of a method is a receiver taken by value.
pub fn has_owned_receiver(m: &MethodDeclaration) -> (r: bool)
    ensures
        r == owned_receiver(m@),
{
    if m.inputs.len() == 0 {
        return false;
    }
    assert(m@.inputs[0] == m.inputs[0]@);
    match &m.inputs[0] {
        FnArg::Receiver { reference, .. } => !*reference,
        FnArg::Typed { .. } => false,
    }
}

/// What is wrong between the `provided` marker and the body of a method.
pub open spec fn marker_errors(m: MethodView, position: usize) -> Seq<Diagnostic> {
    if !method_input(m.options).provided && m.body is Some {
        seq![Diagnostic { problem: Problem::UnmarkedBody, item: Some(position) }]
    } else if method_input(m.options).provided && m.body is None {
        seq![Diagnostic { problem: Problem::MissingBody, item: Some(position) }]
    } else {
        Seq::empty()
    }
}

/// The diagnostics of one method, the item at `position`: a receiver taken
/// by value under dynamic dispatch; every option that is not the bare flag
/// `provided`; and, where all options are recognised, a marker that does not
/// match the presence of a body.
pub open spec fn method_errors(dynamic: bool, m: MethodView, position: usize) -> Seq<Diagnostic> {
    (if dynamic && owned_receiver(m) {
        seq![Diagnostic { problem: Problem::OwnedReceiver, item: Some(position) }]
    } else {
        Seq::empty()
    }) + option_errors(m.options, "provided"@, Some(position)) + (if option_errors(
        m.options,
        "provided"@,
        Some(position),
    ).len() == 0 {
        marker_errors(m, position)
    } else {
        Seq::empty()
    })
}

/// The diagnostics of the item at `position`.
pub open spec fn item_errors(dynamic: bool, item: TraitItemView, position: usize) -> Seq<Diagnostic> {
    match item {
        TraitItemView::Method(m) => method_errors(dynamic, m, position),
        TraitItemView::Other(_) => Seq::empty(),
    }
}

/// The diagnostics of the items, in the order of the items.
pub open spec fn items_errors(dynamic: bool, items: Seq<TraitItemView>) -> Seq<Diagnostic>
    decreases items.len(),
{
    if items.len() == 0 {
        Seq::empty()
    } else {
        items_errors(dynamic, items.drop_last()) + item_errors(
            dynamic,
            items.last(),
            (items.len() - 1) as usize,
        )
    }
}

/// The diagnostics of the methods of an interface.
pub open spec fn method_lint(item: InterfaceView) -> Seq<Diagnostic> {
    items_errors(trait_input(item.options).dynamic, item.items)
}

/// Reports what is wrong with one method, the item at `position`.
pub fn lint_method(dynamic: bool, m: &MethodDeclaration, position: usize, c: &mut Collector)
    ensures
        final(c).errors@ == old(c).errors@ + method_errors(dynamic, m@, position),
        final(c).output == old(c).output,
{
    let ghost before = c.errors@;
    if dynamic && has_owned_receiver(m) {
        c.error(Diagnostic { problem: Problem::OwnedReceiver, item: Some(position) });
    }
    let ghost first = c.errors@;
    if lint_options(&m.options, "provided", Some(position), c) {
        let marked = MethodInput::from(&m.options);
        if !marked.provided && m.body.is_some() {
            c.error(Diagnostic { problem: Problem::UnmarkedBody, item: Some(position) });
        } else if marked.provided && m.body.is_none() {
            c.error(Diagnostic { problem: Problem::MissingBody, item: Some(position) });
        }
    }
    assert(c.errors@ =~= before + method_errors(dynamic, m@, position));
}

/// Checks the methods of an interface: no receiver taken by value under
/// dynamic dispatch, only recognised options, and a body exactly where the
/// method is marked `provided`. Every violation is reported.
pub struct MethodAttrLint;

impl MethodAttrLint {
    /// Reports every violation to the collector.
    pub fn lint(&self, input: &InterfaceDeclaration, c: &mut Collector)
        ensures
            final(c).errors@ == old(c).errors@ + method_lint(input@),
            final(c).output == old(c).output,
    {
        let attrs = TraitInput::from(&input.options);
        let ghost all = views(input.items@);
        let ghost start = c.errors@;
        let mut i: usize = 0;
        assert(all.take(0) =~= Seq::empty());
        assert(c.errors@ =~= start + Seq::empty());
        while i < input.items.len()
            invariant
                i <= input.items.len(),
                all == views(input.items@),
                c.errors@ == start + items_errors(attrs.dynamic, all.take(i as int)),
                c.output == old(c).output,
            decreases input.items.len() - i,
        {
            assert(all.take(i + 1).drop_last() =~= all.take(i as int));
            assert(all.take(i + 1).last() == input.items[i as int]@);
            let ghost before = c.errors@;
            if let TraitItem::Method(m) = &input.items[i] {
                lint_method(attrs.dynamic, m, i, c);
            }
            assert(c.errors@ =~= start + items_errors(attrs.dynamic, all.take(i + 1)));
            i += 1;
        }
        assert(all.take(input.items.len() as int) =~= all);
    }
}

} // verus!
