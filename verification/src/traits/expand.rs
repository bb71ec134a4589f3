//! The lowered interface and the extension interface.

use crate::decl::{InterfaceDeclaration, InterfaceView, MethodView, TraitItem, TraitItemView};
use crate::diagnostics::Collector;
use crate::input::{trait_input, TraitInput};
use crate::items::{FutureImplView, ItemStructView, ItemTypeView};
use crate::methods::expand::ext::{ext_method, ExtMethodExpand};
use crate::methods::expand::future_type::{
    handle_alias, handle_struct, FutureAliasExpand, FutureStructExpand,
};
use crate::methods::expand::impls::{handle_impl, ImplFutureExpand};
use crate::methods::expand::poll::{polled, PollMethodExpand};
use crate::methods::expand::{cleaned, CleanUpMutPatternsExpand};
use crate::names::{ext_ident, ext_name};
use crate::syntax::{clone_nodes, no_nodes, push_node, views, Node, NodeView};
use vstd::prelude::*;

verus! {

/// A method as the lowered interface holds it: the polling form, without
/// needless `mut`, of a method that has one; a provided method as it is,
/// without its options.
pub open spec fn lowered_method(m: MethodView) -> MethodView {
    match polled(m) {
        Some(p) => cleaned(p),
        None => MethodView { options: Seq::empty(), ..m },
    }
}

/// The items of the lowered interface: every method lowered by
/// [`lowered_method`], every other item as it is. Once an error has been
/// reported no method is lowered, and none is kept.
pub open spec fn lowered_items(items: Seq<TraitItemView>, errors: bool) -> Seq<TraitItemView>
    decreases items.len(),
{
    if items.len() == 0 {
        Seq::empty()
    } else {
        let rest = lowered_items(items.drop_last(), errors);
        match items.last() {
            TraitItemView::Method(m) => if errors {
                rest
            } else {
                rest.push(TraitItemView::Method(lowered_method(m)))
            },
            TraitItemView::Other(tokens) => rest.push(TraitItemView::Other(tokens)),
        }
    }
}

/// The lowered interface: the interface without its options, with the items
/// of [`lowered_items`].
pub open spec fn lowered(item: InterfaceView, errors: bool) -> InterfaceView {
    InterfaceView { options: Seq::empty(), items: lowered_items(item.items, errors), ..item }
}

/// Lowers an interface to its polling form.
pub struct PollTraitExpand;

impl PollTraitExpand {
    /// Runs the expansion on `input`. Nothing is added to the collector's errors.
    pub fn expand(&self, input: &InterfaceDeclaration, c: &mut Collector) -> (r: Option<
        InterfaceDeclaration,
    >)
        ensures
            *final(c) == *old(c),
            r matches Some(t) && t@ == lowered(input@, old(c).has_errors()),
    {
        let mut item = input.clone();
        let errors = c.has_errors();
        let ghost all = views(input.items@);
        let mut items: Vec<TraitItem> = Vec::new();
        let mut i: usize = 0;
        assert(all.take(0) =~= Seq::empty());
        assert(views(items@) =~= Seq::empty());
        while i < input.items.len()
            invariant
                i <= input.items.len(),
                all == views(input.items@),
                *c == *old(c),
                errors == old(c).has_errors(),
                views(items@) == lowered_items(all.take(i as int), errors),
            decreases input.items.len() - i,
        {
            assert(all.take(i + 1).drop_last() =~= all.take(i as int));
            assert(all.take(i + 1).last() == input.items[i as int]@);
            let ghost before = views(items@);
            match &input.items[i] {
                TraitItem::Method(m) => {
                    if !errors {
                        let method = match PollMethodExpand(input).expand(m, c) {
                            Some(p) => {
                                match CleanUpMutPatternsExpand.expand(&p, c) {
                                    Some(tidy) => tidy,
                                    None => p,
                                }
                            },
                            None => {
                                let mut kept = m.clone();
                                kept.options = Vec::new();
                                assert(views(kept.options@) =~= Seq::empty());
                                kept
                            },
                        };
                        items.push(TraitItem::Method(method));
                        assert(views(items@) =~= before.push(
                            TraitItemView::Method(lowered_method(m@)),
                        ));
                    }
                },
                TraitItem::Other(tokens) => {
                    items.push(TraitItem::Other(clone_nodes(tokens)));
                    assert(views(items@) =~= before.push(TraitItemView::Other(views(tokens@))));
                },
            }
            i += 1;
        }
        assert(all.take(input.items.len() as int) =~= all);
        item.items = items;
        item.options = Vec::new();
        assert(views(item.options@) =~= Seq::empty());
        Some(item)
    }
}

/// The tokens of an optional record.
pub open spec fn struct_tokens(o: Option<ItemStructView>) -> Seq<NodeView> {
    match o {
        Some(s) => s.tokens(),
        None => Seq::empty(),
    }
}

/// The tokens of an optional completion protocol.
pub open spec fn impl_tokens(o: Option<FutureImplView>) -> Seq<NodeView> {
    match o {
        Some(s) => s.tokens(),
        None => Seq::empty(),
    }
}

/// The tokens of an optional alias.
pub open spec fn alias_tokens(o: Option<ItemTypeView>) -> Seq<NodeView> {
    match o {
        Some(s) => s.tokens(),
        None => Seq::empty(),
    }
}

/// What is emitted for the completion handle of a method: the record and
/// its completion protocol for a method without a body, the alias for a
/// provided one, nothing for a method that is not asynchronous.
pub open spec fn handle_tokens(item: InterfaceView, m: MethodView) -> Seq<NodeView> {
    struct_tokens(handle_struct(item, m)) + impl_tokens(handle_impl(item, m)) + alias_tokens(
        handle_alias(item, m),
    )
}

/// What is emitted for the completion handles of the methods among the
/// items, in the order of the items.
pub open spec fn handles(item: InterfaceView, items: Seq<TraitItemView>) -> Seq<NodeView>
    decreases items.len(),
{
    if items.len() == 0 {
        Seq::empty()
    } else {
        handles(item, items.drop_last()) + (match items.last() {
            TraitItemView::Method(m) => handle_tokens(item, m),
            TraitItemView::Other(_) => Seq::empty(),
        })
    }
}

/// The items of the extension interface: the ergonomic form, without
/// needless `mut`, of every asynchronous method, and nothing else.
pub open spec fn extension_items(item: InterfaceView, items: Seq<TraitItemView>) -> Seq<
    TraitItemView,
>
    decreases items.len(),
{
    if items.len() == 0 {
        Seq::empty()
    } else {
        let rest = extension_items(item, items.drop_last());
        match items.last() {
            TraitItemView::Method(m) => match ext_method(item, m) {
                Some(e) => rest.push(TraitItemView::Method(cleaned(e))),
                None => rest,
            },
            TraitItemView::Other(_) => rest,
        }
    }
}

/// The bounds of the extension interface: those of the interface, then the
/// interface itself and, under static dispatch, the sizedness requirement.
pub open spec fn extension_bounds(item: InterfaceView) -> Seq<NodeView> {
    item.supertraits.push(NodeView::named(item.name, Seq::empty())) + (if trait_input(
        item.options,
    ).dynamic {
        Seq::empty()
    } else {
        seq![NodeView::core_path("marker"@, "Sized"@, Seq::empty())]
    })
}

/// The extension interface: the interface under its extension name, without
/// options, with the bounds of [`extension_bounds`] and the items of
/// [`extension_items`]. Once an error has been reported it has no items.
pub open spec fn extension(item: InterfaceView, errors: bool) -> InterfaceView {
    InterfaceView {
        options: Seq::empty(),
        name: ext_name(item.name),
        supertraits: extension_bounds(item),
        items: if errors {
            Seq::empty()
        } else {
            extension_items(item, item.items)
        },
        ..item
    }
}

/// Builds the extension interface and emits the completion handles.
pub struct ExtensionTraitExpand;

impl ExtensionTraitExpand {
    /// Runs the expansion on `input`. Nothing is added to the collector's errors.
    pub fn expand(&self, input: &InterfaceDeclaration, c: &mut Collector) -> (r: Option<
        InterfaceDeclaration,
    >)
        ensures
            final(c).errors == old(c).errors,
            views(final(c).output@) == views(old(c).output@) + (if old(c).has_errors() {
                Seq::empty()
            } else {
                handles(input@, input@.items)
            }),
            r matches Some(t) && t@ == extension(input@, old(c).has_errors()),
    {
        let mut item = input.clone();
        item.name = ext_ident(input.name.as_str());
        push_node(&mut item.supertraits, Node::named(input.name.as_str(), &no_nodes()));
        let attrs = TraitInput::from(&input.options);
        if !attrs.dynamic {
            push_node(&mut item.supertraits, Node::core_path("marker", "Sized", &no_nodes()));
        }
        assert(views(item.supertraits@) =~= extension_bounds(input@));
        let errors = c.has_errors();
        let ghost all = views(input.items@);
        let ghost start = views(c.output@);
        let mut items: Vec<TraitItem> = Vec::new();
        let mut i: usize = 0;
        assert(all.take(0) =~= Seq::empty());
        assert(views(items@) =~= Seq::empty());
        assert(views(c.output@) =~= start + Seq::empty());
        while i < input.items.len()
            invariant
                i <= input.items.len(),
                all == views(input.items@),
                c.errors == old(c).errors,
                errors == old(c).has_errors(),
                start == views(old(c).output@),
                views(c.output@) == start + (if errors {
                    Seq::empty()
                } else {
                    handles(input@, all.take(i as int))
                }),
                views(items@) == (if errors {
                    Seq::empty()
                } else {
                    extension_items(input@, all.take(i as int))
                }),
            decreases input.items.len() - i,
        {
            assert(all.take(i + 1).drop_last() =~= all.take(i as int));
            assert(all.take(i + 1).last() == input.items[i as int]@);
            let ghost before = views(items@);
            let ghost emitted = views(c.output@);
            if let TraitItem::Method(m) = &input.items[i] {
                if let Some(s) = FutureStructExpand(input).expand(m, c) {
                    c.emit(s.to_tokens());
                }
                if let Some(s) = ImplFutureExpand(input).expand(m, c) {
                    c.emit(s.to_tokens());
                }
                if let Some(s) = FutureAliasExpand(input).expand(m, c) {
                    c.emit(s.to_tokens());
                }
                assert(views(c.output@) =~= emitted + (if errors {
                    Seq::empty()
                } else {
                    handle_tokens(input@, m@)
                }));
                if let Some(method) = ExtMethodExpand(input).expand(m, c) {
                    if let Some(tidy) = CleanUpMutPatternsExpand.expand(&method, c) {
                        items.push(TraitItem::Method(tidy));
                        assert(views(items@) =~= before.push(
                            TraitItemView::Method(cleaned(method@)),
                        ));
                    }
                }
            }
            assert(views(c.output@) =~= start + (if errors {
                Seq::empty()
            } else {
                handles(input@, all.take(i + 1))
            }));
            i += 1;
        }
        assert(all.take(input.items.len() as int) =~= all);
        item.items = items;
        item.options = Vec::new();
        assert(views(item.options@) =~= Seq::empty());
        Some(item)
    }
}

} // verus!
