//! The implementation of the extension interface.

use crate::decl::{
    InterfaceDeclaration, InterfaceView, MethodDeclaration, MethodView, TraitItem, TraitItemView,
};
use crate::diagnostics::Collector;
use crate::items::{ExtensionImpl, ExtensionImplView};
use crate::methods::expand::ext::{
    dynamic_provided, ext_impl_method, static_provided, DynamicProvidedMethodImplExpand,
    MethodExtImplExpand, StaticProvidedMethodImplExpand,
};
use crate::names::{ext_ident, ext_name};
use crate::syntax::views;
use vstd::prelude::*;

verus! {

/// The list that holds an optional method, or nothing.
pub open spec fn optional(o: Option<MethodView>) -> Seq<MethodView> {
    match o {
        Some(m) => seq![m],
        None => Seq::empty(),
    }
}

/// The implementation of a method of the extension interface: the body that
/// builds the handle for a method without a body, the written body for a
/// provided method under static dispatch, the trampoline for one under
/// dynamic dispatch. A method that is not asynchronous has none.
pub open spec fn implemented(item: InterfaceView, m: MethodView) -> Seq<MethodView> {
    optional(ext_impl_method(item, m)) + optional(static_provided(item, m)) + optional(
        dynamic_provided(item, m),
    )
}

/// The implementations of the methods among the items, in the order of the
/// items.
pub open spec fn implemented_all(item: InterfaceView, items: Seq<TraitItemView>) -> Seq<MethodView>
    decreases items.len(),
{
    if items.len() == 0 {
        Seq::empty()
    } else {
        implemented_all(item, items.drop_last()) + (match items.last() {
            TraitItemView::Method(m) => implemented(item, m),
            TraitItemView::Other(_) => Seq::empty(),
        })
    }
}

/// The implementation of the extension interface for every type that
/// implements the interface. Once an error has been reported it has no
/// methods.
pub open spec fn extension_impl(item: InterfaceView, errors: bool) -> ExtensionImplView {
    ExtensionImplView {
        param: "__IMPL"@,
        interface: item.name,
        extension: ext_name(item.name),
        methods: if errors {
            Seq::empty()
        } else {
            implemented_all(item, item.items)
        },
    }
}

/// Implements the extension interface for every type that implements the
/// interface.
pub struct ImplExtTraitExpand;

impl ImplExtTraitExpand {
    /// Runs the expansion on `input`. Nothing is added to the collector's errors.
    pub fn expand(&self, input: &InterfaceDeclaration, c: &mut Collector) -> (r: Option<
        ExtensionImpl,
    >)
        ensures
            *final(c) == *old(c),
            r matches Some(t) && t@ == extension_impl(input@, old(c).has_errors()),
    {
        let errors = c.has_errors();
        let ghost all = views(input.items@);
        let mut methods: Vec<MethodDeclaration> = Vec::new();
        let mut i: usize = 0;
        assert(all.take(0) =~= Seq::empty());
        assert(views(methods@) =~= Seq::empty());
        while i < input.items.len()
            invariant
                i <= input.items.len(),
                all == views(input.items@),
                *c == *old(c),
                errors == old(c).has_errors(),
                views(methods@) == (if errors {
                    Seq::empty()
                } else {
                    implemented_all(input@, all.take(i as int))
                }),
            decreases input.items.len() - i,
        {
            assert(all.take(i + 1).drop_last() =~= all.take(i as int));
            assert(all.take(i + 1).last() == input.items[i as int]@);
            let ghost before = views(methods@);
            if let TraitItem::Method(m) = &input.items[i] {
                if let Some(e) = MethodExtImplExpand(input).expand(m, c) {
                    methods.push(e);
                }
                let ghost first = views(methods@);
                assert(first =~= before + (if errors {
                    Seq::empty()
                } else {
                    optional(ext_impl_method(input@, m@))
                }));
                if let Some(e) = StaticProvidedMethodImplExpand(input).expand(m, c) {
                    methods.push(e);
                }
                let ghost second = views(methods@);
                assert(second =~= first + (if errors {
                    Seq::empty()
                } else {
                    optional(static_provided(input@, m@))
                }));
                if let Some(e) = DynamicProvidedMethodImplExpand(input).expand(m, c) {
                    methods.push(e);
                }
                assert(views(methods@) =~= second + (if errors {
                    Seq::empty()
                } else {
                    optional(dynamic_provided(input@, m@))
                }));
            }
            assert(views(methods@) =~= (if errors {
                Seq::empty()
            } else {
                implemented_all(input@, all.take(i + 1))
            }));
            i += 1;
        }
        assert(all.take(input.items.len() as int) =~= all);
        Some(
            ExtensionImpl {
                param: "__IMPL".to_owned(),
                interface: input.name.clone(),
                extension: ext_ident(input.name.as_str()),
                methods,
            },
        )
    }
}

} // verus!
