//! The analysis of an interface: one analysis per asynchronous method, and
//! what is generated from them.

use crate::decl::{
    InterfaceDeclaration, InterfaceView, MethodDeclaration, MethodView, TraitItem, TraitItemView,
};
use crate::diagnostics::{Diagnostic, Problem};
use crate::input::{method_input, MethodInput};
use crate::items::{
    doc_attr, make_doc_attr, ExtensionImpl, ExtensionImplView, FutureImpl, FutureImplView,
    ItemStruct, ItemStructView, ItemType, ItemTypeView,
};
use crate::method::{analysed, implementor, MethodData, MethodDataView};
use crate::names::{append_str, ext_ident, ext_name};
use crate::syntax::{append_nodes, clone_nodes, no_nodes, push_node, views, Node, NodeView};
use vstd::prelude::*;

verus! {

/// The analysis of an interface.
#[derive(PartialEq, Eq, Debug)]
pub struct TraitData {
    pub item: InterfaceDeclaration,
    pub methods: Vec<MethodData>,
}

/// The mathematical value of [`TraitData`].
pub struct TraitDataView {
    pub item: InterfaceView,
    pub methods: Seq<MethodDataView>,
}

impl View for TraitData {
    type V = TraitDataView;

    open spec fn view(&self) -> TraitDataView {
        TraitDataView { item: self.item@, methods: views(self.methods@) }
    }
}

/// A method as it is analysed: a method with a body without its options.
pub open spec fn unmarked(m: MethodView) -> MethodView {
    if m.body is Some {
        MethodView { options: Seq::empty(), ..m }
    } else {
        m
    }
}

/// The analysis of the item at `position`: nothing for an item that is no
/// asynchronous method; an error for a method with a body that is not marked
/// `provided`, and for one that takes its receiver by value under dynamic
/// dispatch; else the analysis of the method.
pub open spec fn item_analysis(
    item: InterfaceView,
    dynamic: bool,
    it: TraitItemView,
    position: nat,
) -> Result<Seq<MethodDataView>, Diagnostic> {
    match it {
        TraitItemView::Method(m) => if !m.asyncness {
            Ok(Seq::empty())
        } else if m.body is Some && !method_input(m.options).provided {
            Err(Diagnostic { problem: Problem::UnmarkedProvided, item: Some(position as usize) })
        } else {
            match analysed(item, unmarked(m), dynamic) {
                Some(d) => Ok(seq![d]),
                None => Err(
                    Diagnostic { problem: Problem::OwnedSelf, item: Some(position as usize) },
                ),
            }
        },
        TraitItemView::Other(_) => Ok(Seq::empty()),
    }
}

/// The analyses found so far, followed by those of the rest; an error of
/// the rest is the error of the whole.
pub open spec fn followed(
    found: Seq<MethodDataView>,
    rest: Result<Seq<MethodDataView>, Diagnostic>,
) -> Result<Seq<MethodDataView>, Diagnostic> {
    match rest {
        Ok(more) => Ok(found + more),
        Err(e) => Err(e),
    }
}

/// The analyses of the items, of which the first stands at `position`, in
/// the order of the items; the first error where there is one.
pub open spec fn analyses(
    item: InterfaceView,
    dynamic: bool,
    items: Seq<TraitItemView>,
    position: nat,
) -> Result<Seq<MethodDataView>, Diagnostic>
    decreases items.len(),
{
    if items.len() == 0 {
        Ok(Seq::empty())
    } else {
        match item_analysis(item, dynamic, items[0], position) {
            Ok(first) => followed(first, analyses(item, dynamic, items.skip(1), position + 1)),
            Err(e) => Err(e),
        }
    }
}

/// The analysis of an interface, or the first error.
pub open spec fn trait_analysis(item: InterfaceView, dynamic: bool) -> Result<
    TraitDataView,
    Diagnostic,
> {
    match analyses(item, dynamic, item.items, 0) {
        Ok(methods) => Ok(TraitDataView { item, methods }),
        Err(e) => Err(e),
    }
}

/// The items that the lowered interface keeps: every item but the
/// asynchronous methods without a body; a method with a body without its
/// options.
pub open spec fn kept(items: Seq<TraitItemView>) -> Seq<TraitItemView>
    decreases items.len(),
{
    if items.len() == 0 {
        Seq::empty()
    } else {
        let rest = kept(items.drop_last());
        match items.last() {
            TraitItemView::Method(m) => if m.asyncness && m.body is None {
                rest
            } else {
                rest.push(TraitItemView::Method(unmarked(m)))
            },
            TraitItemView::Other(tokens) => rest.push(TraitItemView::Other(tokens)),
        }
    }
}

/// The polling forms of the methods without a body.
pub open spec fn polls(methods: Seq<MethodDataView>) -> Seq<TraitItemView>
    decreases methods.len(),
{
    if methods.len() == 0 {
        Seq::empty()
    } else if methods.last().m.body is None {
        polls(methods.drop_last()).push(TraitItemView::Method(methods.last().pollified()))
    } else {
        polls(methods.drop_last())
    }
}

/// The records of the methods without a body.
pub open spec fn records(methods: Seq<MethodDataView>) -> Seq<ItemStructView>
    decreases methods.len(),
{
    if methods.len() == 0 {
        Seq::empty()
    } else if methods.last().m.body is None {
        records(methods.drop_last()).push(methods.last().record())
    } else {
        records(methods.drop_last())
    }
}

/// The completion protocols of the methods without a body.
pub open spec fn protocols(methods: Seq<MethodDataView>) -> Seq<FutureImplView>
    decreases methods.len(),
{
    if methods.len() == 0 {
        Seq::empty()
    } else if methods.last().m.body is None {
        protocols(methods.drop_last()).push(methods.last().protocol())
    } else {
        protocols(methods.drop_last())
    }
}

/// The aliases of the provided methods.
pub open spec fn aliases(methods: Seq<MethodDataView>) -> Seq<ItemTypeView>
    decreases methods.len(),
{
    if methods.len() == 0 {
        Seq::empty()
    } else if methods.last().m.body is Some {
        aliases(methods.drop_last()).push(methods.last().alias())
    } else {
        aliases(methods.drop_last())
    }
}

/// The ergonomic form of every method.
pub open spec fn extified_all(methods: Seq<MethodDataView>, with_content: bool) -> Seq<MethodView> {
    Seq::new(methods.len(), |i: int| methods[i].extified(with_content))
}

/// Methods as items.
pub open spec fn as_items(methods: Seq<MethodView>) -> Seq<TraitItemView> {
    Seq::new(methods.len(), |i: int| TraitItemView::Method(methods[i]))
}

/// The tokens of the records, one record after the other.
pub open spec fn struct_tokens_of(s: Seq<ItemStructView>) -> Seq<NodeView>
    decreases s.len(),
{
    if s.len() == 0 {
        Seq::empty()
    } else {
        struct_tokens_of(s.drop_last()) + s.last().tokens()
    }
}

/// The tokens of the completion protocols, one after the other.
pub open spec fn impl_tokens_of(s: Seq<FutureImplView>) -> Seq<NodeView>
    decreases s.len(),
{
    if s.len() == 0 {
        Seq::empty()
    } else {
        impl_tokens_of(s.drop_last()) + s.last().tokens()
    }
}

/// The tokens of the aliases, one alias after the other.
pub open spec fn alias_tokens_of(s: Seq<ItemTypeView>) -> Seq<NodeView>
    decreases s.len(),
{
    if s.len() == 0 {
        Seq::empty()
    } else {
        alias_tokens_of(s.drop_last()) + s.last().tokens()
    }
}

impl TraitDataView {
    /// The lowered interface: the items that are kept, then the polling
    /// forms of the methods without a body.
    pub open spec fn pollified(self) -> InterfaceView {
        InterfaceView { items: kept(self.item.items) + polls(self.methods), ..self.item }
    }

    /// The text that documents the extension interface.
    pub open spec fn extension_doc(self) -> Seq<char> {
        " the extension trait for [`"@ + self.item.name + "`]"@
    }

    /// The extension interface: documented as such, named after the
    /// interface, bound to it, with the ergonomic form of every method.
    pub open spec fn extified(self) -> InterfaceView {
        InterfaceView {
            attrs: doc_attr(self.extension_doc()),
            options: Seq::empty(),
            name: ext_name(self.item.name),
            supertraits: self.item.supertraits.push(NodeView::named(self.item.name, Seq::empty())),
            items: as_items(extified_all(self.methods, false)),
            ..self.item
        }
    }

    /// The implementation of the extension interface for every type that
    /// implements the interface.
    pub open spec fn ext_implementation(self) -> ExtensionImplView {
        ExtensionImplView {
            param: implementor(),
            interface: self.item.name,
            extension: ext_name(self.item.name),
            methods: extified_all(self.methods, true),
        }
    }

    /// Everything that is generated: the lowered interface, the extension
    /// interface, its implementation, the records, their completion
    /// protocols, the aliases.
    pub open spec fn tokens(self) -> Seq<NodeView> {
        self.pollified().tokens() + self.extified().tokens() + self.ext_implementation().tokens()
            + struct_tokens_of(records(self.methods)) + impl_tokens_of(protocols(self.methods))
            + alias_tokens_of(aliases(self.methods))
    }
}

/// Writes the records, one after the other.
pub fn structs_to_tokens(structs: &Vec<ItemStruct>) -> (r: Vec<Node>)
    ensures
        views(r@) == struct_tokens_of(views(structs@)),
{
    let mut out = no_nodes();
    let ghost sv = views(structs@);
    let mut i: usize = 0;
    assert(sv.take(0) =~= Seq::empty());
    while i < structs.len()
        invariant
            i <= structs.len(),
            sv == views(structs@),
            views(out@) == struct_tokens_of(sv.take(i as int)),
        decreases structs.len() - i,
    {
        assert(sv.take(i + 1).drop_last() =~= sv.take(i as int));
        assert(sv.take(i + 1).last() == structs[i as int]@);
        append_nodes(&mut out, structs[i].to_tokens());
        i += 1;
    }
    assert(sv.take(structs.len() as int) =~= sv);
    out
}

/// Writes the completion protocols, one after the other.
pub fn impls_to_tokens(impls: &Vec<FutureImpl>) -> (r: Vec<Node>)
    ensures
        views(r@) == impl_tokens_of(views(impls@)),
{
    let mut out = no_nodes();
    let ghost sv = views(impls@);
    let mut i: usize = 0;
    assert(sv.take(0) =~= Seq::empty());
    while i < impls.len()
        invariant
            i <= impls.len(),
            sv == views(impls@),
            views(out@) == impl_tokens_of(sv.take(i as int)),
        decreases impls.len() - i,
    {
        assert(sv.take(i + 1).drop_last() =~= sv.take(i as int));
        assert(sv.take(i + 1).last() == impls[i as int]@);
        append_nodes(&mut out, impls[i].to_tokens());
        i += 1;
    }
    assert(sv.take(impls.len() as int) =~= sv);
    out
}

/// Writes the aliases, one after the other.
pub fn aliases_to_tokens(types: &Vec<ItemType>) -> (r: Vec<Node>)
    ensures
        views(r@) == alias_tokens_of(views(types@)),
{
    let mut out = no_nodes();
    let ghost sv = views(types@);
    let mut i: usize = 0;
    assert(sv.take(0) =~= Seq::empty());
    while i < types.len()
        invariant
            i <= types.len(),
            sv == views(types@),
            views(out@) == alias_tokens_of(sv.take(i as int)),
        decreases types.len() - i,
    {
        assert(sv.take(i + 1).drop_last() =~= sv.take(i as int));
        assert(sv.take(i + 1).last() == types[i as int]@);
        append_nodes(&mut out, types[i].to_tokens());
        i += 1;
    }
    assert(sv.take(types.len() as int) =~= sv);
    out
}

impl TraitData {
    /// Analyses an interface. Fails at the first asynchronous method that
    /// has a body without being marked `provided`, or that takes its
    /// receiver by value under dynamic dispatch.
    pub fn new(item: InterfaceDeclaration, dynamic: bool) -> (r: Result<TraitData, Diagnostic>)
        ensures
            match trait_analysis(item@, dynamic) {
                Ok(t) => r matches Ok(x) && x@ == t,
                Err(e) => r matches Err(x) && x == e,
            },
    {
        let ghost all = item@.items;
        let ghost goal = analyses(item@, dynamic, all, 0);
        let mut methods: Vec<MethodData> = Vec::new();
        let mut i: usize = 0;
        assert(all.skip(0) =~= all);
        assert(views(methods@) =~= Seq::empty());
        assert(followed(Seq::empty(), goal) == goal);
        while i < item.items.len()
            invariant
                i <= item.items.len(),
                all == item@.items,
                all == views(item.items@),
                goal == analyses(item@, dynamic, item@.items, 0),
                goal == followed(views(methods@), analyses(item@, dynamic, all.skip(i as int), i as nat)),
            decreases item.items.len() - i,
        {
            assert(all.skip(i as int)[0] == item.items[i as int]@);
            assert(all.skip(i as int).skip(1) =~= all.skip(i + 1));
            let ghost found = views(methods@);
            let ghost rest = analyses(item@, dynamic, all.skip(i + 1), (i + 1) as nat);
            let ghost here = item_analysis(item@, dynamic, all[i as int], i as nat);
            assert(analyses(item@, dynamic, all.skip(i as int), i as nat) == (match here {
                Ok(first) => followed(first, rest),
                Err(e) => Err(e),
            }));
            if let TraitItem::Method(m) = &item.items[i] {
                if m.asyncness {
                    let mut analysed_method = m.clone();
                    if m.body.is_some() {
                        if !MethodInput::from(&m.options).provided {
                            return Err(Diagnostic { problem: Problem::UnmarkedProvided, item: Some(i) });
                        }
                        analysed_method.options = Vec::new();
                        assert(views(analysed_method.options@) =~= Seq::empty());
                    }
                    assert(analysed_method@ == unmarked(m@));
                    match MethodData::new(item.clone(), analysed_method, dynamic) {
                        Ok(data) => {
                            methods.push(data);
                            assert(views(methods@) =~= found.push(data@));
                            assert(followed(found, followed(seq![data@], rest)) == followed(
                                found.push(data@),
                                rest,
                            )) by {
                                if let Ok(more) = rest {
                                    assert(found + (seq![data@] + more) =~= found.push(data@) + more);
                                }
                            }
                        },
                        Err(_) => {
                            return Err(Diagnostic { problem: Problem::OwnedSelf, item: Some(i) });
                        },
                    }
                } else {
                    assert(followed(found, followed(Seq::empty(), rest)) == followed(found, rest)) by {
                        if let Ok(more) = rest {
                            assert(Seq::<MethodDataView>::empty() + more =~= more);
                        }
                    }
                }
            } else {
                assert(followed(found, followed(Seq::empty(), rest)) == followed(found, rest)) by {
                    if let Ok(more) = rest {
                        assert(Seq::<MethodDataView>::empty() + more =~= more);
                    }
                }
            }
            i += 1;
        }
        assert(views(methods@) + Seq::<MethodDataView>::empty() =~= views(methods@));
        Ok(TraitData { item, methods })
    }

    /// Everything that is generated, as tokens.
    pub fn to_tokens(&self) -> (r: Vec<Node>)
        ensures
            views(r@) == self@.tokens(),
    {
        let mut out = self.pollify_trait().to_tokens();
        append_nodes(&mut out, self.extify_trait().to_tokens());
        append_nodes(&mut out, self.ext_implementations().to_tokens());
        append_nodes(&mut out, structs_to_tokens(&self.future_structs()));
        append_nodes(&mut out, impls_to_tokens(&self.future_implementations()));
        append_nodes(&mut out, aliases_to_tokens(&self.future_type_aliases()));
        out
    }

    /// The lowered interface.
    pub fn pollify_trait(&self) -> (r: InterfaceDeclaration)
        ensures
            r@ == self@.pollified(),
    {
        let mut item = self.item.clone();
        let ghost all = views(self.item.items@);
        let mut items: Vec<TraitItem> = Vec::new();
        let mut i: usize = 0;
        assert(all.take(0) =~= Seq::empty());
        assert(views(items@) =~= Seq::empty());
        while i < self.item.items.len()
            invariant
                i <= self.item.items.len(),
                all == views(self.item.items@),
                views(items@) == kept(all.take(i as int)),
            decreases self.item.items.len() - i,
        {
            assert(all.take(i + 1).drop_last() =~= all.take(i as int));
            assert(all.take(i + 1).last() == self.item.items[i as int]@);
            let ghost before = views(items@);
            match &self.item.items[i] {
                TraitItem::Method(m) => {
                    if !(m.asyncness && m.body.is_none()) {
                        let mut stays = m.clone();
                        if m.body.is_some() {
                            stays.options = Vec::new();
                            assert(views(stays.options@) =~= Seq::empty());
                        }
                        items.push(TraitItem::Method(stays));
                        assert(views(items@) =~= before.push(TraitItemView::Method(unmarked(m@))));
                    }
                },
                TraitItem::Other(tokens) => {
                    items.push(TraitItem::Other(clone_nodes(tokens)));
                    assert(views(items@) =~= before.push(TraitItemView::Other(views(tokens@))));
                },
            }
            i += 1;
        }
        assert(all.take(self.item.items.len() as int) =~= all);
        let ghost first = views(items@);
        let ghost ms = views(self.methods@);
        let mut k: usize = 0;
        assert(ms.take(0) =~= Seq::empty());
        assert(views(items@) =~= first + Seq::empty());
        while k < self.methods.len()
            invariant
                k <= self.methods.len(),
                ms == views(self.methods@),
                views(items@) == first + polls(ms.take(k as int)),
            decreases self.methods.len() - k,
        {
            assert(ms.take(k + 1).drop_last() =~= ms.take(k as int));
            assert(ms.take(k + 1).last() == self.methods[k as int]@);
            let ghost before = views(items@);
            if !self.methods[k].is_provided() {
                items.push(TraitItem::Method(self.methods[k].pollify()));
                assert(views(items@) =~= before.push(
                    TraitItemView::Method(self.methods[k as int]@.pollified()),
                ));
            }
            assert(views(items@) =~= first + polls(ms.take(k + 1)));
            k += 1;
        }
        assert(ms.take(self.methods.len() as int) =~= ms);
        item.items = items;
        item
    }

    /// The records of the methods without a body.
    pub fn future_structs(&self) -> (r: Vec<ItemStruct>)
        ensures
            views(r@) == records(self@.methods),
    {
        let mut out: Vec<ItemStruct> = Vec::new();
        let ghost ms = views(self.methods@);
        let mut k: usize = 0;
        assert(ms.take(0) =~= Seq::empty());
        assert(views(out@) =~= Seq::empty());
        while k < self.methods.len()
            invariant
                k <= self.methods.len(),
                ms == views(self.methods@),
                views(out@) == records(ms.take(k as int)),
            decreases self.methods.len() - k,
        {
            assert(ms.take(k + 1).drop_last() =~= ms.take(k as int));
            assert(ms.take(k + 1).last() == self.methods[k as int]@);
            let ghost before = views(out@);
            if !self.methods[k].is_provided() {
                out.push(self.methods[k].future_struct());
                assert(views(out@) =~= before.push(self.methods[k as int]@.record()));
            }
            k += 1;
        }
        assert(ms.take(self.methods.len() as int) =~= ms);
        out
    }

    /// The aliases of the provided methods.
    pub fn future_type_aliases(&self) -> (r: Vec<ItemType>)
        ensures
            views(r@) == aliases(self@.methods),
    {
        let mut out: Vec<ItemType> = Vec::new();
        let ghost ms = views(self.methods@);
        let mut k: usize = 0;
        assert(ms.take(0) =~= Seq::empty());
        assert(views(out@) =~= Seq::empty());
        while k < self.methods.len()
            invariant
                k <= self.methods.len(),
                ms == views(self.methods@),
                views(out@) == aliases(ms.take(k as int)),
            decreases self.methods.len() - k,
        {
            assert(ms.take(k + 1).drop_last() =~= ms.take(k as int));
            assert(ms.take(k + 1).last() == self.methods[k as int]@);
            let ghost before = views(out@);
            if self.methods[k].is_provided() {
                out.push(self.methods[k].future_type_alias());
                assert(views(out@) =~= before.push(self.methods[k as int]@.alias()));
            }
            k += 1;
        }
        assert(ms.take(self.methods.len() as int) =~= ms);
        out
    }

    /// The extension interface.
    pub fn extify_trait(&self) -> (r: InterfaceDeclaration)
        ensures
            r@ == self@.extified(),
    {
        let mut item = self.item.clone();
        let comment = append_str(
            append_str(" the extension trait for [`", self.item.name.as_str()).as_str(),
            "`]",
        );
        assert(comment@ =~= self@.extension_doc());
        item.attrs = make_doc_attr(comment.as_str());
        item.options = Vec::new();
        assert(views(item.options@) =~= Seq::empty());
        push_node(&mut item.supertraits, Node::named(self.item.name.as_str(), &no_nodes()));
        item.name = ext_ident(self.item.name.as_str());
        let mut items: Vec<TraitItem> = Vec::new();
        let mut k: usize = 0;
        while k < self.methods.len()
            invariant
                k <= self.methods.len(),
                items.len() == k,
                forall|j: int|
                    0 <= j < k ==> items[j]@ == TraitItemView::Method(
                        self.methods[j]@.extified(false),
                    ),
            decreases self.methods.len() - k,
        {
            items.push(TraitItem::Method(self.methods[k].extify(false)));
            k += 1;
        }
        assert(views(items@) =~= as_items(extified_all(self@.methods, false)));
        item.items = items;
        item
    }

    /// The completion protocols of the methods without a body.
    pub fn future_implementations(&self) -> (r: Vec<FutureImpl>)
        ensures
            views(r@) == protocols(self@.methods),
    {
        let mut out: Vec<FutureImpl> = Vec::new();
        let ghost ms = views(self.methods@);
        let mut k: usize = 0;
        assert(ms.take(0) =~= Seq::empty());
        assert(views(out@) =~= Seq::empty());
        while k < self.methods.len()
            invariant
                k <= self.methods.len(),
                ms == views(self.methods@),
                views(out@) == protocols(ms.take(k as int)),
            decreases self.methods.len() - k,
        {
            assert(ms.take(k + 1).drop_last() =~= ms.take(k as int));
            assert(ms.take(k + 1).last() == self.methods[k as int]@);
            let ghost before = views(out@);
            if !self.methods[k].is_provided() {
                out.push(self.methods[k].implement_future());
                assert(views(out@) =~= before.push(self.methods[k as int]@.protocol()));
            }
            k += 1;
        }
        assert(ms.take(self.methods.len() as int) =~= ms);
        out
    }

    /// The implementation of the extension interface.
    pub fn ext_implementations(&self) -> (r: ExtensionImpl)
        ensures
            r@ == self@.ext_implementation(),
    {
        let mut methods: Vec<MethodDeclaration> = Vec::new();
        let mut k: usize = 0;
        while k < self.methods.len()
            invariant
                k <= self.methods.len(),
                methods.len() == k,
                forall|j: int| 0 <= j < k ==> methods[j]@ == self.methods[j]@.extified(true),
            decreases self.methods.len() - k,
        {
            methods.push(self.methods[k].extify(true));
            k += 1;
        }
        assert(views(methods@) =~= extified_all(self@.methods, true));
        ExtensionImpl {
            param: "SelfTy".to_owned(),
            interface: self.item.name.clone(),
            extension: ext_ident(self.item.name.as_str()),
            methods,
        }
    }
}

} // verus!
