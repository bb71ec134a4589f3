//! The completion handle of a method: a record for a method without a body,
//! an opaque alias for a provided one.

use crate::decl::{
    FnArg, FnArgView, GenericParam, GenericParamView, InterfaceDeclaration, InterfaceView,
    MethodDeclaration, MethodView, ParamKind,
};
use crate::diagnostics::Collector;
use crate::input::{trait_input, TraitInput};
use crate::items::{ItemStruct, ItemStructView, ItemType, ItemTypeView};
use crate::methods::expand::poll::{make_output_type, output_type};
use crate::methods::expand::{
    default_lifetime, of_kind, placeholder, select, type_args, type_generics, unified,
    GenericsExpand,
};
use crate::methods::future_type;
use crate::names::{append_str, ext_name, future_name};
use crate::rewrite::{
    find_in, is_mentioned, mentioned, name_lifetimes, named_lifetimes, occurs_in, rename, renamed,
};
use crate::syntax::{
    append_nodes, clone_nodes, no_nodes, opt_view, push_ident, push_node, push_punct, views, Kind, Node,
    NodeView,
};
use vstd::prelude::*;

verus! {

/// What stands for the implementing type in a handle: the placeholder under
/// static dispatch, `dyn` and the interface with its own parameters as
/// arguments under dynamic dispatch.
pub open spec fn receiver_type(item: InterfaceView) -> NodeView {
    if trait_input(item.options).dynamic {
        NodeView::tree(
            Kind::Object,
            seq![NodeView::ident("dyn"@), NodeView::named(item.name, type_args(item.generics.params))],
        )
    } else {
        NodeView::named(placeholder(), Seq::empty())
    }
}

/// Builds what stands for the implementing type in a handle.
pub fn make_receiver_type(item: &InterfaceDeclaration) -> (r: Node)
    ensures
        r@ == receiver_type(item@),
{
    if TraitInput::from(&item.options).dynamic {
        let mut out = no_nodes();
        push_ident(&mut out, "dyn");
        push_node(&mut out, Node::named(item.name.as_str(), &type_generics(&item.generics.params)));
        assert(views(out@) =~= seq![
            NodeView::ident("dyn"@),
            NodeView::named(item@.name, type_args(item@.generics.params)),
        ]);
        Node::tree(Kind::Object, out)
    } else {
        Node::named("__Self", &no_nodes())
    }
}

/// The lifetime of a borrow: the one written, else the made-up one.
pub open spec fn lifetime_or_default(lifetime: Option<Seq<char>>) -> Seq<char> {
    match lifetime {
        Some(l) => l,
        None => default_lifetime(),
    }
}

/// The type of the field that holds a parameter. A receiver becomes what
/// stands for the implementing type, borrowed as the receiver is; any other
/// parameter keeps its type, with the made-up lifetime where it borrows
/// without naming one. `Self` is renamed to the placeholder.
pub open spec fn field_type(item: InterfaceView, a: FnArgView) -> NodeView {
    renamed(
        match a {
            FnArgView::Receiver { reference, lifetime, mutable } => if reference {
                NodeView::reference(Some(lifetime_or_default(lifetime)), mutable, receiver_type(item))
            } else {
                receiver_type(item)
            },
            FnArgView::Typed { ty, .. } => named_lifetimes(ty, default_lifetime()),
        },
        "Self"@,
        placeholder(),
    )
}

/// Builds the type of the field that holds a parameter.
pub fn make_field_type(item: &InterfaceDeclaration, a: &FnArg) -> (r: Node)
    ensures
        r@ == field_type(item@, a@),
{
    let ty = match a {
        FnArg::Receiver { reference, lifetime, mutable } => {
            if *reference {
                let l = match lifetime {
                    Some(l) => Some(l.clone()),
                    None => Some("__default_lifetime".to_owned()),
                };
                Node::reference(&l, *mutable, make_receiver_type(item))
            } else {
                make_receiver_type(item)
            }
        },
        FnArg::Typed { ty, .. } => name_lifetimes(ty, "__default_lifetime"),
    };
    rename(&ty, "Self", "__Self")
}

/// The fields that hold the parameters, in the parameters' order.
pub open spec fn field_types(item: InterfaceView, inputs: Seq<FnArgView>) -> Seq<NodeView> {
    Seq::new(inputs.len(), |i: int| field_type(item, inputs[i]))
}

/// The marker that mentions a type parameter: `PhantomData<*const name>`.
pub open spec fn phantom_type(name: Seq<char>) -> NodeView {
    NodeView::core_path(
        "marker"@,
        "PhantomData"@,
        seq![
            NodeView::tree(
                Kind::Group,
                seq![
                    NodeView::punct("*"@),
                    NodeView::ident("const"@),
                    NodeView::named(name, Seq::empty()),
                ],
            ),
        ],
    )
}

/// The marker that mentions a lifetime: `PhantomData<&'name ()>`.
pub open spec fn phantom_lifetime(name: Seq<char>) -> NodeView {
    NodeView::core_path(
        "marker"@,
        "PhantomData"@,
        seq![NodeView::reference(Some(name), false, NodeView::unit())],
    )
}

/// The marker for a type parameter or a lifetime.
pub open spec fn phantom(p: GenericParamView) -> NodeView {
    if p.kind == ParamKind::Lifetime {
        phantom_lifetime(p.name)
    } else {
        phantom_type(p.name)
    }
}

/// The marker of every parameter of the list.
pub open spec fn phantoms(ps: Seq<GenericParamView>) -> Seq<NodeView> {
    Seq::new(ps.len(), |i: int| phantom(ps[i]))
}

/// The type parameters and then the lifetimes of the list: the parameters
/// that a handle mentions by a marker of its own.
pub open spec fn marked(ps: Seq<GenericParamView>) -> Seq<GenericParamView> {
    of_kind(ps, ParamKind::Type) + of_kind(ps, ParamKind::Lifetime)
}

/// Builds the marker for a type parameter or a lifetime.
pub fn make_phantom(p: &GenericParam) -> (r: Node)
    ensures
        r@ == phantom(p@),
{
    let mut args = no_nodes();
    if p.kind == ParamKind::Lifetime {
        let l = Some(p.name.clone());
        push_node(&mut args, Node::reference(&l, false, Node::unit()));
    } else {
        let mut pointer = no_nodes();
        push_punct(&mut pointer, "*");
        push_ident(&mut pointer, "const");
        push_node(&mut pointer, Node::named(p.name.as_str(), &no_nodes()));
        assert(views(pointer@) =~= seq![
            NodeView::punct("*"@),
            NodeView::ident("const"@),
            NodeView::named(p@.name, Seq::empty()),
        ]);
        push_node(&mut args, Node::tree(Kind::Group, pointer));
    }
    Node::core_path("marker", "PhantomData", &args)
}

/// Builds the marker of every parameter of the list.
pub fn make_phantoms(ps: &Vec<GenericParam>) -> (r: Vec<Node>)
    ensures
        views(r@) == phantoms(views(ps@)),
{
    let mut out: Vec<Node> = Vec::new();
    let mut k: usize = 0;
    while k < ps.len()
        invariant
            k <= ps.len(),
            out.len() == k,
            forall|j: int| 0 <= j < k ==> out[j]@ == phantom(ps[j]@),
        decreases ps.len() - k,
    {
        out.push(make_phantom(&ps[k]));
        k += 1;
    }
    assert(views(out@) =~= phantoms(views(ps@)));
    out
}

/// The parameters that get a marker, in the order of the markers.
pub fn select_marked(ps: &Vec<GenericParam>) -> (r: Vec<GenericParam>)
    ensures
        views(r@) == marked(views(ps@)),
{
    let mut out: Vec<GenericParam> = Vec::new();
    assert(views(out@) =~= Seq::empty());
    select(ps, ParamKind::Type, &mut out);
    select(ps, ParamKind::Lifetime, &mut out);
    assert(views(out@) =~= marked(views(ps@)));
    out
}

/// Whether one of the fields mentions a generic parameter: a lifetime by a
/// lifetime of its name, any other parameter by an identifier of its name.
pub open spec fn param_mentioned(fields: Seq<NodeView>, p: GenericParamView) -> bool {
    if p.kind == ParamKind::Lifetime {
        occurs_in(fields, Kind::Lifetime, p.name)
    } else {
        mentioned(fields, p.name)
    }
}

/// The parameters of the list that none of the fields mentions, in their
/// order.
pub open spec fn unmentioned(ps: Seq<GenericParamView>, fields: Seq<NodeView>) -> Seq<
    GenericParamView,
>
    decreases ps.len(),
{
    if ps.len() == 0 {
        Seq::empty()
    } else if param_mentioned(fields, ps.last()) {
        unmentioned(ps.drop_last(), fields)
    } else {
        unmentioned(ps.drop_last(), fields).push(ps.last())
    }
}

/// The generic parameters for which the record of a method holds a marker:
/// the type parameters and then the lifetimes of the unified generics that
/// none of the fields for the method's parameters mentions.
pub open spec fn marker_params(item: InterfaceView, m: MethodView) -> Seq<GenericParamView> {
    unmentioned(
        marked(unified(item, m, default_lifetime()).params),
        field_types(item, m.inputs),
    )
}

/// The fields of the record for a method: one per parameter, then one marker
/// for each generic parameter that none of those fields mentions.
pub open spec fn handle_fields(item: InterfaceView, m: MethodView) -> Seq<NodeView> {
    field_types(item, m.inputs) + phantoms(marker_params(item, m))
}

/// Whether one of the fields mentions a generic parameter.
pub fn is_param_mentioned(fields: &Vec<Node>, p: &GenericParam) -> (r: bool)
    ensures
        r == param_mentioned(views(fields@), p@),
{
    if p.kind == ParamKind::Lifetime {
        find_in(fields, Kind::Lifetime, p.name.as_str())
    } else {
        is_mentioned(fields, p.name.as_str())
    }
}

/// The parameters of the list that none of the fields mentions.
pub fn select_unmentioned(ps: &Vec<GenericParam>, fields: &Vec<Node>) -> (r: Vec<GenericParam>)
    ensures
        views(r@) == unmentioned(views(ps@), views(fields@)),
{
    let mut out: Vec<GenericParam> = Vec::new();
    let ghost all = views(ps@);
    let mut i: usize = 0;
    assert(all.take(0) =~= Seq::empty());
    assert(views(out@) =~= Seq::empty());
    while i < ps.len()
        invariant
            i <= ps.len(),
            all == views(ps@),
            views(out@) == unmentioned(all.take(i as int), views(fields@)),
        decreases ps.len() - i,
    {
        let ghost before = views(out@);
        assert(all.take(i + 1).drop_last() =~= all.take(i as int));
        assert(all.take(i + 1).last() == ps[i as int]@);
        if !is_param_mentioned(fields, &ps[i]) {
            out.push(ps[i].clone());
            assert(views(out@) =~= before.push(ps[i as int]@));
        }
        i += 1;
    }
    assert(all.take(ps.len() as int) =~= all);
    out
}

/// Builds the fields that hold the parameters.
pub fn make_field_types(item: &InterfaceDeclaration, inputs: &Vec<FnArg>) -> (r: Vec<Node>)
    ensures
        views(r@) == field_types(item@, views(inputs@)),
{
    let mut fields: Vec<Node> = Vec::new();
    let mut i: usize = 0;
    while i < inputs.len()
        invariant
            i <= inputs.len(),
            fields.len() == i,
            forall|j: int| 0 <= j < i ==> fields[j]@ == field_type(item@, inputs[j]@),
        decreases inputs.len() - i,
    {
        fields.push(make_field_type(item, &inputs[i]));
        i += 1;
    }
    assert(views(fields@) =~= field_types(item@, views(inputs@)));
    fields
}

/// The text that documents a handle.
pub open spec fn handle_doc(item: InterfaceView, m: MethodView) -> Seq<char> {
    " the future returned by [`"@ + ext_name(item.name) + "::"@ + m.name + "`]"@
}

/// Builds the text that documents a handle.
pub fn make_handle_doc(item: &InterfaceDeclaration, m: &MethodDeclaration) -> (r: String)
    ensures
        r@ == handle_doc(item@, m@),
{
    let a = append_str(" the future returned by [`", item.name.as_str());
    let b = append_str(a.as_str(), "Ext");
    let c = append_str(b.as_str(), "::");
    let d = append_str(c.as_str(), m.name.as_str());
    let e = append_str(d.as_str(), "`]");
    assert(e@ =~= handle_doc(item@, m@));
    e
}

/// The record that is the completion handle of a method: for an
/// asynchronous method without a body, a tuple struct with the interface's
/// visibility, named after interface and method, generic over the unified
/// parameters, with the fields of [`handle_fields`]: a field for every
/// parameter, and after them a marker only for a generic parameter that no
/// such field mentions.
pub open spec fn handle_struct(item: InterfaceView, m: MethodView) -> Option<ItemStructView> {
    if m.asyncness && m.body is None {
        Some(
            ItemStructView {
                doc: handle_doc(item, m),
                vis: item.vis,
                name: future_name(item.name, m.name),
                generics: unified(item, m, default_lifetime()),
                fields: handle_fields(item, m),
            },
        )
    } else {
        None
    }
}

/// Builds the record that is the completion handle of a method.
pub struct FutureStructExpand<'a>(pub &'a InterfaceDeclaration);

impl<'a> FutureStructExpand<'a> {
    /// Runs the expansion on `input`. Nothing is added to the collector's errors.
    pub fn expand(&self, input: &MethodDeclaration, c: &mut Collector) -> (r: Option<ItemStruct>)
        ensures
            *final(c) == *old(c),
            opt_view(r) == (if old(c).has_errors() {
                None
            } else {
                handle_struct(self.0@, input@)
            }),
    {
        if !input.asyncness {
            return None;
        }
        if input.body.is_some() {
            return None;
        }
        let name = future_type(self.0, input);
        let mut fields = make_field_types(self.0, &input.inputs);
        if c.has_errors() {
            return None;
        }
        let generics_expand = GenericsExpand {
            item: self.0,
            default_lifetime: "__default_lifetime".to_owned(),
        };
        let generics = match generics_expand.expand(input, c) {
            Some(g) => g,
            None => {
                return None;
            },
        };
        let markers = select_unmentioned(&select_marked(&generics.params), &fields);
        append_nodes(&mut fields, make_phantoms(&markers));
        Some(
            ItemStruct {
                doc: make_handle_doc(self.0, input),
                vis: clone_nodes(&self.0.vis),
                name,
                generics,
                fields,
            },
        )
    }
}

/// The alias that is the completion handle of a provided method: an opaque
/// name, generic over the unified parameters, for a type that completes with
/// the method's declared return type.
pub open spec fn handle_alias(item: InterfaceView, m: MethodView) -> Option<ItemTypeView> {
    if m.asyncness && m.body is Some {
        Some(
            ItemTypeView {
                doc: handle_doc(item, m),
                vis: item.vis,
                name: future_name(item.name, m.name),
                generics: unified(item, m, default_lifetime()),
                output: output_type(m.output),
                outlives: Seq::empty(),
            },
        )
    } else {
        None
    }
}

/// Builds the alias that is the completion handle of a provided method.
pub struct FutureAliasExpand<'a>(pub &'a InterfaceDeclaration);

impl<'a> FutureAliasExpand<'a> {
    /// Runs the expansion on `input`. Nothing is added to the collector's errors.
    pub fn expand(&self, input: &MethodDeclaration, c: &mut Collector) -> (r: Option<ItemType>)
        ensures
            *final(c) == *old(c),
            opt_view(r) == (if old(c).has_errors() {
                None
            } else {
                handle_alias(self.0@, input@)
            }),
    {
        if !input.asyncness {
            return None;
        }
        if input.body.is_none() {
            return None;
        }
        let output = make_output_type(&input.output);
        if c.has_errors() {
            return None;
        }
        let generics_expand = GenericsExpand {
            item: self.0,
            default_lifetime: "__default_lifetime".to_owned(),
        };
        let generics = match generics_expand.expand(input, c) {
            Some(g) => g,
            None => {
                return None;
            },
        };
        Some(
            ItemType {
                doc: make_handle_doc(self.0, input),
                vis: clone_nodes(&self.0.vis),
                name: future_type(self.0, input),
                generics,
                output,
                outlives: no_nodes(),
            },
        )
    }
}

} // verus!
