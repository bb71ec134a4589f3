//! What holds of every expansion.

use crate::decl::{
    FnArgView, GenericParamView, InterfaceDeclaration, InterfaceView, MethodView, ParamKind,
    TraitItemView,
};
use crate::diagnostics::{outcome_view, Diagnostic, Problem};
use crate::impls::expand::implemented;
use crate::input::{method_input, trait_input};
use crate::items::{forwarded, forwarded_field};
use crate::method::{
    implementor, name_bound, resolved_lifetime, type_param,
    analysed, lemma_sanitized_idempotent, receiver_field, sanitized, self_marker, with_arg,
    with_args, MethodDataView,
};
use crate::methods::expand::ext::{
    construct_args,
    call_args, dynamic_provided, ext_impl_method, ext_method, inline_body, nested_block,
    receiver_name, scope, static_provided, trampoline_body, trampoline_params,
};
use crate::methods::expand::future_type::{
    field_type, field_types, handle_alias, handle_struct, lifetime_or_default, marked,
    marker_params, param_mentioned, phantom, unmentioned,
};
use crate::methods::expand::impls::handle_impl;
use crate::methods::expand::poll::{context_arg, output_type, plain_binding, poll_of, polled};
use crate::methods::expand::{
    args_anonymous, lifetime_param, receiver_predicate,
    default_lifetime, merged_params, of_kind, placeholder, receiver_param, unified,
};
use crate::methods::lint::{item_errors, items_errors, method_errors, method_lint, owned_receiver};
use crate::names::{ext_name, future_name};
use crate::rewrite::{
    lemma_fresh_name, lemma_renamed_keeps,
    lemma_renamed_away, lemma_renamed_back, mentioned, mentions, renamed, renamed_all,
};
use crate::syntax::{Kind, Node, NodeView};
use crate::traits::expand::extension;
use crate::traits::lint::option_errors;
use crate::{diagnostics, expansion};
use vstd::prelude::*;

verus! {

/// Under static dispatch the extension interface requires sizedness, every
/// completion protocol calls through the placeholder for the implementing
/// type, which is one of the unified parameters, and no method gets a
/// trampoline. This holds of every method, one with a by-value receiver
/// included.
pub proof fn static_dispatch_is_sized(item: InterfaceView, m: MethodView, errors: bool)
    requires
        !trait_input(item.options).dynamic,
    ensures
        extension(item, errors).supertraits.last() == NodeView::core_path(
            "marker"@,
            "Sized"@,
            Seq::empty(),
        ),
        m.asyncness && m.body is None ==> handle_impl(item, m) is Some,
        handle_impl(item, m) matches Some(h) ==> h.receiver == Some(placeholder()),
        merged_params(item, m, default_lifetime()).contains(receiver_param(item)),
        dynamic_provided(item, m) is None,
{
    let ps = merged_params(item, m, default_lifetime());
    let before = of_kind(item.generics.params, ParamKind::Lifetime) + of_kind(
        m.generics.params,
        ParamKind::Lifetime,
    ) + (if args_anonymous(m.inputs) {
        seq![lifetime_param(default_lifetime())]
    } else {
        Seq::empty()
    }) + of_kind(item.generics.params, ParamKind::Type) + of_kind(
        m.generics.params,
        ParamKind::Type,
    );
    assert(ps[before.len() as int] == receiver_param(item));
}

/// An element of the diagnostics of one item is an element of the
/// diagnostics of all items.
proof fn lemma_item_errors_kept(
    dynamic: bool,
    items: Seq<TraitItemView>,
    k: int,
    d: Diagnostic,
)
    requires
        0 <= k < items.len(),
        item_errors(dynamic, items[k], k as usize).contains(d),
    ensures
        items_errors(dynamic, items).contains(d),
    decreases items.len(),
{
    let front = items_errors(dynamic, items.drop_last());
    let back = item_errors(dynamic, items.last(), (items.len() - 1) as usize);
    let all = items_errors(dynamic, items);
    assert(all == front + back);
    if k == items.len() - 1 {
        let w = choose|w: int| 0 <= w < back.len() && back[w] == d;
        assert(all[front.len() + w] == d);
    } else {
        assert(items.drop_last()[k] == items[k]);
        lemma_item_errors_kept(dynamic, items.drop_last(), k, d);
        let w = choose|w: int| 0 <= w < front.len() && front[w] == d;
        assert(all[w] == d);
    }
}

/// Under dynamic dispatch a method that takes its receiver by value is
/// rejected: the diagnostics name it, and the expansion gives no output.
pub proof fn owned_receiver_is_rejected(item: InterfaceView, k: int, m: MethodView)
    requires
        trait_input(item.options).dynamic,
        0 <= k < item.items.len(),
        item.items[k] == TraitItemView::Method(m),
        owned_receiver(m),
    ensures
        diagnostics(item).contains(
            Diagnostic { problem: Problem::OwnedReceiver, item: Some(k as usize) },
        ),
        expansion(item) is Err,
{
    let d = Diagnostic { problem: Problem::OwnedReceiver, item: Some(k as usize) };
    let own = method_errors(true, m, k as usize);
    assert(own[0] == d);
    lemma_item_errors_kept(true, item.items, k, d);
    let found = method_lint(item);
    let w = choose|w: int| 0 <= w < found.len() && found[w] == d;
    let front = option_errors(item.options, "dynamic"@, None);
    assert(diagnostics(item)[front.len() + w] == d);
}

/// The completion protocol of a method without a body forwards to the
/// method's polling form: it calls the polling form by its name, with one
/// argument for each of its parameters, the fields that hold the method's
/// parameters in their order and the progress context last; the call is the
/// value of the operation; and the handle completes with the type that the
/// polling form wraps, the method's declared return type.
pub proof fn advance_forwards_to_poll(item: InterfaceView, m: MethodView)
    requires
        m.asyncness,
        m.body is None,
        !method_input(m.options).provided,
    ensures
        handle_impl(item, m) is Some,
        handle_struct(item, m) is Some,
        polled(m) is Some,
        ({
            let h = handle_impl(item, m)->0;
            let s = handle_struct(item, m)->0;
            let p = polled(m)->0;
            &&& h.handle == s.name
            &&& h.method == p.name
            &&& h.arguments.len() == p.inputs.len()
            &&& p.inputs.last() == context_arg("ctx"@)
            &&& h.arguments.last() == NodeView::ident("cx"@)
            &&& forall|i: int|
                0 <= i < m.inputs.len() ==> #[trigger] h.arguments[i] == forwarded_field(i as nat)
                    && p.inputs[i] == m.inputs[i] && s.fields[i] == field_type(item, m.inputs[i])
            &&& h.output == output_type(m.output)
            &&& p.output == Some(poll_of(h.output))
            &&& h.body().len() == 10
            &&& h.body()[8] == h.callee()
            &&& h.body()[9] == NodeView::tree(
                Kind::Paren,
                NodeView::separated(h.arguments, NodeView::punct(","@)),
            )
        }),
{
}

/// Under static dispatch a provided method is implemented by its own body:
/// the written block stands, as it is and with its own braces, inside
/// `async move { }`, the parameters are those of the method, and there is no
/// trampoline.
pub proof fn static_default_is_inlined(item: InterfaceView, m: MethodView)
    requires
        !trait_input(item.options).dynamic,
        m.asyncness,
        m.body is Some,
    ensures
        static_provided(item, m) is Some,
        implemented(item, m) == seq![static_provided(item, m)->0],
        static_provided(item, m)->0.body == Some(inline_body(m.body->0)),
        inline_body(m.body->0) == seq![
            NodeView::ident("async"@),
            NodeView::ident("move"@),
            NodeView::tree(Kind::Brace, seq![NodeView::tree(Kind::Brace, m.body->0)]),
        ],
        static_provided(item, m)->0.inputs == m.inputs,
        ext_method(item, m) matches Some(e) && static_provided(item, m)->0 == (MethodView {
            body: Some(inline_body(m.body->0)),
            ..e
        }),
        handle_alias(item, m) is Some,
{
    assert(implemented(item, m) =~= seq![static_provided(item, m)->0]);
}

/// Renaming leaves no occurrence of the old name in any tree of a list.
pub proof fn lemma_renamed_all_away(s: Seq<NodeView>, from: Seq<char>, to: Seq<char>)
    requires
        from != to,
    ensures
        !mentioned(renamed_all(s, from, to), from),
{
    assert forall|i: int| 0 <= i < s.len() implies !mentions(
        #[trigger] renamed_all(s, from, to)[i],
        from,
    ) by {
        lemma_renamed_away(s[i], from, to);
    }
}

/// Where the new name occurs in no tree of a list, renaming back gives the
/// list back.
pub proof fn lemma_renamed_all_back(s: Seq<NodeView>, from: Seq<char>, to: Seq<char>)
    requires
        !mentioned(s, to),
    ensures
        renamed_all(renamed_all(s, from, to), to, from) == s,
{
    assert forall|i: int| 0 <= i < s.len() implies renamed(renamed(s[i], from, to), to, from)
        == s[i] by {
        assert(!mentions(s[i], to));
        lemma_renamed_back(s[i], from, to);
    }
    assert(renamed_all(renamed_all(s, from, to), to, from) =~= s);
}

/// The explicit receiver of a trampoline collides with nothing: the method
/// uses its name neither in its body nor among its parameters, and it is
/// not `self`.
pub proof fn receiver_name_is_free(m: MethodView)
    ensures
        !mentioned(scope(m), receiver_name(m)),
        m.body matches Some(body) ==> !mentioned(body, receiver_name(m)),
        forall|i: int|
            0 <= i < m.inputs.len() ==> !mentions((#[trigger] m.inputs[i]).node(), receiver_name(m)),
        receiver_name(m) != "self"@,
{
    reveal_strlit("self");
    reveal_strlit("this");
    let this = receiver_name(m);
    assert("this"@.len() == 4);
    lemma_fresh_name(scope(m), "this"@);
    assert(this[0] == 't');
    let body = match m.body {
        Some(body) => body,
        None => Seq::empty(),
    };
    assert forall|i: int| #![trigger body[i]] 0 <= i < body.len() implies !mentions(body[i], this) by {
        assert(scope(m)[i] == body[i]);
    }
    assert forall|i: int| 0 <= i < m.inputs.len() implies !mentions(
        (#[trigger] m.inputs[i]).node(),
        this,
    ) by {
        assert(scope(m)[body.len() + i] == m.inputs[i].node());
    }
}

/// Under dynamic dispatch the trampoline of a provided method is a free
/// asynchronous function that takes the receiver as an explicit parameter.
/// The name of that parameter collides with nothing that the method binds.
/// No `self` is left in the trampoline's body, and the occurrences of the
/// explicit receiver in it are exactly the occurrences of `self` in the
/// written body.
pub proof fn trampoline_takes_receiver(item: InterfaceView, m: MethodView)
    requires
        trait_input(item.options).dynamic,
        m.asyncness,
        m.body is Some,
    ensures
        dynamic_provided(item, m) is Some,
        implemented(item, m) == seq![dynamic_provided(item, m)->0],
        dynamic_provided(item, m)->0.body == Some(trampoline_body(item, m)),
        trampoline_body(item, m).subrange(0, 3) == seq![
            NodeView::ident("async"@),
            NodeView::ident("fn"@),
            NodeView::ident("fn_impl"@),
        ],
        trampoline_body(item, m).contains(
            nested_block(renamed_all(m.body->0, "self"@, receiver_name(m))),
        ),
        !mentioned(scope(m), receiver_name(m)),
        !mentioned(renamed_all(m.body->0, "self"@, receiver_name(m)), "self"@),
        renamed_all(renamed_all(m.body->0, "self"@, receiver_name(m)), receiver_name(m), "self"@)
            == m.body->0,
{
    let this = receiver_name(m);
    receiver_name_is_free(m);
    lemma_renamed_all_away(m.body->0, "self"@, this);
    lemma_renamed_all_back(m.body->0, "self"@, this);
    let body = trampoline_body(item, m);
    let renamed = nested_block(renamed_all(m.body->0, "self"@, this));
    assert(body[body.len() - 3] == renamed);
    assert(body.subrange(0, 3) =~= seq![
        NodeView::ident("async"@),
        NodeView::ident("fn"@),
        NodeView::ident("fn_impl"@),
    ]);
    assert(implemented(item, m) =~= seq![dynamic_provided(item, m)->0]);
}

/// The trampoline of a provided method declares every receiver among the
/// method's parameters under the explicit receiver's name, as a reference
/// to the extension interface that is exclusive where the receiver is, and
/// every other parameter as it is written. The method hands the trampoline
/// every one of its parameters, `self` for the receiver.
pub proof fn trampoline_declares_receiver(item: InterfaceView, m: MethodView, i: int)
    requires
        0 <= i < m.inputs.len(),
    ensures
        trampoline_params(item, m.inputs, receiver_name(m)).len() == m.inputs.len(),
        call_args(m.inputs, Some(receiver_name(m)), 0).len() == m.inputs.len(),
        match m.inputs[i] {
            FnArgView::Receiver { mutable, .. } => call_args(m.inputs, Some(receiver_name(m)), 0)[i]
                == NodeView::ident("self"@) && trampoline_params(item, m.inputs, receiver_name(m))[i]
                == (FnArgView::Typed {
                pattern: plain_binding(receiver_name(m)),
                ty: NodeView::reference(
                    None,
                    mutable,
                    NodeView::tree(
                        Kind::Object,
                        seq![
                            NodeView::ident("dyn"@),
                            NodeView::named(ext_name(item.name), Seq::empty()),
                        ],
                    ),
                ),
            }),
            FnArgView::Typed { .. } => trampoline_params(item, m.inputs, receiver_name(m))[i]
                == m.inputs[i],
        },
{
}

/// The place of a kind of parameter in the order of the unified generics.
pub open spec fn rank(kind: ParamKind) -> int {
    match kind {
        ParamKind::Lifetime => 0,
        ParamKind::Type => 1,
        ParamKind::Const => 2,
    }
}

/// Whether no parameter of the list stands before one of a lower rank.
pub open spec fn ordered_by_rank(s: Seq<GenericParamView>) -> bool {
    forall|i: int, j: int| 0 <= i < j < s.len() ==> rank(s[i].kind) <= rank(s[j].kind)
}

/// Whether every parameter of the list is of the given kind.
pub open spec fn all_of_kind(s: Seq<GenericParamView>, kind: ParamKind) -> bool {
    forall|i: int| 0 <= i < s.len() ==> (#[trigger] s[i]).kind == kind
}

/// The parameters selected by kind are of that kind.
pub proof fn lemma_of_kind(ps: Seq<GenericParamView>, kind: ParamKind)
    ensures
        all_of_kind(of_kind(ps, kind), kind),
    decreases ps.len(),
{
    if ps.len() > 0 {
        lemma_of_kind(ps.drop_last(), kind);
    }
}

/// Lifetimes, then types, then constants are in order.
pub proof fn lemma_three_ranks(
    lifetimes: Seq<GenericParamView>,
    types: Seq<GenericParamView>,
    consts: Seq<GenericParamView>,
)
    requires
        all_of_kind(lifetimes, ParamKind::Lifetime),
        all_of_kind(types, ParamKind::Type),
        all_of_kind(consts, ParamKind::Const),
    ensures
        ordered_by_rank(lifetimes + types + consts),
{
    let s = lifetimes + types + consts;
    assert forall|i: int| 0 <= i < s.len() implies rank(#[trigger] s[i].kind) == (if i
        < lifetimes.len() {
        0int
    } else if i < lifetimes.len() + types.len() {
        1int
    } else {
        2int
    }) by {
        if i < lifetimes.len() {
            assert(s[i] == lifetimes[i]);
        } else if i < lifetimes.len() + types.len() {
            assert(s[i] == types[i - lifetimes.len()]);
        } else {
            assert(s[i] == consts[i - lifetimes.len() - types.len()]);
        }
    }
}

/// The unified generics of a method are in a fixed order: every lifetime
/// stands before every type, and every type before every constant, the
/// parameters that are made up last of their kind.
pub proof fn unified_generics_are_ordered(item: InterfaceView, m: MethodView, lifetime: Seq<char>)
    ensures
        ordered_by_rank(unified(item, m, lifetime).params),
{
    let il = of_kind(item.generics.params, ParamKind::Lifetime);
    let ml = of_kind(m.generics.params, ParamKind::Lifetime);
    let it = of_kind(item.generics.params, ParamKind::Type);
    let mt = of_kind(m.generics.params, ParamKind::Type);
    let ic = of_kind(item.generics.params, ParamKind::Const);
    let mc = of_kind(m.generics.params, ParamKind::Const);
    lemma_of_kind(item.generics.params, ParamKind::Lifetime);
    lemma_of_kind(m.generics.params, ParamKind::Lifetime);
    lemma_of_kind(item.generics.params, ParamKind::Type);
    lemma_of_kind(m.generics.params, ParamKind::Type);
    lemma_of_kind(item.generics.params, ParamKind::Const);
    lemma_of_kind(m.generics.params, ParamKind::Const);
    let xl = if args_anonymous(m.inputs) {
        seq![lifetime_param(lifetime)]
    } else {
        Seq::empty()
    };
    let xt = if !trait_input(item.options).dynamic {
        seq![receiver_param(item)]
    } else {
        Seq::empty()
    };
    let lifetimes = il + ml + xl;
    let types = it + mt + xt;
    let consts = ic + mc;
    assert(all_of_kind(lifetimes, ParamKind::Lifetime));
    assert(all_of_kind(types, ParamKind::Type));
    assert(all_of_kind(consts, ParamKind::Const));
    lemma_three_ranks(lifetimes, types, consts);
    let merged = merged_params(item, m, lifetime);
    assert(merged =~= lifetimes + types + consts);
    let params = unified(item, m, lifetime).params;
    assert forall|i: int, j: int| 0 <= i < j < params.len() implies rank(params[i].kind) <= rank(
        params[j].kind,
    ) by {
        assert(params[i].kind == merged[i].kind);
        assert(params[j].kind == merged[j].kind);
    }
}

/// Every parameter is a lifetime, a type or a constant.
pub proof fn lemma_kinds_partition(ps: Seq<GenericParamView>)
    ensures
        of_kind(ps, ParamKind::Lifetime).len() + of_kind(ps, ParamKind::Type).len() + of_kind(
            ps,
            ParamKind::Const,
        ).len() == ps.len(),
    decreases ps.len(),
{
    if ps.len() > 0 {
        lemma_kinds_partition(ps.drop_last());
    }
}

/// The unified generics of a method hold every parameter of the interface
/// and of the method, and besides them one made-up lifetime exactly where a
/// parameter borrows without naming one, and one parameter for the
/// implementing type exactly under static dispatch.
pub proof fn unified_generics_are_complete(item: InterfaceView, m: MethodView, lifetime: Seq<char>)
    ensures
        unified(item, m, lifetime).params.len() == item.generics.params.len()
            + m.generics.params.len() + (if args_anonymous(m.inputs) {
            1int
        } else {
            0int
        }) + (if trait_input(item.options).dynamic {
            0int
        } else {
            1int
        }),
        unified(item, m, lifetime).predicates.len() == item.generics.predicates.len()
            + m.generics.predicates.len() + (if trait_input(item.options).dynamic {
            0int
        } else {
            1int
        }),
        !trait_input(item.options).dynamic ==> unified(item, m, lifetime).predicates.last()
            == receiver_predicate(item),
{
    lemma_kinds_partition(item.generics.params);
    lemma_kinds_partition(m.generics.params);
}

/// Expanding the same declaration twice gives the same outcome.
pub proof fn expansion_is_deterministic(
    item: InterfaceDeclaration,
    first: Result<Vec<Node>, Vec<Diagnostic>>,
    second: Result<Vec<Node>, Vec<Diagnostic>>,
)
    requires
        outcome_view(first) == expansion(item@),
        outcome_view(second) == expansion(item@),
    ensures
        outcome_view(first) == outcome_view(second),
{
}

/// The record of a method has one field for every argument from which the
/// extension builds it.
pub proof fn record_and_constructor_agree(item: InterfaceView, m: MethodView)
    requires
        m.asyncness,
        m.body is None,
    ensures
        handle_struct(item, m) is Some,
        ext_impl_method(item, m) is Some,
        handle_struct(item, m)->0.fields.len() == construct_args(
            item,
            m,
        ).len(),
        handle_struct(item, m)->0.name == future_name(item.name, m.name),
{
}

/// Whether a parameter is a receiver taken by value.
pub open spec fn by_value(a: FnArgView) -> bool {
    a matches FnArgView::Receiver { reference, .. } && !reference
}

/// Whether sanitizing changes none of the types.
pub open spec fn all_sanitized(fields: Seq<NodeView>, interface: Seq<char>) -> bool {
    forall|i: int| 0 <= i < fields.len() ==> sanitized(#[trigger] fields[i], interface) == fields[i]
}

/// The analysis of a list of parameters fails exactly where under dynamic
/// dispatch one of them is a receiver taken by value. Where it succeeds it
/// adds one sanitized field and one argument for each parameter.
pub proof fn lemma_with_args(d: MethodDataView, inputs: Seq<FnArgView>)
    requires
        all_sanitized(d.fields, d.item.name),
    ensures
        with_args(d, inputs) is None <==> d.dynamic && exists|i: int|
            0 <= i < inputs.len() && by_value(#[trigger] inputs[i]),
        with_args(d, inputs) matches Some(r) ==> r.item == d.item && r.m == d.m && r.dynamic
            == d.dynamic && r.fields.len() == d.fields.len() + inputs.len() && r.poll_args.len()
            == d.poll_args.len() + inputs.len() && all_sanitized(r.fields, r.item.name),
    decreases inputs.len(),
{
    if inputs.len() > 0 {
        let rest = inputs.skip(1);
        match with_arg(d, inputs[0]) {
            Some(next) => {
                assert forall|i: int| 0 <= i < next.fields.len() implies sanitized(
                    #[trigger] next.fields[i],
                    next.item.name,
                ) == next.fields[i] by {
                    if i < d.fields.len() {
                        assert(next.fields[i] == d.fields[i]);
                    } else {
                        match inputs[0] {
                            FnArgView::Receiver { reference, lifetime, mutable } => {
                                lemma_sanitized_idempotent(
                                    receiver_field(d, reference, lifetime, mutable),
                                    d.item.name,
                                );
                            },
                            FnArgView::Typed { ty, .. } => {
                                lemma_sanitized_idempotent(ty, d.item.name);
                            },
                        }
                    }
                }
                lemma_with_args(next, rest);
                if exists|i: int| 0 <= i < inputs.len() && by_value(#[trigger] inputs[i]) {
                    let w = choose|i: int| 0 <= i < inputs.len() && by_value(#[trigger] inputs[i]);
                    if d.dynamic {
                        assert(w > 0);
                        assert(by_value(rest[w - 1]));
                    }
                }
                if exists|i: int| 0 <= i < rest.len() && by_value(#[trigger] rest[i]) {
                    let w = choose|i: int| 0 <= i < rest.len() && by_value(#[trigger] rest[i]);
                    assert(by_value(inputs[w + 1]));
                }
            },
            None => {
                assert(by_value(inputs[0]));
            },
        }
    }
}

/// The analysis of a method fails exactly where under dynamic dispatch the
/// method takes a receiver by value. Where it succeeds, the handle has one
/// field for every parameter, the receiver included, and under static
/// dispatch one marker field more where no type needed the implementing
/// type; sanitizing changes none of the fields; and the handle calls the
/// polling form with one argument for every parameter and the progress
/// context last.
pub proof fn analysis_mirrors_parameters(item: InterfaceView, m: MethodView, dynamic: bool)
    ensures
        analysed(item, m, dynamic) is None <==> dynamic && exists|i: int|
            0 <= i < m.inputs.len() && by_value(#[trigger] m.inputs[i]),
        analysed(item, m, dynamic) matches Some(d) ==> d.item == item && d.m == m && d.dynamic
            == dynamic && d.fields.len() == m.inputs.len() + (if !d.has_self && !dynamic {
            1int
        } else {
            0int
        }) && all_sanitized(d.fields, item.name) && d.poll_args.len() == m.inputs.len() + 1
            && d.poll_args.last() == NodeView::ident("cx"@),
{
    let start = MethodDataView {
        item,
        m,
        dynamic,
        need_default_lifetime: false,
        has_self: false,
        fields: Seq::empty(),
        poll_args: Seq::empty(),
    };
    lemma_with_args(start, m.inputs);
    if let Some(d) = with_args(start, m.inputs) {
        let called = MethodDataView { poll_args: d.poll_args.push(NodeView::ident("cx"@)), ..d };
        if !called.has_self && !dynamic {
            lemma_sanitized_idempotent(self_marker(), item.name);
            let r = analysed(item, m, dynamic)->0;
            assert forall|i: int| 0 <= i < r.fields.len() implies sanitized(
                #[trigger] r.fields[i],
                item.name,
            ) == r.fields[i] by {
                if i < d.fields.len() {
                    assert(r.fields[i] == d.fields[i]);
                }
            }
        }
    }
}

/// The generics of an analysed method are in a fixed order: every lifetime
/// stands before every type, and every type before every constant.
pub proof fn analysed_generics_are_ordered(d: MethodDataView)
    ensures
        ordered_by_rank(d.params()),
{
    lemma_of_kind(d.item.generics.params, ParamKind::Lifetime);
    lemma_of_kind(d.m.generics.params, ParamKind::Lifetime);
    lemma_of_kind(d.item.generics.params, ParamKind::Type);
    lemma_of_kind(d.m.generics.params, ParamKind::Type);
    lemma_of_kind(d.item.generics.params, ParamKind::Const);
    lemma_of_kind(d.m.generics.params, ParamKind::Const);
    let lifetimes = of_kind(d.item.generics.params, ParamKind::Lifetime) + of_kind(
        d.m.generics.params,
        ParamKind::Lifetime,
    ) + (if d.need_default_lifetime {
        seq![lifetime_param(resolved_lifetime())]
    } else {
        Seq::empty()
    });
    let types = of_kind(d.item.generics.params, ParamKind::Type) + of_kind(
        d.m.generics.params,
        ParamKind::Type,
    ) + (if d.needs_implementor() {
        seq![type_param(implementor())]
    } else {
        Seq::empty()
    });
    let consts = of_kind(d.item.generics.params, ParamKind::Const) + of_kind(
        d.m.generics.params,
        ParamKind::Const,
    );
    assert(all_of_kind(lifetimes, ParamKind::Lifetime));
    assert(all_of_kind(types, ParamKind::Type));
    assert(all_of_kind(consts, ParamKind::Const));
    lemma_three_ranks(lifetimes, types, consts);
    assert(d.params() =~= lifetimes + types + consts);
}

/// Under static dispatch every ergonomic form of an analysed method requires
/// sizedness, and its completion protocol calls through the implementing
/// type.
pub proof fn analysed_static_dispatch_is_sized(d: MethodDataView, with_content: bool)
    requires
        !d.dynamic,
    ensures
        d.extified(with_content).generics.predicates.last() == name_bound(
            "Self"@,
            "Sized"@,
        ),
        d.protocol().receiver == Some(implementor()),
        d.params().contains(type_param(implementor())),
{
    let before = of_kind(d.item.generics.params, ParamKind::Lifetime) + of_kind(
        d.m.generics.params,
        ParamKind::Lifetime,
    ) + (if d.need_default_lifetime {
        seq![lifetime_param(resolved_lifetime())]
    } else {
        Seq::empty()
    }) + of_kind(d.item.generics.params, ParamKind::Type) + of_kind(
        d.m.generics.params,
        ParamKind::Type,
    );
    assert(d.params()[before.len() as int] == type_param(
        implementor(),
    ));
}

/// The parameters that no field mentions are exactly those of the list
/// that no field mentions.
pub proof fn lemma_unmentioned(ps: Seq<GenericParamView>, fields: Seq<NodeView>)
    ensures
        forall|k: int|
            0 <= k < unmentioned(ps, fields).len() ==> !param_mentioned(
                fields,
                #[trigger] unmentioned(ps, fields)[k],
            ) && ps.contains(unmentioned(ps, fields)[k]),
        forall|j: int|
            0 <= j < ps.len() && !param_mentioned(fields, #[trigger] ps[j]) ==> unmentioned(
                ps,
                fields,
            ).contains(ps[j]),
    decreases ps.len(),
{
    if ps.len() > 0 {
        let front = ps.drop_last();
        lemma_unmentioned(front, fields);
        let u = unmentioned(ps, fields);
        let v = unmentioned(front, fields);
        assert forall|k: int| 0 <= k < u.len() implies !param_mentioned(fields, #[trigger] u[k])
            && ps.contains(u[k]) by {
            if k < v.len() {
                assert(u[k] == v[k]);
                let w = choose|w: int| 0 <= w < front.len() && front[w] == v[k];
                assert(ps[w] == v[k]);
            } else {
                assert(u[k] == ps[ps.len() - 1]);
            }
        }
        assert forall|j: int|
            0 <= j < ps.len() && !param_mentioned(fields, #[trigger] ps[j]) implies u.contains(
            ps[j],
        ) by {
            if j < front.len() {
                assert(front[j] == ps[j]);
                let w = choose|w: int| 0 <= w < v.len() && v[w] == front[j];
                assert(u[w] == ps[j]);
            } else {
                assert(u[u.len() - 1] == ps[j]);
            }
        }
    }
}

/// The record of a method has one field for each of the method's
/// parameters, the receiver included, and after them one marker for each
/// type parameter and each lifetime of the unified generics that none of
/// those fields mentions, and no other field.
pub proof fn markers_are_for_unmentioned(item: InterfaceView, m: MethodView)
    requires
        m.asyncness,
        m.body is None,
    ensures
        handle_struct(item, m) is Some,
        ({
            let s = handle_struct(item, m)->0;
            let fields = field_types(item, m.inputs);
            let markers = marker_params(item, m);
            let candidates = marked(unified(item, m, default_lifetime()).params);
            &&& s.fields.len() == m.inputs.len() + markers.len()
            &&& forall|i: int|
                0 <= i < m.inputs.len() ==> #[trigger] s.fields[i] == field_type(item, m.inputs[i])
            &&& forall|k: int|
                0 <= k < markers.len() ==> #[trigger] s.fields[m.inputs.len() + k] == phantom(
                    markers[k],
                )
            &&& forall|k: int|
                0 <= k < markers.len() ==> !param_mentioned(fields, #[trigger] markers[k])
                    && candidates.contains(markers[k])
            &&& forall|j: int|
                0 <= j < candidates.len() && !param_mentioned(fields, #[trigger] candidates[j])
                    ==> markers.contains(candidates[j])
        }),
{
    lemma_unmentioned(
        marked(unified(item, m, default_lifetime()).params),
        field_types(item, m.inputs),
    );
}

/// A type that is the placeholder alone mentions the placeholder, and still
/// does after `Self` is renamed.
proof fn lemma_placeholder_mentioned(lifetime: Option<Seq<char>>, mutable: bool)
    ensures
        mentions(
            renamed(NodeView::named(placeholder(), Seq::empty()), "Self"@, placeholder()),
            placeholder(),
        ),
        mentions(
            renamed(
                NodeView::reference(lifetime, mutable, NodeView::named(placeholder(), Seq::empty())),
                "Self"@,
                placeholder(),
            ),
            placeholder(),
        ),
{
    reveal_strlit("Self");
    reveal_strlit("__Self");
    assert("Self"@.len() != placeholder().len());
    let leaf = NodeView::ident(placeholder());
    let segment = NodeView::segment(placeholder(), Seq::empty());
    let named = NodeView::named(placeholder(), Seq::empty());
    assert(mentions(leaf, placeholder()));
    assert(segment.children[0] == leaf);
    assert(mentions(segment, placeholder()));
    assert(named.children[0] == segment);
    assert(mentions(named, placeholder()));
    lemma_renamed_keeps(named, "Self"@, placeholder(), placeholder());
    let borrowed = NodeView::reference(lifetime, mutable, named);
    assert(borrowed.children[borrowed.children.len() - 1] == named);
    assert(mentions(borrowed, placeholder()));
    lemma_renamed_keeps(borrowed, "Self"@, placeholder(), placeholder());
}

/// Under static dispatch a method with a receiver gets no marker for the
/// implementing type: the receiver's field mentions it.
pub proof fn receiver_needs_no_marker(item: InterfaceView, m: MethodView, i: int)
    requires
        !trait_input(item.options).dynamic,
        0 <= i < m.inputs.len(),
        m.inputs[i] is Receiver,
    ensures
        mentioned(field_types(item, m.inputs), placeholder()),
        forall|k: int|
            0 <= k < marker_params(item, m).len() ==> !((#[trigger] marker_params(item, m)[k]).kind
                != ParamKind::Lifetime && marker_params(item, m)[k].name == placeholder()),
{
    match m.inputs[i] {
        FnArgView::Receiver { reference, lifetime, mutable } => {
            lemma_placeholder_mentioned(Some(lifetime_or_default(lifetime)), mutable);
        },
        FnArgView::Typed { .. } => {},
    }
    let fields = field_types(item, m.inputs);
    assert(mentions(fields[i], placeholder()));
    lemma_unmentioned(marked(unified(item, m, default_lifetime()).params), fields);
}

/// What an expansion gives for a collector: nothing once an error has been
/// reported, else its value.
pub open spec fn captured<T>(errors: bool, value: Option<T>) -> Option<T> {
    if errors {
        None
    } else {
        value
    }
}

/// Whatever the collector holds, a completion protocol that is expanded
/// forwards to the polling form as [`advance_forwards_to_poll`] says, and
/// none is expanded once an error has been reported.
pub proof fn every_protocol_forwards_to_poll(item: InterfaceView, m: MethodView, errors: bool)
    requires
        !method_input(m.options).provided,
    ensures
        errors ==> captured(errors, handle_impl(item, m)) is None,
        captured(errors, handle_impl(item, m)) matches Some(h) ==> polled(m) matches Some(p)
            && h.method == p.name && h.arguments == forwarded(m.inputs.len()) && h.arguments.len()
            == p.inputs.len() && h.output == output_type(m.output) && p.output == Some(
            poll_of(h.output),
        ) && h.body().len() == 10 && h.body()[8] == h.callee() && h.body()[9] == NodeView::tree(
            Kind::Paren,
            NodeView::separated(h.arguments, NodeView::punct(","@)),
        ),
{
    if captured(errors, handle_impl(item, m)) is Some {
        advance_forwards_to_poll(item, m);
    }
}

/// Whatever the collector holds, a trampoline that is expanded takes the
/// receiver as [`trampoline_takes_receiver`] says, and none is expanded
/// once an error has been reported.
pub proof fn every_trampoline_takes_receiver(item: InterfaceView, m: MethodView, errors: bool)
    ensures
        errors ==> captured(errors, dynamic_provided(item, m)) is None,
        captured(errors, dynamic_provided(item, m)) matches Some(r) ==> r.body == Some(
            trampoline_body(item, m),
        ) && trampoline_body(item, m).contains(
            nested_block(renamed_all(m.body->0, "self"@, receiver_name(m))),
        ) && !mentioned(scope(m), receiver_name(m)) && !mentioned(
            renamed_all(m.body->0, "self"@, receiver_name(m)),
            "self"@,
        ) && renamed_all(
            renamed_all(m.body->0, "self"@, receiver_name(m)),
            receiver_name(m),
            "self"@,
        ) == m.body->0,
{
    if captured(errors, dynamic_provided(item, m)) is Some {
        trampoline_takes_receiver(item, m);
    }
}

/// Whatever the collector holds, a provided method that is expanded under
/// static dispatch holds its written block as [`static_default_is_inlined`]
/// says, and none is expanded once an error has been reported.
pub proof fn every_static_default_is_inlined(item: InterfaceView, m: MethodView, errors: bool)
    ensures
        errors ==> captured(errors, static_provided(item, m)) is None,
        captured(errors, static_provided(item, m)) matches Some(r) ==> r.body == Some(
            inline_body(m.body->0),
        ) && r.inputs == m.inputs && dynamic_provided(item, m) is None,
{
}

} // verus!
