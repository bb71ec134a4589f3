//! The completion protocol of a handle.

use crate::decl::{GenericParam, InterfaceDeclaration, InterfaceView, MethodDeclaration, MethodView};
use crate::diagnostics::Collector;
use crate::input::{trait_input, TraitInput};
use crate::items::{forwarded, make_forwarded, FutureImpl, FutureImplView};
use crate::methods::expand::poll::{make_output_type, output_type};
use crate::methods::expand::{
    default_lifetime, not_lifetimes, param_args, placeholder, select_others, to_args, type_args,
    type_generics, unified, GenericsExpand,
};
use crate::methods::future_type;
use crate::names::{future_name, poll_ident, poll_name};
use crate::syntax::{opt_view, views};
use vstd::prelude::*;

verus! {

/// The implementation of the completion protocol for the handle of a method:
/// for an asynchronous method without a body, the one operation hands every
/// field that holds a parameter, in the parameters' order, and then the
/// progress context to the method's polling form and returns that call's
/// result. Under static
/// dispatch the call goes through the placeholder for the implementing type,
/// under dynamic dispatch through the interface's name.
pub open spec fn handle_impl(item: InterfaceView, m: MethodView) -> Option<FutureImplView> {
    if m.asyncness && m.body is None {
        Some(
            FutureImplView {
                generics: unified(item, m, default_lifetime()),
                handle: future_name(item.name, m.name),
                output: output_type(m.output),
                receiver: if trait_input(item.options).dynamic {
                    None
                } else {
                    Some(placeholder())
                },
                interface: item.name,
                interface_args: type_args(item.generics.params),
                method: poll_name(m.name),
                method_args: param_args(not_lifetimes(m.generics.params)),
                arguments: forwarded(m.inputs.len()),
            },
        )
    } else {
        None
    }
}

/// Implements the completion protocol for the handle of a method.
pub struct ImplFutureExpand<'a>(pub &'a InterfaceDeclaration);

impl<'a> ImplFutureExpand<'a> {
    /// Runs the expansion on `input`. Nothing is added to the collector's errors.
    pub fn expand(&self, input: &MethodDeclaration, c: &mut Collector) -> (r: Option<FutureImpl>)
        ensures
            *final(c) == *old(c),
            opt_view(r) == (if old(c).has_errors() {
                None
            } else {
                handle_impl(self.0@, input@)
            }),
    {
        if !input.asyncness {
            return None;
        }
        if input.body.is_some() {
            return None;
        }
        let attrs = TraitInput::from(&self.0.options);
        if c.has_errors() {
            return None;
        }
        let generics_expand = GenericsExpand {
            item: self.0,
            default_lifetime: "__default_lifetime".to_owned(),
        };
        let generics = match generics_expand.expand(input, c) {
            Some(g) => g,
            None => {
                return None;
            },
        };
        let mut others: Vec<GenericParam> = Vec::new();
        assert(views(others@) =~= Seq::empty());
        select_others(&input.generics.params, &mut others);
        assert(views(others@) =~= not_lifetimes(input@.generics.params));
        Some(
            FutureImpl {
                generics,
                handle: future_type(self.0, input),
                output: make_output_type(&input.output),
                receiver: if attrs.dynamic {
                    None
                } else {
                    Some("__Self".to_owned())
                },
                interface: self.0.name.clone(),
                interface_args: type_generics(&self.0.generics.params),
                method: poll_ident(input.name.as_str()),
                method_args: to_args(&others),
                arguments: make_forwarded(input.inputs.len()),
            },
        )
    }
}

} // verus!
