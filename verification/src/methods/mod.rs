//! What is generated for one method.

pub mod expand;
pub mod lint;

pub use expand::{
    CleanUpMutPatternsExpand, DynamicProvidedMethodImplExpand, ExtMethodExpand, FutureAliasExpand,
    FutureStructExpand, ImplFutureExpand, MethodExtImplExpand, PollMethodExpand, RenameSelf,
    StaticProvidedMethodImplExpand,
};
pub use lint::MethodAttrLint;

use crate::decl::{InterfaceDeclaration, MethodDeclaration};
use crate::names::{future_ident, future_name};
use vstd::prelude::*;

verus! {

/// The name of the completion handle of a method: the interface's name
/// followed by the method's name in camel case.
pub fn future_type(item: &InterfaceDeclaration, method: &MethodDeclaration) -> (r: String)
    ensures
        r@ == future_name(item@.name, method@.name),
{
    future_ident(item.name.as_str(), method.name.as_str())
}

} // verus!
