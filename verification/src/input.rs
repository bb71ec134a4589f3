//! Configuration of an expansion.
//!
//! An interface and each of its methods carry a list of options as they were
//! written. The option records [`TraitInput`] and [`MethodInput`] say which of
//! the recognised options are set.

use crate::syntax::views;
use vstd::prelude::*;

verus! {

/// How an option was written.
#[derive(Clone, Copy, PartialEq, Eq, Debug, Structural)]
pub enum OptionForm {
    /// A bare name, such as `dynamic`.
    Flag,
    /// A name with a value, such as `dynamic = true`.
    Value,
    /// A name with a nested list, such as `dynamic(a, b)`.
    List,
    /// A literal where a name is expected, such as `"dynamic"`. It has no name.
    Literal,
    /// An attribute written without a list of options. It has no name.
    NoList,
}

impl OptionForm {
    /// Whether an option of this form has a name.
    pub open spec fn spec_is_named(self) -> bool {
        self == OptionForm::Flag || self == OptionForm::Value || self == OptionForm::List
    }

    /// Whether an option of this form has a name.
    #[verifier::when_used_as_spec(spec_is_named)]
    pub fn is_named(self) -> (r: bool)
        ensures
            r == self.spec_is_named(),
    {
        match self {
            OptionForm::Flag => true,
            OptionForm::Value => true,
            OptionForm::List => true,
            OptionForm::Literal => false,
            OptionForm::NoList => false,
        }
    }
}

/// One option as written on an interface or a method.
#[derive(PartialEq, Eq, Debug)]
pub struct ConfigOption {
    pub name: String,
    pub form: OptionForm,
}

/// The mathematical value of [`ConfigOption`].
pub struct ConfigOptionView {
    pub name: Seq<char>,
    pub form: OptionForm,
}

impl View for ConfigOption {
    type V = ConfigOptionView;

    open spec fn view(&self) -> ConfigOptionView {
        ConfigOptionView { name: self.name@, form: self.form }
    }
}

impl Clone for ConfigOption {
    fn clone(&self) -> (r: ConfigOption)
        ensures
            r@ == self@,
    {
        ConfigOption { name: self.name.clone(), form: self.form }
    }
}

/// Whether an option is written under the given name.
pub open spec fn is_option(o: ConfigOptionView, name: Seq<char>) -> bool {
    o.form.is_named() && o.name == name
}

/// Whether an option of the given name occurs in the list.
pub open spec fn has_option(options: Seq<ConfigOptionView>, name: Seq<char>) -> bool {
    exists|i: int| 0 <= i < options.len() && is_option(#[trigger] options[i], name)
}

/// Looks for an option by name.
pub fn find_option(options: &Vec<ConfigOption>, name: &str) -> (r: bool)
    ensures
        r == has_option(views(options@), name@),
{
    let wanted = name.to_owned();
    let mut i: usize = 0;
    while i < options.len()
        invariant
            i <= options.len(),
            wanted@ == name@,
            forall|j: int| 0 <= j < i ==> !is_option(#[trigger] options[j]@, name@),
        decreases options.len() - i,
    {
        if options[i].form.is_named() && options[i].name == wanted {
            assert(is_option(views(options@)[i as int], name@));
            return true;
        }
        i += 1;
    }
    assert forall|j: int| 0 <= j < options.len() implies !is_option(
        #[trigger] views(options@)[j],
        name@,
    ) by {
        assert(views(options@)[j] == options[j]@);
    }
    false
}

/// The options of an interface.
#[derive(Clone, Copy, PartialEq, Eq, Debug, Structural)]
pub struct TraitInput {
    /// Dispatch through a dynamically typed interface reference.
    pub dynamic: bool,
}

/// The options of a method.
#[derive(Clone, Copy, PartialEq, Eq, Debug, Structural)]
pub struct MethodInput {
    /// The method carries a default body that is kept.
    pub provided: bool,
}

/// The interface options that a list of written options sets.
pub open spec fn trait_input(options: Seq<ConfigOptionView>) -> TraitInput {
    TraitInput { dynamic: has_option(options, "dynamic"@) }
}

/// The method options that a list of written options sets.
pub open spec fn method_input(options: Seq<ConfigOptionView>) -> MethodInput {
    MethodInput { provided: has_option(options, "provided"@) }
}

impl TraitInput {
    /// Reads the interface options off the list as written.
    pub fn from(options: &Vec<ConfigOption>) -> (r: TraitInput)
        ensures
            r == trait_input(views(options@)),
    {
        TraitInput { dynamic: find_option(options, "dynamic") }
    }
}

impl MethodInput {
    /// Reads the method options off the list as written.
    pub fn from(options: &Vec<ConfigOption>) -> (r: MethodInput)
        ensures
            r == method_input(views(options@)),
    {
        MethodInput { provided: find_option(options, "provided") }
    }
}

} // verus!
