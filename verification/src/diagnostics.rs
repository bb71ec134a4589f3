//! Diagnostics and their collection.

use crate::syntax::{append_nodes, views, Node, NodeView};
use vstd::prelude::*;

verus! {

/// The three kinds of error.
#[derive(Clone, Copy, PartialEq, Eq, Debug, Structural)]
pub enum ErrorKind {
    /// An option that is not recognised.
    Configuration,
    /// The `provided` marker and the presence of a body do not match.
    Consistency,
    /// A by-value receiver under dynamic dispatch.
    DispatchCompatibility,
}

/// What exactly is wrong.
#[derive(Clone, Copy, PartialEq, Eq, Debug, Structural)]
pub enum Problem {
    /// An option under a name that is not recognised in its place.
    UnrecognizedOption,
    /// The recognised option is written more than once.
    DuplicateOption,
    /// The recognised option is given a value; it is a bare flag.
    UnexpectedValue,
    /// The recognised option is given a nested list.
    UnexpectedList,
    /// An option with a nested list, where only a bare name or a name with a
    /// value is expected.
    ExpectedNameValueOrPath,
    /// A literal where an option is expected.
    ExpectedMeta,
    /// An attribute without a list of options.
    ExpectedList,
    /// A method has a body and is not marked `provided`.
    UnmarkedBody,
    /// A method is marked `provided` and has no body.
    MissingBody,
    /// A method takes `self` by value and the interface is `dynamic`.
    OwnedReceiver,
    /// The analysis of a method found a body without the `provided` marker.
    UnmarkedProvided,
    /// The analysis of a method found `self` taken by value under dynamic
    /// dispatch.
    OwnedSelf,
}

/// One diagnostic. `item` is the position of the offending item among the
/// interface's items, or `None` where the interface itself is at fault.
#[derive(Clone, Copy, PartialEq, Eq, Debug)]
pub struct Diagnostic {
    pub problem: Problem,
    pub item: Option<usize>,
}

impl Problem {
    /// The kind of error that the problem is.
    pub open spec fn spec_kind(self) -> ErrorKind {
        match self {
            Problem::UnrecognizedOption => ErrorKind::Configuration,
            Problem::DuplicateOption => ErrorKind::Configuration,
            Problem::UnexpectedValue => ErrorKind::Configuration,
            Problem::UnexpectedList => ErrorKind::Configuration,
            Problem::ExpectedNameValueOrPath => ErrorKind::Configuration,
            Problem::ExpectedMeta => ErrorKind::Configuration,
            Problem::ExpectedList => ErrorKind::Configuration,
            Problem::UnmarkedBody => ErrorKind::Consistency,
            Problem::MissingBody => ErrorKind::Consistency,
            Problem::OwnedReceiver => ErrorKind::DispatchCompatibility,
            Problem::UnmarkedProvided => ErrorKind::Consistency,
            Problem::OwnedSelf => ErrorKind::DispatchCompatibility,
        }
    }

    /// The kind of error that the problem is.
    #[verifier::when_used_as_spec(spec_kind)]
    pub fn kind(self) -> (r: ErrorKind)
        ensures
            r == self.spec_kind(),
    {
        match self {
            Problem::UnrecognizedOption => ErrorKind::Configuration,
            Problem::DuplicateOption => ErrorKind::Configuration,
            Problem::UnexpectedValue => ErrorKind::Configuration,
            Problem::UnexpectedList => ErrorKind::Configuration,
            Problem::ExpectedNameValueOrPath => ErrorKind::Configuration,
            Problem::ExpectedMeta => ErrorKind::Configuration,
            Problem::ExpectedList => ErrorKind::Configuration,
            Problem::UnmarkedBody => ErrorKind::Consistency,
            Problem::MissingBody => ErrorKind::Consistency,
            Problem::OwnedReceiver => ErrorKind::DispatchCompatibility,
            Problem::UnmarkedProvided => ErrorKind::Consistency,
            Problem::OwnedSelf => ErrorKind::DispatchCompatibility,
        }
    }

    /// The text shown to the user.
    pub open spec fn spec_message(self) -> Seq<char> {
        match self {
            Problem::UnrecognizedOption => "unrecognized attribute"@,
            Problem::DuplicateOption => "dupplicate attribute"@,
            Problem::UnexpectedValue => "expected nothing"@,
            Problem::UnexpectedList => "unexpected meta list"@,
            Problem::ExpectedNameValueOrPath => "expected name-and-value or path meta"@,
            Problem::ExpectedMeta => "expected meta"@,
            Problem::ExpectedList => "expected a list meta"@,
            Problem::UnmarkedBody => "provided methods must be marked with #[async_fn(provided)]"@,
            Problem::MissingBody => "provided methods must have a default block"@,
            Problem::OwnedReceiver => "dynamic traits can't receive owned self"@,
            Problem::UnmarkedProvided => "provided methods must be marked with #[provided]"@,
            Problem::OwnedSelf => "dynamic doesn't work with owned self"@,
        }
    }

    /// The text shown to the user.
    pub fn message(self) -> (r: String)
        ensures
            r@ == self.spec_message(),
    {
        match self {
            Problem::UnrecognizedOption => "unrecognized attribute".to_owned(),
            Problem::DuplicateOption => "dupplicate attribute".to_owned(),
            Problem::UnexpectedValue => "expected nothing".to_owned(),
            Problem::UnexpectedList => "unexpected meta list".to_owned(),
            Problem::ExpectedNameValueOrPath => "expected name-and-value or path meta".to_owned(),
            Problem::ExpectedMeta => "expected meta".to_owned(),
            Problem::ExpectedList => "expected a list meta".to_owned(),
            Problem::UnmarkedBody => "provided methods must be marked with #[async_fn(provided)]".to_owned(),
            Problem::MissingBody => "provided methods must have a default block".to_owned(),
            Problem::OwnedReceiver => "dynamic traits can't receive owned self".to_owned(),
            Problem::UnmarkedProvided => "provided methods must be marked with #[provided]".to_owned(),
            Problem::OwnedSelf => "dynamic doesn't work with owned self".to_owned(),
        }
    }
}

impl Diagnostic {
    /// The text shown to the user: that of the problem, which for a repeated
    /// option names the attribute that holds it, the interface's where no
    /// item is at fault and the method's else.
    pub open spec fn spec_message(self) -> Seq<char> {
        if self.problem == Problem::DuplicateOption {
            if self.item is None {
                "dupplicate async_trait_ext attribute"@
            } else {
                "dupplicate async_fn attribute"@
            }
        } else {
            self.problem.spec_message()
        }
    }

    /// The text shown to the user.
    pub fn message(self) -> (r: String)
        ensures
            r@ == self.spec_message(),
    {
        match self.problem {
            Problem::DuplicateOption => {
                if self.item.is_none() {
                    "dupplicate async_trait_ext attribute".to_owned()
                } else {
                    "dupplicate async_fn attribute".to_owned()
                }
            },
            other => other.message(),
        }
    }
}

/// Collects the diagnostics and the output of one expansion.
#[derive(PartialEq, Eq, Debug)]
pub struct Collector {
    pub errors: Vec<Diagnostic>,
    pub output: Vec<Node>,
}

/// The outcome of an expansion: the emitted tokens, or the diagnostics and no
/// output.
pub open spec fn outcome(errors: Seq<Diagnostic>, output: Seq<NodeView>) -> Result<
    Seq<NodeView>,
    Seq<Diagnostic>,
> {
    if errors.len() == 0 {
        Ok(output)
    } else {
        Err(errors)
    }
}

/// The view of an outcome.
pub open spec fn outcome_view(r: Result<Vec<Node>, Vec<Diagnostic>>) -> Result<
    Seq<NodeView>,
    Seq<Diagnostic>,
> {
    match r {
        Ok(tokens) => Ok(views(tokens@)),
        Err(errors) => Err(errors@),
    }
}

impl Collector {
    /// A collector that holds nothing.
    pub fn new() -> (r: Collector)
        ensures
            r.errors@ == Seq::<Diagnostic>::empty(),
            views(r.output@) == Seq::<NodeView>::empty(),
    {
        let r = Collector { errors: Vec::new(), output: Vec::new() };
        assert(views(r.output@) =~= Seq::<NodeView>::empty());
        r
    }

    /// Reports an error. Once one is reported nothing is expanded any more.
    pub fn error(&mut self, e: Diagnostic)
        ensures
            final(self).errors@ == old(self).errors@.push(e),
            final(self).output == old(self).output,
    {
        self.errors.push(e);
    }

    /// Whether an error has been reported.
    pub open spec fn spec_has_errors(&self) -> bool {
        self.errors@.len() != 0
    }

    /// Whether an error has been reported.
    #[verifier::when_used_as_spec(spec_has_errors)]
    pub fn has_errors(&self) -> (r: bool)
        ensures
            r == self.spec_has_errors(),
    {
        self.errors.len() != 0
    }

    /// Adds tokens to the output.
    pub fn emit(&mut self, tokens: Vec<Node>)
        ensures
            final(self).errors == old(self).errors,
            views(final(self).output@) == views(old(self).output@) + views(tokens@),
    {
        append_nodes(&mut self.output, tokens);
    }

    /// Ends the expansion.
    pub fn finish(self) -> (r: Result<Vec<Node>, Vec<Diagnostic>>)
        ensures
            outcome_view(r) == outcome(self.errors@, views(self.output@)),
    {
        if self.errors.len() == 0 {
            Ok(self.output)
        } else {
            Err(self.errors)
        }
    }
}

} // verus!
