//! The check of the options of an interface.

use crate::decl::InterfaceDeclaration;
use crate::diagnostics::{Collector, Diagnostic, Problem};
use crate::input::{is_option, ConfigOption, ConfigOptionView, OptionForm};
use crate::names::same;
use crate::syntax::views;
use vstd::prelude::*;

verus! {

/// Whether the list sets the option `known`: whether it holds it as a bare
/// flag or with a value.
pub open spec fn sets(options: Seq<ConfigOptionView>, known: Seq<char>) -> bool
    decreases options.len(),
{
    options.len() > 0 && (sets(options.drop_last(), known) || (is_option(options.last(), known)
        && options.last().form != OptionForm::List))
}

/// What is wrong with one option as a use of the option `known`, given
/// whether an earlier option has set it: nothing for an option under
/// another name; for a bare flag, that it is repeated; for one with a value,
/// that it is repeated and that it has a value; for one with a nested list,
/// the list.
pub open spec fn use_errors(
    o: ConfigOptionView,
    known: Seq<char>,
    set: bool,
    item: Option<usize>,
) -> Seq<Diagnostic> {
    if !is_option(o, known) {
        Seq::empty()
    } else if o.form == OptionForm::List {
        seq![Diagnostic { problem: Problem::UnexpectedList, item }]
    } else {
        (if set {
            seq![Diagnostic { problem: Problem::DuplicateOption, item }]
        } else {
            Seq::empty()
        }) + (if o.form == OptionForm::Value {
            seq![Diagnostic { problem: Problem::UnexpectedValue, item }]
        } else {
            Seq::empty()
        })
    }
}

/// What is wrong with the uses of the option `known` in the list, in the
/// order of the options.
pub open spec fn uses_errors(
    options: Seq<ConfigOptionView>,
    known: Seq<char>,
    item: Option<usize>,
) -> Seq<Diagnostic>
    decreases options.len(),
{
    if options.len() == 0 {
        Seq::empty()
    } else {
        uses_errors(options.drop_last(), known, item) + use_errors(
            options.last(),
            known,
            sets(options.drop_last(), known),
            item,
        )
    }
}

/// What is wrong with the shape of one option: a nested list; a name other
/// than `known`; a literal in place of an option; an attribute without a
/// list.
pub open spec fn shape_errors(o: ConfigOptionView, known: Seq<char>, item: Option<usize>) -> Seq<
    Diagnostic,
> {
    match o.form {
        OptionForm::Literal => seq![Diagnostic { problem: Problem::ExpectedMeta, item }],
        OptionForm::NoList => seq![Diagnostic { problem: Problem::ExpectedList, item }],
        _ => (if o.form == OptionForm::List {
            seq![Diagnostic { problem: Problem::ExpectedNameValueOrPath, item }]
        } else {
            Seq::empty()
        }) + (if o.name != known {
            seq![Diagnostic { problem: Problem::UnrecognizedOption, item }]
        } else {
            Seq::empty()
        }),
    }
}

/// What is wrong with the shapes of the options of the list, in their order.
pub open spec fn shapes_errors(
    options: Seq<ConfigOptionView>,
    known: Seq<char>,
    item: Option<usize>,
) -> Seq<Diagnostic>
    decreases options.len(),
{
    if options.len() == 0 {
        Seq::empty()
    } else {
        shapes_errors(options.drop_last(), known, item) + shape_errors(options.last(), known, item)
    }
}

/// The diagnostics of a list of options where only the bare flag `known` is
/// recognised: first what is wrong with the uses of that option, then what
/// is wrong with the shape of each option.
pub open spec fn option_errors(
    options: Seq<ConfigOptionView>,
    known: Seq<char>,
    item: Option<usize>,
) -> Seq<Diagnostic> {
    uses_errors(options, known, item) + shapes_errors(options, known, item)
}

/// Reports what is wrong with the options where only the bare flag `known`
/// is recognised. Returns whether nothing was.
pub fn lint_options(
    options: &Vec<ConfigOption>,
    known: &str,
    item: Option<usize>,
    c: &mut Collector,
) -> (r: bool)
    ensures
        final(c).errors@ == old(c).errors@ + option_errors(views(options@), known@, item),
        final(c).output == old(c).output,
        r == (option_errors(views(options@), known@, item).len() == 0),
{
    let ghost all = views(options@);
    let ghost start = c.errors@;
    let mut set = false;
    let mut clean = true;
    let mut i: usize = 0;
    assert(all.take(0) =~= Seq::empty());
    assert(c.errors@ =~= start + Seq::empty());
    while i < options.len()
        invariant
            i <= options.len(),
            all == views(options@),
            c.errors@ == start + uses_errors(all.take(i as int), known@, item),
            c.output == old(c).output,
            set == sets(all.take(i as int), known@),
            clean == (uses_errors(all.take(i as int), known@, item).len() == 0),
        decreases options.len() - i,
    {
        assert(all.take(i + 1).drop_last() =~= all.take(i as int));
        assert(all.take(i + 1).last() == options[i as int]@);
        let ghost before = c.errors@;
        let o = &options[i];
        if o.form.is_named() && same(&o.name, known) {
            if o.form == OptionForm::List {
                c.error(Diagnostic { problem: Problem::UnexpectedList, item });
                clean = false;
            } else {
                if set {
                    c.error(Diagnostic { problem: Problem::DuplicateOption, item });
                    clean = false;
                }
                set = true;
                if o.form == OptionForm::Value {
                    c.error(Diagnostic { problem: Problem::UnexpectedValue, item });
                    clean = false;
                }
            }
        }
        assert(c.errors@ =~= before + use_errors(
            options[i as int]@,
            known@,
            sets(all.take(i as int), known@),
            item,
        ));
        assert(c.errors@ =~= start + uses_errors(all.take(i + 1), known@, item));
        i += 1;
    }
    assert(all.take(options.len() as int) =~= all);
    let ghost first = c.errors@;
    let mut k: usize = 0;
    assert(c.errors@ =~= first + Seq::empty());
    while k < options.len()
        invariant
            k <= options.len(),
            all == views(options@),
            first == start + uses_errors(all, known@, item),
            c.errors@ == first + shapes_errors(all.take(k as int), known@, item),
            c.output == old(c).output,
            clean == (uses_errors(all, known@, item).len() + shapes_errors(
                all.take(k as int),
                known@,
                item,
            ).len() == 0),
        decreases options.len() - k,
    {
        assert(all.take(k + 1).drop_last() =~= all.take(k as int));
        assert(all.take(k + 1).last() == options[k as int]@);
        let ghost before = c.errors@;
        let o = &options[k];
        match o.form {
            OptionForm::Literal => {
                c.error(Diagnostic { problem: Problem::ExpectedMeta, item });
                clean = false;
            },
            OptionForm::NoList => {
                c.error(Diagnostic { problem: Problem::ExpectedList, item });
                clean = false;
            },
            _ => {
                if o.form == OptionForm::List {
                    c.error(Diagnostic { problem: Problem::ExpectedNameValueOrPath, item });
                    clean = false;
                }
                if !same(&o.name, known) {
                    c.error(Diagnostic { problem: Problem::UnrecognizedOption, item });
                    clean = false;
                }
            },
        }
        assert(c.errors@ =~= before + shape_errors(options[k as int]@, known@, item));
        assert(c.errors@ =~= first + shapes_errors(all.take(k + 1), known@, item));
        k += 1;
    }
    assert(all.take(options.len() as int) =~= all);
    assert(c.errors@ =~= start + option_errors(all, known@, item));
    clean
}

/// Checks the options of an interface: only the bare flag `dynamic` is
/// recognised.
pub struct AttributeLint;

impl AttributeLint {
    /// Reports every violation to the collector.
    pub fn lint(&self, input: &InterfaceDeclaration, c: &mut Collector)
        ensures
            final(c).errors@ == old(c).errors@ + option_errors(input@.options, "dynamic"@, None),
            final(c).output == old(c).output,
    {
        lint_options(&input.options, "dynamic", None, c);
    }
}

} // verus!
