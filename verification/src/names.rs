//! Names of the generated items.

use vstd::prelude::*;

verus! {

/// The camel-case form of a name: what `heck` makes of it.
pub uninterp spec fn camel_case(name: Seq<char>) -> Seq<char>;

/// `heck::CamelCase::to_camel_case` on a string slice. The result depends on
/// the characters of the name alone; it is taken as the value of
/// [`camel_case`] and nothing else is claimed of it.
#[verifier::external_body]
fn to_camel_case(name: &str) -> (r: String)
    ensures
        r@ == camel_case(name@),
{
    heck::CamelCase::to_camel_case(name)
}

/// Two strings, one after the other.
pub fn append_str(a: &str, b: &str) -> (r: String)
    ensures
        r@ == a@ + b@,
{
    a.to_owned().concat(b)
}

/// Whether a name is the given one.
pub fn same(a: &String, b: &str) -> (r: bool)
    ensures
        r == (a@ == b@),
{
    *a == b.to_owned()
}

/// The decimal digit `d`, for `d` below ten.
pub open spec fn digit(d: nat) -> Seq<char> {
    if d == 0 {
        "0"@
    } else if d == 1 {
        "1"@
    } else if d == 2 {
        "2"@
    } else if d == 3 {
        "3"@
    } else if d == 4 {
        "4"@
    } else if d == 5 {
        "5"@
    } else if d == 6 {
        "6"@
    } else if d == 7 {
        "7"@
    } else if d == 8 {
        "8"@
    } else {
        "9"@
    }
}

/// The decimal form of a number, without leading zeros.
pub open spec fn decimal(n: nat) -> Seq<char>
    decreases n,
{
    if n < 10 {
        digit(n)
    } else {
        decimal(n / 10) + digit(n % 10)
    }
}

fn digit_text(d: usize) -> (r: &'static str)
    requires
        d < 10,
    ensures
        r@ == digit(d as nat),
{
    if d == 0 {
        "0"
    } else if d == 1 {
        "1"
    } else if d == 2 {
        "2"
    } else if d == 3 {
        "3"
    } else if d == 4 {
        "4"
    } else if d == 5 {
        "5"
    } else if d == 6 {
        "6"
    } else if d == 7 {
        "7"
    } else if d == 8 {
        "8"
    } else {
        "9"
    }
}

/// Writes a number in decimal.
pub fn decimal_text(n: usize) -> (r: String)
    ensures
        r@ == decimal(n as nat),
    decreases n,
{
    if n < 10 {
        digit_text(n).to_owned()
    } else {
        decimal_text(n / 10).concat(digit_text(n % 10))
    }
}

/// The name of the polling form of a method.
pub open spec fn poll_name(method: Seq<char>) -> Seq<char> {
    "poll_"@ + method
}

/// The name of the extension interface of an interface.
pub open spec fn ext_name(interface: Seq<char>) -> Seq<char> {
    interface + "Ext"@
}

/// The name given to the parameter at `position` where it has none.
pub open spec fn arg_name(position: nat) -> Seq<char> {
    "arg"@ + decimal(position)
}

/// The name of a completion handle, from the interface's name and the
/// camel-case form of the method's name.
pub open spec fn handle_name(interface: Seq<char>, camel: Seq<char>) -> Seq<char> {
    interface + camel
}

/// The name of the completion handle of a method of an interface.
pub open spec fn future_name(interface: Seq<char>, method: Seq<char>) -> Seq<char> {
    handle_name(interface, camel_case(method))
}

/// Within one interface, different camel-case forms give different handle
/// names.
pub proof fn lemma_handle_names_differ(interface: Seq<char>, first: Seq<char>, second: Seq<char>)
    requires
        first != second,
    ensures
        handle_name(interface, first) != handle_name(interface, second),
{
    let a = handle_name(interface, first);
    let b = handle_name(interface, second);
    if a == b {
        assert(first.len() == second.len()) by {
            assert(a.len() == interface.len() + first.len());
            assert(b.len() == interface.len() + second.len());
        }
        assert forall|k: int| 0 <= k < first.len() implies first[k] == second[k] by {
            assert(a[interface.len() + k] == first[k]);
            assert(b[interface.len() + k] == second[k]);
        }
        assert(first =~= second);
    }
}

/// Two methods of one interface whose names differ in camel case have
/// different completion handles.
pub proof fn lemma_future_names_differ(interface: Seq<char>, first: Seq<char>, second: Seq<char>)
    requires
        camel_case(first) != camel_case(second),
    ensures
        future_name(interface, first) != future_name(interface, second),
{
    lemma_handle_names_differ(interface, camel_case(first), camel_case(second));
}

/// The name of the polling form of a method.
pub fn poll_ident(method: &str) -> (r: String)
    ensures
        r@ == poll_name(method@),
{
    append_str("poll_", method)
}

/// The name of the extension interface of an interface.
pub fn ext_ident(interface: &str) -> (r: String)
    ensures
        r@ == ext_name(interface@),
{
    append_str(interface, "Ext")
}

/// The name given to the parameter at `position` where it has none.
pub fn arg_ident(position: usize) -> (r: String)
    ensures
        r@ == arg_name(position as nat),
{
    let digits = decimal_text(position);
    append_str("arg", digits.as_str())
}

/// Joins the interface's name and the camel-case form of the method's name.
pub fn handle_ident(interface: &str, camel: &str) -> (r: String)
    ensures
        r@ == handle_name(interface@, camel@),
{
    append_str(interface, camel)
}

/// The name of the completion handle of a method of an interface.
pub fn future_ident(interface: &str, method: &str) -> (r: String)
    ensures
        r@ == future_name(interface@, method@),
{
    let camel = to_camel_case(method);
    handle_ident(interface, camel.as_str())
}

} // verus!
