//! Rewriting of syntax trees: renaming identifiers and naming anonymous
//! lifetimes.

use crate::names::same;
use crate::syntax::{lemma_child, views, Kind, Node, NodeView};
use vstd::prelude::*;

verus! {

/// The tree with every identifier `from` replaced by `to`.
pub open spec fn renamed(n: NodeView, from: Seq<char>, to: Seq<char>) -> NodeView
    decreases n,
{
    NodeView {
        kind: n.kind,
        text: if n.kind == Kind::Ident && n.text == from {
            to
        } else {
            n.text
        },
        children: Seq::new(
            n.children.len(),
            |i: int|
                if 0 <= i < n.children.len() {
                    renamed(n.children[i], from, to)
                } else {
                    arbitrary()
                },
        ),
    }
}

/// Every tree of the list renamed by [`renamed`].
pub open spec fn renamed_all(s: Seq<NodeView>, from: Seq<char>, to: Seq<char>) -> Seq<NodeView> {
    Seq::new(s.len(), |i: int| renamed(s[i], from, to))
}

/// Whether the identifier `name` occurs in the tree.
pub open spec fn mentions(n: NodeView, name: Seq<char>) -> bool
    decreases n,
{
    (n.kind == Kind::Ident && n.text == name) || exists|i: int|
        #![trigger n.children[i]]
        0 <= i < n.children.len() && mentions(n.children[i], name)
}

/// Whether the identifier `name` occurs in one of the trees.
pub open spec fn mentioned(s: Seq<NodeView>, name: Seq<char>) -> bool {
    exists|i: int| #![trigger s[i]] 0 <= i < s.len() && mentions(s[i], name)
}

/// Renaming leaves no occurrence of the old name.
pub proof fn lemma_renamed_away(n: NodeView, from: Seq<char>, to: Seq<char>)
    requires
        from != to,
    ensures
        !mentions(renamed(n, from, to), from),
    decreases n,
{
    let r = renamed(n, from, to);
    assert forall|i: int| #![trigger r.children[i]] 0 <= i < r.children.len() implies !mentions(
        r.children[i],
        from,
    ) by {
        lemma_renamed_away(n.children[i], from, to);
    }
}

/// Renaming a name that does not occur changes nothing.
pub proof fn lemma_renamed_absent(n: NodeView, from: Seq<char>, to: Seq<char>)
    requires
        !mentions(n, from),
    ensures
        renamed(n, from, to) == n,
    decreases n,
{
    let r = renamed(n, from, to);
    assert forall|i: int| 0 <= i < n.children.len() implies r.children[i] == n.children[i] by {
        assert(!mentions(n.children[i], from));
        lemma_renamed_absent(n.children[i], from, to);
    }
    assert(r.children =~= n.children);
}

/// Where the new name did not occur before, renaming back gives the tree back:
/// the new name marks exactly the places where the old one stood.
pub proof fn lemma_renamed_back(n: NodeView, from: Seq<char>, to: Seq<char>)
    requires
        !mentions(n, to),
    ensures
        renamed(renamed(n, from, to), to, from) == n,
    decreases n,
{
    let r = renamed(n, from, to);
    let b = renamed(r, to, from);
    assert forall|i: int| 0 <= i < n.children.len() implies b.children[i] == n.children[i] by {
        assert(!mentions(n.children[i], to));
        lemma_renamed_back(n.children[i], from, to);
    }
    assert(b.children =~= n.children);
}

/// Renaming keeps every occurrence of a name other than the old one.
pub proof fn lemma_renamed_keeps(n: NodeView, from: Seq<char>, to: Seq<char>, name: Seq<char>)
    requires
        mentions(n, name),
        name != from,
    ensures
        mentions(renamed(n, from, to), name),
    decreases n,
{
    let r = renamed(n, from, to);
    if !(n.kind == Kind::Ident && n.text == name) {
        let i = choose|i: int|
            #![trigger n.children[i]]
            0 <= i < n.children.len() && mentions(n.children[i], name);
        lemma_renamed_keeps(n.children[i], from, to, name);
        assert(mentions(r.children[i], name));
    }
}

/// Replaces every identifier `from` in the tree by `to`.
pub fn rename(n: &Node, from: &str, to: &str) -> (r: Node)
    ensures
        r@ == renamed(n@, from@, to@),
    decreases n,
{
    let mut children: Vec<Node> = Vec::new();
    let mut i: usize = 0;
    while i < n.children.len()
        invariant
            i <= n.children.len(),
            children.len() == i,
            forall|j: int| 0 <= j < i ==> children[j]@ == renamed(n.children[j]@, from@, to@),
        decreases n.children.len() - i,
    {
        let c = rename(&n.children[i], from, to);
        children.push(c);
        i += 1;
    }
    let text = if n.kind == Kind::Ident && same(&n.text, from) {
        to.to_owned()
    } else {
        n.text.clone()
    };
    let r = Node { kind: n.kind, text, children };
    assert(r@.children =~= renamed(n@, from@, to@).children);
    r
}

/// Replaces every identifier `from` in the trees by `to`.
pub fn rename_all(v: &Vec<Node>, from: &str, to: &str) -> (r: Vec<Node>)
    ensures
        views(r@) == renamed_all(views(v@), from@, to@),
{
    let mut out: Vec<Node> = Vec::new();
    let mut i: usize = 0;
    while i < v.len()
        invariant
            i <= v.len(),
            out.len() == i,
            forall|j: int| 0 <= j < i ==> out[j]@ == renamed(v[j]@, from@, to@),
        decreases v.len() - i,
    {
        out.push(rename(&v[i], from, to));
        i += 1;
    }
    assert(views(out@) =~= renamed_all(views(v@), from@, to@));
    out
}

/// Whether one of the node's own children is a lifetime.
pub open spec fn names_lifetime(n: NodeView) -> bool {
    exists|i: int| 0 <= i < n.children.len() && (#[trigger] n.children[i]).kind == Kind::Lifetime
}

/// Whether the tree holds a borrowed type that names no lifetime.
pub open spec fn anonymous(n: NodeView) -> bool
    decreases n,
{
    (n.kind == Kind::Reference && !names_lifetime(n)) || exists|i: int|
        #![trigger n.children[i]]
        0 <= i < n.children.len() && anonymous(n.children[i])
}

/// The children of a borrowed type with a lifetime put behind the `&`.
pub open spec fn with_lifetime(children: Seq<NodeView>, lifetime: Seq<char>) -> Seq<NodeView> {
    if children.len() == 0 {
        seq![NodeView::lifetime(lifetime)]
    } else {
        seq![children[0], NodeView::lifetime(lifetime)] + children.skip(1)
    }
}

/// The tree with the given lifetime put into every borrowed type that names
/// none.
pub open spec fn named_lifetimes(n: NodeView, lifetime: Seq<char>) -> NodeView
    decreases n,
{
    let below = Seq::new(
        n.children.len(),
        |i: int|
            if 0 <= i < n.children.len() {
                named_lifetimes(n.children[i], lifetime)
            } else {
                arbitrary()
            },
    );
    NodeView {
        kind: n.kind,
        text: n.text,
        children: if n.kind == Kind::Reference && !names_lifetime(n) {
            with_lifetime(below, lifetime)
        } else {
            below
        },
    }
}

/// After [`named_lifetimes`] every borrowed type names a lifetime.
pub proof fn lemma_named_lifetimes(n: NodeView, lifetime: Seq<char>)
    ensures
        !anonymous(named_lifetimes(n, lifetime)),
    decreases n,
{
    let r = named_lifetimes(n, lifetime);
    let below = Seq::new(
        n.children.len(),
        |i: int|
            if 0 <= i < n.children.len() {
                named_lifetimes(n.children[i], lifetime)
            } else {
                arbitrary()
            },
    );
    assert forall|i: int| #![trigger below[i]] 0 <= i < below.len() implies !anonymous(below[i]) by {
        lemma_named_lifetimes(n.children[i], lifetime);
    }
    if n.kind == Kind::Reference && !names_lifetime(n) {
        let c = with_lifetime(below, lifetime);
        assert(r.children == c);
        if below.len() == 0 {
            assert(c[0].kind == Kind::Lifetime);
        } else {
            assert(c[1].kind == Kind::Lifetime);
        }
        assert(names_lifetime(r));
        assert forall|i: int| #![trigger c[i]] 0 <= i < c.len() implies !anonymous(c[i]) by {
            if below.len() > 0 && i == 0 {
                assert(c[i] == below[0]);
            } else if below.len() > 0 && i >= 2 {
                assert(c[i] == below[i - 1]);
            } else {
                assert(c[i] == NodeView::lifetime(lifetime));
                assert(c[i].children.len() == 0);
            }
        }
    } else {
        assert(r.children == below);
        if n.kind == Kind::Reference {
            let w = choose|i: int|
                0 <= i < n.children.len() && (#[trigger] n.children[i]).kind == Kind::Lifetime;
            assert(r.children[w].kind == Kind::Lifetime);
            assert(names_lifetime(r));
        }
    }
}

/// Whether one of the node's own children is a lifetime.
pub fn has_lifetime(n: &Node) -> (r: bool)
    ensures
        r == names_lifetime(n@),
{
    let mut i: usize = 0;
    while i < n.children.len()
        invariant
            i <= n.children.len(),
            forall|j: int| 0 <= j < i ==> (#[trigger] n.children[j]).kind != Kind::Lifetime,
        decreases n.children.len() - i,
    {
        if n.children[i].kind == Kind::Lifetime {
            proof {
                lemma_child(*n, i as int);
            }
            return true;
        }
        i += 1;
    }
    proof {
        assert forall|j: int| 0 <= j < n@.children.len() implies (#[trigger] n@.children[j]).kind
            != Kind::Lifetime by {
            lemma_child(*n, j);
        }
    }
    false
}

/// Whether the tree holds a borrowed type that names no lifetime.
pub fn is_anonymous(n: &Node) -> (r: bool)
    ensures
        r == anonymous(n@),
    decreases n,
{
    if n.kind == Kind::Reference && !has_lifetime(n) {
        return true;
    }
    let mut i: usize = 0;
    while i < n.children.len()
        invariant
            i <= n.children.len(),
            forall|j: int| 0 <= j < i ==> !anonymous(#[trigger] n.children[j]@),
        decreases n.children.len() - i,
    {
        if is_anonymous(&n.children[i]) {
            proof {
                lemma_child(*n, i as int);
            }
            return true;
        }
        i += 1;
    }
    proof {
        assert forall|j: int| #![trigger n@.children[j]] 0 <= j < n@.children.len() implies !anonymous(
            n@.children[j],
        ) by {
            lemma_child(*n, j);
        }
    }
    false
}

/// Puts the given lifetime into every borrowed type of the tree that names
/// none.
pub fn name_lifetimes(n: &Node, lifetime: &str) -> (r: Node)
    ensures
        r@ == named_lifetimes(n@, lifetime@),
    decreases n,
{
    let insert = n.kind == Kind::Reference && !has_lifetime(n);
    let ghost below = Seq::new(
        n@.children.len(),
        |i: int|
            if 0 <= i < n@.children.len() {
                named_lifetimes(n@.children[i], lifetime@)
            } else {
                arbitrary()
            },
    );
    let mut children: Vec<Node> = Vec::new();
    let mut i: usize = 0;
    if insert && n.children.len() == 0 {
        children.push(Node::lifetime(lifetime));
    }
    while i < n.children.len()
        invariant
            i <= n.children.len(),
            below.len() == n.children.len(),
            forall|j: int| 0 <= j < below.len() ==> below[j] == named_lifetimes(n.children[j]@, lifetime@),
            insert ==> views(children@) == with_lifetime(below, lifetime@).take(
                if i == 0 && n.children.len() > 0 {
                    0
                } else {
                    i + 1
                },
            ),
            !insert ==> views(children@) == below.take(i as int),
        decreases n.children.len() - i,
    {
        let ghost before = views(children@);
        let c = name_lifetimes(&n.children[i], lifetime);
        children.push(c);
        if insert && i == 0 {
            children.push(Node::lifetime(lifetime));
        }
        proof {
            if insert {
                assert(views(children@) =~= with_lifetime(below, lifetime@).take(i + 2));
            } else {
                assert(views(children@) =~= below.take(i + 1));
            }
        }
        i += 1;
    }
    let r = Node { kind: n.kind, text: n.text.clone(), children };
    proof {
        if insert {
            assert(with_lifetime(below, lifetime@).take(
                if i == 0 && n.children.len() > 0 {
                    0
                } else {
                    i + 1
                },
            ) =~= with_lifetime(below, lifetime@));
        } else {
            assert(below.take(i as int) =~= below);
        }
        assert(r@.children =~= views(children@));
        assert(r@.children =~= named_lifetimes(n@, lifetime@).children);
    }
    r
}

/// Whether a leaf of the given kind and text occurs in the tree.
pub open spec fn occurs(n: NodeView, kind: Kind, text: Seq<char>) -> bool
    decreases n,
{
    (n.kind == kind && n.text == text) || exists|i: int|
        #![trigger n.children[i]]
        0 <= i < n.children.len() && occurs(n.children[i], kind, text)
}

/// Whether a leaf of the given kind and text occurs in one of the trees.
pub open spec fn occurs_in(s: Seq<NodeView>, kind: Kind, text: Seq<char>) -> bool {
    exists|i: int| #![trigger s[i]] 0 <= i < s.len() && occurs(s[i], kind, text)
}

/// An identifier is mentioned exactly where it occurs as an identifier.
pub proof fn lemma_mentions_occurs(n: NodeView, name: Seq<char>)
    ensures
        mentions(n, name) == occurs(n, Kind::Ident, name),
    decreases n,
{
    assert forall|i: int| #![trigger n.children[i]] 0 <= i < n.children.len() implies mentions(
        n.children[i],
        name,
    ) == occurs(n.children[i], Kind::Ident, name) by {
        lemma_mentions_occurs(n.children[i], name);
    }
}

/// An identifier is mentioned in a list exactly where it occurs in it.
pub proof fn lemma_mentioned_occurs(s: Seq<NodeView>, name: Seq<char>)
    ensures
        mentioned(s, name) == occurs_in(s, Kind::Ident, name),
{
    assert forall|i: int| #![trigger s[i]] 0 <= i < s.len() implies mentions(s[i], name) == occurs(
        s[i],
        Kind::Ident,
        name,
    ) by {
        lemma_mentions_occurs(s[i], name);
    }
}

/// Looks for a leaf of the given kind and text in the tree.
pub fn find(n: &Node, kind: Kind, text: &str) -> (r: bool)
    ensures
        r == occurs(n@, kind, text@),
    decreases n,
{
    if n.kind == kind && same(&n.text, text) {
        return true;
    }
    let mut i: usize = 0;
    while i < n.children.len()
        invariant
            i <= n.children.len(),
            forall|j: int| 0 <= j < i ==> !occurs(#[trigger] n.children[j]@, kind, text@),
        decreases n.children.len() - i,
    {
        if find(&n.children[i], kind, text) {
            proof {
                lemma_child(*n, i as int);
            }
            return true;
        }
        i += 1;
    }
    proof {
        assert forall|j: int| #![trigger n@.children[j]] 0 <= j < n@.children.len() implies !occurs(
            n@.children[j],
            kind,
            text@,
        ) by {
            lemma_child(*n, j);
        }
    }
    false
}

/// Looks for a leaf of the given kind and text in the trees.
pub fn find_in(v: &Vec<Node>, kind: Kind, text: &str) -> (r: bool)
    ensures
        r == occurs_in(views(v@), kind, text@),
{
    let mut i: usize = 0;
    while i < v.len()
        invariant
            i <= v.len(),
            forall|j: int| 0 <= j < i ==> !occurs(#[trigger] v[j]@, kind, text@),
        decreases v.len() - i,
    {
        if find(&v[i], kind, text) {
            assert(occurs(views(v@)[i as int], kind, text@));
            return true;
        }
        i += 1;
    }
    assert forall|j: int| #![trigger views(v@)[j]] 0 <= j < v.len() implies !occurs(
        views(v@)[j],
        kind,
        text@,
    ) by {
        assert(views(v@)[j] == v[j]@);
    }
    false
}

/// Whether the identifier `name` occurs in one of the trees.
pub fn is_mentioned(v: &Vec<Node>, name: &str) -> (r: bool)
    ensures
        r == mentioned(views(v@), name@),
{
    proof {
        lemma_mentioned_occurs(views(v@), name@);
    }
    find_in(v, Kind::Ident, name)
}

/// The larger of two numbers.
pub open spec fn larger(a: nat, b: nat) -> nat {
    if a >= b {
        a
    } else {
        b
    }
}

/// The length of the longest identifier among the first `k` children.
pub open spec fn longest_below(n: NodeView, k: nat) -> nat
    decreases n, k,
{
    if k == 0 || k > n.children.len() {
        0
    } else {
        larger(longest(n.children[k - 1]), longest_below(n, (k - 1) as nat))
    }
}

/// The length of the longest identifier in the tree.
pub open spec fn longest(n: NodeView) -> nat
    decreases n, n.children.len() + 1,
{
    larger(
        if n.kind == Kind::Ident {
            n.text.len()
        } else {
            0
        },
        longest_below(n, n.children.len()),
    )
}

/// The length of the longest identifier in the trees.
pub open spec fn longest_in(s: Seq<NodeView>) -> nat
    decreases s.len(),
{
    if s.len() == 0 {
        0
    } else {
        larger(longest_in(s.drop_last()), longest(s.last()))
    }
}

/// No child among the first `k` holds a longer identifier than
/// [`longest_below`] says.
pub proof fn lemma_longest_below(n: NodeView, k: nat, i: int)
    requires
        0 <= i < k <= n.children.len(),
    ensures
        longest(n.children[i]) <= longest_below(n, k),
    decreases k,
{
    if i < k - 1 {
        lemma_longest_below(n, (k - 1) as nat, i);
    }
}

/// An identifier that is mentioned is no longer than the longest.
pub proof fn lemma_longest(n: NodeView, name: Seq<char>)
    requires
        mentions(n, name),
    ensures
        name.len() <= longest(n),
    decreases n,
{
    if !(n.kind == Kind::Ident && n.text == name) {
        let i = choose|i: int|
            #![trigger n.children[i]]
            0 <= i < n.children.len() && mentions(n.children[i], name);
        lemma_longest(n.children[i], name);
        lemma_longest_below(n, n.children.len(), i);
    }
}

/// An identifier that is mentioned in a list is no longer than the longest.
pub proof fn lemma_longest_in(s: Seq<NodeView>, name: Seq<char>)
    requires
        mentioned(s, name),
    ensures
        name.len() <= longest_in(s),
    decreases s.len(),
{
    let i = choose|i: int| #![trigger s[i]] 0 <= i < s.len() && mentions(s[i], name);
    if i == s.len() - 1 {
        lemma_longest(s.last(), name);
    } else {
        assert(s.drop_last()[i] == s[i]);
        lemma_longest_in(s.drop_last(), name);
    }
}

/// `count` underscores.
pub open spec fn underscores(count: nat) -> Seq<char> {
    Seq::new(count, |i: int| '_')
}

/// A name that none of the trees mentions: `base` where it is not
/// mentioned, else `base` made longer than every identifier of the trees by
/// underscores.
pub open spec fn fresh_name(scope: Seq<NodeView>, base: Seq<char>) -> Seq<char> {
    if !mentioned(scope, base) {
        base
    } else {
        base + underscores(longest_in(scope))
    }
}

/// The fresh name is mentioned nowhere in its scope.
pub proof fn lemma_fresh_name(scope: Seq<NodeView>, base: Seq<char>)
    requires
        base.len() > 0,
    ensures
        !mentioned(scope, fresh_name(scope, base)),
{
    if mentioned(scope, base) && mentioned(scope, fresh_name(scope, base)) {
        lemma_longest_in(scope, fresh_name(scope, base));
    }
}

/// The length of the longest identifier in the tree.
pub fn longest_ident(n: &Node) -> (r: usize)
    ensures
        r == longest(n@),
    decreases n,
{
    let mut most: usize = 0;
    let mut i: usize = 0;
    while i < n.children.len()
        invariant
            i <= n.children.len(),
            most == longest_below(n@, i as nat),
        decreases n.children.len() - i,
    {
        proof {
            lemma_child(*n, i as int);
        }
        let below = longest_ident(&n.children[i]);
        if below > most {
            most = below;
        }
        i += 1;
    }
    proof {
        if n.children.len() > 0 {
            lemma_child(*n, 0);
        }
    }
    if n.kind == Kind::Ident {
        let own = n.text.as_str().unicode_len();
        if own > most {
            most = own;
        }
    }
    most
}

/// The length of the longest identifier in the trees.
pub fn longest_ident_in(v: &Vec<Node>) -> (r: usize)
    ensures
        r == longest_in(views(v@)),
{
    let ghost all = views(v@);
    let mut most: usize = 0;
    let mut i: usize = 0;
    assert(all.take(0) =~= Seq::empty());
    while i < v.len()
        invariant
            i <= v.len(),
            all == views(v@),
            most == longest_in(all.take(i as int)),
        decreases v.len() - i,
    {
        assert(all.take(i + 1).drop_last() =~= all.take(i as int));
        assert(all.take(i + 1).last() == v[i as int]@);
        let here = longest_ident(&v[i]);
        if here > most {
            most = here;
        }
        i += 1;
    }
    assert(all.take(v.len() as int) =~= all);
    most
}

/// Makes a name that none of the trees mentions.
pub fn make_fresh_name(scope: &Vec<Node>, base: &str) -> (r: String)
    ensures
        r@ == fresh_name(views(scope@), base@),
{
    if !is_mentioned(scope, base) {
        return base.to_owned();
    }
    let count = longest_ident_in(scope);
    let mut out = base.to_owned();
    let mut i: usize = 0;
    assert(out@ =~= base@ + underscores(0));
    while i < count
        invariant
            i <= count,
            out@ == base@ + underscores(i as nat),
        decreases count - i,
    {
        proof {
            reveal_strlit("_");
        }
        out = out.concat("_");
        assert(out@ =~= base@ + underscores((i + 1) as nat));
        i += 1;
    }
    out
}

/// The tree with every identifier `from` replaced by `to`, but for the
/// nested items in it, which stay as they are.
pub open spec fn renamed_outside_items(n: NodeView, from: Seq<char>, to: Seq<char>) -> NodeView
    decreases n,
{
    if n.kind == Kind::Item {
        n
    } else {
        NodeView {
            kind: n.kind,
            text: if n.kind == Kind::Ident && n.text == from {
                to
            } else {
                n.text
            },
            children: Seq::new(
                n.children.len(),
                |i: int|
                    if 0 <= i < n.children.len() {
                        renamed_outside_items(n.children[i], from, to)
                    } else {
                        arbitrary()
                    },
            ),
        }
    }
}

/// Every tree of the list renamed by [`renamed_outside_items`].
pub open spec fn renamed_outside_items_all(
    s: Seq<NodeView>,
    from: Seq<char>,
    to: Seq<char>,
) -> Seq<NodeView> {
    Seq::new(s.len(), |i: int| renamed_outside_items(s[i], from, to))
}

/// Replaces every identifier `from` in the tree by `to`, but for the nested
/// items in it.
pub fn rename_outside_items(n: &Node, from: &str, to: &str) -> (r: Node)
    ensures
        r@ == renamed_outside_items(n@, from@, to@),
    decreases n,
{
    if n.kind == Kind::Item {
        return n.clone();
    }
    let mut children: Vec<Node> = Vec::new();
    let mut i: usize = 0;
    while i < n.children.len()
        invariant
            i <= n.children.len(),
            children.len() == i,
            forall|j: int|
                0 <= j < i ==> children[j]@ == renamed_outside_items(n.children[j]@, from@, to@),
        decreases n.children.len() - i,
    {
        let c = rename_outside_items(&n.children[i], from, to);
        children.push(c);
        i += 1;
    }
    let text = if n.kind == Kind::Ident && same(&n.text, from) {
        to.to_owned()
    } else {
        n.text.clone()
    };
    let r = Node { kind: n.kind, text, children };
    assert(r@.children =~= renamed_outside_items(n@, from@, to@).children);
    r
}

/// Replaces every identifier `from` in the trees by `to`, but for the
/// nested items in them.
pub fn rename_outside_items_all(v: &Vec<Node>, from: &str, to: &str) -> (r: Vec<Node>)
    ensures
        views(r@) == renamed_outside_items_all(views(v@), from@, to@),
{
    let mut out: Vec<Node> = Vec::new();
    let mut i: usize = 0;
    while i < v.len()
        invariant
            i <= v.len(),
            out.len() == i,
            forall|j: int| 0 <= j < i ==> out[j]@ == renamed_outside_items(v[j]@, from@, to@),
        decreases v.len() - i,
    {
        out.push(rename_outside_items(&v[i], from, to));
        i += 1;
    }
    assert(views(out@) =~= renamed_outside_items_all(views(v@), from@, to@));
    out
}

} // verus!
