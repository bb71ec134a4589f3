//! Syntax trees.
//!
//! Every piece of syntax is a [`Node`]: a leaf token (identifier, lifetime,
//! punctuation, literal), a delimited group, or a grouping node that gives
//! structure to the tokens below it without adding tokens of its own.

use vstd::prelude::*;

verus! {

/// What a node is.
#[derive(Clone, Copy, PartialEq, Eq, Debug, Structural)]
pub enum Kind {
    /// An identifier or keyword; the text is its name.
    Ident,
    /// A lifetime; the text is its name without the apostrophe.
    Lifetime,
    /// Punctuation; the text is the whole operator, such as `::` or `&`.
    Punct,
    /// A literal; the text is its source form.
    Literal,
    /// Children between `(` and `)`.
    Paren,
    /// Children between `[` and `]`.
    Bracket,
    /// Children between `{` and `}`.
    Brace,
    /// A borrowed type: `&`, an optional lifetime, an optional `mut`, the referent.
    Reference,
    /// A path segment: its name, then its generic arguments if any.
    Segment,
    /// A dynamically dispatched type: `dyn` and its bounds.
    Object,
    /// An item that is declared inside a body, such as a nested function.
    Item,
    /// Any other run of syntax that belongs together.
    Group,
}

/// A syntax tree.
#[derive(PartialEq, Eq, Debug)]
pub struct Node {
    pub kind: Kind,
    pub text: String,
    pub children: Vec<Node>,
}

/// The mathematical value of a [`Node`].
pub struct NodeView {
    pub kind: Kind,
    pub text: Seq<char>,
    pub children: Seq<NodeView>,
}

/// The views of the elements of a sequence, in order.
pub open spec fn views<T: View>(s: Seq<T>) -> Seq<T::V> {
    Seq::new(s.len(), |i: int| s[i]@)
}

/// The mathematical value of a tree.
pub open spec fn node_view(n: Node) -> NodeView
    decreases n,
{
    NodeView {
        kind: n.kind,
        text: n.text@,
        children: Seq::new(
            n.children@.len(),
            |i: int|
                if 0 <= i < n.children@.len() {
                    node_view(n.children@[i])
                } else {
                    arbitrary()
                },
        ),
    }
}

impl View for Node {
    type V = NodeView;

    open spec fn view(&self) -> NodeView {
        node_view(*self)
    }
}

/// The view of an optional value.
pub open spec fn opt_view<T: View>(o: Option<T>) -> Option<T::V> {
    match o {
        Some(t) => Some(t@),
        None => None,
    }
}

/// The views of an optional list.
pub open spec fn opt_views<T: View>(o: Option<Vec<T>>) -> Option<Seq<T::V>> {
    match o {
        Some(v) => Some(views(v@)),
        None => None,
    }
}

/// The children of a node's view are the views of its children.
pub proof fn lemma_children(n: Node)
    ensures
        n@.children == views(n.children@),
{
    assert(n@.children =~= views(n.children@));
}

/// A child's view is the child of the view, with the same kind and text.
pub proof fn lemma_child(n: Node, j: int)
    requires
        0 <= j < n.children.len(),
    ensures
        n@.children.len() == n.children.len(),
        n@.children[j] == n.children[j]@,
        n.children[j]@.kind == n.children[j].kind,
        n.children[j]@.text == n.children[j].text@,
{
}

impl Clone for Node {
    fn clone(&self) -> (r: Node)
        ensures
            r@ == self@,
        decreases self,
    {
        let mut children: Vec<Node> = Vec::new();
        let mut i: usize = 0;
        while i < self.children.len()
            invariant
                i <= self.children.len(),
                children.len() == i,
                forall|j: int| 0 <= j < i ==> children[j]@ == self.children[j]@,
            decreases self.children.len() - i,
        {
            let c = self.children[i].clone();
            children.push(c);
            i += 1;
        }
        let r = Node { kind: self.kind, text: self.text.clone(), children };
        assert(r@.children =~= self@.children);
        r
    }
}

/// A copy of a list of nodes.
pub fn clone_nodes(v: &Vec<Node>) -> (r: Vec<Node>)
    ensures
        views(r@) == views(v@),
{
    let r = v.clone();
    assert(views(r@) =~= views(v@));
    r
}

/// Appends `more` to `out`.
pub fn append_nodes(out: &mut Vec<Node>, more: Vec<Node>)
    ensures
        views(final(out)@) == views(old(out)@) + views(more@),
{
    let mut more = more;
    let ghost before = out@;
    let ghost added = more@;
    out.append(&mut more);
    assert(views(before + added) =~= views(before) + views(added));
}

/// The empty list of nodes.
pub fn no_nodes() -> (r: Vec<Node>)
    ensures
        views(r@) == Seq::<NodeView>::empty(),
{
    let r: Vec<Node> = Vec::new();
    assert(views(r@) =~= Seq::<NodeView>::empty());
    r
}

/// Appends one node to `out`.
pub fn push_node(out: &mut Vec<Node>, n: Node)
    ensures
        views(final(out)@) == views(old(out)@).push(n@),
{
    let ghost before = views(out@);
    let ghost added = n@;
    out.push(n);
    assert(views(out@) =~= before.push(added));
}

/// Appends an identifier to `out`.
pub fn push_ident(out: &mut Vec<Node>, name: &str)
    ensures
        views(final(out)@) == views(old(out)@).push(NodeView::ident(name@)),
{
    push_node(out, Node::ident(name));
}

/// Appends punctuation to `out`.
pub fn push_punct(out: &mut Vec<Node>, text: &str)
    ensures
        views(final(out)@) == views(old(out)@).push(NodeView::punct(text@)),
{
    push_node(out, Node::punct(text));
}

impl NodeView {
    /// A leaf token.
    pub open spec fn leaf(kind: Kind, text: Seq<char>) -> NodeView {
        NodeView { kind, text, children: Seq::empty() }
    }

    /// A node with children and no text of its own.
    pub open spec fn tree(kind: Kind, children: Seq<NodeView>) -> NodeView {
        NodeView { kind, text: Seq::empty(), children }
    }

    /// An identifier.
    pub open spec fn ident(name: Seq<char>) -> NodeView {
        NodeView::leaf(Kind::Ident, name)
    }

    /// A lifetime, named without its apostrophe.
    pub open spec fn lifetime(name: Seq<char>) -> NodeView {
        NodeView::leaf(Kind::Lifetime, name)
    }

    /// Punctuation.
    pub open spec fn punct(text: Seq<char>) -> NodeView {
        NodeView::leaf(Kind::Punct, text)
    }

    /// A literal.
    pub open spec fn literal(text: Seq<char>) -> NodeView {
        NodeView::leaf(Kind::Literal, text)
    }

    /// The items with `sep` between each two neighbours.
    pub open spec fn separated(items: Seq<NodeView>, sep: NodeView) -> Seq<NodeView>
        decreases items.len(),
    {
        if items.len() == 0 {
            Seq::empty()
        } else if items.len() == 1 {
            seq![items[0]]
        } else {
            NodeView::separated(items.drop_last(), sep).push(sep).push(items.last())
        }
    }

    /// The generic arguments of a segment: nothing where there are none, else
    /// the arguments between `<` and `>`, separated by commas.
    pub open spec fn angled(args: Seq<NodeView>) -> Seq<NodeView> {
        if args.len() == 0 {
            Seq::empty()
        } else {
            seq![NodeView::punct("<"@)] + NodeView::separated(args, NodeView::punct(","@)) + seq![
                NodeView::punct(">"@),
            ]
        }
    }

    /// A path segment with its generic arguments.
    pub open spec fn segment(name: Seq<char>, args: Seq<NodeView>) -> NodeView {
        NodeView::tree(Kind::Segment, seq![NodeView::ident(name)] + NodeView::angled(args))
    }

    /// The type or path that is a single name with generic arguments.
    pub open spec fn named(name: Seq<char>, args: Seq<NodeView>) -> NodeView {
        NodeView::tree(Kind::Group, seq![NodeView::segment(name, args)])
    }

    /// The path `::core::module::name<args>`.
    pub open spec fn core_path(module: Seq<char>, name: Seq<char>, args: Seq<NodeView>) -> NodeView {
        NodeView::tree(
            Kind::Group,
            seq![
                NodeView::punct("::"@),
                NodeView::segment("core"@, Seq::empty()),
                NodeView::punct("::"@),
                NodeView::segment(module, Seq::empty()),
                NodeView::punct("::"@),
                NodeView::segment(name, args),
            ],
        )
    }

    /// The borrowed type `&'lifetime mut referent`.
    pub open spec fn reference(
        lifetime: Option<Seq<char>>,
        mutable: bool,
        referent: NodeView,
    ) -> NodeView {
        NodeView::tree(
            Kind::Reference,
            seq![NodeView::punct("&"@)] + (match lifetime {
                Some(l) => seq![NodeView::lifetime(l)],
                None => Seq::empty(),
            }) + (if mutable {
                seq![NodeView::ident("mut"@)]
            } else {
                Seq::empty()
            }) + seq![referent],
        )
    }

    /// The type `()`.
    pub open spec fn unit() -> NodeView {
        NodeView::tree(Kind::Paren, Seq::empty())
    }
}

impl Node {
    /// A leaf token.
    pub fn leaf(kind: Kind, text: &str) -> (r: Node)
        ensures
            r@ == NodeView::leaf(kind, text@),
    {
        let r = Node { kind, text: text.to_owned(), children: Vec::new() };
        assert(r@.children =~= Seq::empty());
        r
    }

    /// A node with children and no text of its own.
    pub fn tree(kind: Kind, children: Vec<Node>) -> (r: Node)
        ensures
            r@ == NodeView::tree(kind, views(children@)),
    {
        let r = Node { kind, text: String::new(), children };
        assert(r@.children =~= views(children@));
        r
    }

    /// An identifier.
    pub fn ident(name: &str) -> (r: Node)
        ensures
            r@ == NodeView::ident(name@),
    {
        Node::leaf(Kind::Ident, name)
    }

    /// A lifetime, named without its apostrophe.
    pub fn lifetime(name: &str) -> (r: Node)
        ensures
            r@ == NodeView::lifetime(name@),
    {
        Node::leaf(Kind::Lifetime, name)
    }

    /// Punctuation.
    pub fn punct(text: &str) -> (r: Node)
        ensures
            r@ == NodeView::punct(text@),
    {
        Node::leaf(Kind::Punct, text)
    }

    /// A literal.
    pub fn literal(text: &str) -> (r: Node)
        ensures
            r@ == NodeView::literal(text@),
    {
        Node::leaf(Kind::Literal, text)
    }

    /// The items with `sep` between each two neighbours.
    pub fn separated(items: &Vec<Node>, sep: &Node) -> (r: Vec<Node>)
        ensures
            views(r@) == NodeView::separated(views(items@), sep@),
    {
        let mut out: Vec<Node> = Vec::new();
        let mut i: usize = 0;
        assert(views(items@).take(0) =~= Seq::empty());
        assert(views(out@) =~= Seq::empty());
        while i < items.len()
            invariant
                i <= items.len(),
                views(out@) == NodeView::separated(views(items@).take(i as int), sep@),
            decreases items.len() - i,
        {
            let ghost before = views(out@);
            let ghost next = views(items@).take(i + 1);
            assert(next.drop_last() =~= views(items@).take(i as int));
            assert(next.last() == items[i as int]@);
            if i > 0 {
                out.push(sep.clone());
            }
            out.push(items[i].clone());
            assert(views(out@) =~= NodeView::separated(next, sep@));
            i += 1;
        }
        assert(views(items@).take(items.len() as int) =~= views(items@));
        out
    }

    /// The generic arguments of a segment.
    pub fn angled(args: &Vec<Node>) -> (r: Vec<Node>)
        ensures
            views(r@) == NodeView::angled(views(args@)),
    {
        let mut out: Vec<Node> = Vec::new();
        if args.len() > 0 {
            out.push(Node::punct("<"));
            assert(views(out@) =~= seq![NodeView::punct("<"@)]);
            append_nodes(&mut out, Node::separated(args, &Node::punct(",")));
            let ghost before = views(out@);
            out.push(Node::punct(">"));
            assert(views(out@) =~= before + seq![NodeView::punct(">"@)]);
        } else {
            assert(views(out@) =~= Seq::empty());
        }
        out
    }

    /// A path segment with its generic arguments.
    pub fn segment(name: &str, args: &Vec<Node>) -> (r: Node)
        ensures
            r@ == NodeView::segment(name@, views(args@)),
    {
        let mut children: Vec<Node> = Vec::new();
        children.push(Node::ident(name));
        assert(views(children@) =~= seq![NodeView::ident(name@)]);
        append_nodes(&mut children, Node::angled(args));
        Node::tree(Kind::Segment, children)
    }

    /// The type or path that is a single name with generic arguments.
    pub fn named(name: &str, args: &Vec<Node>) -> (r: Node)
        ensures
            r@ == NodeView::named(name@, views(args@)),
    {
        let mut children: Vec<Node> = Vec::new();
        children.push(Node::segment(name, args));
        assert(views(children@) =~= seq![NodeView::segment(name@, views(args@))]);
        Node::tree(Kind::Group, children)
    }

    /// The path `::core::module::name<args>`.
    pub fn core_path(module: &str, name: &str, args: &Vec<Node>) -> (r: Node)
        ensures
            r@ == NodeView::core_path(module@, name@, views(args@)),
    {
        let none: Vec<Node> = Vec::new();
        assert(views(none@) =~= Seq::empty());
        let mut children: Vec<Node> = Vec::new();
        children.push(Node::punct("::"));
        children.push(Node::segment("core", &none));
        children.push(Node::punct("::"));
        children.push(Node::segment(module, &none));
        children.push(Node::punct("::"));
        children.push(Node::segment(name, args));
        assert(views(children@) =~= seq![
            NodeView::punct("::"@),
            NodeView::segment("core"@, Seq::empty()),
            NodeView::punct("::"@),
            NodeView::segment(module@, Seq::empty()),
            NodeView::punct("::"@),
            NodeView::segment(name@, views(args@)),
        ]);
        Node::tree(Kind::Group, children)
    }

    /// The borrowed type `&'lifetime mut referent`.
    pub fn reference(lifetime: &Option<String>, mutable: bool, referent: Node) -> (r: Node)
        ensures
            r@ == NodeView::reference(opt_view(*lifetime), mutable, referent@),
    {
        let mut children: Vec<Node> = Vec::new();
        children.push(Node::punct("&"));
        assert(views(children@) =~= seq![NodeView::punct("&"@)]);
        if let Some(l) = lifetime {
            let ghost before = views(children@);
            children.push(Node::lifetime(l.as_str()));
            assert(views(children@) =~= before + seq![NodeView::lifetime(l@)]);
        } else {
            assert(views(children@) =~= views(children@) + Seq::empty());
        }
        let ghost first = views(children@);
        if mutable {
            children.push(Node::ident("mut"));
            assert(views(children@) =~= first + seq![NodeView::ident("mut"@)]);
        } else {
            assert(views(children@) =~= first + Seq::empty());
        }
        let ghost second = views(children@);
        let ghost target = referent@;
        children.push(referent);
        assert(views(children@) =~= second + seq![target]);
        Node::tree(Kind::Reference, children)
    }

    /// The type `()`.
    pub fn unit() -> (r: Node)
        ensures
            r@ == NodeView::unit(),
    {
        let children: Vec<Node> = Vec::new();
        assert(views(children@) =~= Seq::empty());
        Node::tree(Kind::Paren, children)
    }
}

} // verus!
