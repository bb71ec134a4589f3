//! Tokens written out as text.

use crate::names::append_str;
use crate::syntax::{lemma_child, views, Kind, Node, NodeView};
use vstd::prelude::*;

verus! {

/// The lists of a list, one after the other.
pub open spec fn concat_all<T>(ss: Seq<Seq<T>>) -> Seq<T>
    decreases ss.len(),
{
    if ss.len() == 0 {
        Seq::empty()
    } else {
        concat_all(ss.drop_last()) + ss.last()
    }
}

/// The words with `sep` between each two neighbours.
pub open spec fn joined(words: Seq<Seq<char>>, sep: Seq<char>) -> Seq<char>
    decreases words.len(),
{
    if words.len() == 0 {
        Seq::empty()
    } else if words.len() == 1 {
        words[0]
    } else {
        joined(words.drop_last(), sep) + sep + words.last()
    }
}

/// The words of the children of a node.
pub open spec fn words_below(n: NodeView) -> Seq<Seq<Seq<char>>>
    decreases n, 0nat,
{
    Seq::new(
        n.children.len(),
        |i: int|
            if 0 <= i < n.children.len() {
                words(n.children[i])
            } else {
                arbitrary()
            },
    )
}

/// The words of a tree: a leaf is one word, a lifetime with its apostrophe;
/// a delimited group is its delimiters around the words of its children; any
/// other node is the words of its children.
pub open spec fn words(n: NodeView) -> Seq<Seq<char>>
    decreases n, 1nat,
{
    match n.kind {
        Kind::Ident | Kind::Punct | Kind::Literal => seq![n.text],
        Kind::Lifetime => seq!["'"@ + n.text],
        Kind::Paren => seq!["("@] + concat_all(words_below(n)) + seq![")"@],
        Kind::Bracket => seq!["["@] + concat_all(words_below(n)) + seq!["]"@],
        Kind::Brace => seq!["{"@] + concat_all(words_below(n)) + seq!["}"@],
        _ => concat_all(words_below(n)),
    }
}

/// The words of a list of trees.
pub open spec fn words_of(tokens: Seq<NodeView>) -> Seq<Seq<char>> {
    concat_all(Seq::new(tokens.len(), |i: int| words(tokens[i])))
}

/// The text of a list of trees: its words with one space between each two.
pub open spec fn text_of(tokens: Seq<NodeView>) -> Seq<char> {
    joined(words_of(tokens), " "@)
}

fn push_word(out: &mut Vec<String>, word: String)
    ensures
        views(final(out)@) == views(old(out)@).push(word@),
{
    let ghost before = views(out@);
    let ghost added = word@;
    out.push(word);
    assert(views(out@) =~= before.push(added));
}

/// Appends the words of a tree to `out`.
pub fn write_words(n: &Node, out: &mut Vec<String>)
    ensures
        views(final(out)@) == views(old(out)@) + words(n@),
    decreases n,
{
    let ghost start = views(out@);
    match n.kind {
        Kind::Ident | Kind::Punct | Kind::Literal => {
            push_word(out, n.text.clone());
            assert(views(out@) =~= start + words(n@));
            return ;
        },
        Kind::Lifetime => {
            push_word(out, append_str("'", n.text.as_str()));
            assert(views(out@) =~= start + words(n@));
            return ;
        },
        Kind::Paren => {
            push_word(out, "(".to_owned());
        },
        Kind::Bracket => {
            push_word(out, "[".to_owned());
        },
        Kind::Brace => {
            push_word(out, "{".to_owned());
        },
        _ => {},
    }
    let ghost opened = views(out@);
    let ghost below = words_below(n@);
    let mut i: usize = 0;
    assert(below.take(0) =~= Seq::empty());
    assert(views(out@) =~= opened + Seq::empty());
    while i < n.children.len()
        invariant
            i <= n.children.len(),
            below == words_below(n@),
            below.len() == n.children.len(),
            views(out@) == opened + concat_all(below.take(i as int)),
        decreases n.children.len() - i,
    {
        proof {
            lemma_child(*n, i as int);
            assert(below.take(i + 1).drop_last() =~= below.take(i as int));
            assert(below.take(i + 1).last() == words(n.children[i as int]@));
        }
        write_words(&n.children[i], out);
        assert(views(out@) =~= opened + concat_all(below.take(i + 1)));
        i += 1;
    }
    assert(below.take(n.children.len() as int) =~= below);
    match n.kind {
        Kind::Paren => {
            push_word(out, ")".to_owned());
        },
        Kind::Bracket => {
            push_word(out, "]".to_owned());
        },
        Kind::Brace => {
            push_word(out, "}".to_owned());
        },
        _ => {},
    }
    assert(views(out@) =~= start + words(n@));
}

/// Writes tokens as text, with one space between each two.
pub fn render(tokens: &Vec<Node>) -> (r: String)
    ensures
        r@ == text_of(views(tokens@)),
{
    let mut list: Vec<String> = Vec::new();
    let ghost all = Seq::new(views(tokens@).len(), |i: int| words(views(tokens@)[i]));
    let mut i: usize = 0;
    assert(all.take(0) =~= Seq::empty());
    assert(views(list@) =~= Seq::empty());
    while i < tokens.len()
        invariant
            i <= tokens.len(),
            all == Seq::new(views(tokens@).len(), |i: int| words(views(tokens@)[i])),
            views(list@) == concat_all(all.take(i as int)),
        decreases tokens.len() - i,
    {
        assert(all.take(i + 1).drop_last() =~= all.take(i as int));
        assert(all.take(i + 1).last() == words(tokens[i as int]@));
        write_words(&tokens[i], &mut list);
        i += 1;
    }
    assert(all.take(tokens.len() as int) =~= all);
    let ghost ws = views(list@);
    let mut out = String::new();
    let mut k: usize = 0;
    assert(ws.take(0) =~= Seq::empty());
    while k < list.len()
        invariant
            k <= list.len(),
            ws == views(list@),
            out@ == joined(ws.take(k as int), " "@),
        decreases list.len() - k,
    {
        assert(ws.take(k + 1).drop_last() =~= ws.take(k as int));
        assert(ws.take(k + 1).last() == list[k as int]@);
        if k > 0 {
            out = out.concat(" ");
        }
        out = out.concat(list[k].as_str());
        assert(out@ =~= joined(ws.take(k + 1), " "@));
        k += 1;
    }
    assert(ws.take(list.len() as int) =~= ws);
    out
}

} // verus!
