use async_trait_ext::rewrite::{has_lifetime, is_anonymous, name_lifetimes, rename, rename_all};
use async_trait_ext::syntax::{
    append_nodes, clone_nodes, no_nodes, push_ident, push_node, push_punct, Kind, Node,
};
use async_trait_ext::text::{render, write_words};

fn ty(name: &str) -> Node {
    Node::named(name, &vec![])
}

fn text(n: &Node) -> String {
    render(&vec![n.clone()])
}

#[test]
fn leaves_hold_their_text() {
    assert_eq!(Node::ident("a"), Node { kind: Kind::Ident, text: "a".to_string(), children: vec![] });
    assert_eq!(Node::punct("::").kind, Kind::Punct);
    assert_eq!(Node::lifetime("a").kind, Kind::Lifetime);
    assert_eq!(Node::literal("1").kind, Kind::Literal);
    assert_eq!(Node::leaf(Kind::Literal, "\"x\"").text, "\"x\"");
    assert_eq!(
        Node::tree(Kind::Brace, vec![Node::ident("a")]),
        Node { kind: Kind::Brace, text: String::new(), children: vec![Node::ident("a")] }
    );
}

#[test]
fn lists_are_separated() {
    let comma = Node::punct(",");
    assert_eq!(Node::separated(&vec![], &comma), vec![]);
    assert_eq!(Node::separated(&vec![Node::ident("a")], &comma), vec![Node::ident("a")]);
    assert_eq!(
        Node::separated(&vec![Node::ident("a"), Node::ident("b"), Node::ident("c")], &comma),
        vec![
            Node::ident("a"),
            Node::punct(","),
            Node::ident("b"),
            Node::punct(","),
            Node::ident("c"),
        ]
    );
}

#[test]
fn generic_arguments_stand_between_angles() {
    assert_eq!(Node::angled(&vec![]), vec![]);
    assert_eq!(render(&Node::angled(&vec![ty("A"), Node::lifetime("b")])), "< A , 'b >");
    assert_eq!(text(&Node::segment("Vec", &vec![ty("u8")])), "Vec < u8 >");
    assert_eq!(text(&Node::named("u8", &vec![])), "u8");
    assert_eq!(Node::named("u8", &vec![]).kind, Kind::Group);
    assert_eq!(Node::named("u8", &vec![]).children[0].kind, Kind::Segment);
}

#[test]
fn core_paths_start_at_the_root() {
    assert_eq!(
        text(&Node::core_path("task", "Poll", &vec![Node::unit()])),
        ":: core :: task :: Poll < ( ) >"
    );
    assert_eq!(text(&Node::core_path("marker", "Sized", &vec![])), ":: core :: marker :: Sized");
}

#[test]
fn borrowed_types_hold_lifetime_and_mutability() {
    assert_eq!(text(&Node::reference(&None, false, ty("u8"))), "& u8");
    assert_eq!(text(&Node::reference(&None, true, ty("u8"))), "& mut u8");
    assert_eq!(text(&Node::reference(&Some("a".to_string()), false, ty("u8"))), "& 'a u8");
    assert_eq!(text(&Node::reference(&Some("a".to_string()), true, ty("u8"))), "& 'a mut u8");
    assert_eq!(Node::reference(&None, false, ty("u8")).kind, Kind::Reference);
    assert_eq!(text(&Node::unit()), "( )");
}

#[test]
fn lists_grow_at_the_end() {
    let mut out = no_nodes();
    assert_eq!(out, vec![]);
    push_ident(&mut out, "a");
    push_punct(&mut out, ".");
    push_node(&mut out, Node::literal("0"));
    append_nodes(&mut out, vec![Node::ident("b"), Node::ident("c")]);
    assert_eq!(render(&out), "a . 0 b c");
    assert_eq!(clone_nodes(&out), out);
}

#[test]
fn text_has_one_space_between_words() {
    assert_eq!(render(&vec![]), "");
    assert_eq!(render(&vec![Node::ident("a")]), "a");
    let tokens = vec![
        Node::ident("fn"),
        Node::ident("f"),
        Node::tree(Kind::Paren, vec![]),
        Node::tree(
            Kind::Brace,
            vec![Node::tree(Kind::Bracket, vec![Node::literal("1"), Node::lifetime("a")])],
        ),
        Node::tree(Kind::Group, vec![Node::ident("x"), Node::tree(Kind::Segment, vec![])]),
    ];
    assert_eq!(render(&tokens), "fn f ( ) { [ 1 'a ] } x");
    let mut words = vec!["first".to_string()];
    write_words(&tokens[3], &mut words);
    assert_eq!(words, vec!["first", "{", "[", "1", "'a", "]", "}"]);
}

#[test]
fn renaming_replaces_identifiers_only() {
    let tree = Node::tree(
        Kind::Brace,
        vec![
            Node::ident("self"),
            Node::lifetime("self"),
            Node::literal("self"),
            Node::punct("self"),
            Node::tree(Kind::Paren, vec![Node::ident("self"), Node::ident("other")]),
        ],
    );
    assert_eq!(text(&rename(&tree, "self", "this")), "{ this 'self self self ( this other ) }");
    assert_eq!(rename(&tree, "absent", "this"), tree);
    assert_eq!(rename(&rename(&tree, "self", "this"), "this", "self"), tree);
    assert_eq!(rename(&tree, "self", "self"), tree);
    assert_eq!(
        rename_all(&vec![Node::ident("a"), Node::ident("b")], "a", "b"),
        vec![Node::ident("b"), Node::ident("b")]
    );
}

#[test]
fn anonymous_borrows_are_found_and_named() {
    let plain = Node::reference(&None, false, ty("u8"));
    let named = Node::reference(&Some("a".to_string()), false, ty("u8"));
    let nested = Node::named("Vec", &vec![Node::reference(&Some("a".to_string()), true, plain.clone())]);
    assert!(!has_lifetime(&plain));
    assert!(has_lifetime(&named));
    assert!(is_anonymous(&plain));
    assert!(!is_anonymous(&named));
    assert!(is_anonymous(&nested));
    assert!(!is_anonymous(&ty("u8")));
    assert_eq!(text(&name_lifetimes(&plain, "x")), "& 'x u8");
    assert_eq!(name_lifetimes(&named, "x"), named);
    assert_eq!(text(&name_lifetimes(&nested, "x")), "Vec < & 'a mut & 'x u8 >");
    assert!(!is_anonymous(&name_lifetimes(&nested, "x")));
    let bare = Node::tree(Kind::Reference, vec![]);
    assert_eq!(text(&name_lifetimes(&bare, "x")), "'x");
}
