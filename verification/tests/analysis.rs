use async_trait_ext::decl::{
    FnArg, GenericParam, Generics, InterfaceDeclaration, MethodDeclaration, ParamKind, Pattern,
    TraitItem, WherePredicate,
};
use async_trait_ext::diagnostics::{Diagnostic, Problem};
use async_trait_ext::input::{ConfigOption, OptionForm};
use async_trait_ext::method::{rename_self_to_this, sanitize, MethodData};
use async_trait_ext::syntax::{Kind, Node};
use async_trait_ext::text::render;
use async_trait_ext::trait_data::TraitData;

fn interface(name: &str, items: Vec<TraitItem>) -> InterfaceDeclaration {
    InterfaceDeclaration {
        attrs: vec![],
        options: vec![],
        vis: vec![],
        qualifiers: vec![],
        name: name.to_string(),
        generics: Generics { params: vec![], predicates: vec![] },
        supertraits: vec![],
        items,
    }
}

fn method(name: &str, inputs: Vec<FnArg>) -> MethodDeclaration {
    MethodDeclaration {
        attrs: vec![],
        options: vec![],
        qualifiers: vec![],
        asyncness: true,
        name: name.to_string(),
        generics: Generics { params: vec![], predicates: vec![] },
        inputs,
        output: None,
        body: None,
    }
}

fn provided(mut m: MethodDeclaration, body: Vec<Node>) -> MethodDeclaration {
    m.options = vec![ConfigOption { name: "provided".to_string(), form: OptionForm::Flag }];
    m.body = Some(body);
    m
}

fn returning(mut m: MethodDeclaration, ty: Node) -> MethodDeclaration {
    m.output = Some(ty);
    m
}

fn ty(name: &str) -> Node {
    Node::named(name, &vec![])
}

fn by_value() -> FnArg {
    FnArg::Receiver { reference: false, lifetime: None, mutable: false }
}

fn by_ref() -> FnArg {
    FnArg::Receiver { reference: true, lifetime: None, mutable: false }
}

fn param(name: &str, ty: Node) -> FnArg {
    FnArg::Typed {
        pattern: Pattern::Binding {
            by_ref: false,
            mutable: false,
            name: name.to_string(),
            rest: vec![],
        },
        ty,
    }
}

fn mut_param(name: &str, ty: Node) -> FnArg {
    FnArg::Typed {
        pattern: Pattern::Binding {
            by_ref: false,
            mutable: true,
            name: name.to_string(),
            rest: vec![],
        },
        ty,
    }
}

fn unnamed(ty: Node) -> FnArg {
    FnArg::Typed { pattern: Pattern::Other(vec![Node::ident("_")]), ty }
}

fn borrowed(ty: Node) -> Node {
    Node::reference(&None, false, ty)
}

fn object(name: &str) -> Node {
    Node::tree(Kind::Object, vec![Node::ident("dyn"), ty(name)])
}

fn text(n: &Node) -> String {
    render(&vec![n.clone()])
}

fn normal(source: &str) -> String {
    let file: syn::File = syn::parse_str(source).expect("the text is a list of items");
    quote::ToTokens::to_token_stream(&file).to_string()
}

fn normal_type(source: &str) -> String {
    let ty: syn::Type = syn::parse_str(source).expect("the text is a type");
    quote::ToTokens::to_token_stream(&ty).to_string()
}

fn normal_method(m: &MethodDeclaration) -> String {
    let source = render(&m.to_tokens());
    let item: syn::TraitItemMethod = syn::parse_str(&source).expect("the text is a method");
    quote::ToTokens::to_token_stream(&item).to_string()
}

fn expected_method(source: &str) -> String {
    let item: syn::TraitItemMethod = syn::parse_str(source).expect("the text is a method");
    quote::ToTokens::to_token_stream(&item).to_string()
}

const POLL: &str = "fn poll(mut self: ::core::pin::Pin<&mut Self>, cx: &mut ::core::task::Context) -> ::core::task::Poll<Self::Output>";

#[test]
fn sanitizing_replaces_self_and_the_interface() {
    let (t, named, resolved) = sanitize(&ty("Self"), "Foo");
    assert_eq!(text(&t), "SelfTy");
    assert!(named);
    assert!(!resolved);

    let (t, named, resolved) = sanitize(&Node::named("Vec", &vec![ty("Foo")]), "Foo");
    assert_eq!(normal_type(&text(&t)), normal_type("Vec<SelfTy>"));
    assert!(named);
    assert!(!resolved);

    let (t, named, resolved) = sanitize(&Node::named("Foo", &vec![ty("u8")]), "Foo");
    assert_eq!(text(&t), "SelfTy");
    assert!(named);
    assert!(!resolved);

    let (t, named, resolved) = sanitize(&ty("Bar"), "Foo");
    assert_eq!(text(&t), "Bar");
    assert!(!named);
    assert!(!resolved);
}

#[test]
fn sanitizing_names_anonymous_lifetimes() {
    let (t, named, resolved) = sanitize(&borrowed(ty("u8")), "Foo");
    assert_eq!(normal_type(&text(&t)), normal_type("&'default_lifetime u8"));
    assert!(!named);
    assert!(resolved);

    let anonymous = Node::reference(&Some("_".to_string()), true, ty("Self"));
    let (t, named, resolved) = sanitize(&anonymous, "Foo");
    assert_eq!(normal_type(&text(&t)), normal_type("&'default_lifetime mut SelfTy"));
    assert!(named);
    assert!(resolved);

    let written = Node::reference(&Some("a".to_string()), false, borrowed(ty("u8")));
    let (t, named, resolved) = sanitize(&written, "Foo");
    assert_eq!(normal_type(&text(&t)), normal_type("&'a &'default_lifetime u8"));
    assert!(!named);
    assert!(resolved);

    let (t, _, resolved) = sanitize(&Node::reference(&Some("a".to_string()), false, ty("u8")), "Foo");
    assert_eq!(normal_type(&text(&t)), normal_type("&'a u8"));
    assert!(!resolved);
}

#[test]
fn sanitizing_leaves_dynamic_types_alone() {
    let boxed = Node::named("Box", &vec![object("Foo")]);
    let (t, named, resolved) = sanitize(&boxed, "Foo");
    assert_eq!(t, boxed);
    assert!(!named);
    assert!(!resolved);

    let inner = Node::tree(
        Kind::Object,
        vec![Node::ident("dyn"), Node::named("Fn", &vec![borrowed(ty("Self"))])],
    );
    let (t, named, resolved) = sanitize(&borrowed(inner.clone()), "Foo");
    assert_eq!(t, Node::reference(&Some("default_lifetime".to_string()), false, inner));
    assert!(!named);
    assert!(resolved);
}

#[test]
fn sanitizing_twice_changes_nothing_more() {
    let types = vec![
        ty("Self"),
        borrowed(Node::named("Vec", &vec![ty("Foo"), borrowed(ty("Self"))])),
        Node::reference(&Some("_".to_string()), true, object("Foo")),
        Node::named("SelfTy", &vec![ty("Self")]),
        Node::tree(Kind::Paren, vec![ty("Self"), Node::punct(","), borrowed(ty("u8"))]),
    ];
    for t in types {
        let (once, _, _) = sanitize(&t, "Foo");
        let (twice, named, resolved) = sanitize(&once, "Foo");
        assert_eq!(once, twice);
        assert!(!named);
        assert!(!resolved);
    }
}

#[test]
fn receiver_and_parameters_become_fields() {
    let foo = interface("Foo", vec![]);
    let bar = method("bar", vec![by_ref(), param("i", ty("u32")), unnamed(borrowed(ty("Self")))]);
    let data = MethodData::new(foo, bar, false).expect("the method is valid");
    assert!(data.has_self);
    assert!(data.need_default_lifetime);
    assert!(!data.is_provided());
    let fields: Vec<String> = data.fields.iter().map(|f| normal_type(&text(f))).collect();
    assert_eq!(
        fields,
        vec![
            normal_type("&'default_lifetime SelfTy"),
            normal_type("u32"),
            normal_type("&'default_lifetime SelfTy"),
        ]
    );
    let args: Vec<String> = data.poll_args.iter().map(text).collect();
    assert_eq!(args, vec!["this . 0", "this . 1", "this . 2", "cx"]);
}

#[test]
fn static_method_without_self_gets_a_marker_field() {
    let foo = interface("Foo", vec![]);
    let data = MethodData::new(foo, method("bar", vec![param("i", ty("u32"))]), false)
        .expect("the method is valid");
    assert!(!data.has_self);
    assert!(!data.need_default_lifetime);
    let fields: Vec<String> = data.fields.iter().map(|f| normal_type(&text(f))).collect();
    assert_eq!(
        fields,
        vec![normal_type("u32"), normal_type("::core::marker::PhantomData<*const SelfTy>")]
    );
    let args: Vec<String> = data.poll_args.iter().map(text).collect();
    assert_eq!(args, vec!["this . 0", "cx"]);
    assert_eq!(
        normal_method(&data.extify(true)),
        expected_method(
            "fn bar(i: u32) -> FooBar<Self> where Self: Sized { FooBar(i, ::core::marker::PhantomData) }"
        )
    );
}

#[test]
fn dynamic_method_without_self_gets_no_marker_field() {
    let foo = interface("Foo", vec![]);
    let data = MethodData::new(foo, method("bar", vec![param("i", ty("u32"))]), true)
        .expect("the method is valid");
    assert!(!data.has_self);
    assert_eq!(data.fields.len(), 1);
    assert_eq!(
        normal_method(&data.extify(true)),
        expected_method("fn bar(i: u32) -> FooBar { FooBar(i) }")
    );
}

#[test]
fn dynamic_receiver_is_an_interface_reference() {
    let foo = interface("Foo", vec![]);
    let data = MethodData::new(
        foo,
        method(
            "bar",
            vec![FnArg::Receiver { reference: true, lifetime: Some("a".to_string()), mutable: true }],
        ),
        true,
    )
    .expect("the method is valid");
    assert!(!data.has_self);
    assert!(!data.need_default_lifetime);
    let fields: Vec<String> = data.fields.iter().map(|f| normal_type(&text(f))).collect();
    assert_eq!(fields, vec![normal_type("&'a mut dyn Foo")]);
}

#[test]
fn dynamic_analysis_rejects_owned_receiver() {
    let foo = interface("Foo", vec![]);
    let bar = method("bar", vec![by_value(), param("i", ty("u32"))]);
    assert_eq!(MethodData::new(foo.clone(), bar.clone(), true), Err(Problem::OwnedSelf));
    assert_eq!(Problem::OwnedSelf.message(), "dynamic doesn't work with owned self");
    assert!(MethodData::new(foo, bar, false).is_ok());
}

#[test]
fn polling_form_takes_the_context_last() {
    let foo = interface("Foo", vec![]);
    let bar = returning(method("bar", vec![by_ref(), mut_param("i", ty("u32"))]), ty("u8"));
    let data = MethodData::new(foo, bar, false).expect("the method is valid");
    assert_eq!(
        normal_method(&data.pollify()),
        expected_method(
            "fn poll_bar(&self, mut i: u32, cx: &mut ::core::task::Context) -> ::core::task::Poll<u8>;"
        )
    );
    assert_eq!(
        normal_method(&data.extify(false)),
        expected_method("fn bar(&self, i: u32) -> FooBar<'_, Self> where Self: Sized;")
    );
}

#[test]
fn unnamed_parameters_are_counted_from_one() {
    let foo = interface("Foo", vec![]);
    let bar = method("bar", vec![unnamed(ty("i32")), unnamed(ty("Self"))]);
    let data = MethodData::new(foo, bar, false).expect("the method is valid");
    assert_eq!(
        normal_method(&data.extify(true)),
        expected_method(
            "fn bar(arg1: i32, arg2: Self) -> FooBar<Self> where Self: Sized { FooBar(arg1, arg2) }"
        )
    );
}

fn call_bar() -> Vec<Node> {
    vec![
        Node::ident("self"),
        Node::punct("."),
        Node::ident("bar"),
        Node::tree(Kind::Paren, vec![Node::literal("0")]),
        Node::punct("."),
        Node::ident("await"),
        Node::punct("+"),
        Node::literal("1"),
    ]
}

#[test]
fn provided_method_keeps_its_body_under_static_dispatch() {
    let foo = interface("Foo", vec![]);
    let baz = returning(provided(method("baz", vec![by_ref()]), call_bar()), ty("u32"));
    let data = MethodData::new(foo, baz, false).expect("the method is valid");
    assert!(data.is_provided());
    assert_eq!(
        normal_method(&data.extify(true)),
        expected_method(
            "fn baz(&self) -> FooBaz<'_, Self> where Self: Sized { async move { { self.bar(0).await + 1 } } }"
        )
    );
    assert_eq!(
        normal(&render(&data.future_type_alias().to_tokens())),
        normal(
            "#[doc = \" the future returned by [`FooExt::baz`]\"]
             type FooBaz<'default_lifetime, SelfTy> = impl ::core::future::Future<Output = u32> + 'default_lifetime;"
        )
    );
}

#[test]
fn provided_method_calls_an_inner_function_under_dynamic_dispatch() {
    let foo = interface("Foo", vec![]);
    let baz = returning(
        provided(method("baz", vec![by_ref(), param("i", ty("u32"))]), call_bar()),
        ty("u32"),
    );
    let data = MethodData::new(foo, baz, true).expect("the method is valid");
    assert_eq!(
        normal_method(&data.extify(true)),
        expected_method(
            "fn baz(&self, i: u32) -> FooBaz<'_> {
                 fn inner(this: &dyn FooExt, i: u32) -> FooBaz<'_> {
                     async move { { this.bar(0).await + 1 } }
                 }
                 inner(self, i)
             }"
        )
    );
}

#[test]
fn renaming_the_receiver_reaches_every_occurrence() {
    let body = vec![
        Node::ident("self"),
        Node::punct("."),
        Node::ident("a"),
        Node::tree(
            Kind::Paren,
            vec![Node::tree(Kind::Brace, vec![Node::ident("self"), Node::ident("selfish")])],
        ),
        Node::literal("self"),
    ];
    assert_eq!(render(&rename_self_to_this(&body, "this")), "this . a ( { this selfish } ) self");
    let nested = vec![
        Node::tree(
            Kind::Item,
            vec![
                Node::ident("fn"),
                Node::ident("f"),
                Node::tree(Kind::Paren, vec![Node::punct("&"), Node::ident("self")]),
                Node::tree(Kind::Brace, vec![Node::ident("self")]),
            ],
        ),
        Node::ident("self"),
    ];
    assert_eq!(
        render(&rename_self_to_this(&nested, "this")),
        "fn f ( & self ) { self } this"
    );
}

#[test]
fn interface_is_analysed_method_by_method() {
    let mut count = method("count", vec![by_ref()]);
    count.asyncness = false;
    let foo = interface(
        "Foo",
        vec![
            TraitItem::Method(count),
            TraitItem::Method(returning(
                method("bar", vec![by_ref(), param("i", ty("u32"))]),
                ty("u32"),
            )),
        ],
    );
    let data = TraitData::new(foo, false).expect("the interface is valid");
    assert_eq!(data.methods.len(), 1);
    let expected = format!(
        "trait Foo {{
             fn count(&self);
             fn poll_bar(&self, i: u32, cx: &mut ::core::task::Context) -> ::core::task::Poll<u32>;
         }}
         #[doc = \" the extension trait for [`Foo`]\"]
         trait FooExt: Foo {{
             fn bar(&self, i: u32) -> FooBar<'_, Self> where Self: Sized;
         }}
         impl<SelfTy: Foo> FooExt for SelfTy {{
             fn bar(&self, i: u32) -> FooBar<'_, Self> where Self: Sized {{ FooBar(self, i) }}
         }}
         #[doc = \" the future returned by [`FooExt::bar`]\"]
         struct FooBar<'default_lifetime, SelfTy>(&'default_lifetime SelfTy, u32) where SelfTy: Foo;
         impl<'default_lifetime, SelfTy> ::core::future::Future for FooBar<'default_lifetime, SelfTy>
         where SelfTy: Foo {{
             type Output = u32;
             {POLL} {{
                 let this = &mut *self;
                 <SelfTy as Foo>::poll_bar(this.0.into(), this.1.into(), cx.into())
             }}
         }}"
    );
    assert_eq!(normal(&render(&data.to_tokens())), normal(&expected));
}

#[test]
fn interface_analysis_stops_at_the_first_error() {
    let mut unmarked = method("baz", vec![by_ref()]);
    unmarked.body = Some(vec![Node::literal("1")]);
    let foo = interface(
        "Foo",
        vec![
            TraitItem::Method(method("bar", vec![by_ref()])),
            TraitItem::Method(method("qux", vec![by_value()])),
            TraitItem::Method(unmarked.clone()),
        ],
    );
    assert_eq!(
        TraitData::new(foo.clone(), true),
        Err(Diagnostic { problem: Problem::OwnedSelf, item: Some(1) })
    );
    assert_eq!(
        TraitData::new(foo, false),
        Err(Diagnostic { problem: Problem::UnmarkedProvided, item: Some(2) })
    );
    assert_eq!(
        Problem::UnmarkedProvided.message(),
        "provided methods must be marked with #[provided]"
    );
}

#[test]
fn generics_of_interface_and_method_are_merged() {
    let mut foo = interface("Foo", vec![]);
    foo.generics = Generics {
        params: vec![
            GenericParam {
                kind: ParamKind::Type,
                name: "T".to_string(),
                bounds: vec![ty("Clone")],
                default: vec![],
            },
            GenericParam {
                kind: ParamKind::Const,
                name: "N".to_string(),
                bounds: vec![ty("usize")],
                default: vec![],
            },
        ],
        predicates: vec![WherePredicate { subject: ty("Self"), bounds: vec![ty("Send")] }],
    };
    let mut bar = method("bar", vec![by_ref(), param("a", borrowed(ty("A")))]);
    bar.generics = Generics {
        params: vec![
            GenericParam {
                kind: ParamKind::Lifetime,
                name: "a".to_string(),
                bounds: vec![],
                default: vec![],
            },
            GenericParam {
                kind: ParamKind::Type,
                name: "A".to_string(),
                bounds: vec![],
                default: vec![],
            },
        ],
        predicates: vec![WherePredicate { subject: ty("A"), bounds: vec![ty("Copy")] }],
    };
    let data = MethodData::new(foo, bar, false).expect("the method is valid");
    assert_eq!(
        normal(&render(&data.future_struct().to_tokens())),
        normal(
            "#[doc = \" the future returned by [`FooExt::bar`]\"]
             struct FooBar<'a, 'default_lifetime, T: Clone, A, SelfTy, const N: usize>(
                 &'default_lifetime SelfTy,
                 &'default_lifetime A
             ) where SelfTy: Send, A: Copy, SelfTy: Foo;"
        )
    );
}

#[test]
fn anonymous_lifetime_brings_the_resolved_lifetime_into_the_generics() {
    let foo = interface("Foo", vec![]);
    let anonymous = Node::reference(&Some("_".to_string()), false, ty("u8"));
    let bar = method("bar", vec![param("a", anonymous)]);
    let data = MethodData::new(foo, bar, true).expect("the method is valid");
    assert!(data.need_default_lifetime);
    assert!(!data.has_self);
    assert_eq!(
        normal(&render(&data.future_struct().to_tokens())),
        normal(
            "#[doc = \" the future returned by [`FooExt::bar`]\"]
             struct FooBar<'default_lifetime>(&'default_lifetime u8);"
        )
    );
    assert_eq!(
        normal_method(&data.extify(false)),
        expected_method("fn bar(a: &'_ u8) -> FooBar<'_>;")
    );
}

#[test]
fn provided_method_stays_in_the_lowered_interface() {
    let baz = returning(provided(method("baz", vec![by_ref()]), call_bar()), ty("u32"));
    let foo = interface(
        "Foo",
        vec![
            TraitItem::Method(baz),
            TraitItem::Method(method("bar", vec![by_ref(), param("i", ty("u32"))])),
        ],
    );
    let data = TraitData::new(foo, true).expect("the interface is valid");
    assert_eq!(data.methods.len(), 2);
    assert_eq!(data.future_structs().len(), 1);
    assert_eq!(data.future_implementations().len(), 1);
    assert_eq!(data.future_type_aliases().len(), 1);
    assert_eq!(
        normal(&render(&data.pollify_trait().to_tokens())),
        normal(
            "trait Foo {
                 async fn baz(&self) -> u32 { self.bar(0).await + 1 }
                 fn poll_bar(&self, i: u32, cx: &mut ::core::task::Context) -> ::core::task::Poll<()>;
             }"
        )
    );
    assert_eq!(
        normal(&render(&data.ext_implementations().to_tokens())),
        normal(
            "impl<SelfTy: Foo> FooExt for SelfTy {
                 fn baz(&self) -> FooBaz<'_> {
                     fn inner(this: &dyn FooExt) -> FooBaz<'_> {
                         async move { { this.bar(0).await + 1 } }
                     }
                     inner(self)
                 }
                 fn bar(&self, i: u32) -> FooBar<'_> { FooBar(self, i) }
             }"
        )
    );
}
