use async_trait_ext::decl::{
    FnArg, GenericParam, Generics, InterfaceDeclaration, MethodDeclaration, ParamKind, Pattern,
    TraitItem, WherePredicate,
};
use async_trait_ext::diagnostics::{Collector, Diagnostic, Problem};
use async_trait_ext::impls::expand::ImplExtTraitExpand;
use async_trait_ext::input::{ConfigOption, OptionForm};
use async_trait_ext::methods::expand::ext::{
    DynamicProvidedMethodImplExpand, ExtMethodExpand, MethodExtImplExpand, RenameSelfExpand,
    RenameselfExpand, StaticProvidedMethodImplExpand,
};
use async_trait_ext::methods::expand::future_type::{FutureAliasExpand, FutureStructExpand};
use async_trait_ext::methods::expand::impls::ImplFutureExpand;
use async_trait_ext::methods::expand::poll::PollMethodExpand;
use async_trait_ext::methods::expand::{
    needs_default_lifetime, type_generics, CleanUpMutPatternsExpand, GenericsExpand, RenameSelf,
};
use async_trait_ext::syntax::{Kind, Node};
use async_trait_ext::text::render;
use async_trait_ext::traits::expand::{ExtensionTraitExpand, PollTraitExpand};

fn flag(name: &str) -> ConfigOption {
    ConfigOption { name: name.to_string(), form: OptionForm::Flag }
}

fn interface(name: &str, items: Vec<TraitItem>) -> InterfaceDeclaration {
    InterfaceDeclaration {
        attrs: vec![],
        options: vec![],
        vis: vec![],
        qualifiers: vec![],
        name: name.to_string(),
        generics: Generics { params: vec![], predicates: vec![] },
        supertraits: vec![],
        items,
    }
}

fn dynamic(mut item: InterfaceDeclaration) -> InterfaceDeclaration {
    item.options = vec![flag("dynamic")];
    item
}

fn method(name: &str, inputs: Vec<FnArg>) -> MethodDeclaration {
    MethodDeclaration {
        attrs: vec![],
        options: vec![],
        qualifiers: vec![],
        asyncness: true,
        name: name.to_string(),
        generics: Generics { params: vec![], predicates: vec![] },
        inputs,
        output: None,
        body: None,
    }
}

fn sync(mut m: MethodDeclaration) -> MethodDeclaration {
    m.asyncness = false;
    m
}

fn provided(mut m: MethodDeclaration, body: Vec<Node>) -> MethodDeclaration {
    m.options = vec![flag("provided")];
    m.body = Some(body);
    m
}

fn returning(mut m: MethodDeclaration, ty: Node) -> MethodDeclaration {
    m.output = Some(ty);
    m
}

fn ty(name: &str) -> Node {
    Node::named(name, &vec![])
}

fn by_ref() -> FnArg {
    FnArg::Receiver { reference: true, lifetime: None, mutable: false }
}

fn param(name: &str, ty: Node) -> FnArg {
    FnArg::Typed {
        pattern: Pattern::Binding {
            by_ref: false,
            mutable: false,
            name: name.to_string(),
            rest: vec![],
        },
        ty,
    }
}

fn generic(kind: ParamKind, name: &str, bounds: Vec<Node>) -> GenericParam {
    GenericParam { kind, name: name.to_string(), bounds, default: vec![] }
}

fn failed() -> Collector {
    let mut c = Collector::new();
    c.error(Diagnostic { problem: Problem::MissingBody, item: None });
    c
}

fn normal(source: &str) -> String {
    let file: syn::File = syn::parse_str(source).expect("the text is a list of items");
    quote::ToTokens::to_token_stream(&file).to_string()
}

fn normal_method(m: &MethodDeclaration) -> String {
    let source = render(&m.to_tokens());
    let item: syn::TraitItemMethod = syn::parse_str(&source).expect("the text is a method");
    quote::ToTokens::to_token_stream(&item).to_string()
}

fn expected_method(source: &str) -> String {
    let item: syn::TraitItemMethod = syn::parse_str(source).expect("the text is a method");
    quote::ToTokens::to_token_stream(&item).to_string()
}

fn await_bar() -> Vec<Node> {
    vec![
        Node::ident("self"),
        Node::punct("."),
        Node::ident("bar"),
        Node::tree(Kind::Paren, vec![Node::literal("0")]),
        Node::punct("."),
        Node::ident("await"),
        Node::punct("+"),
        Node::literal("1"),
    ]
}

#[test]
fn static_method_without_receiver() {
    let foo = interface("Foo", vec![]);
    let bar = method("bar", vec![]);
    let mut c = Collector::new();
    let lowered = PollMethodExpand(&foo).expand(&bar, &mut c).expect("the method is lowered");
    assert_eq!(
        normal_method(&lowered),
        expected_method("fn poll_bar(ctx: &mut ::core::task::Context) -> ::core::task::Poll<()>;")
    );
    let ergonomic = ExtMethodExpand(&foo).expand(&bar, &mut c).expect("the method is asynchronous");
    assert_eq!(normal_method(&ergonomic), expected_method("fn bar() -> FooBar<Self>;"));
    let record = FutureStructExpand(&foo).expand(&bar, &mut c).expect("the method has no body");
    assert_eq!(record.name, "FooBar");
    assert_eq!(record.fields.len(), 1);
    assert_eq!(
        render(&record.fields),
        ":: core :: marker :: PhantomData < * const __Self >"
    );
    let implemented =
        MethodExtImplExpand(&foo).expand(&bar, &mut c).expect("the method has no body");
    assert_eq!(
        normal_method(&implemented),
        expected_method("fn bar() -> FooBar<Self> { FooBar(::core::marker::PhantomData) }")
    );
    let protocol = ImplFutureExpand(&foo).expand(&bar, &mut c).expect("the method has no body");
    assert_eq!(protocol.receiver, Some("__Self".to_string()));
    assert_eq!(render(&vec![protocol.make_callee()]), "< __Self as Foo > :: poll_bar");
    assert_eq!(render(&protocol.arguments), "cx");
    assert_eq!(c, Collector::new());
}

#[test]
fn dynamic_method_through_reference() {
    let foo = dynamic(interface("Foo", vec![]));
    let bar = method("bar", vec![FnArg::Receiver { reference: true, lifetime: None, mutable: true }]);
    let mut c = Collector::new();
    let record = FutureStructExpand(&foo).expand(&bar, &mut c).expect("the method has no body");
    assert_eq!(
        render(&record.fields),
        "& '__default_lifetime mut dyn Foo"
    );
    assert_eq!(record.generics.params.len(), 1);
    assert_eq!(record.generics.params[0].name, "__default_lifetime");
    let protocol = ImplFutureExpand(&foo).expand(&bar, &mut c).expect("the method has no body");
    assert_eq!(protocol.receiver, None);
    assert_eq!(render(&vec![protocol.make_callee()]), "Foo :: poll_bar");
    let extension = ExtensionTraitExpand
        .expand(&dynamic(interface("Foo", vec![TraitItem::Method(bar)])), &mut c)
        .expect("the extension is built");
    assert_eq!(render(&extension.supertraits), "Foo");
}

#[test]
fn dynamic_provided_gets_trampoline() {
    let foo = dynamic(interface("Foo", vec![]));
    let baz = returning(provided(method("baz", vec![by_ref()]), await_bar()), ty("u32"));
    let mut c = Collector::new();
    let implemented = DynamicProvidedMethodImplExpand(&foo)
        .expand(&baz, &mut c)
        .expect("the method is provided");
    assert_eq!(
        normal_method(&implemented),
        expected_method(
            "fn baz(&self) -> FooBaz<'_> {
                 async fn fn_impl<'__default_lifetime>(this: &dyn FooExt) -> u32 {
                     { this.bar(0).await + 1 }
                 }
                 fn_impl(self)
             }"
        )
    );
    assert_eq!(StaticProvidedMethodImplExpand(&foo).expand(&baz, &mut c), None);
    assert_eq!(MethodExtImplExpand(&foo).expand(&baz, &mut c), None);
    assert_eq!(FutureStructExpand(&foo).expand(&baz, &mut c), None);
    assert_eq!(ImplFutureExpand(&foo).expand(&baz, &mut c), None);
    let alias = FutureAliasExpand(&foo).expand(&baz, &mut c).expect("the method is provided");
    assert_eq!(
        normal(&render(&alias.to_tokens())),
        normal(
            "#[doc = \" the future returned by [`FooExt::baz`]\"]
             type FooBaz<'__default_lifetime> = impl ::core::future::Future<Output = u32>;"
        )
    );
}

#[test]
fn static_provided_keeps_its_body() {
    let foo = interface("Foo", vec![]);
    let baz = returning(provided(method("baz", vec![by_ref()]), await_bar()), ty("u32"));
    let mut c = Collector::new();
    let implemented = StaticProvidedMethodImplExpand(&foo)
        .expand(&baz, &mut c)
        .expect("the method is provided");
    assert_eq!(
        normal_method(&implemented),
        expected_method(
            "fn baz(&self) -> FooBaz<'_, Self> { async move { { self.bar(0).await + 1 } } }"
        )
    );
    assert_eq!(DynamicProvidedMethodImplExpand(&foo).expand(&baz, &mut c), None);
    assert_eq!(PollMethodExpand(&foo).expand(&baz, &mut c), None);
}

#[test]
fn synchronous_method_is_left_alone() {
    let foo = interface("Foo", vec![]);
    let mut bar = sync(method("bar", vec![by_ref()]));
    bar.options = vec![flag("provided")];
    let mut c = Collector::new();
    let lowered = PollMethodExpand(&foo).expand(&bar, &mut c).expect("the method stays");
    bar.options = vec![];
    assert_eq!(lowered, bar);
    assert_eq!(ExtMethodExpand(&foo).expand(&bar, &mut c), None);
    assert_eq!(FutureStructExpand(&foo).expand(&bar, &mut c), None);
    assert_eq!(FutureAliasExpand(&foo).expand(&bar, &mut c), None);
    assert_eq!(ImplFutureExpand(&foo).expand(&bar, &mut c), None);
    assert_eq!(MethodExtImplExpand(&foo).expand(&bar, &mut c), None);
    assert_eq!(StaticProvidedMethodImplExpand(&foo).expand(&bar, &mut c), None);
    assert_eq!(DynamicProvidedMethodImplExpand(&dynamic(foo)).expand(&bar, &mut c), None);
}

#[test]
fn nothing_is_expanded_after_an_error() {
    let bar = method("bar", vec![by_ref()]);
    let baz = provided(method("baz", vec![by_ref()]), await_bar());
    let other = TraitItem::Other(vec![Node::ident("type"), Node::ident("T"), Node::punct(";")]);
    let foo = interface(
        "Foo",
        vec![TraitItem::Method(bar.clone()), other.clone(), TraitItem::Method(baz.clone())],
    );
    let mut c = failed();
    assert_eq!(FutureStructExpand(&foo).expand(&bar, &mut c), None);
    assert_eq!(ImplFutureExpand(&foo).expand(&bar, &mut c), None);
    assert_eq!(FutureAliasExpand(&foo).expand(&baz, &mut c), None);
    assert_eq!(ExtMethodExpand(&foo).expand(&bar, &mut c), None);
    assert_eq!(MethodExtImplExpand(&foo).expand(&bar, &mut c), None);
    assert_eq!(StaticProvidedMethodImplExpand(&foo).expand(&baz, &mut c), None);
    assert_eq!(DynamicProvidedMethodImplExpand(&dynamic(foo.clone())).expand(&baz, &mut c), None);
    let lowered = PollTraitExpand.expand(&foo, &mut c).expect("an interface is returned");
    assert_eq!(lowered.items, vec![other]);
    let extension = ExtensionTraitExpand.expand(&foo, &mut c).expect("an interface is returned");
    assert_eq!(extension.items, vec![]);
    assert_eq!(extension.name, "FooExt");
    let implementation = ImplExtTraitExpand.expand(&foo, &mut c).expect("an item is returned");
    assert_eq!(implementation.methods, vec![]);
    assert_eq!(c, failed());
}

#[test]
fn needless_mut_is_removed() {
    let bar = method(
        "bar",
        vec![
            FnArg::Receiver { reference: false, lifetime: None, mutable: true },
            FnArg::Typed {
                pattern: Pattern::Binding {
                    by_ref: false,
                    mutable: true,
                    name: "a".to_string(),
                    rest: vec![],
                },
                ty: ty("u8"),
            },
            FnArg::Typed {
                pattern: Pattern::Other(vec![Node::tree(
                    Kind::Paren,
                    vec![Node::ident("mut"), Node::ident("b"), Node::punct(",")],
                )]),
                ty: Node::tree(Kind::Paren, vec![ty("u8"), Node::punct(",")]),
            },
        ],
    );
    let mut c = Collector::new();
    let cleaned = CleanUpMutPatternsExpand.expand(&bar, &mut c).expect("the method is cleaned");
    assert_eq!(
        normal_method(&cleaned),
        expected_method("async fn bar(self, a: u8, (mut b,): (u8,));")
    );
    let qux = method("qux", vec![FnArg::Receiver { reference: true, lifetime: None, mutable: true }]);
    assert_eq!(CleanUpMutPatternsExpand.expand(&qux, &mut c), Some(qux));
}

#[test]
fn unified_generics_keep_their_order() {
    let mut foo = interface("Foo", vec![]);
    foo.generics.params = vec![
        generic(ParamKind::Type, "T", vec![Node::named("Into", &vec![ty("Self")])]),
        generic(ParamKind::Const, "N", vec![ty("usize")]),
        generic(ParamKind::Lifetime, "t", vec![]),
    ];
    foo.generics.predicates = vec![WherePredicate { subject: ty("Self"), bounds: vec![ty("Send")] }];
    let mut bar = method("bar", vec![by_ref(), param("a", ty("A"))]);
    bar.generics.params = vec![
        generic(ParamKind::Const, "M", vec![ty("u8")]),
        generic(ParamKind::Type, "A", vec![]),
        generic(ParamKind::Lifetime, "a", vec![]),
    ];
    bar.generics.predicates = vec![WherePredicate { subject: ty("A"), bounds: vec![ty("Copy")] }];
    let mut c = Collector::new();
    let expand = GenericsExpand { item: &foo, default_lifetime: "d".to_string() };
    let generics = expand.expand(&bar, &mut c).expect("generics are always merged");
    let names: Vec<&str> = generics.params.iter().map(|p| p.name.as_str()).collect();
    assert_eq!(names, vec!["t", "a", "d", "T", "A", "__Self", "N", "M"]);
    assert_eq!(render(&generics.params[3].bounds), "Into < __Self >");
    assert_eq!(render(&generics.params[5].bounds), "Foo < 't , T , N >");
    assert_eq!(render(&vec![generics.predicates[0].subject.clone()]), "__Self");
    assert_eq!(generics.predicates.len(), 3);
    assert_eq!(render(&vec![generics.predicates[2].subject.clone()]), "__Self");
    assert_eq!(render(&generics.predicates[2].bounds), "Foo < 't , T , N >");
    assert_eq!(render(&type_generics(&generics.params)), "'t 'a 'd T A __Self N M");

    let generics = GenericsExpand { item: &dynamic(foo), default_lifetime: "d".to_string() }
        .expand(&method("qux", vec![param("a", ty("u8"))]), &mut c)
        .expect("generics are always merged");
    let names: Vec<&str> = generics.params.iter().map(|p| p.name.as_str()).collect();
    assert_eq!(names, vec!["t", "T", "N"]);
    assert_eq!(generics.predicates.len(), 1);
}

#[test]
fn default_lifetime_is_needed_for_anonymous_borrows() {
    assert!(needs_default_lifetime(&vec![by_ref()]));
    assert!(needs_default_lifetime(&vec![
        param("a", ty("u8")),
        param("b", Node::named("Vec", &vec![Node::reference(&None, false, ty("u8"))])),
    ]));
    assert!(!needs_default_lifetime(&vec![]));
    assert!(!needs_default_lifetime(&vec![
        FnArg::Receiver { reference: false, lifetime: None, mutable: false },
        FnArg::Receiver { reference: true, lifetime: Some("a".to_string()), mutable: false },
        param("b", Node::reference(&Some("a".to_string()), false, ty("u8"))),
    ]));
}

#[test]
fn self_is_renamed_to_the_placeholder_and_back() {
    let mut name = "Self".to_string();
    RenameSelf.visit_ident_mut(&mut name);
    assert_eq!(name, "__Self");
    RenameSelf.visit_ident_mut(&mut name);
    assert_eq!(name, "__Self");
    let mut other = "self".to_string();
    RenameSelf.visit_ident_mut(&mut other);
    assert_eq!(other, "self");
    let boxed = Node::named("Box", &vec![Node::tree(Kind::Object, vec![Node::ident("dyn"), ty("Self")])]);
    assert_eq!(render(&vec![RenameSelf.visit_type(&boxed)]), "Box < dyn __Self >");
    let generics = RenameSelf.visit_generics(&Generics {
        params: vec![GenericParam {
            kind: ParamKind::Type,
            name: "T".to_string(),
            bounds: vec![Node::named("From", &vec![ty("Self")])],
            default: vec![ty("Self")],
        }],
        predicates: vec![WherePredicate { subject: ty("Self"), bounds: vec![ty("Self")] }],
    });
    assert_eq!(render(&generics.params[0].bounds), "From < __Self >");
    assert_eq!(render(&generics.params[0].default), "__Self");
    assert_eq!(render(&generics.predicates[0].bounds), "__Self");
    let mut c = Collector::new();
    assert_eq!(
        RenameSelfExpand.expand(&vec![Node::lifetime("a"), ty("__Self"), ty("Self")], &mut c),
        Some(vec![Node::lifetime("a"), ty("Self"), ty("Self")])
    );
    assert_eq!(
        render(&RenameselfExpand.visit_block(&await_bar(), "this")),
        "this . bar ( 0 ) . await + 1"
    );
}

#[test]
fn by_value_receiver_is_lowered_statically() {
    let mut bar = method(
        "bar",
        vec![FnArg::Receiver { reference: false, lifetime: None, mutable: false }],
    );
    bar.generics.predicates = vec![WherePredicate {
        subject: ty("Self"),
        bounds: vec![ty("Copy"), Node::punct("+"), ty("Unpin")],
    }];
    let foo = interface("Foo", vec![TraitItem::Method(bar.clone())]);
    let mut c = Collector::new();
    let protocol = ImplFutureExpand(&foo).expand(&bar, &mut c).expect("the method has no body");
    assert_eq!(protocol.receiver, Some("__Self".to_string()));
    assert_eq!(render(&protocol.arguments), "this . 0 . into ( ) cx");
    let record = FutureStructExpand(&foo).expand(&bar, &mut c).expect("the method has no body");
    assert_eq!(render(&vec![record.fields[0].clone()]), "__Self");
    let extension = ExtensionTraitExpand.expand(&foo, &mut c).expect("the extension is built");
    assert_eq!(render(&extension.supertraits), "Foo :: core :: marker :: Sized");
    assert_eq!(
        render(&vec![extension.supertraits.last().expect("there are bounds").clone()]),
        ":: core :: marker :: Sized"
    );
}

#[test]
fn expansion_gives_the_same_output_twice() {
    let foo = dynamic(interface(
        "Foo",
        vec![
            TraitItem::Method(method("bar", vec![by_ref(), param("a", ty("u8"))])),
            TraitItem::Method(provided(method("baz", vec![by_ref()]), await_bar())),
        ],
    ));
    let first = async_trait_ext::async_trait_ext(&foo);
    let second = async_trait_ext::async_trait_ext(&foo);
    assert!(first.is_ok());
    assert_eq!(first, second);
    assert_eq!(async_trait_ext::async_trait_ext(&foo.clone()), first);
}

#[test]
fn trampoline_receiver_avoids_names_in_use() {
    let foo = dynamic(interface("Foo", vec![]));
    let body = vec![
        Node::ident("self"),
        Node::punct("."),
        Node::ident("bar"),
        Node::tree(Kind::Paren, vec![Node::ident("this")]),
        Node::punct("."),
        Node::ident("await"),
    ];
    let baz = returning(
        provided(method("baz", vec![by_ref(), param("this", ty("u32"))]), body),
        ty("u32"),
    );
    let mut c = Collector::new();
    let implemented = DynamicProvidedMethodImplExpand(&foo)
        .expand(&baz, &mut c)
        .expect("the method is provided");
    assert_eq!(
        normal_method(&implemented),
        expected_method(
            "fn baz(&self, this: u32) -> FooBaz<'_> {
                 async fn fn_impl<'__default_lifetime>(this_____: &dyn FooExt, this: u32) -> u32 {
                     { this_____.bar(this).await }
                 }
                 fn_impl(self, this)
             }"
        )
    );

    let local = vec![
        Node::ident("let"),
        Node::ident("this"),
        Node::punct("="),
        Node::literal("1"),
        Node::punct(";"),
        Node::ident("self"),
        Node::punct("."),
        Node::ident("a_long_name"),
        Node::tree(Kind::Paren, vec![Node::ident("this")]),
    ];
    let qux = provided(method("qux", vec![by_ref()]), local);
    let implemented = DynamicProvidedMethodImplExpand(&foo)
        .expand(&qux, &mut c)
        .expect("the method is provided");
    assert_eq!(
        normal_method(&implemented),
        expected_method(
            "fn qux(&self) -> FooQux<'_> {
                 async fn fn_impl<'__default_lifetime>(this___________: &dyn FooExt) {
                     { let this = 1; this___________.a_long_name(this) }
                 }
                 fn_impl(self)
             }"
        )
    );
}

#[test]
fn fresh_names_are_longer_than_every_name_in_use() {
    let scope = vec![Node::ident("this"), Node::tree(Kind::Paren, vec![Node::ident("abcdef")])];
    assert_eq!(async_trait_ext::rewrite::make_fresh_name(&scope, "this"), "this______");
    assert_eq!(async_trait_ext::rewrite::make_fresh_name(&scope, "that"), "that");
    assert_eq!(async_trait_ext::rewrite::make_fresh_name(&vec![], "this"), "this");
    assert_eq!(async_trait_ext::rewrite::longest_ident_in(&scope), 6);
    assert!(async_trait_ext::rewrite::is_mentioned(&scope, "abcdef"));
    assert!(!async_trait_ext::rewrite::is_mentioned(&scope, "abc"));
    assert!(async_trait_ext::rewrite::find_in(&vec![Node::lifetime("a")], Kind::Lifetime, "a"));
    assert!(!async_trait_ext::rewrite::find_in(&vec![Node::lifetime("a")], Kind::Ident, "a"));
}

#[test]
fn markers_stand_for_unmentioned_parameters_only() {
    let mut foo = interface("Foo", vec![]);
    foo.generics.params = vec![generic(ParamKind::Type, "T", vec![])];
    let mut bar = method("bar", vec![param("a", ty("A"))]);
    bar.generics.params = vec![
        generic(ParamKind::Lifetime, "l", vec![]),
        generic(ParamKind::Type, "A", vec![]),
        generic(ParamKind::Type, "B", vec![]),
    ];
    let mut c = Collector::new();
    let record = FutureStructExpand(&foo).expand(&bar, &mut c).expect("the method has no body");
    let fields: Vec<String> = record.fields.iter().map(|f| render(&vec![f.clone()])).collect();
    assert_eq!(
        fields,
        vec![
            "A",
            ":: core :: marker :: PhantomData < * const T >",
            ":: core :: marker :: PhantomData < * const B >",
            ":: core :: marker :: PhantomData < * const __Self >",
            ":: core :: marker :: PhantomData < & 'l ( ) >",
        ]
    );
    let implemented =
        MethodExtImplExpand(&foo).expand(&bar, &mut c).expect("the method has no body");
    assert_eq!(
        normal_method(&implemented),
        expected_method(
            "fn bar<'l, A, B>(a: A) -> FooBar<'l, T, A, B, Self> {
                 FooBar(
                     a,
                     ::core::marker::PhantomData,
                     ::core::marker::PhantomData,
                     ::core::marker::PhantomData,
                     ::core::marker::PhantomData
                 )
             }"
        )
    );
    let with_self = method("qux", vec![param("a", Node::named("Vec", &vec![ty("Self")]))]);
    let record =
        FutureStructExpand(&foo).expand(&with_self, &mut c).expect("the method has no body");
    let fields: Vec<String> = record.fields.iter().map(|f| render(&vec![f.clone()])).collect();
    assert_eq!(
        fields,
        vec!["Vec < __Self >", ":: core :: marker :: PhantomData < * const T >"]
    );
}
