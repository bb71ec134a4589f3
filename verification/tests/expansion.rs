use async_trait_ext::async_trait_ext;
use async_trait_ext::decl::{
    FnArg, GenericParam, Generics, InterfaceDeclaration, MethodDeclaration, ParamKind, Pattern,
    TraitItem, WherePredicate,
};
use async_trait_ext::input::{ConfigOption, OptionForm};
use async_trait_ext::syntax::{Kind, Node};
use async_trait_ext::text::render;

fn flag(name: &str) -> ConfigOption {
    ConfigOption { name: name.to_string(), form: OptionForm::Flag }
}

fn interface(name: &str, items: Vec<TraitItem>) -> InterfaceDeclaration {
    InterfaceDeclaration {
        attrs: vec![],
        options: vec![],
        vis: vec![],
        qualifiers: vec![],
        name: name.to_string(),
        generics: Generics { params: vec![], predicates: vec![] },
        supertraits: vec![],
        items,
    }
}

fn public(mut item: InterfaceDeclaration) -> InterfaceDeclaration {
    item.vis = vec![Node::ident("pub")];
    item
}

fn dynamic(mut item: InterfaceDeclaration) -> InterfaceDeclaration {
    item.options = vec![flag("dynamic")];
    item
}

fn method(name: &str, inputs: Vec<FnArg>) -> MethodDeclaration {
    MethodDeclaration {
        attrs: vec![],
        options: vec![],
        qualifiers: vec![],
        asyncness: true,
        name: name.to_string(),
        generics: Generics { params: vec![], predicates: vec![] },
        inputs,
        output: None,
        body: None,
    }
}

fn sync(mut m: MethodDeclaration) -> MethodDeclaration {
    m.asyncness = false;
    m
}

fn provided(mut m: MethodDeclaration, body: Vec<Node>) -> MethodDeclaration {
    m.options = vec![flag("provided")];
    m.body = Some(body);
    m
}

fn returning(mut m: MethodDeclaration, ty: Node) -> MethodDeclaration {
    m.output = Some(ty);
    m
}

fn ty(name: &str) -> Node {
    Node::named(name, &vec![])
}

fn by_value() -> FnArg {
    FnArg::Receiver { reference: false, lifetime: None, mutable: false }
}

fn by_ref() -> FnArg {
    FnArg::Receiver { reference: true, lifetime: None, mutable: false }
}

fn by_mut_ref() -> FnArg {
    FnArg::Receiver { reference: true, lifetime: None, mutable: true }
}

fn param(name: &str, ty: Node) -> FnArg {
    FnArg::Typed {
        pattern: Pattern::Binding {
            by_ref: false,
            mutable: false,
            name: name.to_string(),
            rest: vec![],
        },
        ty,
    }
}

fn mut_param(name: &str, ty: Node) -> FnArg {
    FnArg::Typed {
        pattern: Pattern::Binding {
            by_ref: false,
            mutable: true,
            name: name.to_string(),
            rest: vec![],
        },
        ty,
    }
}

fn unnamed(ty: Node) -> FnArg {
    FnArg::Typed { pattern: Pattern::Other(vec![Node::ident("_")]), ty }
}

fn copy_unpin() -> WherePredicate {
    WherePredicate {
        subject: ty("Self"),
        bounds: vec![ty("Copy"), Node::punct("+"), ty("Unpin")],
    }
}

fn lifetime(name: &str) -> GenericParam {
    GenericParam {
        kind: ParamKind::Lifetime,
        name: name.to_string(),
        bounds: vec![],
        default: vec![],
    }
}

fn normal(source: &str) -> String {
    let file: syn::File = syn::parse_str(source).expect("the text is a list of items");
    quote::ToTokens::to_token_stream(&file).to_string()
}

fn expand(item: &InterfaceDeclaration) -> String {
    let tokens = async_trait_ext(item).expect("the interface is valid");
    normal(&render(&tokens))
}

const POLL: &str = "fn poll(mut self: ::core::pin::Pin<&mut Self>, cx: &mut ::core::task::Context) -> ::core::task::Poll<Self::Output>";

#[test]
fn test_empty() {
    let foo = interface("Foo", vec![TraitItem::Method(method("bar", vec![]))]);
    let expected = format!(
        "trait Foo {{ fn poll_bar(ctx: &mut ::core::task::Context) -> ::core::task::Poll<()>; }}
         #[doc = \" the future returned by [`FooExt::bar`]\"]
         struct FooBar<__Self: Foo>(::core::marker::PhantomData<*const __Self>) where __Self: Foo;
         impl<__Self: Foo> ::core::future::Future for FooBar<__Self> where __Self: Foo {{
             type Output = ();
             {POLL} {{
                 let this = &mut *self;
                 <__Self as Foo>::poll_bar(cx)
             }}
         }}
         trait FooExt: Foo + ::core::marker::Sized {{ fn bar() -> FooBar<Self>; }}
         impl<__IMPL: Foo> FooExt for __IMPL {{
             fn bar() -> FooBar<Self> {{ FooBar(::core::marker::PhantomData) }}
         }}"
    );
    assert_eq!(expand(&foo), normal(&expected));
}

#[test]
fn test_receiver() {
    let mut bar = method("bar", vec![by_value()]);
    bar.generics.predicates = vec![copy_unpin()];
    let foo = interface(
        "Foo",
        vec![
            TraitItem::Method(bar),
            TraitItem::Method(method("baz", vec![by_ref()])),
            TraitItem::Method(method("qux", vec![by_mut_ref()])),
        ],
    );
    let expected = format!(
        "trait Foo {{
             fn poll_bar(self, ctx: &mut ::core::task::Context) -> ::core::task::Poll<()> where Self: Copy + Unpin;
             fn poll_baz(&self, ctx: &mut ::core::task::Context) -> ::core::task::Poll<()>;
             fn poll_qux(&mut self, ctx: &mut ::core::task::Context) -> ::core::task::Poll<()>;
         }}
         #[doc = \" the future returned by [`FooExt::bar`]\"]
         struct FooBar<__Self: Foo>(__Self) where __Self: Copy + Unpin, __Self: Foo;
         impl<__Self: Foo> ::core::future::Future for FooBar<__Self>
         where __Self: Copy + Unpin, __Self: Foo {{
             type Output = ();
             {POLL} {{
                 let this = &mut *self;
                 <__Self as Foo>::poll_bar(this.0.into(), cx)
             }}
         }}
         #[doc = \" the future returned by [`FooExt::baz`]\"]
         struct FooBaz<'__default_lifetime, __Self: Foo>(&'__default_lifetime __Self)
         where __Self: Foo;
         impl<'__default_lifetime, __Self: Foo> ::core::future::Future for FooBaz<'__default_lifetime, __Self>
         where __Self: Foo {{
             type Output = ();
             {POLL} {{
                 let this = &mut *self;
                 <__Self as Foo>::poll_baz(this.0.into(), cx)
             }}
         }}
         #[doc = \" the future returned by [`FooExt::qux`]\"]
         struct FooQux<'__default_lifetime, __Self: Foo>(&'__default_lifetime mut __Self)
         where __Self: Foo;
         impl<'__default_lifetime, __Self: Foo> ::core::future::Future for FooQux<'__default_lifetime, __Self>
         where __Self: Foo {{
             type Output = ();
             {POLL} {{
                 let this = &mut *self;
                 <__Self as Foo>::poll_qux(this.0.into(), cx)
             }}
         }}
         trait FooExt: Foo + ::core::marker::Sized {{
             fn bar(self) -> FooBar<Self> where Self: Copy + Unpin;
             fn baz(&self) -> FooBaz<'_, Self>;
             fn qux(&mut self) -> FooQux<'_, Self>;
         }}
         impl<__IMPL: Foo> FooExt for __IMPL {{
             fn bar(self) -> FooBar<Self> where Self: Copy + Unpin {{ FooBar(self) }}
             fn baz(&self) -> FooBaz<'_, Self> {{ FooBaz(self) }}
             fn qux(&mut self) -> FooQux<'_, Self> {{ FooQux(self) }}
         }}"
    );
    assert_eq!(expand(&foo), normal(&expected));
}

#[test]
fn test_without_receiver() {
    let mut baz = method("baz", vec![unnamed(ty("Self")), unnamed(ty("i32"))]);
    baz.generics.predicates = vec![copy_unpin()];
    let foo = interface(
        "Foo",
        vec![TraitItem::Method(method("bar", vec![unnamed(ty("i32"))])), TraitItem::Method(baz)],
    );
    let expected = format!(
        "trait Foo {{
             fn poll_bar(_: i32, ctx: &mut ::core::task::Context) -> ::core::task::Poll<()>;
             fn poll_baz(_: Self, _: i32, ctx: &mut ::core::task::Context) -> ::core::task::Poll<()>
             where Self: Copy + Unpin;
         }}
         #[doc = \" the future returned by [`FooExt::bar`]\"]
         struct FooBar<__Self: Foo>(i32, ::core::marker::PhantomData<*const __Self>)
         where __Self: Foo;
         impl<__Self: Foo> ::core::future::Future for FooBar<__Self> where __Self: Foo {{
             type Output = ();
             {POLL} {{
                 let this = &mut *self;
                 <__Self as Foo>::poll_bar(this.0.into(), cx)
             }}
         }}
         #[doc = \" the future returned by [`FooExt::baz`]\"]
         struct FooBaz<__Self: Foo>(__Self, i32) where __Self: Copy + Unpin, __Self: Foo;
         impl<__Self: Foo> ::core::future::Future for FooBaz<__Self>
         where __Self: Copy + Unpin, __Self: Foo {{
             type Output = ();
             {POLL} {{
                 let this = &mut *self;
                 <__Self as Foo>::poll_baz(this.0.into(), this.1.into(), cx)
             }}
         }}
         trait FooExt: Foo + ::core::marker::Sized {{
             fn bar(_: i32) -> FooBar<Self>;
             fn baz(_: Self, _: i32) -> FooBaz<Self> where Self: Copy + Unpin;
         }}
         impl<__IMPL: Foo> FooExt for __IMPL {{
             fn bar(arg0: i32) -> FooBar<Self> {{
                 FooBar(arg0, ::core::marker::PhantomData)
             }}
             fn baz(arg0: Self, arg1: i32) -> FooBaz<Self> where Self: Copy + Unpin {{
                 FooBaz(arg0, arg1)
             }}
         }}"
    );
    assert_eq!(expand(&foo), normal(&expected));
}

#[test]
fn test_lifetimes() {
    let mut bar = method(
        "bar",
        vec![by_ref(), unnamed(Node::reference(&Some("i".to_string()), false, ty("i32")))],
    );
    bar.generics.params = vec![lifetime("i")];
    let foo = interface("Foo", vec![TraitItem::Method(bar)]);
    let expected = format!(
        "trait Foo {{
             fn poll_bar<'i>(&self, _: &'i i32, ctx: &mut ::core::task::Context) -> ::core::task::Poll<()>;
         }}
         #[doc = \" the future returned by [`FooExt::bar`]\"]
         struct FooBar<'i, '__default_lifetime, __Self: Foo>(&'__default_lifetime __Self, &'i i32)
         where __Self: Foo;
         impl<'i, '__default_lifetime, __Self: Foo> ::core::future::Future
             for FooBar<'i, '__default_lifetime, __Self> where __Self: Foo {{
             type Output = ();
             {POLL} {{
                 let this = &mut *self;
                 <__Self as Foo>::poll_bar(this.0.into(), this.1.into(), cx)
             }}
         }}
         trait FooExt: Foo + ::core::marker::Sized {{
             fn bar<'i>(&self, _: &'i i32) -> FooBar<'i, '_, Self>;
         }}
         impl<__IMPL: Foo> FooExt for __IMPL {{
             fn bar<'i>(&self, arg1: &'i i32) -> FooBar<'i, '_, Self> {{ FooBar(self, arg1) }}
         }}"
    );
    assert_eq!(expand(&foo), normal(&expected));
}

fn call_bar() -> Vec<Node> {
    vec![
        Node::ident("self"),
        Node::punct("."),
        Node::ident("bar"),
        Node::tree(Kind::Paren, vec![Node::literal("0")]),
        Node::punct(";"),
    ]
}

#[test]
fn test_provided() {
    let foo = interface(
        "Foo",
        vec![
            TraitItem::Method(method("bar", vec![by_ref(), param("i", ty("u32"))])),
            TraitItem::Method(provided(method("baz", vec![by_ref()]), call_bar())),
        ],
    );
    let expected = format!(
        "trait Foo {{
             fn poll_bar(&self, i: u32, ctx: &mut ::core::task::Context) -> ::core::task::Poll<()>;
             async fn baz(&self) {{ self.bar(0); }}
         }}
         #[doc = \" the future returned by [`FooExt::bar`]\"]
         struct FooBar<'__default_lifetime, __Self: Foo>(&'__default_lifetime __Self, u32)
         where __Self: Foo;
         impl<'__default_lifetime, __Self: Foo> ::core::future::Future for FooBar<'__default_lifetime, __Self>
         where __Self: Foo {{
             type Output = ();
             {POLL} {{
                 let this = &mut *self;
                 <__Self as Foo>::poll_bar(this.0.into(), this.1.into(), cx)
             }}
         }}
         #[doc = \" the future returned by [`FooExt::baz`]\"]
         type FooBaz<'__default_lifetime, __Self: Foo> where __Self: Foo
             = impl ::core::future::Future<Output = ()>;
         trait FooExt: Foo + ::core::marker::Sized {{
             fn bar(&self, i: u32) -> FooBar<'_, Self>;
             fn baz(&self) -> FooBaz<'_, Self>;
         }}
         impl<__IMPL: Foo> FooExt for __IMPL {{
             fn bar(&self, i: u32) -> FooBar<'_, Self> {{ FooBar(self, i) }}
             fn baz(&self) -> FooBaz<'_, Self> {{
                 async move {{ {{ self.bar(0); }} }}
             }}
         }}"
    );
    assert_eq!(expand(&foo), normal(&expected));
}

#[test]
fn test_sync() {
    let mut bar = sync(method("bar", vec![by_value()]));
    bar.generics.predicates = vec![copy_unpin()];
    let foo = interface(
        "Foo",
        vec![
            TraitItem::Method(bar),
            TraitItem::Method(sync(method("baz", vec![by_ref()]))),
            TraitItem::Method(sync(method("qux", vec![by_mut_ref()]))),
        ],
    );
    let expected = "trait Foo {
             fn bar(self) where Self: Copy + Unpin;
             fn baz(&self);
             fn qux(&mut self);
         }
         trait FooExt: Foo + ::core::marker::Sized {}
         impl<__IMPL: Foo> FooExt for __IMPL {}";
    assert_eq!(expand(&foo), normal(expected));
}

#[test]
fn test_dynamic() {
    let foo = dynamic(public(interface(
        "Foo",
        vec![TraitItem::Method(method("bar", vec![by_mut_ref()]))],
    )));
    let expected = format!(
        "pub trait Foo {{
             fn poll_bar(&mut self, ctx: &mut ::core::task::Context) -> ::core::task::Poll<()>;
         }}
         #[doc = \" the future returned by [`FooExt::bar`]\"]
         pub struct FooBar<'__default_lifetime>(&'__default_lifetime mut dyn Foo);
         impl<'__default_lifetime> ::core::future::Future for FooBar<'__default_lifetime> {{
             type Output = ();
             {POLL} {{
                 let this = &mut *self;
                 Foo::poll_bar(this.0.into(), cx)
             }}
         }}
         pub trait FooExt: Foo {{
             fn bar(&mut self) -> FooBar<'_>;
         }}
         impl<__IMPL: Foo> FooExt for __IMPL {{
             fn bar(&mut self) -> FooBar<'_> {{ FooBar(self) }}
         }}"
    );
    assert_eq!(expand(&foo), normal(&expected));
}

fn increment() -> Vec<Node> {
    vec![
        Node::ident("a"),
        Node::punct("+="),
        Node::literal("1"),
        Node::punct(";"),
        Node::ident("a"),
    ]
}

fn mut_pattern_items() -> Vec<TraitItem> {
    vec![
        TraitItem::Method(method("bar", vec![by_ref(), param("a", ty("u32"))])),
        TraitItem::Method(returning(
            provided(method("baz", vec![by_ref(), mut_param("a", ty("u32"))]), increment()),
            ty("u32"),
        )),
    ]
}

#[test]
fn test_mut_pattern() {
    let foo = dynamic(public(interface("Foo", mut_pattern_items())));
    let expected = format!(
        "pub trait Foo {{
             fn poll_bar(&self, a: u32, ctx: &mut ::core::task::Context) -> ::core::task::Poll<()>;
             async fn baz(&self, mut a: u32) -> u32 {{ a += 1; a }}
         }}
         #[doc = \" the future returned by [`FooExt::bar`]\"]
         pub struct FooBar<'__default_lifetime>(&'__default_lifetime dyn Foo, u32);
         impl<'__default_lifetime> ::core::future::Future for FooBar<'__default_lifetime> {{
             type Output = ();
             {POLL} {{
                 let this = &mut *self;
                 Foo::poll_bar(this.0.into(), this.1.into(), cx)
             }}
         }}
         #[doc = \" the future returned by [`FooExt::baz`]\"]
         pub type FooBaz<'__default_lifetime> = impl ::core::future::Future<Output = u32>;
         pub trait FooExt: Foo {{
             fn bar(&self, a: u32) -> FooBar<'_>;
             fn baz(&self, a: u32) -> FooBaz<'_>;
         }}
         impl<__IMPL: Foo> FooExt for __IMPL {{
             fn bar(&self, a: u32) -> FooBar<'_> {{ FooBar(self, a) }}
             fn baz(&self, a: u32) -> FooBaz<'_> {{
                 async fn fn_impl<'__default_lifetime>(this: &dyn FooExt, mut a: u32) -> u32 {{
                     {{
                         a += 1;
                         a
                     }}
                 }}
                 fn_impl(self, a)
             }}
         }}"
    );
    assert_eq!(expand(&foo), normal(&expected));

    let foo2 = public(interface("Foo2", mut_pattern_items()));
    let expected = format!(
        "pub trait Foo2 {{
             fn poll_bar(&self, a: u32, ctx: &mut ::core::task::Context) -> ::core::task::Poll<()>;
             async fn baz(&self, mut a: u32) -> u32 {{ a += 1; a }}
         }}
         #[doc = \" the future returned by [`Foo2Ext::bar`]\"]
         pub struct Foo2Bar<'__default_lifetime, __Self: Foo2>(&'__default_lifetime __Self, u32)
         where __Self: Foo2;
         impl<'__default_lifetime, __Self: Foo2> ::core::future::Future for Foo2Bar<'__default_lifetime, __Self>
         where __Self: Foo2 {{
             type Output = ();
             {POLL} {{
                 let this = &mut *self;
                 <__Self as Foo2>::poll_bar(this.0.into(), this.1.into(), cx)
             }}
         }}
         #[doc = \" the future returned by [`Foo2Ext::baz`]\"]
         pub type Foo2Baz<'__default_lifetime, __Self: Foo2> where __Self: Foo2
             = impl ::core::future::Future<Output = u32>;
         pub trait Foo2Ext: Foo2 + ::core::marker::Sized {{
             fn bar(&self, a: u32) -> Foo2Bar<'_, Self>;
             fn baz(&self, a: u32) -> Foo2Baz<'_, Self>;
         }}
         impl<__IMPL: Foo2> Foo2Ext for __IMPL {{
             fn bar(&self, a: u32) -> Foo2Bar<'_, Self> {{ Foo2Bar(self, a) }}
             fn baz(&self, mut a: u32) -> Foo2Baz<'_, Self> {{
                 async move {{ {{ a += 1; a }} }}
             }}
         }}"
    );
    assert_eq!(expand(&foo2), normal(&expected));
}

#[test]
fn test_visibility() {
    let foo = public(interface("Foo", vec![TraitItem::Method(method("bar", vec![by_ref()]))]));
    let expected = format!(
        "pub trait Foo {{
             fn poll_bar(&self, ctx: &mut ::core::task::Context) -> ::core::task::Poll<()>;
         }}
         #[doc = \" the future returned by [`FooExt::bar`]\"]
         pub struct FooBar<'__default_lifetime, __Self: Foo>(&'__default_lifetime __Self)
         where __Self: Foo;
         impl<'__default_lifetime, __Self: Foo> ::core::future::Future for FooBar<'__default_lifetime, __Self>
         where __Self: Foo {{
             type Output = ();
             {POLL} {{
                 let this = &mut *self;
                 <__Self as Foo>::poll_bar(this.0.into(), cx)
             }}
         }}
         pub trait FooExt: Foo + ::core::marker::Sized {{
             fn bar(&self) -> FooBar<'_, Self>;
         }}
         impl<__IMPL: Foo> FooExt for __IMPL {{
             fn bar(&self) -> FooBar<'_, Self> {{ FooBar(self) }}
         }}"
    );
    assert_eq!(expand(&foo), normal(&expected));
}
