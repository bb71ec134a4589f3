use async_trait_ext::async_trait_ext;
use async_trait_ext::decl::{
    FnArg, GenericParam, Generics, InterfaceDeclaration, MethodDeclaration, ParamKind, Pattern,
    TraitItem, WherePredicate,
};
use async_trait_ext::input::{ConfigOption, OptionForm};
use async_trait_ext::syntax::{Kind, Node};
use async_trait_ext::text::render;

fn flag(name: &str) -> ConfigOption {
    ConfigOption { name: name.to_string(), form: OptionForm::Flag }
}

fn interface(name: &str, items: Vec<MethodDeclaration>) -> InterfaceDeclaration {
    InterfaceDeclaration {
        attrs: vec![],
        options: vec![],
        vis: vec![Node::ident("pub")],
        qualifiers: vec![],
        name: name.to_string(),
        generics: Generics { params: vec![], predicates: vec![] },
        supertraits: vec![],
        items: items.into_iter().map(TraitItem::Method).collect(),
    }
}

fn dynamic(mut item: InterfaceDeclaration) -> InterfaceDeclaration {
    item.options = vec![flag("dynamic")];
    item
}

fn method(name: &str, inputs: Vec<FnArg>) -> MethodDeclaration {
    MethodDeclaration {
        attrs: vec![],
        options: vec![],
        qualifiers: vec![],
        asyncness: true,
        name: name.to_string(),
        generics: Generics { params: vec![], predicates: vec![] },
        inputs,
        output: None,
        body: None,
    }
}

fn sync(mut m: MethodDeclaration) -> MethodDeclaration {
    m.asyncness = false;
    m
}

fn generic(mut m: MethodDeclaration, params: Vec<GenericParam>) -> MethodDeclaration {
    m.generics.params = params;
    m
}

fn copy_unpin(mut m: MethodDeclaration) -> MethodDeclaration {
    m.generics.predicates = vec![WherePredicate {
        subject: ty("Self"),
        bounds: vec![ty("Copy"), Node::punct("+"), ty("Unpin")],
    }];
    m
}

fn provided(mut m: MethodDeclaration, body: Vec<Node>) -> MethodDeclaration {
    m.options = vec![flag("provided")];
    m.body = Some(body);
    m
}

fn returning(mut m: MethodDeclaration, ty: Node) -> MethodDeclaration {
    m.output = Some(ty);
    m
}

fn ty(name: &str) -> Node {
    Node::named(name, &vec![])
}

fn result(of: &str) -> Node {
    Node::named("Result", &vec![ty(of)])
}

fn bytes(lifetime: &str, mutable: bool) -> Node {
    Node::reference(&Some(lifetime.to_string()), mutable, Node::tree(Kind::Bracket, vec![ty("u8")]))
}

fn receiver(lifetime: Option<&str>, mutable: bool) -> FnArg {
    FnArg::Receiver { reference: true, lifetime: lifetime.map(str::to_string), mutable }
}

fn by_value() -> FnArg {
    FnArg::Receiver { reference: false, lifetime: None, mutable: false }
}

fn param(name: &str, ty: Node) -> FnArg {
    FnArg::Typed {
        pattern: Pattern::Binding {
            by_ref: false,
            mutable: false,
            name: name.to_string(),
            rest: vec![],
        },
        ty,
    }
}

fn mut_param(name: &str, ty: Node) -> FnArg {
    FnArg::Typed {
        pattern: Pattern::Binding {
            by_ref: false,
            mutable: true,
            name: name.to_string(),
            rest: vec![],
        },
        ty,
    }
}

fn lifetime(name: &str) -> GenericParam {
    GenericParam {
        kind: ParamKind::Lifetime,
        name: name.to_string(),
        bounds: vec![],
        default: vec![],
    }
}

fn cloneable(name: &str) -> GenericParam {
    GenericParam {
        kind: ParamKind::Type,
        name: name.to_string(),
        bounds: vec![ty("Clone")],
        default: vec![],
    }
}

fn items(item: &InterfaceDeclaration) -> Vec<syn::Item> {
    let tokens = async_trait_ext(item).expect("the interface is valid");
    let file: syn::File = syn::parse_str(&render(&tokens)).expect("the output is a list of items");
    file.items
}

fn names(items: &[syn::Item]) -> Vec<String> {
    items
        .iter()
        .map(|item| match item {
            syn::Item::Trait(t) => format!("trait {}", t.ident),
            syn::Item::Struct(s) => format!("struct {}", s.ident),
            syn::Item::Type(t) => format!("type {}", t.ident),
            syn::Item::Impl(i) => match &i.trait_ {
                Some((_, path, _)) => {
                    format!("impl {}", path.segments.last().expect("a path has segments").ident)
                }
                None => "impl".to_string(),
            },
            _ => "other".to_string(),
        })
        .collect()
}

fn normal(source: &str) -> String {
    let file: syn::File = syn::parse_str(source).expect("the text is a list of items");
    quote::ToTokens::to_token_stream(&file).to_string()
}

fn read_until_body() -> Vec<Node> {
    vec![
        Node::ident("let"),
        Node::ident("mut"),
        Node::ident("b"),
        Node::punct("="),
        Node::tree(Kind::Bracket, vec![Node::literal("0")]),
        Node::punct(";"),
        Node::ident("while"),
        Node::punct("!"),
        Node::ident("buf"),
        Node::punct("."),
        Node::ident("is_empty"),
        Node::tree(Kind::Paren, vec![]),
        Node::tree(
            Kind::Brace,
            vec![
                Node::ident("self"),
                Node::punct("."),
                Node::ident("read"),
                Node::tree(
                    Kind::Paren,
                    vec![Node::punct("&"), Node::ident("mut"), Node::ident("b")],
                ),
                Node::punct("."),
                Node::ident("await"),
                Node::punct("?"),
                Node::punct(";"),
                Node::ident("break"),
                Node::punct(";"),
            ],
        ),
        Node::ident("Ok"),
        Node::tree(Kind::Paren, vec![Node::literal("0")]),
    ]
}

fn read(name: &str) -> InterfaceDeclaration {
    let read = generic(
        returning(
            method("read", vec![receiver(Some("a"), true), param("buf", bytes("a", true))]),
            result("usize"),
        ),
        vec![lifetime("a")],
    );
    let read_until = provided(
        generic(
            returning(
                method(
                    "read_until",
                    vec![
                        receiver(Some("a"), true),
                        param("byte", ty("u8")),
                        mut_param("buf", bytes("a", true)),
                    ],
                ),
                result("usize"),
            ),
            vec![lifetime("a")],
        ),
        read_until_body(),
    );
    let mut item = interface(name, vec![read, read_until]);
    item.attrs = vec![
        Node::punct("#"),
        Node::tree(
            Kind::Bracket,
            vec![Node::ident("allow"), Node::tree(Kind::Paren, vec![Node::ident("dead_code")])],
        ),
    ];
    item
}

#[test]
fn reader_with_static_dispatch() {
    let output = items(&read("ReadStatic"));
    assert_eq!(
        names(&output),
        vec![
            "trait ReadStatic",
            "struct ReadStaticRead",
            "impl Future",
            "type ReadStaticReadUntil",
            "trait ReadStaticExt",
            "impl ReadStaticExt",
        ]
    );
    let text = quote::ToTokens::to_token_stream(&output[5]).to_string();
    let expected = normal(
        "impl<__IMPL: ReadStatic> ReadStaticExt for __IMPL {
             fn read<'a>(&'a mut self, buf: &'a mut [u8]) -> ReadStaticRead<'a, Self> {
                 ReadStaticRead(self, buf)
             }
             fn read_until<'a>(&'a mut self, byte: u8, mut buf: &'a mut [u8]) -> ReadStaticReadUntil<'a, Self> {
                 async move {
                     {
                         let mut b = [0];
                         while !buf.is_empty() { self.read(&mut b).await?; break; }
                         Ok(0)
                     }
                 }
             }
         }",
    );
    assert_eq!(text, expected);
    let extension = quote::ToTokens::to_token_stream(&output[4]).to_string();
    assert_eq!(
        extension,
        normal(
            "#[allow(dead_code)]
             pub trait ReadStaticExt: ReadStatic + ::core::marker::Sized {
                 fn read<'a>(&'a mut self, buf: &'a mut [u8]) -> ReadStaticRead<'a, Self>;
                 fn read_until<'a>(&'a mut self, byte: u8, buf: &'a mut [u8]) -> ReadStaticReadUntil<'a, Self>;
             }"
        )
    );
}

#[test]
fn reader_with_dynamic_dispatch() {
    let output = items(&dynamic(read("ReadDynamic")));
    assert_eq!(
        names(&output),
        vec![
            "trait ReadDynamic",
            "struct ReadDynamicRead",
            "impl Future",
            "type ReadDynamicReadUntil",
            "trait ReadDynamicExt",
            "impl ReadDynamicExt",
        ]
    );
    let text = quote::ToTokens::to_token_stream(&output[5]).to_string();
    let expected = normal(
        "impl<__IMPL: ReadDynamic> ReadDynamicExt for __IMPL {
             fn read<'a>(&'a mut self, buf: &'a mut [u8]) -> ReadDynamicRead<'a> {
                 ReadDynamicRead(self, buf)
             }
             fn read_until<'a>(&'a mut self, byte: u8, buf: &'a mut [u8]) -> ReadDynamicReadUntil<'a> {
                 async fn fn_impl<'a>(this: &mut dyn ReadDynamicExt, byte: u8, mut buf: &'a mut [u8]) -> Result<usize> {
                     {
                         let mut b = [0];
                         while !buf.is_empty() { this.read(&mut b).await?; break; }
                         Ok(0)
                     }
                 }
                 fn_impl(self, byte, buf)
             }
         }",
    );
    assert_eq!(text, expected);
    let record = quote::ToTokens::to_token_stream(&output[1]).to_string();
    assert_eq!(
        record,
        normal(
            "#[doc = \" the future returned by [`ReadDynamicExt::read`]\"]
             pub struct ReadDynamicRead<'a>(&'a mut dyn ReadDynamic, &'a mut [u8]);"
        )
    );
}

#[test]
fn lock_returns_a_value() {
    let lock = interface(
        "Lock",
        vec![returning(method("lock", vec![receiver(None, false)]), result("LockGuard"))],
    );
    let output = items(&lock);
    assert_eq!(
        names(&output),
        vec!["trait Lock", "struct LockLock", "impl Future", "trait LockExt", "impl LockExt"]
    );
    assert_eq!(
        quote::ToTokens::to_token_stream(&output[0]).to_string(),
        normal(
            "pub trait Lock {
                 fn poll_lock(&self, ctx: &mut ::core::task::Context) -> ::core::task::Poll<Result<LockGuard>>;
             }"
        )
    );
    let protocol = quote::ToTokens::to_token_stream(&output[2]).to_string();
    assert!(protocol.contains("type Output = Result < LockGuard > ;"));
}

#[test]
fn many_shapes_of_methods() {
    let a_and_clone = || vec![lifetime("a"), cloneable("A")];
    let borrowed_a = || Node::reference(&Some("a".to_string()), false, ty("A"));
    let foo = interface(
        "Foo",
        vec![
            copy_unpin(method("method1", vec![by_value()])),
            method("method2", vec![receiver(None, false)]),
            method("method3", vec![receiver(None, true)]),
            method("method4", vec![]),
            copy_unpin(generic(
                method("method5", vec![by_value(), param("a", borrowed_a())]),
                a_and_clone(),
            )),
            generic(
                method("method6", vec![receiver(None, false), param("a", borrowed_a())]),
                a_and_clone(),
            ),
            generic(
                method("method7", vec![receiver(None, true), param("a", borrowed_a())]),
                a_and_clone(),
            ),
            generic(method("method8", vec![param("a", borrowed_a())]), a_and_clone()),
            copy_unpin(generic(method("method9", vec![by_value()]), vec![cloneable("A")])),
            generic(method("method12", vec![]), vec![cloneable("A")]),
            copy_unpin(returning(
                generic(method("method13", vec![by_value()]), vec![cloneable("A")]),
                ty("A"),
            )),
            returning(
                generic(method("method14", vec![receiver(None, false)]), vec![cloneable("A")]),
                ty("A"),
            ),
            returning(generic(method("method16", vec![]), vec![cloneable("A")]), ty("A")),
            generic(method("method18", vec![receiver(None, false)]), vec![lifetime("a")]),
            generic(method("method20", vec![]), vec![lifetime("a")]),
            sync(method("method21", vec![])),
            sync(generic(method("method22", vec![]), vec![lifetime("a")])),
        ],
    );
    let output = items(&foo);
    assert_eq!(output.len(), 1 + 2 * 15 + 2);
    let all: String = output
        .iter()
        .map(|i| quote::ToTokens::to_token_stream(i).to_string())
        .collect::<Vec<String>>()
        .join(" ");
    let expected = normal(
        "#[doc = \" the future returned by [`FooExt::method6`]\"]
         pub struct FooMethod6<'a, '__default_lifetime, A: Clone, __Self: Foo>(
             &'__default_lifetime __Self,
             &'a A
         ) where __Self: Foo;
         impl<'a, '__default_lifetime, A: Clone, __Self: Foo> ::core::future::Future
             for FooMethod6<'a, '__default_lifetime, A, __Self> where __Self: Foo {
             type Output = ();
             fn poll(mut self: ::core::pin::Pin<&mut Self>, cx: &mut ::core::task::Context) -> ::core::task::Poll<Self::Output> {
                 let this = &mut *self;
                 <__Self as Foo>::poll_method6::<A>(this.0.into(), this.1.into(), cx)
             }
         }",
    );
    assert!(all.contains(&expected));
    assert!(all.contains(&normal(
        "#[doc = \" the future returned by [`FooExt::method16`]\"]
         pub struct FooMethod16<A: Clone, __Self: Foo>(
             ::core::marker::PhantomData<*const A>,
             ::core::marker::PhantomData<*const __Self>
         ) where __Self: Foo;
         impl<A: Clone, __Self: Foo> ::core::future::Future for FooMethod16<A, __Self>
         where __Self: Foo {
             type Output = A;
             fn poll(mut self: ::core::pin::Pin<&mut Self>, cx: &mut ::core::task::Context) -> ::core::task::Poll<Self::Output> {
                 let this = &mut *self;
                 <__Self as Foo>::poll_method16::<A>(cx)
             }
         }"
    )));
    let lowered = quote::ToTokens::to_token_stream(&output[0]).to_string();
    assert!(lowered.contains("fn method21 () ;"));
    assert!(lowered.contains("fn method22 < 'a > () ;"));
    assert!(lowered.contains(
        "fn poll_method13 < A : Clone > (self , ctx : & mut :: core :: task :: Context) -> :: core :: task :: Poll < A > where Self : Copy + Unpin ;"
    ));
}

#[test]
fn interface_with_its_own_parameters() {
    let mut stream = interface(
        "Stream",
        vec![returning(
            method("next", vec![receiver(None, true)]),
            Node::named("Option", &vec![ty("T")]),
        )],
    );
    stream.generics.params = vec![lifetime("s"), cloneable("T")];
    let output = items(&dynamic(stream.clone()));
    let protocol = quote::ToTokens::to_token_stream(&output[2]).to_string();
    assert_eq!(
        protocol,
        normal(
            "impl<'s, '__default_lifetime, T: Clone> ::core::future::Future
                 for StreamNext<'s, '__default_lifetime, T> {
                 type Output = Option<T>;
                 fn poll(mut self: ::core::pin::Pin<&mut Self>, cx: &mut ::core::task::Context) -> ::core::task::Poll<Self::Output> {
                     let this = &mut *self;
                     Stream::<'s, T>::poll_next(this.0.into(), cx)
                 }
             }"
        )
    );
    let record = quote::ToTokens::to_token_stream(&output[1]).to_string();
    assert_eq!(
        record,
        normal(
            "#[doc = \" the future returned by [`StreamExt::next`]\"]
             pub struct StreamNext<'s, '__default_lifetime, T: Clone>(
                 &'__default_lifetime mut dyn Stream<'s, T>
             );"
        )
    );
    let output = items(&stream);
    let record = quote::ToTokens::to_token_stream(&output[1]).to_string();
    assert!(record.contains("__Self : Stream < 's , T >"));
}
