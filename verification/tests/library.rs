use func_wrap::item::{attr, func_wrap_item, parse_and_func_wrap_with};
use func_wrap::names::{make_arg_name, starts_with_arg_prefix};
use func_wrap::signature::{blank_signature, is_self_name};
use func_wrap::wrap::{func_wrap, ImplOrTrait, WrappedFuncCall};
use proc_macro2::{TokenStream, TokenTree};
use quote::ToTokens;

fn ts(code: &str) -> TokenStream {
    code.parse::<TokenStream>().unwrap()
}

fn same_tree(tt1: TokenTree, tt2: TokenTree) -> bool {
    match (tt1, tt2) {
        (TokenTree::Group(g1), TokenTree::Group(g2)) => {
            g1.delimiter() == g2.delimiter() && same_stream(g1.stream(), g2.stream())
        },
        (TokenTree::Ident(lhs), TokenTree::Ident(rhs)) => lhs.to_string() == rhs.to_string(),
        (TokenTree::Punct(lhs), TokenTree::Punct(rhs)) => lhs.as_char() == rhs.as_char(),
        (TokenTree::Literal(lhs), TokenTree::Literal(rhs)) => lhs.to_string() == rhs.to_string(),
        _ => false,
    }
}

fn same_stream(ts1: TokenStream, ts2: TokenStream) -> bool {
    let v1: Vec<TokenTree> = ts1.into_iter().collect();
    let v2: Vec<TokenTree> = ts2.into_iter().collect();
    v1.len() == v2.len() && v1.into_iter().zip(v2).all(|(a, b)| same_tree(a, b))
}

fn assert_same(actual: TokenStream, expected: &str) {
    assert!(
        same_stream(actual.clone(), ts(expected)),
        "got `{}`, expected `{}`",
        actual,
        expected
    );
}

fn sig(code: &str) -> syn::Signature {
    syn::parse2::<syn::Signature>(ts(code)).unwrap()
}

fn empty_block() -> syn::Block {
    syn::Block { brace_token: Default::default(), stmts: vec![] }
}

fn arg_names(w: &WrappedFuncCall<'_>) -> Vec<String> {
    w.call_site_args.iter().map(|e| e.to_token_stream().to_string()).collect()
}

fn body_callback(
    func: &mut syn::ImplItemMethod,
    wrapped: Option<&mut WrappedFuncCall<'_>>,
) -> syn::Result<()> {
    match wrapped {
        Some(w) => {
            let stmt = syn::Stmt::Expr(syn::Expr::Verbatim(w.to_token_stream()));
            func.block = syn::Block { brace_token: Default::default(), stmts: vec![stmt] };
            Ok(())
        },
        None => Err(syn::Error::new(proc_macro2::Span::call_site(), "no scope")),
    }
}

fn expand(code: &str) -> TokenStream {
    parse_and_func_wrap_with(ts(code), body_callback)
        .map_or_else(|err| err.to_compile_error(), |it| it.into_token_stream())
}

#[test]
fn arg_names_are_decimal() {
    assert_eq!(make_arg_name(0), "arg_0");
    assert_eq!(make_arg_name(9), "arg_9");
    assert_eq!(make_arg_name(10), "arg_10");
    assert_eq!(make_arg_name(123), "arg_123");
    assert_eq!(make_arg_name(4_000_000_007), "arg_4000000007");
}

#[test]
fn arg_prefix_detection() {
    assert!(starts_with_arg_prefix("arg_x"));
    assert!(starts_with_arg_prefix("arg_"));
    assert!(starts_with_arg_prefix("arg_12"));
    assert!(!starts_with_arg_prefix("arg"));
    assert!(!starts_with_arg_prefix("argx_"));
    assert!(!starts_with_arg_prefix("r#arg_x"));
    assert!(!starts_with_arg_prefix(""));
    assert!(!starts_with_arg_prefix("Arg_0"));
}

#[test]
fn self_name_detection() {
    assert!(is_self_name("self"));
    assert!(!is_self_name("Self"));
    assert!(!is_self_name("selfish"));
    assert!(!is_self_name("sel"));
}

#[test]
fn self_parameter_outside_scope_stops_wrapping() {
    let mut s = sig("fn f(arg_7: u8, (a, b): (u8, u8), self: Box<Self>, arg_9: ())");
    let res = func_wrap(&mut s, empty_block(), None);
    assert!(res.is_none());
    // the parameters before `self` were rewritten, the others were not
    assert_same(s.to_token_stream(), "fn f(arg_0: u8, arg_1: (u8, u8), self: Box<Self>, arg_9: ())");
}

#[test]
fn self_parameter_in_scope_is_forwarded() {
    let generics = syn::Generics::default();
    let name = proc_macro2::Ident::new("Tr", proc_macro2::Span::call_site());
    let scope = Some((&generics, ImplOrTrait::DefaultMethod { trait_name: &name }));
    let mut s = sig("fn f(self: Box<Self>, mut x: u8, arg_5: u8, _: u8)");
    let w = func_wrap(&mut s, empty_block(), scope).unwrap();
    assert_eq!(arg_names(&w), vec!["self", "x", "arg_2", "arg_3"]);
    assert_same(s.to_token_stream(), "fn f(self: Box<Self>, mut x: u8, arg_2: u8, arg_3: u8)");
    assert_same(w.sig.to_token_stream(), "fn f(self: Box<Self>, mut x: u8, arg_5: u8, _: u8)");
}

#[test]
fn receivers_are_forwarded_as_self() {
    let generics = syn::Generics::default();
    let ty: syn::Type = syn::parse2(ts("Foo")).unwrap();
    let scope = Some((&generics, ImplOrTrait::ImplMethod { implementor: &ty, trait_name: None }));
    let mut s = sig("fn f(&mut self, y: u8)");
    let w = func_wrap(&mut s, empty_block(), scope).unwrap();
    assert_eq!(arg_names(&w), vec!["self", "y"]);
}

#[test]
fn wrapping_twice_changes_nothing_more() {
    let mut s = sig("fn f(_: u8, arg_0: u8, (a, b): (u8, u8), name: u8, arg_x: u8)");
    let w1 = func_wrap(&mut s, empty_block(), None).unwrap();
    let once = s.to_token_stream().to_string();
    let w2 = func_wrap(&mut s, empty_block(), None).unwrap();
    assert_eq!(s.to_token_stream().to_string(), once);
    assert_eq!(arg_names(&w1), arg_names(&w2));
    assert_eq!(arg_names(&w1), vec!["arg_0", "arg_1", "arg_2", "name", "arg_4"]);
}

#[test]
fn given_names_do_not_collide() {
    let mut s = sig("fn f(arg_1: u8, _: u8, arg_0: u8)");
    let w = func_wrap(&mut s, empty_block(), None).unwrap();
    let names = arg_names(&w);
    assert_eq!(names, vec!["arg_0", "arg_1", "arg_2"]);
}

#[test]
fn positions_past_nine() {
    let params: Vec<String> = (0..12).map(|_| "_: u8".to_string()).collect();
    let mut s = sig(&format!("fn f({})", params.join(", ")));
    let w = func_wrap(&mut s, empty_block(), None).unwrap();
    let names = arg_names(&w);
    assert_eq!(names[10], "arg_10");
    assert_eq!(names[11], "arg_11");
}

#[test]
fn raw_identifiers_are_kept() {
    let mut s = sig("fn f(r#type: u8, r#arg_x: u8)");
    let w = func_wrap(&mut s, empty_block(), None).unwrap();
    assert_eq!(arg_names(&w), vec!["r#type", "r#arg_x"]);
}

#[test]
fn blank_signature_keeps_self_only() {
    let s = sig("fn f(self: Box<Self>, a: u8, _: (), mut b: u8, (c, d): (u8, u8))");
    let blank = blank_signature(&s);
    assert_same(blank.to_token_stream(), "fn f(self: Box<Self>, _: u8, _: (), _: u8, _: (u8, u8))");
    let s = sig("fn g(&self, a: u8)");
    assert_same(blank_signature(&s).to_token_stream(), "fn g(&self, _: u8)");
}

#[test]
fn function_without_parameters() {
    assert_same(expand("fn f() {}"), "fn f() { ({ #[inline(always)] fn f() {} f })() }");
}

#[test]
fn generic_and_async_functions() {
    assert_same(
        expand("async fn bar<T>(x: T) -> T { x }"),
        "async fn bar<T>(x: T) -> T { ({ #[inline(always)] async fn bar<T>(x: T) -> T { x } bar })(x) }",
    );
}

#[test]
fn default_method_of_trait_without_generics() {
    assert_same(
        expand("trait Foo { fn f(&self) {} fn g(&self); const C: u8; }"),
        "trait Foo {
            fn f(&self) {
                ({
                    trait Helper : Foo { #[inline(always)] fn f(&self) {} }
                    impl<__Self : ?Sized + Foo> Helper for __Self {}
                    <Self as Helper>::f
                })(self)
            }
            fn g(&self);
            const C: u8;
        }",
    );
}

#[test]
fn impl_items_other_than_methods_are_kept() {
    assert_same(
        expand("impl Foo { const C: u8 = 1; fn f() {} }"),
        "impl Foo {
            const C: u8 = 1;
            fn f() {
                ({
                    trait Helper { fn f(); }
                    impl Helper for Foo { #[inline(always)] fn f() {} }
                    <Foo as Helper>::f
                })()
            }
        }",
    );
}

#[test]
fn unexpected_item_is_an_error() {
    assert_same(
        expand("struct S;"),
        r#"compile_error! { "Expected an `fn` item, a `trait` definition, or an `impl` block." }"#,
    );
}

#[test]
fn unparsable_input_is_an_error() {
    let res = parse_and_func_wrap_with(ts("fn"), body_callback);
    assert!(res.is_err());
}

#[test]
fn callback_error_is_returned() {
    let res = parse_and_func_wrap_with(
        ts("trait T { fn a(&self) {} fn b(&self) {} }"),
        |_: &mut syn::ImplItemMethod, _: Option<&mut WrappedFuncCall<'_>>| -> syn::Result<()> {
            Err(syn::Error::new(proc_macro2::Span::call_site(), "refused"))
        },
    );
    match res {
        Err(e) => assert_eq!(e.to_string(), "refused"),
        Ok(_) => panic!("expected the callback's error"),
    }
}

#[test]
fn callback_sees_each_method_once() {
    let mut seen: Vec<(String, bool)> = Vec::new();
    let res = parse_and_func_wrap_with(
        ts("impl S { fn a(&self) {} const C: u8 = 0; fn b(self: Self, x: u8) {} }"),
        |func: &mut syn::ImplItemMethod, w: Option<&mut WrappedFuncCall<'_>>| -> syn::Result<()> {
            seen.push((func.sig.ident.to_string(), w.is_some()));
            Ok(())
        },
    );
    assert!(res.is_ok());
    assert_eq!(seen, vec![("a".to_string(), true), ("b".to_string(), true)]);

    let mut seen: Vec<bool> = Vec::new();
    let res = parse_and_func_wrap_with(
        ts("fn free(self: Self) {}"),
        |_: &mut syn::ImplItemMethod, w: Option<&mut WrappedFuncCall<'_>>| -> syn::Result<()> {
            seen.push(w.is_some());
            Ok(())
        },
    );
    assert!(res.is_ok());
    assert_eq!(seen, vec![false]);
}

#[test]
fn wrapping_keeps_the_kind_of_item() {
    let item: syn::Item = syn::parse2(ts("impl S { fn a(&self) {} }")).unwrap();
    let res = func_wrap_item(item, body_callback).unwrap();
    assert!(matches!(res, syn::Item::Impl(_)));
    let item: syn::Item = syn::parse2(ts("enum E {}")).unwrap();
    assert!(func_wrap_item(item, body_callback).is_err());
}

#[test]
fn attr_refuses_arguments() {
    let out = attr(ts("x"), ts("fn f() {}"));
    assert_same(out, r#"compile_error! { "unexpected token" }"#);
}

#[test]
fn attr_on_free_function_with_self() {
    let out = attr(TokenStream::new(), ts("fn f(self: Self) {}"));
    assert_same(out, r#"compile_error! { "Missing `#[attr]` on the enscoping `trait` or `impl`" }"#);
}

#[test]
fn attr_on_trait() {
    let out = attr(TokenStream::new(), ts("trait Tr<T> { fn m(self, (a, b): (T, T)) {} }"));
    assert_same(
        out,
        "trait Tr<T> {
            fn m(self, arg_1: (T, T)) {
                ({
                    trait Helper<T> : Tr<T> { #[inline(always)] fn m(self, (a, b): (T, T)) {} }
                    impl<T, __Self : ?Sized + Tr<T>> Helper<T> for __Self {}
                    <Self as Helper<T>>::m
                })(self, arg_1)
            }
        }",
    );
}

#[test]
fn expansion_spacing_of_path_separator() {
    let out = expand("impl S { fn f() {} }");
    // the `::` before the function's name is a joint `:` followed by a lone one
    let text = out.to_string();
    assert!(text.contains("> :: f"), "{}", text);
    assert!(!text.contains(": : f"), "{}", text);
}

#[test]
fn attributes_and_visibility_are_kept() {
    assert_same(
        expand("#[must_use] pub fn f() {}"),
        "#[must_use] pub fn f() { ({ #[inline(always)] fn f() {} f })() }",
    );
    assert_same(
        expand("impl S { #[inline] pub fn a(&self) {} }"),
        "impl S {
            #[inline] pub fn a(&self) {
                ({
                    trait Helper { fn a(&self); }
                    impl Helper for S { #[inline(always)] fn a(&self) {} }
                    <S as Helper>::a
                })(self)
            }
        }",
    );
}

#[test]
fn crate_root_exports() {
    let mut s = sig("fn f(_: u8)");
    let w = func_wrap::func_wrap(&mut s, empty_block(), None).unwrap();
    let _: &func_wrap::WrappedFuncCall<'_> = &w;
    let scope: Option<func_wrap::ImplOrTrait<'_>> = None;
    assert!(scope.is_none());
    assert!(func_wrap::parse_and_func_wrap_with(ts("fn g() {}"), body_callback).is_ok());
}

#[test]
fn renaming_keeps_binding_modes() {
    let mut s = sig("fn f(mut arg_9: u8, ref arg_x: u8, y: u8, _: u8)");
    let w = func_wrap(&mut s, empty_block(), None).unwrap();
    assert_same(s.to_token_stream(), "fn f(mut arg_0: u8, ref arg_1: u8, y: u8, arg_3: u8)");
    assert_eq!(arg_names(&w), vec!["arg_0", "arg_1", "y", "arg_3"]);
}

#[test]
fn trait_method_attributes_are_kept() {
    assert_same(
        expand("trait T { #[must_use] fn f(&self) -> u8 { 0 } fn g(&self) -> u8; }"),
        "trait T {
            #[must_use] fn f(&self) -> u8 {
                ({
                    trait Helper : T { #[inline(always)] fn f(&self) -> u8 { 0 } }
                    impl<__Self : ?Sized + T> Helper for __Self {}
                    <Self as Helper>::f
                })(self)
            }
            fn g(&self) -> u8;
        }",
    );
}

#[test]
fn attr_reports_each_error_as_it_is() {
    let out = attr(TokenStream::new(), ts("enum E {}"));
    assert_same(
        out,
        r#"compile_error! { "Expected an `fn` item, a `trait` definition, or an `impl` block." }"#,
    );
    let expected = syn::parse2::<syn::Item>(ts("1 + 1")).unwrap_err().to_compile_error();
    let out = attr(TokenStream::new(), ts("1 + 1"));
    assert_eq!(out.to_string(), expected.to_string());
}
