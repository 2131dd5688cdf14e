use func_wrap::item::parse_and_func_wrap_with;
use func_wrap::wrap::{func_wrap, WrappedFuncCall};
use proc_macro2::{TokenStream, TokenTree};
use quote::ToTokens;

fn ts(code: &str) -> TokenStream {
    code.parse::<TokenStream>().unwrap()
}

fn assert_tt_eq(tt1: TokenTree, tt2: TokenTree) {
    match (tt1, tt2) {
        (TokenTree::Group(g1), TokenTree::Group(g2)) => assert_token_stream_eq(g1.stream(), g2.stream()),
        (TokenTree::Ident(lhs), TokenTree::Ident(rhs)) => assert_eq!(lhs.to_string(), rhs.to_string()),
        (TokenTree::Punct(lhs), TokenTree::Punct(rhs)) => assert_eq!(lhs.as_char(), rhs.as_char()),
        (TokenTree::Literal(lhs), TokenTree::Literal(rhs)) => assert_eq!(lhs.to_string(), rhs.to_string()),
        _ => panic!("Not equal!"),
    }
}

fn assert_token_stream_eq(ts1: TokenStream, ts2: TokenStream) {
    let mut ts1 = ts1.into_iter();
    let mut ts2 = ts2.into_iter();
    loop {
        match (ts1.next(), ts2.next()) {
            (Some(tt1), Some(tt2)) => assert_tt_eq(tt1, tt2),
            (None, None) => return,
            _ => panic!("Not equal!"),
        }
    }
}

fn block_of(tokens: TokenStream) -> syn::Block {
    syn::Block {
        brace_token: Default::default(),
        stmts: vec![syn::Stmt::Expr(syn::Expr::Verbatim(tokens))],
    }
}

fn proc_macro(input: TokenStream) -> TokenStream {
    parse_and_func_wrap_with(
        input,
        |func: &mut syn::ImplItemMethod, wrapped_func_call: Option<&mut WrappedFuncCall<'_>>| {
            if let Some(wrapped_func_call) = wrapped_func_call {
                func.block = block_of(wrapped_func_call.to_token_stream());
                Ok(())
            } else {
                Err(syn::Error::new(
                    proc_macro2::Span::call_site(),
                    "Missing `#[proc_macro]` on the enscoping `trait` or `impl`",
                ))
            }
        },
    )
    .map_or_else(|err| err.to_compile_error(), |it| it.into_token_stream())
}

#[test]
fn missing_enscoping() {
    let input = ts("fn next (self: &'_ mut Self) -> Option<Self::Item> {}");

    assert_token_stream_eq(
        proc_macro(input),
        ts(r#"compile_error! { "Missing `#[proc_macro]` on the enscoping `trait` or `impl`" }"#),
    );
}

#[test]
fn tests_simple_fn() {
    let input = ts(r#"
        fn foo (_: (), second: (), arg_0: (), (x, ): (i32, ))
        {
            println!("foo")
        }
    "#);

    assert_token_stream_eq(
        proc_macro(input),
        ts(r#"
        fn foo (arg_0: (), second: (), arg_2: (), arg_3: (i32, ))
        {
            ({
                #[inline(always)]
                fn foo (_: (), second: (), arg_0: (), (x, ): (i32, ))
                {
                    println!("foo")
                }

                foo
            })(arg_0, second, arg_2, arg_3)
        }
    "#),
    );
}

#[test]
fn tests_default_method() {
    let input = ts(r#"
        trait Foo<T>
        where
            () : Copy,
        {
            fn foo (self, second: (), arg_0: (), (x, ): (i32, ))
            {
                println!("foo")
            }
        }
    "#);
    assert_token_stream_eq(
        proc_macro(input),
        ts(r#"
        trait Foo<T>
        where
            () : Copy,
        {
            fn foo (self, second: (), arg_2: (), arg_3: (i32, ))
            {
                ({
                    trait Helper<T> : Foo<T>
                    where
                        () : Copy,
                    {
                        #[inline(always)]
                        fn foo (self, second: (), arg_0: (), (x, ): (i32, ))
                        {
                            println!("foo")
                        }
                    }

                    impl<T, __Self : ?Sized + Foo<T>> Helper<T>
                        for __Self
                    where
                        () : Copy,
                    {}

                    <Self as Helper<T>>::foo
                })(self, second, arg_2, arg_3)
            }
        }
    "#),
    );
}

#[test]
fn tests_inherent() {
    let input = ts(r#"
        impl<T> Foo<T>
        where
            () : Copy,
        {
            fn foo (self: Self, second: (), arg_0: (), (x, ): (i32, ))
            {
                println!("foo")
            }
        }
    "#);
    assert_token_stream_eq(
        proc_macro(input),
        ts(r#"
        impl<T> Foo<T>
        where
            () : Copy,
        {
            fn foo (self: Self, second: (), arg_2: (), arg_3: (i32, ))
            {
                ({
                    trait Helper<T>
                    where
                        () : Copy,
                    {
                        fn foo (self: Self, _: (), _: (), _: (i32, ))
                        ;
                    }

                    impl<T> Helper<T>
                        for Foo<T>
                    where
                        () : Copy,
                    {
                        #[inline(always)]
                        fn foo (self: Self, second: (), arg_0: (), (x, ): (i32, ))
                        {
                            println!("foo")
                        }
                    }

                    <Foo<T> as Helper<T>>::foo
                })(self, second, arg_2, arg_3)
            }
        }
    "#),
    );
}

#[test]
fn tests_trait_for() {
    let input = ts(r#"
        impl<T, U> Trait<U> for Foo<T>
        where
            () : Copy,
        {
            fn foo (self, second: (), arg_0: (), (x, ): (i32, ))
            {
                println!("foo")
            }
        }
    "#);
    assert_token_stream_eq(
        proc_macro(input),
        ts(r#"
        impl<T, U> Trait<U> for Foo<T>
        where
            () : Copy,
        {
            fn foo (self, second: (), arg_2: (), arg_3: (i32, ))
            {
                ({
                    trait Helper<T, U> : Trait<U>
                    where
                        () : Copy,
                    {
                        fn foo (self, _: (), _: (), _: (i32, ))
                        ;
                    }

                    impl<T, U> Helper<T, U>
                        for Foo<T>
                    where
                        () : Copy,
                    {
                        #[inline(always)]
                        fn foo (self, second: (), arg_0: (), (x, ): (i32, ))
                        {
                            println!("foo")
                        }
                    }

                    <Foo<T> as Helper<T, U>>::foo
                })(self, second, arg_2, arg_3)
            }
        }
    "#),
    );
}

fn wrap_free_fn(input: TokenStream) -> TokenStream {
    let mut input: syn::ItemFn = match syn::parse2(input) {
        Ok(it) => it,
        Err(err) => panic!("{}", err),
    };
    let empty = Box::new(syn::Block { brace_token: Default::default(), stmts: vec![] });
    let block = *std::mem::replace(&mut input.block, empty);
    let wrapped_func_call = func_wrap(&mut input.sig, block, None).unwrap();
    input.block = Box::new(block_of(wrapped_func_call.to_token_stream()));
    input.into_token_stream()
}


#[test]
fn main_simple_fn() {
    let input = ts(r#"
        fn foo (_: (), second: (), arg_0: (), (x, ): (i32, ))
        {
            println!("foo")
        }
    "#);
    assert_token_stream_eq(
        wrap_free_fn(input),
        ts(r#"
        fn foo (arg_0: (), second: (), arg_2: (), arg_3: (i32, ))
        {
            ({
                #[inline(always)]
                fn foo (_: (), second: (), arg_0: (), (x, ): (i32, ))
                {
                    println!("foo")
                }

                foo
            })(arg_0, second, arg_2, arg_3)
        }
    "#),
    );
}

