//! The tokens that a wrapped function call expands to.
//!
//! The expansion is an immediately called block that defines a copy of the
//! function and evaluates to it: `({ ...; f })(arg_0, arg_1, ...)`. Outside
//! of a trait or an `impl` block the copy is a nested function; for a default
//! method, a helper trait with the copy as its default method, implemented
//! for every implementor of the trait; for a method of an `impl` block, a
//! helper trait declaring the method, implemented by the copy.

use vstd::prelude::*;
use crate::errors::{error_stream, is_error_report};
use crate::signature::{
    blank_arg, blank_signature, call_name, fn_name, kept_by_blanking, sig_args, sig_inputs, sig_name, sig_outline, sig_stream,
    sig_tokens, ArgShape,
};
use crate::tokens::{
    ident_text, is_plain_ident, stream_trees, tok_ident, tok_path_sep, tok_punct, ts_append,
    ts_clone, ts_new, ts_push_group, ts_push_ident, ts_push_punct, ts_push_syn_ident, Delim,
    TokTree,
};
use crate::wrap::{
    block_stream, block_tokens, expr_stream, expr_tokens, path_stream, path_tokens, type_stream,
    type_tokens, ImplOrTrait, WrappedFuncCall,
};

verus! {

#[verifier::external_type_specification]
#[verifier::external_body]
pub struct ExGenericParam(syn::GenericParam);

/// The three parts of a generics list, as `Generics::split_for_impl` gives
/// them: the parameters to introduce (`<T: Bound>`), the arguments to feed
/// them (`<T>`) and the `where` clause.
pub struct SplitGenerics {
    pub intro: proc_macro2::TokenStream,
    pub feed: proc_macro2::TokenStream,
    pub where_clause: proc_macro2::TokenStream,
}

/// `SplitGenerics` as token trees.
pub struct SplitTrees {
    pub intro: Seq<TokTree>,
    pub feed: Seq<TokTree>,
    pub where_clause: Seq<TokTree>,
}

impl SplitGenerics {
    pub open spec fn trees(&self) -> SplitTrees {
        SplitTrees {
            intro: stream_trees(self.intro),
            feed: stream_trees(self.feed),
            where_clause: stream_trees(self.where_clause),
        }
    }
}

/// What `syn::parse2::<GenericParam>` makes of a token stream: `None` where
/// the tokens are not one generic parameter.
pub uninterp spec fn parsed_generic_param(tokens: proc_macro2::TokenStream) -> Option<syn::GenericParam>;

/// The generics with one more parameter pushed after the others, as
/// `Punctuated::push` on the parameters gives them.
pub uninterp spec fn generics_with_param(g: syn::Generics, param: syn::GenericParam) -> syn::Generics;

/// The token trees of each expression, in order.
pub open spec fn args_trees(args: Seq<syn::Expr>) -> Seq<Seq<TokTree>> {
    args.map_values(|e: syn::Expr| expr_tokens(e))
}

/// Token sequences separated by commas, with no trailing comma.
pub open spec fn comma_join(parts: Seq<Seq<TokTree>>) -> Seq<TokTree>
    decreases parts.len(),
{
    if parts.len() == 0 {
        Seq::empty()
    } else if parts.len() == 1 {
        parts[0]
    } else {
        comma_join(parts.drop_last()) + seq![tok_punct(',')] + parts.last()
    }
}

/// Identifiers separated by commas, with no trailing comma.
pub open spec fn comma_list(names: Seq<Seq<char>>) -> Seq<TokTree>
    decreases names.len(),
{
    if names.len() == 0 {
        Seq::empty()
    } else if names.len() == 1 {
        seq![tok_ident(names[0])]
    } else {
        comma_list(names.drop_last()) + seq![tok_punct(','), tok_ident(names.last())]
    }
}

/// `#[inline(always)]`.
pub open spec fn inline_always() -> Seq<TokTree> {
    seq![
        tok_punct('#'),
        TokTree::Group(
            Delim::Bracket,
            seq![tok_ident("inline"@), TokTree::Group(Delim::Paren, seq![tok_ident("always"@)])],
        ),
    ]
}

/// `({ callee })(args)`: a block that evaluates to a function, called with
/// the arguments in order.
pub open spec fn call_expansion(callee: Seq<TokTree>, args: Seq<Seq<TokTree>>) -> Seq<TokTree> {
    seq![
        TokTree::Group(Delim::Paren, seq![TokTree::Group(Delim::Brace, callee)]),
        TokTree::Group(Delim::Paren, comma_join(args)),
    ]
}

/// Outside of a trait or an `impl` block: `#[inline(always)] sig block fname`.
pub open spec fn plain_callee(sig: Seq<TokTree>, block: Seq<TokTree>, fname: Seq<char>) -> Seq<TokTree> {
    inline_always() + sig + block + seq![tok_ident(fname)]
}

/// `<self_ty as Helper feed>::fname`.
pub open spec fn helper_path(self_ty: Seq<TokTree>, feed: Seq<TokTree>, fname: Seq<char>) -> Seq<TokTree> {
    seq![tok_punct('<')] + self_ty + seq![tok_ident("as"@), tok_ident("Helper"@)] + feed
        + seq![tok_punct('>')] + tok_path_sep() + seq![tok_ident(fname)]
}

/// The extra parameter of the helper's blanket impl: `__Self: ?Sized + Trait feed`.
pub open spec fn self_bound(trait_name: Seq<char>, feed: Seq<TokTree>) -> Seq<TokTree> {
    seq![
        tok_ident("__Self"@),
        tok_punct(':'),
        tok_punct('?'),
        tok_ident("Sized"@),
        tok_punct('+'),
        tok_ident(trait_name),
    ] + feed
}

/// For a default method of trait `trait_name`: a helper trait that extends
/// it, with the copy as its default method, a blanket impl of the helper for
/// every implementor (`impl_generics` introduces `__Self` after the trait's
/// own parameters), and the path to the copy through `Self`.
pub open spec fn default_method_callee(
    g: SplitTrees,
    impl_generics: Seq<TokTree>,
    trait_name: Seq<char>,
    sig: Seq<TokTree>,
    block: Seq<TokTree>,
    fname: Seq<char>,
) -> Seq<TokTree> {
    seq![tok_ident("trait"@), tok_ident("Helper"@)] + g.intro + seq![
        tok_punct(':'),
        tok_ident(trait_name),
    ] + g.feed + g.where_clause + seq![TokTree::Group(Delim::Brace, inline_always() + sig + block)]
        + seq![tok_ident("impl"@)] + impl_generics + seq![tok_ident("Helper"@)] + g.feed + seq![
        tok_ident("for"@),
        tok_ident("__Self"@),
    ] + g.where_clause + seq![TokTree::Group(Delim::Brace, Seq::empty())] + helper_path(
        seq![tok_ident("Self"@)],
        g.feed,
        fname,
    )
}

/// `: Trait` when the `impl` block implements a trait, nothing for an inherent impl.
pub open spec fn super_trait(trait_path: Option<Seq<TokTree>>) -> Seq<TokTree> {
    match trait_path {
        Some(p) => seq![tok_punct(':')] + p,
        None => Seq::empty(),
    }
}

/// For a method of an `impl` block: a helper trait that declares the method
/// (with the parameter patterns blanked), an impl of it for the implementor
/// whose method is the copy, and the path to the copy through the implementor.
pub open spec fn impl_method_callee(
    g: SplitTrees,
    trait_path: Option<Seq<TokTree>>,
    blank_sig: Seq<TokTree>,
    implementor: Seq<TokTree>,
    sig: Seq<TokTree>,
    block: Seq<TokTree>,
    fname: Seq<char>,
) -> Seq<TokTree> {
    seq![tok_ident("trait"@), tok_ident("Helper"@)] + g.intro + super_trait(trait_path)
        + g.where_clause + seq![TokTree::Group(Delim::Brace, blank_sig + seq![tok_punct(';')])]
        + seq![tok_ident("impl"@)] + g.intro + seq![tok_ident("Helper"@)] + g.feed + seq![
        tok_ident("for"@),
    ] + implementor + g.where_clause + seq![
        TokTree::Group(Delim::Brace, inline_always() + sig + block),
    ] + helper_path(implementor, g.feed, fname)
}

/// Appends a copy of the trees of `x`.
fn append_copy(ts: &mut proc_macro2::TokenStream, x: &proc_macro2::TokenStream)
    ensures
        stream_trees(*final(ts)) == stream_trees(*old(ts)) + stream_trees(*x),
{
    ts_append(ts, ts_clone(x));
}

fn push_word(ts: &mut proc_macro2::TokenStream, word: &str)
    requires
        is_plain_ident(word@),
    ensures
        stream_trees(*final(ts)) == stream_trees(*old(ts)) + seq![tok_ident(word@)],
{
    ts_push_ident(ts, word);
}

fn push_alone(ts: &mut proc_macro2::TokenStream, c: char)
    requires
        crate::tokens::is_punct_char(c),
    ensures
        stream_trees(*final(ts)) == stream_trees(*old(ts)) + seq![tok_punct(c)],
{
    ts_push_punct(ts, c, false);
}

/// Appends `#[inline(always)]`.
fn push_inline_always(ts: &mut proc_macro2::TokenStream)
    ensures
        stream_trees(*final(ts)) == stream_trees(*old(ts)) + inline_always(),
{
    proof {
        reveal_strlit("inline");
        reveal_strlit("always");
    }
    let mut always = ts_new();
    ts_push_ident(&mut always, "always");
    let mut attr = ts_new();
    ts_push_ident(&mut attr, "inline");
    assert(stream_trees(always) =~= seq![tok_ident("always"@)]);
    ts_push_group(&mut attr, Delim::Paren, always);
    assert(stream_trees(attr) =~= seq![
        tok_ident("inline"@),
        TokTree::Group(Delim::Paren, seq![tok_ident("always"@)]),
    ]);
    ts_push_punct(ts, '#', false);
    ts_push_group(ts, Delim::Bracket, attr);
    assert(stream_trees(*ts) =~= stream_trees(*old(ts)) + inline_always());
}

/// The expressions, separated by commas.
pub fn comma_separated(args: &Vec<syn::Expr>) -> (res: proc_macro2::TokenStream)
    ensures
        stream_trees(res) == comma_join(args_trees(args@)),
{
    let mut ts = ts_new();
    let mut i: usize = 0;
    while i < args.len()
        invariant
            i <= args.len(),
            stream_trees(ts) == comma_join(args_trees(args@.take(i as int))),
        decreases args.len() - i,
    {
        let ghost before = args@.take(i as int);
        let ghost after = args@.take(i + 1);
        assert(after.drop_last() =~= before);
        assert(args_trees(after).drop_last() =~= args_trees(before));
        if i > 0 {
            ts_push_punct(&mut ts, ',', false);
        }
        ts_append(&mut ts, expr_stream(&args[i]));
        assert(stream_trees(ts) =~= comma_join(args_trees(after)));
        i += 1;
    }
    assert(args@.take(args.len() as int) =~= args@);
    ts
}

/// `({ callee })(args)`.
pub fn call_with_args(callee: proc_macro2::TokenStream, args: &Vec<syn::Expr>) -> (res:
    proc_macro2::TokenStream)
    ensures
        stream_trees(res) == call_expansion(stream_trees(callee), args_trees(args@)),
{
    let mut braced = ts_new();
    ts_push_group(&mut braced, Delim::Brace, callee);
    let mut res = ts_new();
    ts_push_group(&mut res, Delim::Paren, braced);
    let list = comma_separated(args);
    ts_push_group(&mut res, Delim::Paren, list);
    assert(stream_trees(res) =~= call_expansion(stream_trees(callee), args_trees(args@)));
    res
}

/// Appends `<self_ty as Helper feed>::fname`.
fn push_helper_path(
    ts: &mut proc_macro2::TokenStream,
    self_ty: &proc_macro2::TokenStream,
    feed: &proc_macro2::TokenStream,
    fname: &proc_macro2::Ident,
)
    ensures
        stream_trees(*final(ts)) == stream_trees(*old(ts)) + helper_path(
            stream_trees(*self_ty),
            stream_trees(*feed),
            ident_text(*fname),
        ),
{
    proof {
        reveal_strlit("as");
        reveal_strlit("Helper");
    }
    let ghost start = stream_trees(*ts);
    push_alone(ts, '<');
    append_copy(ts, self_ty);
    push_word(ts, "as");
    push_word(ts, "Helper");
    append_copy(ts, feed);
    push_alone(ts, '>');
    ts_push_punct(ts, ':', true);
    ts_push_punct(ts, ':', false);
    ts_push_syn_ident(ts, fname);
    assert(stream_trees(*ts) =~= start + helper_path(
        stream_trees(*self_ty),
        stream_trees(*feed),
        ident_text(*fname),
    ));
}

/// The expansion outside of a trait or an `impl` block:
/// `({ #[inline(always)] sig block fname })(args)`.
pub fn plain_expansion(
    sig: &proc_macro2::TokenStream,
    block: &proc_macro2::TokenStream,
    fname: &proc_macro2::Ident,
    args: &Vec<syn::Expr>,
) -> (res: proc_macro2::TokenStream)
    ensures
        stream_trees(res) == call_expansion(
            plain_callee(stream_trees(*sig), stream_trees(*block), ident_text(*fname)),
            args_trees(args@),
        ),
{
    let mut callee = ts_new();
    push_inline_always(&mut callee);
    append_copy(&mut callee, sig);
    append_copy(&mut callee, block);
    ts_push_syn_ident(&mut callee, fname);
    assert(stream_trees(callee) =~= plain_callee(
        stream_trees(*sig),
        stream_trees(*block),
        ident_text(*fname),
    ));
    call_with_args(callee, args)
}

/// The helper's extra parameter: `__Self: ?Sized + trait_name feed`.
pub fn self_bound_tokens(trait_name: &proc_macro2::Ident, feed: &proc_macro2::TokenStream) -> (res:
    proc_macro2::TokenStream)
    ensures
        stream_trees(res) == self_bound(ident_text(*trait_name), stream_trees(*feed)),
{
    proof {
        reveal_strlit("__Self");
        reveal_strlit("Sized");
    }
    let mut ts = ts_new();
    push_word(&mut ts, "__Self");
    push_alone(&mut ts, ':');
    push_alone(&mut ts, '?');
    push_word(&mut ts, "Sized");
    push_alone(&mut ts, '+');
    ts_push_syn_ident(&mut ts, trait_name);
    append_copy(&mut ts, feed);
    assert(stream_trees(ts) =~= self_bound(ident_text(*trait_name), stream_trees(*feed)));
    ts
}

/// The expansion for a default method of the trait `trait_name`.
pub fn default_method_expansion(
    g: &SplitGenerics,
    impl_generics: &proc_macro2::TokenStream,
    trait_name: &proc_macro2::Ident,
    sig: &proc_macro2::TokenStream,
    block: &proc_macro2::TokenStream,
    fname: &proc_macro2::Ident,
    args: &Vec<syn::Expr>,
) -> (res: proc_macro2::TokenStream)
    ensures
        stream_trees(res) == call_expansion(
            default_method_callee(
                g.trees(),
                stream_trees(*impl_generics),
                ident_text(*trait_name),
                stream_trees(*sig),
                stream_trees(*block),
                ident_text(*fname),
            ),
            args_trees(args@),
        ),
{
    proof {
        reveal_strlit("trait");
        reveal_strlit("Helper");
        reveal_strlit("impl");
        reveal_strlit("for");
        reveal_strlit("__Self");
        reveal_strlit("Self");
    }
    let mut body = ts_new();
    push_inline_always(&mut body);
    append_copy(&mut body, sig);
    append_copy(&mut body, block);

    let mut callee = ts_new();
    push_word(&mut callee, "trait");
    push_word(&mut callee, "Helper");
    append_copy(&mut callee, &g.intro);
    push_alone(&mut callee, ':');
    ts_push_syn_ident(&mut callee, trait_name);
    append_copy(&mut callee, &g.feed);
    append_copy(&mut callee, &g.where_clause);
    ts_push_group(&mut callee, Delim::Brace, body);

    push_word(&mut callee, "impl");
    append_copy(&mut callee, impl_generics);
    push_word(&mut callee, "Helper");
    append_copy(&mut callee, &g.feed);
    push_word(&mut callee, "for");
    push_word(&mut callee, "__Self");
    append_copy(&mut callee, &g.where_clause);
    ts_push_group(&mut callee, Delim::Brace, ts_new());

    let mut self_ty = ts_new();
    push_word(&mut self_ty, "Self");
    push_helper_path(&mut callee, &self_ty, &g.feed, fname);
    assert(stream_trees(callee) =~= default_method_callee(
        g.trees(),
        stream_trees(*impl_generics),
        ident_text(*trait_name),
        stream_trees(*sig),
        stream_trees(*block),
        ident_text(*fname),
    ));
    call_with_args(callee, args)
}

/// The expansion for a method of an `impl` block whose self type is
/// `implementor` and whose trait, if any, is `trait_path`.
pub fn impl_method_expansion(
    g: &SplitGenerics,
    trait_path: &Option<proc_macro2::TokenStream>,
    blank_sig: &proc_macro2::TokenStream,
    implementor: &proc_macro2::TokenStream,
    sig: &proc_macro2::TokenStream,
    block: &proc_macro2::TokenStream,
    fname: &proc_macro2::Ident,
    args: &Vec<syn::Expr>,
) -> (res: proc_macro2::TokenStream)
    ensures
        stream_trees(res) == call_expansion(
            impl_method_callee(
                g.trees(),
                match trait_path {
                    Some(p) => Some(stream_trees(*p)),
                    None => None,
                },
                stream_trees(*blank_sig),
                stream_trees(*implementor),
                stream_trees(*sig),
                stream_trees(*block),
                ident_text(*fname),
            ),
            args_trees(args@),
        ),
{
    proof {
        reveal_strlit("trait");
        reveal_strlit("Helper");
        reveal_strlit("impl");
        reveal_strlit("for");
    }
    let ghost path_trees = match trait_path {
        Some(p) => Some(stream_trees(*p)),
        None => None,
    };
    let mut decl = ts_new();
    append_copy(&mut decl, blank_sig);
    push_alone(&mut decl, ';');

    let mut callee = ts_new();
    push_word(&mut callee, "trait");
    push_word(&mut callee, "Helper");
    append_copy(&mut callee, &g.intro);
    match trait_path {
        Some(p) => {
            push_alone(&mut callee, ':');
            append_copy(&mut callee, p);
        },
        None => {},
    }
    append_copy(&mut callee, &g.where_clause);
    ts_push_group(&mut callee, Delim::Brace, decl);
    let ghost part1 = stream_trees(callee);
    assert(part1 =~= seq![tok_ident("trait"@), tok_ident("Helper"@)] + g.trees().intro
        + super_trait(path_trees) + g.trees().where_clause + seq![
        TokTree::Group(Delim::Brace, stream_trees(*blank_sig) + seq![tok_punct(';')]),
    ]);

    let mut body = ts_new();
    push_inline_always(&mut body);
    append_copy(&mut body, sig);
    append_copy(&mut body, block);

    push_word(&mut callee, "impl");
    append_copy(&mut callee, &g.intro);
    push_word(&mut callee, "Helper");
    append_copy(&mut callee, &g.feed);
    push_word(&mut callee, "for");
    append_copy(&mut callee, implementor);
    append_copy(&mut callee, &g.where_clause);
    ts_push_group(&mut callee, Delim::Brace, body);

    push_helper_path(&mut callee, implementor, &g.feed, fname);
    assert(stream_trees(callee) =~= impl_method_callee(
        g.trees(),
        path_trees,
        stream_trees(*blank_sig),
        stream_trees(*implementor),
        stream_trees(*sig),
        stream_trees(*block),
        ident_text(*fname),
    ));
    call_with_args(callee, args)
}


/// The token trees that `ToTokens` prints for the three parts of
/// `Generics::split_for_impl`.
pub uninterp spec fn generics_parts(g: syn::Generics) -> SplitTrees;

/// `Generics::split_for_impl`, each part turned into tokens by `ToTokens::to_token_stream`.
#[verifier::external_body]
pub(crate) fn split_generics(g: &syn::Generics) -> (res: SplitGenerics)
    ensures
        res.trees() == generics_parts(*g),
{
    let (intro, feed, where_clause) = g.split_for_impl();
    SplitGenerics {
        intro: quote::ToTokens::to_token_stream(&intro),
        feed: quote::ToTokens::to_token_stream(&feed),
        where_clause: quote::ToTokens::to_token_stream(&where_clause),
    }
}

/// `Generics::clone`: the derived clone, equal to the value cloned.
#[verifier::external_body]
pub(crate) fn generics_clone(g: &syn::Generics) -> (res: syn::Generics)
    ensures
        res == *g,
{
    g.clone()
}

/// `syn::parse2::<GenericParam>`.
#[verifier::external_body]
pub(crate) fn parse_generic_param(tokens: proc_macro2::TokenStream) -> (res: Result<
    syn::GenericParam,
    syn::Error,
>)
    ensures
        res is Ok <==> parsed_generic_param(tokens) is Some,
        res matches Ok(p) ==> parsed_generic_param(tokens) == Some(p),
{
    syn::parse2::<syn::GenericParam>(tokens)
}

/// `Punctuated::push` of a parameter onto the generics' parameters.
#[verifier::external_body]
pub(crate) fn generics_push_param(g: &mut syn::Generics, param: syn::GenericParam)
    ensures
        *final(g) == generics_with_param(*old(g), param),
{
    g.params.push(param)
}

/// The parameter shapes of the helper trait's declaration of a method.
pub open spec fn blank_inputs(inputs: Seq<ArgShape>) -> Seq<ArgShape> {
    inputs.map_values(|s: ArgShape| blank_arg(s))
}

/// The expansion for a default method, where `bound` is the helper's extra
/// parameter as a token stream: the helper's blanket impl introduces the
/// trait's generic parameters followed by the parsed bound; where syn does not
/// parse the bound, the expansion is the error it reports.
pub open spec fn is_default_method_expansion(
    e: Seq<TokTree>,
    generics: syn::Generics,
    bound: proc_macro2::TokenStream,
    trait_name: Seq<char>,
    sig: Seq<TokTree>,
    block: Seq<TokTree>,
    fname: Seq<char>,
    args: Seq<Seq<TokTree>>,
) -> bool {
    let g = generics_parts(generics);
    match parsed_generic_param(bound) {
        Some(p) => e == call_expansion(
            default_method_callee(
                g,
                generics_parts(generics_with_param(generics, p)).intro,
                trait_name,
                sig,
                block,
                fname,
            ),
            args,
        ),
        None => is_error_report(e),
    }
}

/// The expansion for a method of an `impl` block, for some signature that is
/// the method's own (`outline`: its name, generics, qualifiers, return type,
/// receivers and parameter types) with the parameter patterns blanked, but
/// for the receivers and the parameters `self: T`, which it holds as the
/// method does (`params`).
pub open spec fn is_impl_method_expansion(
    e: Seq<TokTree>,
    g: SplitTrees,
    trait_path: Option<Seq<TokTree>>,
    outline: syn::Signature,
    inputs: Seq<ArgShape>,
    params: Seq<syn::FnArg>,
    implementor: Seq<TokTree>,
    sig: Seq<TokTree>,
    block: Seq<TokTree>,
    fname: Seq<char>,
    args: Seq<Seq<TokTree>>,
) -> bool {
    exists|blank: syn::Signature| {
        &&& sig_outline(blank) == outline
        &&& fn_name(blank) == fname
        &&& sig_inputs(blank) == blank_inputs(inputs)
        &&& sig_args(blank).len() == params.len()
        &&& forall|j: int|
            0 <= j < params.len() && kept_by_blanking(inputs[j]) ==> #[trigger] sig_args(blank)[j] == params[j]
        &&& e == call_expansion(
            #[trigger] impl_method_callee(g, trait_path, sig_tokens(blank), implementor, sig, block, fname),
            args,
        )
    }
}

/// What a wrapped call expands to: a call, with the recorded identifiers in
/// order, of a block that defines a copy of the function with the received
/// signature and body and evaluates to it.
///
/// For a default method, the helper's blanket impl introduces the trait's
/// generic parameters followed by `__Self: ?Sized + Trait<..>`, parsed from
/// some token stream whose trees are that bound (the spans of its tokens are
/// left open); where syn does not parse it, the expansion is the error it
/// reports.
pub open spec fn expands_to(w: WrappedFuncCall, e: Seq<TokTree>) -> bool {
    let args = args_trees(w.call_site_args@);
    let sig = sig_tokens(w.sig);
    let block = block_tokens(w.block);
    let fname = fn_name(w.sig);
    match w.outer_scope {
        None => e == call_expansion(plain_callee(sig, block, fname), args),
        Some((generics, ImplOrTrait::DefaultMethod { trait_name })) => {
            let name = ident_text(*trait_name);
            exists|bound: proc_macro2::TokenStream|
                stream_trees(bound) == self_bound(name, generics_parts(*generics).feed)
                    && #[trigger] is_default_method_expansion(e, *generics, bound, name, sig, block, fname, args)
        },
        Some((generics, ImplOrTrait::ImplMethod { implementor, trait_name })) => {
            let path = match trait_name {
                Some(p) => Some(path_tokens(*p)),
                None => None,
            };
            is_impl_method_expansion(
                e,
                generics_parts(*generics),
                path,
                sig_outline(w.sig),
                sig_inputs(w.sig),
                sig_args(w.sig),
                type_tokens(*implementor),
                sig,
                block,
                fname,
                args,
            )
        },
    }
}

/// The names by which a call passes parameters on, in order.
pub open spec fn call_names(inputs: Seq<ArgShape>) -> Seq<Seq<char>> {
    inputs.map_values(|s: ArgShape| call_name(s))
}

/// A wrapped call passes each parameter of the rewritten signature on, by
/// its name and in order: unless it reports an error, the expansion is a
/// parenthesized block followed by the argument list `(name_0, name_1, ...)`.
pub proof fn lemma_call_forwards_parameters(
    w: WrappedFuncCall,
    rewritten: Seq<ArgShape>,
    e: Seq<TokTree>,
)
    requires
        w.call_site_args.len() == rewritten.len(),
        forall|i: int|
            0 <= i < rewritten.len() ==> expr_tokens(#[trigger] w.call_site_args@[i]) == seq![
                tok_ident(call_name(rewritten[i])),
            ],
        expands_to(w, e),
        !is_error_report(e),
    ensures
        e.len() == 2,
        e[0] matches TokTree::Group(Delim::Paren, inner) && inner.len() == 1 && inner[0] is Group,
        e[1] == TokTree::Group(Delim::Paren, comma_list(call_names(rewritten))),
{
    assert(args_trees(w.call_site_args@) =~= call_names(rewritten).map_values(
        |n: Seq<char>| seq![tok_ident(n)],
    ));
    lemma_join_single_idents(call_names(rewritten));
    let args = args_trees(w.call_site_args@);
    match w.outer_scope {
        None => {},
        Some((generics, ImplOrTrait::DefaultMethod { trait_name })) => {
            let name = ident_text(*trait_name);
            let bound = choose|bound: proc_macro2::TokenStream|
                stream_trees(bound) == self_bound(name, generics_parts(*generics).feed)
                    && #[trigger] is_default_method_expansion(
                    e,
                    *generics,
                    bound,
                    name,
                    sig_tokens(w.sig),
                    block_tokens(w.block),
                    fn_name(w.sig),
                    args,
                );
        },
        Some((generics, ImplOrTrait::ImplMethod { implementor, trait_name })) => {
            let path = match trait_name {
                Some(p) => Some(path_tokens(*p)),
                None => None,
            };
            let blank = choose|blank: syn::Signature|
                sig_outline(blank) == sig_outline(w.sig) && fn_name(blank) == fn_name(w.sig)
                    && sig_inputs(blank) == blank_inputs(sig_inputs(w.sig)) && e == call_expansion(
                    #[trigger] impl_method_callee(
                        generics_parts(*generics),
                        path,
                        sig_tokens(blank),
                        type_tokens(*implementor),
                        sig_tokens(w.sig),
                        block_tokens(w.block),
                        fn_name(w.sig),
                    ),
                    args,
                );
        },
    }
}

/// Joining one-identifier sequences with commas lists the identifiers.
pub proof fn lemma_join_single_idents(names: Seq<Seq<char>>)
    ensures
        comma_join(names.map_values(|n: Seq<char>| seq![tok_ident(n)])) == comma_list(names),
    decreases names.len(),
{
    let parts = names.map_values(|n: Seq<char>| seq![tok_ident(n)]);
    if names.len() > 1 {
        lemma_join_single_idents(names.drop_last());
        assert(parts.drop_last() =~= names.drop_last().map_values(|n: Seq<char>| seq![tok_ident(n)]));
        assert(comma_join(parts) =~= comma_list(names));
    } else if names.len() == 1 {
        assert(comma_join(parts) =~= comma_list(names));
    }
}

/// Joining one-tree parts with commas gives the parts in order, a lone `,`
/// between each two and none after the last.
pub proof fn lemma_comma_join_single_trees(parts: Seq<Seq<TokTree>>)
    requires
        parts.len() >= 1,
        forall|i: int| 0 <= i < parts.len() ==> (#[trigger] parts[i]).len() == 1,
    ensures
        comma_join(parts).len() == 2 * parts.len() - 1,
        forall|i: int| 0 <= i < parts.len() ==> comma_join(parts)[2 * i] == (#[trigger] parts[i])[0],
        forall|i: int| 0 <= i < parts.len() - 1 ==> #[trigger] comma_join(parts)[2 * i + 1] == TokTree::Punct(',', false),
    decreases parts.len(),
{
    if parts.len() > 1 {
        let init = parts.drop_last();
        lemma_comma_join_single_trees(init);
        let j = comma_join(init);
        assert(comma_join(parts) == j + seq![TokTree::Punct(',', false)] + parts.last());
        assert forall|i: int| 0 <= i < parts.len() implies comma_join(parts)[2 * i] == (#[trigger] parts[i])[0] by {
            if i < parts.len() - 1 {
                assert(init[i] == parts[i]);
            }
        }
        assert forall|i: int| 0 <= i < parts.len() - 1 implies #[trigger] comma_join(parts)[2 * i + 1] == TokTree::Punct(',', false) by {
            if i < parts.len() - 2 {
                assert(comma_join(parts)[2 * i + 1] == j[2 * i + 1]);
            }
        }
    }
}

/// `#[inline(always)]`, token by token.
pub open spec fn inline_always_written() -> Seq<TokTree> {
    seq![
        TokTree::Punct('#', false),
        TokTree::Group(
            Delim::Bracket,
            seq![
                TokTree::Ident("inline"@),
                TokTree::Group(Delim::Paren, seq![TokTree::Ident("always"@)]),
            ],
        ),
    ]
}

/// The expansion of a wrapped call outside of any trait or `impl` block: a
/// parenthesized block that holds `#[inline(always)]`, the received
/// signature and body, and then the function's name; followed by the
/// parenthesized arguments, separated by commas.
pub proof fn lemma_plain_expansion(w: WrappedFuncCall, e: Seq<TokTree>)
    requires
        expands_to(w, e),
        w.outer_scope is None,
    ensures
        e == seq![
            TokTree::Group(
                Delim::Paren,
                seq![
                    TokTree::Group(
                        Delim::Brace,
                        inline_always_written() + sig_tokens(w.sig) + block_tokens(w.block) + seq![
                            TokTree::Ident(fn_name(w.sig)),
                        ],
                    ),
                ],
            ),
            TokTree::Group(Delim::Paren, comma_join(args_trees(w.call_site_args@))),
        ],
{
    assert(inline_always() =~= inline_always_written());
}

/// The expansion of a wrapped call of a method of an `impl` block with
/// generics `g` (whose `split_for_impl` parts are `intro`, with the bounds,
/// `feed`, the bare arguments, and `where`): the helper trait is
/// `trait Helper intro [: Trait] where { <declaration>; }`; its impl is
/// `impl intro Helper feed for Type where { #[inline(always)] sig block }`;
/// the copy is reached as `<Type as Helper feed>::f`. The parameters with
/// their bounds come right after `trait Helper` and after `impl`; the bare
/// arguments come after the helper's name in the impl and in the path.
pub proof fn lemma_impl_method_expansion(w: WrappedFuncCall, e: Seq<TokTree>)
    requires
        expands_to(w, e),
        w.outer_scope matches Some((_, ImplOrTrait::ImplMethod { .. })),
    ensures
        match w.outer_scope {
            Some((generics, ImplOrTrait::ImplMethod { implementor, trait_name })) => {
                let gp = generics_parts(*generics);
                let ty = type_tokens(*implementor);
                let supertrait = match trait_name {
                    Some(p) => seq![TokTree::Punct(':', false)] + path_tokens(*p),
                    None => Seq::<TokTree>::empty(),
                };
                exists|blank: syn::Signature| {
                    &&& sig_inputs(blank) == blank_inputs(sig_inputs(w.sig))
                    &&& e == seq![
                        TokTree::Group(
                            Delim::Paren,
                            seq![
                                TokTree::Group(
                                    Delim::Brace,
                                    seq![TokTree::Ident("trait"@), TokTree::Ident("Helper"@)] + gp.intro
                                        + supertrait + gp.where_clause + seq![
                                        TokTree::Group(
                                            Delim::Brace,
                                            #[trigger] sig_tokens(blank) + seq![TokTree::Punct(';', false)],
                                        ),
                                        TokTree::Ident("impl"@),
                                    ] + gp.intro + seq![TokTree::Ident("Helper"@)] + gp.feed + seq![
                                        TokTree::Ident("for"@),
                                    ] + ty + gp.where_clause + seq![
                                        TokTree::Group(
                                            Delim::Brace,
                                            inline_always_written() + sig_tokens(w.sig) + block_tokens(w.block),
                                        ),
                                        TokTree::Punct('<', false),
                                    ] + ty + seq![TokTree::Ident("as"@), TokTree::Ident("Helper"@)] + gp.feed
                                        + seq![
                                        TokTree::Punct('>', false),
                                        TokTree::Punct(':', true),
                                        TokTree::Punct(':', false),
                                        TokTree::Ident(fn_name(w.sig)),
                                    ],
                                ),
                            ],
                        ),
                        TokTree::Group(Delim::Paren, comma_join(args_trees(w.call_site_args@))),
                    ]
                }
            },
            _ => true,
        },
{
    if let Some((generics, ImplOrTrait::ImplMethod { implementor, trait_name })) = w.outer_scope {
        let gp = generics_parts(*generics);
        let ty = type_tokens(*implementor);
        let path = match trait_name {
            Some(p) => Some(path_tokens(*p)),
            None => None,
        };
        let blank = choose|blank: syn::Signature|
            sig_outline(blank) == sig_outline(w.sig) && fn_name(blank) == fn_name(w.sig)
                && sig_inputs(blank) == blank_inputs(sig_inputs(w.sig)) && e == call_expansion(
                #[trigger] impl_method_callee(
                    gp,
                    path,
                    sig_tokens(blank),
                    ty,
                    sig_tokens(w.sig),
                    block_tokens(w.block),
                    fn_name(w.sig),
                ),
                args_trees(w.call_site_args@),
            );
        assert(inline_always() =~= inline_always_written());
        let supertrait = match trait_name {
            Some(p) => seq![TokTree::Punct(':', false)] + path_tokens(*p),
            None => Seq::<TokTree>::empty(),
        };
        assert(super_trait(path) =~= supertrait);
        let callee = impl_method_callee(
            gp,
            path,
            sig_tokens(blank),
            ty,
            sig_tokens(w.sig),
            block_tokens(w.block),
            fn_name(w.sig),
        );
        assert(callee =~= seq![TokTree::Ident("trait"@), TokTree::Ident("Helper"@)] + gp.intro + supertrait
            + gp.where_clause + seq![
            TokTree::Group(Delim::Brace, sig_tokens(blank) + seq![TokTree::Punct(';', false)]),
            TokTree::Ident("impl"@),
        ] + gp.intro + seq![TokTree::Ident("Helper"@)] + gp.feed + seq![TokTree::Ident("for"@)] + ty
            + gp.where_clause + seq![
            TokTree::Group(Delim::Brace, inline_always_written() + sig_tokens(w.sig) + block_tokens(w.block)),
            TokTree::Punct('<', false),
        ] + ty + seq![TokTree::Ident("as"@), TokTree::Ident("Helper"@)] + gp.feed + seq![
            TokTree::Punct('>', false),
            TokTree::Punct(':', true),
            TokTree::Punct(':', false),
            TokTree::Ident(fn_name(w.sig)),
        ]);
    }
}

/// The expansion of a wrapped call of a default method of the trait `Trait`
/// with generics `g` (`split_for_impl` parts `intro`, with the bounds,
/// `feed`, the bare arguments, and `where`), unless it is an error report:
/// the helper trait is `trait Helper intro : Trait feed where
/// { #[inline(always)] sig block }`; its blanket impl introduces `g`'s
/// parameters followed by the parameter parsed from the tokens
/// `__Self : ?Sized + Trait feed`, and is `impl .. Helper feed for __Self
/// where {}`; the copy is reached as `<Self as Helper feed>::f`.
pub proof fn lemma_default_method_expansion(w: WrappedFuncCall, e: Seq<TokTree>)
    requires
        expands_to(w, e),
        w.outer_scope matches Some((_, ImplOrTrait::DefaultMethod { .. })),
    ensures
        match w.outer_scope {
            Some((generics, ImplOrTrait::DefaultMethod { trait_name })) => {
                let gp = generics_parts(*generics);
                let name = ident_text(*trait_name);
                is_error_report(e) || exists|bound: proc_macro2::TokenStream| {
                    &&& stream_trees(bound) == seq![
                        TokTree::Ident("__Self"@),
                        TokTree::Punct(':', false),
                        TokTree::Punct('?', false),
                        TokTree::Ident("Sized"@),
                        TokTree::Punct('+', false),
                        TokTree::Ident(name),
                    ] + gp.feed
                    &&& #[trigger] parsed_generic_param(bound) matches Some(p)
                    &&& e == seq![
                        TokTree::Group(
                            Delim::Paren,
                            seq![
                                TokTree::Group(
                                    Delim::Brace,
                                    seq![TokTree::Ident("trait"@), TokTree::Ident("Helper"@)] + gp.intro
                                        + seq![TokTree::Punct(':', false), TokTree::Ident(name)] + gp.feed
                                        + gp.where_clause + seq![
                                        TokTree::Group(
                                            Delim::Brace,
                                            inline_always_written() + sig_tokens(w.sig) + block_tokens(w.block),
                                        ),
                                        TokTree::Ident("impl"@),
                                    ] + generics_parts(generics_with_param(*generics, p)).intro + seq![
                                        TokTree::Ident("Helper"@),
                                    ] + gp.feed + seq![TokTree::Ident("for"@), TokTree::Ident("__Self"@)]
                                        + gp.where_clause + seq![
                                        TokTree::Group(Delim::Brace, Seq::empty()),
                                        TokTree::Punct('<', false),
                                        TokTree::Ident("Self"@),
                                        TokTree::Ident("as"@),
                                        TokTree::Ident("Helper"@),
                                    ] + gp.feed + seq![
                                        TokTree::Punct('>', false),
                                        TokTree::Punct(':', true),
                                        TokTree::Punct(':', false),
                                        TokTree::Ident(fn_name(w.sig)),
                                    ],
                                ),
                            ],
                        ),
                        TokTree::Group(Delim::Paren, comma_join(args_trees(w.call_site_args@))),
                    ]
                }
            },
            _ => true,
        },
{
    if let Some((generics, ImplOrTrait::DefaultMethod { trait_name })) = w.outer_scope {
        let gp = generics_parts(*generics);
        let name = ident_text(*trait_name);
        let sig = sig_tokens(w.sig);
        let block = block_tokens(w.block);
        let fname = fn_name(w.sig);
        let args = args_trees(w.call_site_args@);
        let bound = choose|bound: proc_macro2::TokenStream|
            stream_trees(bound) == self_bound(name, gp.feed)
                && #[trigger] is_default_method_expansion(e, *generics, bound, name, sig, block, fname, args);
        assert(inline_always() =~= inline_always_written());
        if let Some(p) = parsed_generic_param(bound) {
            assert(self_bound(name, gp.feed) =~= seq![
                TokTree::Ident("__Self"@),
                TokTree::Punct(':', false),
                TokTree::Punct('?', false),
                TokTree::Ident("Sized"@),
                TokTree::Punct('+', false),
                TokTree::Ident(name),
            ] + gp.feed);
            let callee = default_method_callee(
                gp,
                generics_parts(generics_with_param(*generics, p)).intro,
                name,
                sig,
                block,
                fname,
            );
            assert(callee =~= seq![TokTree::Ident("trait"@), TokTree::Ident("Helper"@)] + gp.intro + seq![
                TokTree::Punct(':', false),
                TokTree::Ident(name),
            ] + gp.feed + gp.where_clause + seq![
                TokTree::Group(Delim::Brace, inline_always_written() + sig + block),
                TokTree::Ident("impl"@),
            ] + generics_parts(generics_with_param(*generics, p)).intro + seq![TokTree::Ident("Helper"@)]
                + gp.feed + seq![TokTree::Ident("for"@), TokTree::Ident("__Self"@)] + gp.where_clause + seq![
                TokTree::Group(Delim::Brace, Seq::empty()),
                TokTree::Punct('<', false),
                TokTree::Ident("Self"@),
                TokTree::Ident("as"@),
                TokTree::Ident("Helper"@),
            ] + gp.feed + seq![
                TokTree::Punct('>', false),
                TokTree::Punct(':', true),
                TokTree::Punct(':', false),
                TokTree::Ident(fname),
            ]);
        }
    }
}

impl<'a> WrappedFuncCall<'a> {
    /// Appends the expansion of the wrapped call to `out`.
    pub fn to_tokens(&self, out: &mut proc_macro2::TokenStream)
        ensures
            exists|e: Seq<TokTree>|
                #[trigger] expands_to(*self, e) && stream_trees(*final(out)) == stream_trees(*old(out)) + e,
    {
        let e = self.to_token_stream();
        ts_append(out, e);
    }

    /// The expansion of the wrapped call.
    pub fn to_token_stream(&self) -> (res: proc_macro2::TokenStream)
        ensures
            expands_to(*self, stream_trees(res)),
    {
        let fname = sig_name(&self.sig);
        let sig = sig_stream(&self.sig);
        let block = block_stream(&self.block);
        let args = &self.call_site_args;
        match self.outer_scope {
            None => plain_expansion(&sig, &block, &fname, args),
            Some((generics, ImplOrTrait::DefaultMethod { trait_name })) => {
                let g = split_generics(generics);
                let bound = self_bound_tokens(trait_name, &g.feed);
                let ghost bound_stream = bound;
                let res = match parse_generic_param(bound) {
                    Ok(param) => {
                        let mut extended = generics_clone(generics);
                        generics_push_param(&mut extended, param);
                        let impl_generics = split_generics(&extended).intro;
                        default_method_expansion(
                            &g,
                            &impl_generics,
                            trait_name,
                            &sig,
                            &block,
                            &fname,
                            args,
                        )
                    },
                    Err(err) => error_stream(&err),
                };
                // the bound that was parsed is the witness
                assert(is_default_method_expansion(
                    stream_trees(res),
                    *generics,
                    bound_stream,
                    ident_text(*trait_name),
                    sig_tokens(self.sig),
                    block_tokens(self.block),
                    fn_name(self.sig),
                    args_trees(args@),
                ));
                res
            },
            Some((generics, ImplOrTrait::ImplMethod { implementor, trait_name })) => {
                let g = split_generics(generics);
                let blank_sig = blank_signature(&self.sig);
                let blank = sig_stream(&blank_sig);
                let imp = type_stream(implementor);
                let path = match trait_name {
                    Some(p) => Some(path_stream(p)),
                    None => None,
                };
                let res = impl_method_expansion(&g, &path, &blank, &imp, &sig, &block, &fname, args);
                let ghost path_trees = match trait_name {
                    Some(p) => Some(path_tokens(*p)),
                    None => None,
                };
                // the blanked signature is the witness
                assert(sig_inputs(blank_sig) == blank_inputs(sig_inputs(self.sig)));
                assert(sig_outline(blank_sig) == sig_outline(self.sig));
                assert(sig_args(blank_sig).len() == sig_args(self.sig).len());
                assert(stream_trees(res) == call_expansion(
                    impl_method_callee(
                        generics_parts(*generics),
                        path_trees,
                        sig_tokens(blank_sig),
                        type_tokens(*implementor),
                        sig_tokens(self.sig),
                        block_tokens(self.block),
                        fn_name(self.sig),
                    ),
                    args_trees(args@),
                ));
                res
            },
        }
    }
}

} // verus!
