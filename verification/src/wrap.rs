//! Wrapping a function: its parameters are rewritten so that each one binds a
//! name, and the call that forwards those names to a copy of the function is
//! recorded.

use vstd::prelude::*;
use crate::names::{lemma_arg_name_is_ident, make_arg_name, starts_with_arg_prefix};
use crate::signature::{
    blocks_wrapping, call_name, fn_name, kept_by_rewrite, left_as_is, sig_args, is_self_name, rewrite_arg, rewrite_inputs, sig_clone,
    sig_input_ident, sig_receiver_span, sig_input_count, sig_input_pat, sig_inputs, sig_rename_input,
    sig_replace_input_pat, sig_frame, wrappable, ArgPat,
};
use crate::tokens::{ident_new, ident_text, stream_trees, TokTree};

verus! {

#[verifier::external_type_specification]
#[verifier::external_body]
pub struct ExBlock(syn::Block);

#[verifier::external_type_specification]
#[verifier::external_body]
pub struct ExGenerics(syn::Generics);

#[verifier::external_type_specification]
#[verifier::external_body]
pub struct ExType(syn::Type);

#[verifier::external_type_specification]
#[verifier::external_body]
pub struct ExPath(syn::Path);

#[verifier::external_type_specification]
#[verifier::external_body]
pub struct ExExpr(syn::Expr);

/// The token trees that `ToTokens` prints for a block.
pub uninterp spec fn block_tokens(b: syn::Block) -> Seq<TokTree>;

/// The token trees that `ToTokens` prints for a type.
pub uninterp spec fn type_tokens(t: syn::Type) -> Seq<TokTree>;

/// The token trees that `ToTokens` prints for a path.
pub uninterp spec fn path_tokens(p: syn::Path) -> Seq<TokTree>;

/// The token trees that `ToTokens` prints for an expression.
pub uninterp spec fn expr_tokens(e: syn::Expr) -> Seq<TokTree>;

/// `ToTokens::to_token_stream` of a block.
#[verifier::external_body]
pub(crate) fn block_stream(b: &syn::Block) -> (res: proc_macro2::TokenStream)
    ensures
        stream_trees(res) == block_tokens(*b),
{
    quote::ToTokens::to_token_stream(b)
}

/// `ToTokens::to_token_stream` of a type.
#[verifier::external_body]
pub(crate) fn type_stream(t: &syn::Type) -> (res: proc_macro2::TokenStream)
    ensures
        stream_trees(res) == type_tokens(*t),
{
    quote::ToTokens::to_token_stream(t)
}

/// `ToTokens::to_token_stream` of a path.
#[verifier::external_body]
pub(crate) fn path_stream(p: &syn::Path) -> (res: proc_macro2::TokenStream)
    ensures
        stream_trees(res) == path_tokens(*p),
{
    quote::ToTokens::to_token_stream(p)
}

/// `ToTokens::to_token_stream` of an expression.
#[verifier::external_body]
pub(crate) fn expr_stream(e: &syn::Expr) -> (res: proc_macro2::TokenStream)
    ensures
        stream_trees(res) == expr_tokens(*e),
{
    quote::ToTokens::to_token_stream(e)
}

/// The identifier as a path expression of one segment (what
/// `parse_quote!(#ident)` gives), which prints as the identifier alone.
#[verifier::external_body]
pub(crate) fn ident_expr(id: proc_macro2::Ident) -> (res: syn::Expr)
    ensures
        expr_tokens(res) == seq![TokTree::Ident(ident_text(id))],
{
    syn::Expr::Path(syn::ExprPath { attrs: Vec::new(), qself: None, path: syn::Path::from(id) })
}

/// Where the wrapped function is defined.
#[derive(Clone, Copy)]
pub enum ImplOrTrait<'a> {
    /// Default implementation of methods within a trait definition.
    DefaultMethod { trait_name: &'a proc_macro2::Ident },
    /// An implementation of methods within an `impl` block.
    ImplMethod {
        implementor: &'a syn::Type,
        /// `None` if inherent impl.
        trait_name: Option<&'a syn::Path>,
    },
}

/// A function that has been wrapped: the copy of it that the expansion
/// defines, and the identifiers that the expansion's call passes to it.
pub struct WrappedFuncCall<'a> {
    pub outer_scope: Option<(&'a syn::Generics, ImplOrTrait<'a>)>,
    /// The function's signature as it was received.
    pub sig: syn::Signature,
    pub block: syn::Block,
    /// One expression per parameter of the rewritten signature, in order:
    /// the name that binds it.
    pub call_site_args: Vec<syn::Expr>,
}

/// Rewrites the parameters of `func` so that each one binds a name, and
/// returns the call that forwards them to a copy of the function with the
/// signature as it was received and `block`. Only the parameter patterns
/// change: an identifier is renamed in place (its `ref`, `mut` and
/// sub-pattern stay), any other pattern becomes a bare identifier, and the
/// rest of the signature (`sig_frame`) stays as it was.
///
/// A parameter `self: T` outside of a trait or an `impl` block
/// (`outer_scope` is `None`) cannot be forwarded: then the result is `None`,
/// and only the parameters before it have been rewritten.
pub fn func_wrap<'lt>(
    func: &mut syn::Signature,
    block: syn::Block,
    outer_scope: Option<(&'lt syn::Generics, ImplOrTrait<'lt>)>,
) -> (res: Option<WrappedFuncCall<'lt>>)
    ensures
        sig_inputs(*final(func)) == rewrite_inputs(sig_inputs(*old(func)), outer_scope is Some),
        fn_name(*final(func)) == fn_name(*old(func)),
        sig_frame(*final(func)) == sig_frame(*old(func)),
        sig_args(*final(func)).len() == sig_args(*old(func)).len(),
        forall|j: int|
            0 <= j < sig_args(*old(func)).len() && left_as_is(sig_inputs(*old(func)), outer_scope is Some, j)
                ==> #[trigger] sig_args(*final(func))[j] == sig_args(*old(func))[j],
        res is Some <==> wrappable(sig_inputs(*old(func)), outer_scope is Some),
        res matches Some(w) ==> {
            &&& w.sig == *old(func)
            &&& w.block == block
            &&& w.outer_scope == outer_scope
            &&& w.call_site_args.len() == sig_inputs(*old(func)).len()
            &&& forall|i: int|
                0 <= i < w.call_site_args.len() ==> expr_tokens(#[trigger] w.call_site_args@[i])
                    == seq![TokTree::Ident(call_name(sig_inputs(*final(func))[i]))]
        },
{
    let sig = sig_clone(func);
    let scoped = outer_scope.is_some();
    let n = sig_input_count(func);
    let ghost inputs = sig_inputs(*func);
    let mut args: Vec<syn::Expr> = Vec::new();
    let mut i: usize = 0;
    while i < n
        invariant
            n == inputs.len(),
            i <= n,
            scoped == (outer_scope is Some),
            sig == *old(func),
            inputs == sig_inputs(*old(func)),
            sig_inputs(*func).len() == n,
            fn_name(*func) == fn_name(*old(func)),
            sig_frame(*func) == sig_frame(*old(func)),
            sig_args(*func).len() == n,
            n == sig_args(*old(func)).len(),
            forall|j: int| 0 <= j < n && (i <= j || kept_by_rewrite(inputs[j])) ==> #[trigger] sig_args(*func)[j] == sig_args(*old(func))[j],
            forall|j: int| 0 <= j < i ==> sig_inputs(*func)[j] == rewrite_arg(#[trigger] inputs[j], j as nat),
            forall|j: int| i <= j < n ==> sig_inputs(*func)[j] == #[trigger] inputs[j],
            forall|j: int| 0 <= j < i ==> !#[trigger] blocks_wrapping(inputs[j], scoped),
            args.len() == i,
            forall|j: int| 0 <= j < i ==> expr_tokens(#[trigger] args@[j]) == seq![TokTree::Ident(call_name(sig_inputs(*func)[j]))],
        decreases n - i,
    {
        let pat = sig_input_pat(func, i);
        match pat {
            ArgPat::Receiver => {},
            ArgPat::Ident(name) => {
                if is_self_name(name.as_str()) {
                    if !scoped {
                        proof {
                            assert(blocks_wrapping(inputs[i as int], scoped));
                            assert(sig_inputs(*func) =~= rewrite_inputs(inputs, scoped));
                        }
                        return None;
                    }
                } else if starts_with_arg_prefix(name.as_str()) {
                    let new_name = make_arg_name(i);
                    proof { lemma_arg_name_is_ident(i as nat); }
                    sig_rename_input(func, i, new_name.as_str());
                }
            },
            _ => {
                let new_name = make_arg_name(i);
                proof { lemma_arg_name_is_ident(i as nat); }
                sig_replace_input_pat(func, i, new_name.as_str());
            },
        }
        assert(sig_inputs(*func)[i as int] == rewrite_arg(inputs[i as int], i as nat));
        let binding = match sig_receiver_span(func, i) {
            Some(span) => {
                proof {
                    reveal_strlit("self");
                    assert("self"@ =~= crate::signature::self_name());
                }
                ident_new("self", span)
            },
            None => match sig_input_ident(func, i) {
                Some(id) => id,
                None => {
                    proof { assert(false); }
                    return None;
                },
            },
        };
        args.push(ident_expr(binding));
        i += 1;
    }
    proof {
        assert(sig_inputs(*func) =~= rewrite_inputs(inputs, scoped));
    }
    Some(WrappedFuncCall { sig, block, outer_scope, call_site_args: args })
}

} // verus!
