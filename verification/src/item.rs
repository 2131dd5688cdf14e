//! Wrapping every function of an item: a free function, the default methods
//! of a trait definition, or the methods of an `impl` block.

use vstd::prelude::*;
use crate::errors::{
    error_messages, error_new, error_report, error_stream, is_error_report, lemma_error_report_start,
    lemma_message_report, message_report,
};
use crate::expand::expands_to;
use crate::signature::{
    call_name, fn_name, lemma_scoped_always_wrappable, rewrite_inputs, sig_frame, sig_inputs, wrappable,
};
use crate::tokens::{stream_trees, tok_ident, Delim, TokTree};
use crate::wrap::{block_tokens, expr_tokens, func_wrap, ImplOrTrait, WrappedFuncCall};

verus! {

#[verifier::external_type_specification]
#[verifier::external_body]
pub struct ExItem(syn::Item);

#[verifier::external_type_specification]
#[verifier::external_body]
pub struct ExItemFn(syn::ItemFn);

#[verifier::external_type_specification]
#[verifier::external_body]
pub struct ExItemTrait(syn::ItemTrait);

#[verifier::external_type_specification]
#[verifier::external_body]
pub struct ExItemImpl(syn::ItemImpl);

#[verifier::external_type_specification]
#[verifier::external_body]
pub struct ExTraitItem(syn::TraitItem);

#[verifier::external_type_specification]
#[verifier::external_body]
pub struct ExTraitItemMethod(syn::TraitItemMethod);

#[verifier::external_type_specification]
#[verifier::external_body]
pub struct ExImplItem(syn::ImplItem);

#[verifier::external_type_specification]
#[verifier::external_body]
pub struct ExImplItemMethod(syn::ImplItemMethod);

#[verifier::external_type_specification]
#[verifier::external_body]
pub struct ExAttribute(syn::Attribute);

#[verifier::external_type_specification]
#[verifier::external_body]
pub struct ExVisibility(syn::Visibility);

#[verifier::external_type_specification]
#[verifier::external_body]
pub struct ExDefaultToken(syn::token::Default);

#[verifier::external_type_specification]
#[verifier::external_body]
pub struct ExSemiToken(syn::token::Semi);

/// The kinds of items that wrapping tells apart.
#[derive(PartialEq, Eq, Structural, Clone, Copy, Debug)]
pub enum ItemKind {
    Fn,
    Trait,
    Impl,
    Other,
}

/// An item taken apart by its variant.
pub enum ItemCase {
    Fn(syn::ItemFn),
    Trait(syn::ItemTrait),
    Impl(syn::ItemImpl),
    Other(syn::Item),
}

/// The free function that an item is (`Item::Fn`), if it is one.
pub uninterp spec fn item_as_fn(item: syn::Item) -> Option<syn::ItemFn>;

/// The trait definition that an item is (`Item::Trait`), if it is one.
pub uninterp spec fn item_as_trait(item: syn::Item) -> Option<syn::ItemTrait>;

/// The `impl` block that an item is (`Item::Impl`), if it is one.
pub uninterp spec fn item_as_impl(item: syn::Item) -> Option<syn::ItemImpl>;

/// Which of the kinds an item is.
pub open spec fn item_kind(item: syn::Item) -> ItemKind {
    if item_as_fn(item) is Some {
        ItemKind::Fn
    } else if item_as_trait(item) is Some {
        ItemKind::Trait
    } else if item_as_impl(item) is Some {
        ItemKind::Impl
    } else {
        ItemKind::Other
    }
}

/// The message of the error on an item that is none of the three kinds.
pub open spec fn unexpected_item_message() -> Seq<char> {
    "Expected an `fn` item, a `trait` definition, or an `impl` block."@
}

/// The message of the error on a function that `attr` cannot wrap.
pub open spec fn missing_scope_message() -> Seq<char> {
    "Missing `#[attr]` on the enscoping `trait` or `impl`"@
}

/// What `syn::parse2::<Item>` returns for a token stream: the item, or the
/// error where the tokens are not one item.
pub uninterp spec fn parsed_item(tokens: proc_macro2::TokenStream) -> Result<syn::Item, syn::Error>;

/// What `syn::parse2::<syn::parse::Nothing>` returns for a token stream.
pub uninterp spec fn parsed_nothing(tokens: proc_macro2::TokenStream) -> Result<(), syn::Error>;

/// The token trees that `ToTokens` prints for an item.
pub uninterp spec fn item_tokens(item: syn::Item) -> Seq<TokTree>;

/// The signature of a free function.
pub uninterp spec fn item_fn_sig(f: syn::ItemFn) -> syn::Signature;

/// The body of a free function.
pub uninterp spec fn item_fn_block(f: syn::ItemFn) -> syn::Block;

/// The attributes of a free function.
pub uninterp spec fn item_fn_attrs(f: syn::ItemFn) -> Seq<syn::Attribute>;

/// The visibility of a free function.
pub uninterp spec fn item_fn_vis(f: syn::ItemFn) -> syn::Visibility;

/// The visibility of a method.
pub uninterp spec fn method_vis(m: syn::ImplItemMethod) -> syn::Visibility;

/// The `default` keyword of a method, if it has one.
pub uninterp spec fn method_defaultness(m: syn::ImplItemMethod) -> Option<syn::token::Default>;

/// The signature of a method.
pub uninterp spec fn method_sig(m: syn::ImplItemMethod) -> syn::Signature;

/// The body of a method.
pub uninterp spec fn method_block(m: syn::ImplItemMethod) -> syn::Block;

/// The attributes of a method.
pub uninterp spec fn method_attrs(m: syn::ImplItemMethod) -> Seq<syn::Attribute>;

/// The items of a trait definition, in order.
pub uninterp spec fn trait_items(t: syn::ItemTrait) -> Seq<syn::TraitItem>;

/// A trait definition with its items left out: its attributes, visibility,
/// qualifiers, name, generics and supertraits.
pub uninterp spec fn trait_rest(t: syn::ItemTrait) -> syn::ItemTrait;

/// The generics of a trait definition.
pub uninterp spec fn trait_generics_of(t: syn::ItemTrait) -> syn::Generics;

/// The name of a trait definition.
pub uninterp spec fn trait_ident_of(t: syn::ItemTrait) -> proc_macro2::Ident;

/// The method that an item of a trait definition is (`TraitItem::Method`), if it is one.
pub uninterp spec fn trait_item_method(ti: syn::TraitItem) -> Option<syn::TraitItemMethod>;

/// The signature of a method of a trait definition.
pub uninterp spec fn trait_method_sig(m: syn::TraitItemMethod) -> syn::Signature;

/// The default body of a method of a trait definition, if it has one.
pub uninterp spec fn trait_method_default(m: syn::TraitItemMethod) -> Option<syn::Block>;

/// The attributes of a method of a trait definition.
pub uninterp spec fn trait_method_attrs(m: syn::TraitItemMethod) -> Seq<syn::Attribute>;

/// The items of an `impl` block, in order.
pub uninterp spec fn impl_items(i: syn::ItemImpl) -> Seq<syn::ImplItem>;

/// An `impl` block with its items left out: its attributes, qualifiers,
/// generics, trait and self type.
pub uninterp spec fn impl_rest(i: syn::ItemImpl) -> syn::ItemImpl;

/// The generics of an `impl` block.
pub uninterp spec fn impl_generics_of(i: syn::ItemImpl) -> syn::Generics;

/// The self type of an `impl` block.
pub uninterp spec fn impl_self_ty_of(i: syn::ItemImpl) -> syn::Type;

/// The path of the trait that an `impl` block implements, if any.
pub uninterp spec fn impl_trait_of(i: syn::ItemImpl) -> Option<syn::Path>;

/// The method that an item of an `impl` block is (`ImplItem::Method`), if it is one.
pub uninterp spec fn impl_item_method(ii: syn::ImplItem) -> Option<syn::ImplItemMethod>;

/// `syn::parse2::<Item>`.
#[verifier::external_body]
pub(crate) fn parse_item(input: proc_macro2::TokenStream) -> (res: Result<syn::Item, syn::Error>)
    ensures
        res == parsed_item(input),
{
    syn::parse2::<syn::Item>(input)
}

/// `From<T> for T`: returns the argument unchanged.
pub assume_specification<T>[ <T as From<T>>::from ](t: T) -> (res: T)
    ensures
        res == t,
;

/// `stream` is a token stream that `input.into()` can give.
pub open spec fn converts_to<I: Into<proc_macro2::TokenStream>>(
    input: I,
    stream: proc_macro2::TokenStream,
) -> bool {
    call_ensures(<I as Into<proc_macro2::TokenStream>>::into, (input,), stream)
}

/// `syn::parse2::<syn::parse::Nothing>`: accepts a stream with no tokens,
/// where invisible groups do not count.
#[verifier::external_body]
pub(crate) fn parse_nothing(input: proc_macro2::TokenStream) -> (res: Result<(), syn::Error>)
    ensures
        res == parsed_nothing(input),
        stream_trees(input).len() == 0 ==> res is Ok,
        res is Ok ==> forall|i: int|
            0 <= i < stream_trees(input).len() ==> #[trigger] stream_trees(input)[i] matches TokTree::Group(Delim::Invisible, _),
{
    syn::parse2::<syn::parse::Nothing>(input).map(|_| ())
}

/// `ToTokens::to_token_stream` of an item. A free function, a trait
/// definition or an `impl` block prints as at least one token, the first of
/// which is an attribute's `#`, a visibility, a qualifier or the keyword
/// `fn`, `trait` or `impl`: never the identifier `compile_error`.
#[verifier::external_body]
pub(crate) fn item_stream(item: &syn::Item) -> (res: proc_macro2::TokenStream)
    ensures
        stream_trees(res) == item_tokens(*item),
        item_kind(*item) != ItemKind::Other ==> stream_trees(res).len() > 0 && stream_trees(res)[0]
            != tok_ident("compile_error"@),
{
    quote::ToTokens::to_token_stream(item)
}

/// `Spanned::span` of an item.
#[verifier::external_body]
pub(crate) fn item_span(item: &syn::Item) -> (res: proc_macro2::Span) {
    syn::spanned::Spanned::span(item)
}

/// Takes an item apart by its variant.
#[verifier::external_body]
pub(crate) fn split_item(item: syn::Item) -> (res: ItemCase)
    ensures
        res matches ItemCase::Fn(f) ==> item_as_fn(item) == Some(f) && item_as_trait(item) is None
            && item_as_impl(item) is None,
        res matches ItemCase::Trait(t) ==> item_as_fn(item) is None && item_as_trait(item) == Some(t)
            && item_as_impl(item) is None,
        res matches ItemCase::Impl(i) ==> item_as_fn(item) is None && item_as_trait(item) is None
            && item_as_impl(item) == Some(i),
        res matches ItemCase::Other(o) ==> o == item && item_as_fn(item) is None && item_as_trait(item)
            is None && item_as_impl(item) is None,
{
    match item {
        syn::Item::Fn(it) => ItemCase::Fn(it),
        syn::Item::Trait(it) => ItemCase::Trait(it),
        syn::Item::Impl(it) => ItemCase::Impl(it),
        other => ItemCase::Other(other),
    }
}

/// `Item::Fn`.
#[verifier::external_body]
pub(crate) fn item_from_fn(it: syn::ItemFn) -> (res: syn::Item)
    ensures
        item_as_fn(res) == Some(it),
        item_as_trait(res) is None,
        item_as_impl(res) is None,
{
    syn::Item::Fn(it)
}

/// `Item::Trait`.
#[verifier::external_body]
pub(crate) fn item_from_trait(it: syn::ItemTrait) -> (res: syn::Item)
    ensures
        item_as_fn(res) is None,
        item_as_trait(res) == Some(it),
        item_as_impl(res) is None,
{
    syn::Item::Trait(it)
}

/// `Item::Impl`.
#[verifier::external_body]
pub(crate) fn item_from_impl(it: syn::ItemImpl) -> (res: syn::Item)
    ensures
        item_as_fn(res) is None,
        item_as_trait(res) is None,
        item_as_impl(res) == Some(it),
{
    syn::Item::Impl(it)
}

/// The fields of a `syn::ItemFn`, moved out: attributes, visibility,
/// signature and body; the signature and body are the function's.
#[verifier::external_body]
pub(crate) fn fn_split(it: syn::ItemFn) -> (res: (Vec<syn::Attribute>, syn::Visibility, syn::Signature, syn::Block))
    ensures
        res.0@ == item_fn_attrs(it),
        res.1 == item_fn_vis(it),
        res.2 == item_fn_sig(it),
        res.3 == item_fn_block(it),
{
    let syn::ItemFn { attrs, vis, sig, block } = it;
    (attrs, vis, sig, *block)
}

/// A `syn::ItemFn` built from the method's attributes, visibility, signature
/// and body (its `default` keyword dropped).
#[verifier::external_body]
pub(crate) fn method_into_fn(m: syn::ImplItemMethod) -> (res: syn::ItemFn)
    ensures
        item_fn_attrs(res) == method_attrs(m),
        item_fn_vis(res) == method_vis(m),
        item_fn_sig(res) == method_sig(m),
        item_fn_block(res) == method_block(m),
{
    syn::ItemFn { attrs: m.attrs, vis: m.vis, sig: m.sig, block: Box::new(m.block) }
}

/// `syn::Visibility::Inherited`: no visibility written. Nothing is stated of it.
#[verifier::external_body]
pub(crate) fn visibility_inherited() -> (res: syn::Visibility) {
    syn::Visibility::Inherited
}

/// A `syn::Block` with no statements, which prints as `{}`.
#[verifier::external_body]
pub(crate) fn empty_block() -> (res: syn::Block)
    ensures
        block_tokens(res) == seq![TokTree::Group(Delim::Brace, Seq::empty())],
{
    syn::Block { brace_token: Default::default(), stmts: Vec::new() }
}

/// A `syn::ImplItemMethod` built from its fields, which it holds as given.
#[verifier::external_body]
pub(crate) fn impl_method_new(
    attrs: Vec<syn::Attribute>,
    vis: syn::Visibility,
    defaultness: Option<syn::token::Default>,
    sig: syn::Signature,
    block: syn::Block,
) -> (res: syn::ImplItemMethod)
    ensures
        method_attrs(res) == attrs@,
        method_vis(res) == vis,
        method_defaultness(res) == defaultness,
        method_sig(res) == sig,
        method_block(res) == block,
{
    syn::ImplItemMethod { attrs, vis, defaultness, sig, block }
}

/// The attributes, signature and body of a `syn::ImplItemMethod`, moved out
/// (its visibility and `default` keyword dropped).
#[verifier::external_body]
pub(crate) fn impl_method_split(m: syn::ImplItemMethod) -> (res: (Vec<syn::Attribute>, syn::Signature, syn::Block))
    ensures
        res.0@ == method_attrs(m),
        res.1 == method_sig(m),
        res.2 == method_block(m),
{
    (m.attrs, m.sig, m.block)
}

/// The fields of a `syn::ImplItemMethod`, moved out: attributes, visibility,
/// `default` keyword, signature and body.
#[verifier::external_body]
pub(crate) fn impl_method_parts(m: syn::ImplItemMethod) -> (res: (
    Vec<syn::Attribute>,
    syn::Visibility,
    Option<syn::token::Default>,
    syn::Signature,
    syn::Block,
))
    ensures
        res.0@ == method_attrs(m),
        res.1 == method_vis(m),
        res.2 == method_defaultness(m),
        res.3 == method_sig(m),
        res.4 == method_block(m),
{
    (m.attrs, m.vis, m.defaultness, m.sig, m.block)
}

/// A borrow of the `sig` field of a `syn::ImplItemMethod`: the method ends
/// with the signature that the borrow leaves, its other fields as they were.
#[verifier::external_body]
pub(crate) fn method_sig_mut(m: &mut syn::ImplItemMethod) -> (res: &mut syn::Signature)
    ensures
        *res == method_sig(*old(m)),
        method_sig(*final(m)) == *final(res),
        method_block(*final(m)) == method_block(*old(m)),
        method_attrs(*final(m)) == method_attrs(*old(m)),
        method_vis(*final(m)) == method_vis(*old(m)),
        method_defaultness(*final(m)) == method_defaultness(*old(m)),
{
    &mut m.sig
}

/// Sets the method's body to `{ tokens }`, the tokens kept as they are (one
/// verbatim statement, which prints as the tokens); its attributes and
/// signature stay.
#[verifier::external_body]
pub(crate) fn method_set_body(m: &mut syn::ImplItemMethod, tokens: proc_macro2::TokenStream)
    ensures
        block_tokens(method_block(*final(m))) == seq![TokTree::Group(Delim::Brace, stream_trees(tokens))],
        method_sig(*final(m)) == method_sig(*old(m)),
        method_attrs(*final(m)) == method_attrs(*old(m)),
{
    let stmt = syn::Stmt::Expr(syn::Expr::Verbatim(tokens));
    m.block = syn::Block { brace_token: Default::default(), stmts: vec![stmt] };
}

/// `mem::take` of the `items` of a `syn::ItemTrait`: returns them, and the
/// rest of the trait stays.
#[verifier::external_body]
pub(crate) fn trait_take_items(it: &mut syn::ItemTrait) -> (res: Vec<syn::TraitItem>)
    ensures
        res@ == trait_items(*old(it)),
        trait_generics_of(*final(it)) == trait_generics_of(*old(it)),
        trait_ident_of(*final(it)) == trait_ident_of(*old(it)),
        trait_rest(*final(it)) == trait_rest(*old(it)),
{
    core::mem::take(&mut it.items)
}

/// Assigns the `items` of a `syn::ItemTrait`; the rest of it stays.
#[verifier::external_body]
pub(crate) fn trait_put_items(it: &mut syn::ItemTrait, items: Vec<syn::TraitItem>)
    ensures
        trait_items(*final(it)) == items@,
        trait_rest(*final(it)) == trait_rest(*old(it)),
{
    it.items = items
}

/// The trait's generics.
#[verifier::external_body]
pub(crate) fn trait_generics(it: &syn::ItemTrait) -> (res: &syn::Generics)
    ensures
        *res == trait_generics_of(*it),
{
    &it.generics
}

/// The trait's name.
#[verifier::external_body]
pub(crate) fn trait_ident(it: &syn::ItemTrait) -> (res: &proc_macro2::Ident)
    ensures
        *res == trait_ident_of(*it),
{
    &it.ident
}

/// The `syn::TraitItem::Method` variant told apart: the method it holds, or
/// the item itself where it is another variant.
#[verifier::external_body]
pub(crate) fn trait_item_into_method(ti: syn::TraitItem) -> (res: Result<syn::TraitItemMethod, syn::TraitItem>)
    ensures
        res matches Ok(m) ==> trait_item_method(ti) == Some(m),
        res matches Err(o) ==> o == ti && trait_item_method(ti) is None,
{
    match ti {
        syn::TraitItem::Method(m) => Ok(m),
        other => Err(other),
    }
}

/// `TraitItem::Method`.
#[verifier::external_body]
pub(crate) fn trait_item_from_method(m: syn::TraitItemMethod) -> (res: syn::TraitItem)
    ensures
        trait_item_method(res) == Some(m),
{
    syn::TraitItem::Method(m)
}

/// `Option::is_some` on the `default` field of a `syn::TraitItemMethod`:
/// whether the method has a default body.
#[verifier::external_body]
pub(crate) fn trait_method_has_default(m: &syn::TraitItemMethod) -> (res: bool)
    ensures
        res == (trait_method_default(*m) is Some),
{
    m.default.is_some()
}

/// The attributes, signature and default body of a `syn::TraitItemMethod`,
/// moved out (its `;` dropped).
#[verifier::external_body]
pub(crate) fn trait_method_split(m: syn::TraitItemMethod) -> (res: (Vec<syn::Attribute>, syn::Signature, Option<syn::Block>))
    ensures
        res.0@ == trait_method_attrs(m),
        res.1 == trait_method_sig(m),
        res.2 == trait_method_default(m),
{
    (m.attrs, m.sig, m.default)
}

/// A `syn::TraitItemMethod` built from its fields, which it holds as given.
#[verifier::external_body]
pub(crate) fn trait_method_new(
    attrs: Vec<syn::Attribute>,
    sig: syn::Signature,
    default: Option<syn::Block>,
    semi_token: Option<syn::token::Semi>,
) -> (res: syn::TraitItemMethod)
    ensures
        trait_method_attrs(res) == attrs@,
        trait_method_sig(res) == sig,
        trait_method_default(res) == default,
{
    syn::TraitItemMethod { attrs, sig, default, semi_token }
}

/// `mem::take` of the `items` of a `syn::ItemImpl`: returns them, and the
/// rest of the block stays.
#[verifier::external_body]
pub(crate) fn impl_take_items(it: &mut syn::ItemImpl) -> (res: Vec<syn::ImplItem>)
    ensures
        res@ == impl_items(*old(it)),
        impl_generics_of(*final(it)) == impl_generics_of(*old(it)),
        impl_self_ty_of(*final(it)) == impl_self_ty_of(*old(it)),
        impl_trait_of(*final(it)) == impl_trait_of(*old(it)),
        impl_rest(*final(it)) == impl_rest(*old(it)),
{
    core::mem::take(&mut it.items)
}

/// Assigns the `items` of a `syn::ItemImpl`; the rest of it stays.
#[verifier::external_body]
pub(crate) fn impl_put_items(it: &mut syn::ItemImpl, items: Vec<syn::ImplItem>)
    ensures
        impl_items(*final(it)) == items@,
        impl_rest(*final(it)) == impl_rest(*old(it)),
{
    it.items = items
}

/// The `impl` block's generics.
#[verifier::external_body]
pub(crate) fn impl_generics(it: &syn::ItemImpl) -> (res: &syn::Generics)
    ensures
        *res == impl_generics_of(*it),
{
    &it.generics
}

/// The `impl` block's self type.
#[verifier::external_body]
pub(crate) fn impl_self_ty(it: &syn::ItemImpl) -> (res: &syn::Type)
    ensures
        *res == impl_self_ty_of(*it),
{
    &it.self_ty
}

/// The path of the trait that the `impl` block implements, if any.
#[verifier::external_body]
pub(crate) fn impl_trait_path(it: &syn::ItemImpl) -> (res: Option<&syn::Path>)
    ensures
        match res {
            Some(p) => impl_trait_of(*it) == Some(*p),
            None => impl_trait_of(*it) is None,
        },
{
    it.trait_.as_ref().map(|(_, path, _)| path)
}

/// The `syn::ImplItem::Method` variant told apart: the method it holds, or
/// the item itself where it is another variant.
#[verifier::external_body]
pub(crate) fn impl_item_into_method(ii: syn::ImplItem) -> (res: Result<syn::ImplItemMethod, syn::ImplItem>)
    ensures
        res matches Ok(m) ==> impl_item_method(ii) == Some(m),
        res matches Err(o) ==> o == ii && impl_item_method(ii) is None,
{
    match ii {
        syn::ImplItem::Method(m) => Ok(m),
        other => Err(other),
    }
}

/// `ImplItem::Method`.
#[verifier::external_body]
pub(crate) fn impl_item_from_method(m: syn::ImplItemMethod) -> (res: syn::ImplItem)
    ensures
        impl_item_method(res) == Some(m),
{
    syn::ImplItem::Method(m)
}

/// Whether every call of `with` returns `Ok`.
pub open spec fn never_fails<F>(with: F) -> bool
    where F: FnMut(&mut syn::ImplItemMethod, Option<&mut WrappedFuncCall<'_>>) -> Result<(), syn::Error>,
{
    forall|m: &mut syn::ImplItemMethod, w: Option<&mut WrappedFuncCall<'_>>, r: Result<(), syn::Error>|
        #[trigger] call_ensures(with, (m, w), r) ==> r is Ok
}

/// Whether every call of `with` that hands it a wrapped call returns `Ok`.
pub open spec fn never_fails_when_wrapped<F>(with: F) -> bool
    where F: FnMut(&mut syn::ImplItemMethod, Option<&mut WrappedFuncCall<'_>>) -> Result<(), syn::Error>,
{
    forall|m: &mut syn::ImplItemMethod, w: Option<&mut WrappedFuncCall<'_>>, r: Result<(), syn::Error>|
        #[trigger] call_ensures(with, (m, w), r) && w is Some ==> r is Ok
}

/// `x` is the wrapped call of the default method `tm` of the trait `t`: its
/// signature and default body, in the scope of the trait's generics and name.
pub open spec fn is_default_method_call(x: WrappedFuncCall, t: syn::ItemTrait, tm: syn::TraitItemMethod) -> bool {
    &&& x.sig == trait_method_sig(tm)
    &&& trait_method_default(tm) == Some(x.block)
    &&& x.outer_scope matches Some((g, ImplOrTrait::DefaultMethod { trait_name }))
    &&& *g == trait_generics_of(t)
    &&& *trait_name == trait_ident_of(t)
}

/// `x` is the wrapped call of the method `m` of the `impl` block `i`: its
/// signature and body, in the scope of the block's generics, self type and
/// trait.
pub open spec fn is_impl_method_call(x: WrappedFuncCall, i: syn::ItemImpl, m: syn::ImplItemMethod) -> bool {
    &&& x.sig == method_sig(m)
    &&& x.block == method_block(m)
    &&& x.outer_scope matches Some((g, ImplOrTrait::ImplMethod { implementor, trait_name }))
    &&& *g == impl_generics_of(i)
    &&& *implementor == impl_self_ty_of(i)
    &&& match trait_name {
        Some(p) => impl_trait_of(i) == Some(*p),
        None => impl_trait_of(i) is None,
    }
}

/// The method that `with` is handed for a function whose signature was
/// `sig`: the signature rewritten (in a trait or an `impl` block where
/// `scoped`), everything else in it as it was, and the body `{}`.
pub open spec fn is_handed_method(m: syn::ImplItemMethod, sig: syn::Signature, scoped: bool) -> bool {
    &&& sig_inputs(method_sig(m)) == rewrite_inputs(sig_inputs(sig), scoped)
    &&& fn_name(method_sig(m)) == fn_name(sig)
    &&& sig_frame(method_sig(m)) == sig_frame(sig)
    &&& block_tokens(method_block(m)) == seq![TokTree::Group(Delim::Brace, Seq::empty())]
}

/// The wrapped call `x` forwards the parameters of the method `m`: one
/// expression per parameter, in order, the name that binds it.
pub open spec fn forwards_params(x: WrappedFuncCall, m: syn::ImplItemMethod) -> bool {
    &&& x.call_site_args.len() == sig_inputs(method_sig(m)).len()
    &&& forall|k: int|
        0 <= k < x.call_site_args.len() ==> expr_tokens(#[trigger] x.call_site_args@[k]) == seq![
            TokTree::Ident(call_name(sig_inputs(method_sig(m))[k])),
        ]
}

/// `x` is the wrapped call of the free function `f`, handed with `m`.
pub open spec fn is_fn_wrapped_call(x: WrappedFuncCall, f: syn::ItemFn, m: syn::ImplItemMethod) -> bool {
    &&& x.sig == item_fn_sig(f)
    &&& x.block == item_fn_block(f)
    &&& x.outer_scope is None
    &&& forwards_params(x, m)
}

/// What `with` is handed for the free function `f`: the function as a
/// method `m`, with its attributes and visibility and no `default` keyword,
/// and its wrapped call, or `None` where a parameter `self: T` stops the
/// wrapping.
pub open spec fn is_fn_call(m: syn::ImplItemMethod, w: Option<&mut WrappedFuncCall<'_>>, f: syn::ItemFn) -> bool {
    &&& is_handed_method(m, item_fn_sig(f), false)
    &&& method_attrs(m) == item_fn_attrs(f)
    &&& method_vis(m) == item_fn_vis(f)
    &&& method_defaultness(m) is None
    &&& match w {
        Some(x) => wrappable(sig_inputs(item_fn_sig(f)), false) && is_fn_wrapped_call(*x, f, m),
        None => !wrappable(sig_inputs(item_fn_sig(f)), false),
    }
}

/// What `with` is handed for the default method `tm` of the trait `t`: the
/// method `m`, with its attributes and no `default` keyword, and its wrapped
/// call.
pub open spec fn is_default_call(
    m: syn::ImplItemMethod,
    w: Option<&mut WrappedFuncCall<'_>>,
    t: syn::ItemTrait,
    tm: syn::TraitItemMethod,
) -> bool {
    &&& is_handed_method(m, trait_method_sig(tm), true)
    &&& method_attrs(m) == trait_method_attrs(tm)
    &&& method_defaultness(m) is None
    &&& match w {
        Some(x) => is_default_method_call(*x, t, tm) && forwards_params(*x, m),
        None => false,
    }
}

/// What `with` is handed for the method `m0` of the `impl` block `i`: the
/// method `m`, with the attributes, visibility and `default` keyword of
/// `m0`, and its wrapped call.
pub open spec fn is_impl_call(
    m: syn::ImplItemMethod,
    w: Option<&mut WrappedFuncCall<'_>>,
    i: syn::ItemImpl,
    m0: syn::ImplItemMethod,
) -> bool {
    &&& is_handed_method(m, method_sig(m0), true)
    &&& method_attrs(m) == method_attrs(m0)
    &&& method_vis(m) == method_vis(m0)
    &&& method_defaultness(m) == method_defaultness(m0)
    &&& match w {
        Some(x) => is_impl_method_call(*x, i, m0) && forwards_params(*x, m),
        None => false,
    }
}

/// What wrapping `item` with `with` gives, but for the functions that `with`
/// is handed: any other item than a free function, a trait definition or an
/// `impl` block is an error; the result is an item of the same kind; it is an
/// error only where `with` returns one, and then it is an error that `with`
/// returned (so it is no error where `with` returns none on a call that hands
/// it a wrapped call, for a trait definition, an `impl` block or a free
/// function that no parameter `self: T` stops).
pub open spec fn wraps_outline<F>(item: syn::Item, with: F, res: Result<syn::Item, syn::Error>) -> bool
    where F: FnMut(&mut syn::ImplItemMethod, Option<&mut WrappedFuncCall<'_>>) -> Result<(), syn::Error>,
{
    &&& item_kind(item) == ItemKind::Other ==> (res matches Err(e) && error_messages(e) == seq![
        unexpected_item_message(),
    ])
    &&& res matches Ok(r) ==> item_kind(r) == item_kind(item)
    &&& item_kind(item) != ItemKind::Other && never_fails(with) ==> res is Ok
    &&& (item_kind(item) == ItemKind::Trait || item_kind(item) == ItemKind::Impl)
        && never_fails_when_wrapped(with) ==> res is Ok
    &&& item_as_fn(item) matches Some(f) ==> (wrappable(sig_inputs(item_fn_sig(f)), false)
        && never_fails_when_wrapped(with) ==> res is Ok)
    &&& res matches Err(e) ==> (item_kind(item) != ItemKind::Other ==> exists|
        m: &mut syn::ImplItemMethod,
        w: Option<&mut WrappedFuncCall<'_>>,
    | #[trigger] call_ensures(with, (m, w), Err(e)))
}

/// Wraps every function of `item` and hands each one to `with`, with its
/// wrapped call (`None` where the function cannot be wrapped): a free
/// function, each default method of a trait definition, or each method of an
/// `impl` block. The first error of `with` is returned; any other item is an
/// error.
pub fn func_wrap_item<F>(item: syn::Item, with: F) -> (res: Result<syn::Item, syn::Error>)
    where F: FnMut(&mut syn::ImplItemMethod, Option<&mut WrappedFuncCall<'_>>) -> Result<(), syn::Error>,
    requires
        forall|m: &mut syn::ImplItemMethod, w: Option<&mut WrappedFuncCall<'_>>|
            #[trigger] call_requires(with, (m, w)),
    ensures
        wraps_outline(item, with, res),
        // a free function: handed to `with` with its wrapped call (`None`
        // where a parameter `self: T` stops the wrapping); the result is the
        // method that `with` leaves, as a free function
        item_as_fn(item) matches Some(f) ==> (res matches Ok(r) ==> exists|
            m: &mut syn::ImplItemMethod,
            w: Option<&mut WrappedFuncCall<'_>>,
        | {
            &&& #[trigger] call_ensures(with, (m, w), Ok(()))
            &&& is_fn_call(*m, w, f)
            &&& item_as_fn(r) matches Some(f2)
            &&& item_fn_sig(f2) == method_sig(*final(m))
            &&& item_fn_block(f2) == method_block(*final(m))
            &&& item_fn_attrs(f2) == method_attrs(*final(m))
            &&& item_fn_vis(f2) == method_vis(*final(m))
        })
,
        // a trait definition: each method with a default body is handed to
        // `with` with its wrapped call, and becomes the method that `with`
        // leaves, with that method's body as its default body; other items stay
        item_as_trait(item) matches Some(t) ==> (res matches Ok(r) ==> {
            &&& item_as_trait(r) matches Some(t2)
            &&& trait_items(t2).len() == trait_items(t).len()
            &&& trait_rest(t2) == trait_rest(t)
            &&& forall|j: int| 0 <= j < trait_items(t).len() ==> match #[trigger] trait_item_method(trait_items(t)[j]) {
                None => trait_items(t2)[j] == trait_items(t)[j],
                Some(tm) => if trait_method_default(tm) is Some {
                    exists|m: &mut syn::ImplItemMethod, w: Option<&mut WrappedFuncCall<'_>>| {
                        &&& #[trigger] call_ensures(with, (m, w), Ok(()))
                        &&& is_default_call(*m, w, t, tm)
                        &&& trait_item_method(trait_items(t2)[j]) matches Some(tm2)
                        &&& trait_method_sig(tm2) == method_sig(*final(m))
                        &&& trait_method_default(tm2) == Some(method_block(*final(m)))
                        &&& trait_method_attrs(tm2) == method_attrs(*final(m))
                    }
                } else {
                    trait_item_method(trait_items(t2)[j]) == Some(tm)
                },
            }
        })
,
        // an `impl` block: each method is handed to `with` with its wrapped
        // call, and becomes the method that `with` leaves; other items stay
        item_as_impl(item) matches Some(i) ==> (res matches Ok(r) ==> {
            &&& item_as_impl(r) matches Some(i2)
            &&& impl_items(i2).len() == impl_items(i).len()
            &&& impl_rest(i2) == impl_rest(i)
            &&& forall|j: int| 0 <= j < impl_items(i).len() ==> match #[trigger] impl_item_method(impl_items(i)[j]) {
                None => impl_items(i2)[j] == impl_items(i)[j],
                Some(m0) => exists|m: &mut syn::ImplItemMethod, w: Option<&mut WrappedFuncCall<'_>>| {
                    &&& #[trigger] call_ensures(with, (m, w), Ok(()))
                    &&& is_impl_call(*m, w, i, m0)
                    &&& impl_item_method(impl_items(i2)[j]) == Some(*final(m))
                },
            }
        }),
{
    let mut callback = with;
    match split_item(item) {
        ItemCase::Fn(it) => {
            let (attrs, vis, sig, block) = fn_split(it);
            let mut func = impl_method_new(attrs, vis, None, sig, empty_block());
            let mut wrapped = func_wrap(method_sig_mut(&mut func), block, None);
            callback(&mut func, wrapped.as_mut())?;
            Ok(item_from_fn(method_into_fn(func)))
        },
        ItemCase::Trait(mut it) => {
            let ghost t = it;
            let mut rest = trait_take_items(&mut it);
            let ghost before = rest@;
            let mut out: Vec<syn::TraitItem> = Vec::new();
            {
                let outer_scope = Some(
                    (trait_generics(&it), ImplOrTrait::DefaultMethod { trait_name: trait_ident(&it) }),
                );
                let n = rest.len();
                let mut i: usize = 0;
                while i < n
                    invariant
                        forall|m: &mut syn::ImplItemMethod, w: Option<&mut WrappedFuncCall<'_>>|
                            #[trigger] call_requires(callback, (m, w)),
                        callback == with,
                        n == before.len(),
                        before == trait_items(t),
                        item_as_fn(item) is None,
                        item_as_trait(item) == Some(t),
                        i <= n,
                        rest@ == before.subrange(i as int, n as int),
                        out@.len() == i,
                        forall|j: int| 0 <= j < i ==> match trait_item_method(before[j]) {
                            None => #[trigger] out@[j] == before[j],
                            Some(tm) => if trait_method_default(tm) is Some {
                                exists|m: &mut syn::ImplItemMethod, w: Option<&mut WrappedFuncCall<'_>>| {
                                    &&& #[trigger] call_ensures(with, (m, w), Ok(()))
                                    &&& is_default_call(*m, w, t, tm)
                                    &&& trait_item_method(out@[j]) matches Some(tm2)
                                    &&& trait_method_sig(tm2) == method_sig(*final(m))
                                    &&& trait_method_default(tm2) == Some(method_block(*final(m)))
                                    &&& trait_method_attrs(tm2) == method_attrs(*final(m))
                                }
                            } else {
                                trait_item_method(out@[j]) == Some(tm)
                            },
                        },
                        outer_scope matches Some((g, ImplOrTrait::DefaultMethod { trait_name })),
                        outer_scope matches Some((g, _)) && *g == trait_generics_of(t),
                        outer_scope matches Some((_, ImplOrTrait::DefaultMethod { trait_name })) && *trait_name == trait_ident_of(t),
                    decreases n - i,
                {
                    let ghost out_before = out@;
                    let ti = rest.remove(0);
                    assert(ti == before[i as int]);
                    match trait_item_into_method(ti) {
                        Err(other) => {
                            out.push(other);
                        },
                        Ok(tm) => {
                            if trait_method_has_default(&tm) {
                                let (attrs, sig, default) = trait_method_split(tm);
                                match default {
                                    Some(block) => {
                                        let mut func = impl_method_new(
                                            attrs,
                                            visibility_inherited(),
                                            None,
                                            sig,
                                            empty_block(),
                                        );
                                        proof { lemma_scoped_always_wrappable(sig_inputs(method_sig(func))); }
                                        let mut wrapped = func_wrap(method_sig_mut(&mut func), block, outer_scope);
                                        callback(&mut func, wrapped.as_mut())?;
                                        let (attrs, sig, block) = impl_method_split(func);
                                        out.push(trait_item_from_method(trait_method_new(attrs, sig, Some(block), None)));
                                    },
                                    None => {
                                        proof { assert(false); }
                                    },
                                }
                            } else {
                                out.push(trait_item_from_method(tm));
                            }
                        },
                    }
                    assert forall|j: int| 0 <= j < i implies #[trigger] out@[j] == out_before[j] by {}
                    i += 1;
                }
            }
            trait_put_items(&mut it, out);
            Ok(item_from_trait(it))
        },
        ItemCase::Impl(mut it) => {
            let ghost imp = it;
            let mut rest = impl_take_items(&mut it);
            let ghost before = rest@;
            let mut out: Vec<syn::ImplItem> = Vec::new();
            {
                let outer_scope = Some(
                    (
                        impl_generics(&it),
                        ImplOrTrait::ImplMethod {
                            implementor: impl_self_ty(&it),
                            trait_name: impl_trait_path(&it),
                        },
                    ),
                );
                let n = rest.len();
                let mut i: usize = 0;
                while i < n
                    invariant
                        forall|m: &mut syn::ImplItemMethod, w: Option<&mut WrappedFuncCall<'_>>|
                            #[trigger] call_requires(callback, (m, w)),
                        callback == with,
                        n == before.len(),
                        before == impl_items(imp),
                        item_as_fn(item) is None,
                        item_as_trait(item) is None,
                        item_as_impl(item) == Some(imp),
                        i <= n,
                        rest@ == before.subrange(i as int, n as int),
                        out@.len() == i,
                        forall|j: int| #![trigger impl_item_method(before[j])] 0 <= j < i ==> match impl_item_method(before[j]) {
                            None => out@[j] == before[j],
                            Some(m1) => exists|m: &mut syn::ImplItemMethod, w: Option<&mut WrappedFuncCall<'_>>| {
                                &&& #[trigger] call_ensures(with, (m, w), Ok(()))
                                &&& is_impl_call(*m, w, imp, m1)
                                &&& impl_item_method(out@[j]) == Some(*final(m))
                            },
                        },
                        outer_scope matches Some((g, ImplOrTrait::ImplMethod { implementor, trait_name })),
                        outer_scope matches Some((g, _)) && *g == impl_generics_of(imp),
                        outer_scope matches Some((_, ImplOrTrait::ImplMethod { implementor, trait_name })) && *implementor
                            == impl_self_ty_of(imp) && match trait_name {
                            Some(p) => impl_trait_of(imp) == Some(*p),
                            None => impl_trait_of(imp) is None,
                        },
                    decreases n - i,
                {
                    let ghost out_before = out@;
                    let ii = rest.remove(0);
                    assert(ii == before[i as int]);
                    match impl_item_into_method(ii) {
                        Err(other) => {
                            out.push(other);
                        },
                        Ok(method) => {
                            let (attrs, vis, defaultness, sig, block) = impl_method_parts(method);
                            let mut func = impl_method_new(attrs, vis, defaultness, sig, empty_block());
                            proof { lemma_scoped_always_wrappable(sig_inputs(method_sig(func))); }
                            let mut wrapped = func_wrap(method_sig_mut(&mut func), block, outer_scope);
                            callback(&mut func, wrapped.as_mut())?;
                            out.push(impl_item_from_method(func));
                        },
                    }
                    assert forall|j: int| 0 <= j < i implies #[trigger] out@[j] == out_before[j] by {}
                    i += 1;
                }
            }
            impl_put_items(&mut it, out);
            Ok(item_from_impl(it))
        },
        ItemCase::Other(other) => {
            proof { reveal_strlit("Expected an `fn` item, a `trait` definition, or an `impl` block."); }
            Err(error_new(item_span(&other), "Expected an `fn` item, a `trait` definition, or an `impl` block."))
        },
    }
}

/// Parses `input` as an item and wraps its functions as `func_wrap_item`
/// does: tokens that are not one item are an error; otherwise the result is
/// what `func_wrap_item` returns on the parsed item.
pub fn parse_and_func_wrap_with<I, F>(input: I, with: F) -> (res: Result<syn::Item, syn::Error>)
    where
        I: Into<proc_macro2::TokenStream>,
        F: FnMut(&mut syn::ImplItemMethod, Option<&mut WrappedFuncCall<'_>>) -> Result<(), syn::Error>,
    requires
        forall|m: &mut syn::ImplItemMethod, w: Option<&mut WrappedFuncCall<'_>>|
            #[trigger] call_requires(with, (m, w)),
    ensures
        exists|ts: proc_macro2::TokenStream|
            #[trigger] converts_to(input, ts) && match parsed_item(ts) {
                Err(e) => res == Err::<syn::Item, syn::Error>(e),
                Ok(item) => {
                    &&& wraps_outline(item, with, res)
                    &&& item_as_fn(item) matches Some(f) ==> (res matches Ok(r) ==> exists|
                        m: &mut syn::ImplItemMethod,
                        w: Option<&mut WrappedFuncCall<'_>>,
                    | {
                        &&& #[trigger] call_ensures(with, (m, w), Ok(()))
                        &&& is_fn_call(*m, w, f)
                        &&& item_as_fn(r) matches Some(f2)
                        &&& item_fn_sig(f2) == method_sig(*final(m))
                        &&& item_fn_block(f2) == method_block(*final(m))
                        &&& item_fn_attrs(f2) == method_attrs(*final(m))
                        &&& item_fn_vis(f2) == method_vis(*final(m))
                    })
                    &&& item_as_trait(item) matches Some(t) ==> (res matches Ok(r) ==> {
                        &&& item_as_trait(r) matches Some(t2)
                        &&& trait_items(t2).len() == trait_items(t).len()
                        &&& trait_rest(t2) == trait_rest(t)
                        &&& forall|j: int| 0 <= j < trait_items(t).len() ==> match #[trigger] trait_item_method(trait_items(t)[j]) {
                            None => trait_items(t2)[j] == trait_items(t)[j],
                            Some(tm) => if trait_method_default(tm) is Some {
                                exists|m: &mut syn::ImplItemMethod, w: Option<&mut WrappedFuncCall<'_>>| {
                                    &&& #[trigger] call_ensures(with, (m, w), Ok(()))
                                    &&& is_default_call(*m, w, t, tm)
                                    &&& trait_item_method(trait_items(t2)[j]) matches Some(tm2)
                                    &&& trait_method_sig(tm2) == method_sig(*final(m))
                                    &&& trait_method_default(tm2) == Some(method_block(*final(m)))
                                    &&& trait_method_attrs(tm2) == method_attrs(*final(m))
                                }
                            } else {
                                trait_item_method(trait_items(t2)[j]) == Some(tm)
                            },
                        }
                    })
                    &&& item_as_impl(item) matches Some(i) ==> (res matches Ok(r) ==> {
                        &&& item_as_impl(r) matches Some(i2)
                        &&& impl_items(i2).len() == impl_items(i).len()
                        &&& impl_rest(i2) == impl_rest(i)
                        &&& forall|j: int| 0 <= j < impl_items(i).len() ==> match #[trigger] impl_item_method(impl_items(i)[j]) {
                            None => impl_items(i2)[j] == impl_items(i)[j],
                            Some(m0) => exists|m: &mut syn::ImplItemMethod, w: Option<&mut WrappedFuncCall<'_>>| {
                                &&& #[trigger] call_ensures(with, (m, w), Ok(()))
                                &&& is_impl_call(*m, w, i, m0)
                                &&& impl_item_method(impl_items(i2)[j]) == Some(*final(m))
                            },
                        }
                    })
                },
            },
{
    let stream = input.into();
    let ghost ts = stream;
    assert(converts_to(input, ts));
    let item = match parse_item(stream) {
        Ok(item) => item,
        Err(e) => {
            return Err(e);
        },
    };
    func_wrap_item(item, with)
}

/// The body that `attr` gives a function: `{ expansion }`, the expansion of
/// its wrapped call; a function that could not be wrapped is an error.
pub fn wrap_in_body(func: &mut syn::ImplItemMethod, wrapped: Option<&mut WrappedFuncCall<'_>>) -> (res:
    Result<(), syn::Error>)
    ensures
        res is Err <==> wrapped is None,
        res matches Err(e) ==> error_messages(e) == seq![missing_scope_message()],
        wrapped matches Some(w) ==> exists|e: Seq<TokTree>| #![trigger expands_to(*w, e)] {
            &&& expands_to(*w, e)
            &&& block_tokens(method_block(*final(func))) == seq![TokTree::Group(Delim::Brace, e)]
            &&& method_sig(*final(func)) == method_sig(*old(func))
            &&& method_attrs(*final(func)) == method_attrs(*old(func))
        },
{
    match wrapped {
        Some(w) => {
            let body = w.to_token_stream();
            let ghost e = stream_trees(body);
            method_set_body(func, body);
            assert(expands_to(*w, e));
            Ok(())
        },
        None => {
            proof { reveal_strlit("Missing `#[attr]` on the enscoping `trait` or `impl`"); }
            Err(error_new(crate::tokens::call_site(), "Missing `#[attr]` on the enscoping `trait` or `impl`"))
        },
    }
}

/// Whether `attr` wraps every function of the item: a trait definition, an
/// `impl` block, or a free function that no parameter `self: T` stops.
pub open spec fn attr_wraps(item: syn::Item) -> bool {
    match item_as_fn(item) {
        Some(f) => wrappable(sig_inputs(item_fn_sig(f)), false),
        None => item_as_trait(item) is Some || item_as_impl(item) is Some,
    }
}

/// A token stream is itself what `into` makes of it.
proof fn lemma_stream_into_itself(input: proc_macro2::TokenStream)
    ensures
        forall|ts: proc_macro2::TokenStream| #[trigger] converts_to(input, ts) ==> ts == input,
{
    assert forall|ts: proc_macro2::TokenStream| #[trigger] converts_to(input, ts) implies ts == input by {}
}

/// The attribute `#[attr]`: takes no arguments, and replaces the body of each
/// function of the item (a free function, the default methods of a trait, the
/// methods of an `impl` block) by the expansion of its wrapped call. Errors
/// become `compile_error!` invocations.
pub fn attr(attrs: proc_macro2::TokenStream, input: proc_macro2::TokenStream) -> (res:
    proc_macro2::TokenStream)
    ensures
        (exists|i: int|
            0 <= i < stream_trees(attrs).len() && !(#[trigger] stream_trees(attrs)[i] matches TokTree::Group(
                Delim::Invisible,
                _,
            ))) ==> is_error_report(stream_trees(res)),
        parsed_nothing(attrs) matches Err(e) ==> stream_trees(res) == error_report(e),
        stream_trees(attrs).len() == 0 ==> parsed_nothing(attrs) is Ok,
        parsed_nothing(attrs) is Ok ==> match parsed_item(input) {
            Err(e) => stream_trees(res) == error_report(e),
            Ok(item) => if item_kind(item) == ItemKind::Other {
                stream_trees(res) == message_report(unexpected_item_message())
            } else if attr_wraps(item) {
                &&& !is_error_report(stream_trees(res))
                &&& exists|r: syn::Item| {
                    &&& stream_trees(res) == #[trigger] item_tokens(r)
                    &&& wraps_outline(item, wrap_in_body, Ok(r))
                    &&& item_as_fn(item) matches Some(f) ==> (exists|
                        m: &mut syn::ImplItemMethod,
                        w: Option<&mut WrappedFuncCall<'_>>,
                    | {
                        &&& #[trigger] call_ensures(wrap_in_body, (m, w), Ok(()))
                        &&& is_fn_call(*m, w, f)
                        &&& item_as_fn(r) matches Some(f2)
                        &&& item_fn_sig(f2) == method_sig(*final(m))
                        &&& item_fn_block(f2) == method_block(*final(m))
                        &&& item_fn_attrs(f2) == method_attrs(*final(m))
                        &&& item_fn_vis(f2) == method_vis(*final(m))
                    })
                    &&& item_as_trait(item) matches Some(t) ==> ({
                        &&& item_as_trait(r) matches Some(t2)
                        &&& trait_items(t2).len() == trait_items(t).len()
                        &&& trait_rest(t2) == trait_rest(t)
                        &&& forall|j: int| 0 <= j < trait_items(t).len() ==> match #[trigger] trait_item_method(trait_items(t)[j]) {
                            None => trait_items(t2)[j] == trait_items(t)[j],
                            Some(tm) => if trait_method_default(tm) is Some {
                                exists|m: &mut syn::ImplItemMethod, w: Option<&mut WrappedFuncCall<'_>>| {
                                    &&& #[trigger] call_ensures(wrap_in_body, (m, w), Ok(()))
                                    &&& is_default_call(*m, w, t, tm)
                                    &&& trait_item_method(trait_items(t2)[j]) matches Some(tm2)
                                    &&& trait_method_sig(tm2) == method_sig(*final(m))
                                    &&& trait_method_default(tm2) == Some(method_block(*final(m)))
                                    &&& trait_method_attrs(tm2) == method_attrs(*final(m))
                                }
                            } else {
                                trait_item_method(trait_items(t2)[j]) == Some(tm)
                            },
                        }
                    })
                    &&& item_as_impl(item) matches Some(i) ==> ({
                        &&& item_as_impl(r) matches Some(i2)
                        &&& impl_items(i2).len() == impl_items(i).len()
                        &&& impl_rest(i2) == impl_rest(i)
                        &&& forall|j: int| 0 <= j < impl_items(i).len() ==> match #[trigger] impl_item_method(impl_items(i)[j]) {
                            None => impl_items(i2)[j] == impl_items(i)[j],
                            Some(m0) => exists|m: &mut syn::ImplItemMethod, w: Option<&mut WrappedFuncCall<'_>>| {
                                &&& #[trigger] call_ensures(wrap_in_body, (m, w), Ok(()))
                                &&& is_impl_call(*m, w, i, m0)
                                &&& impl_item_method(impl_items(i2)[j]) == Some(*final(m))
                            },
                        }
                    })
                }
            } else {
                stream_trees(res) == message_report(missing_scope_message())
            },
        },
{
    match parse_nothing(attrs) {
        Err(e) => {
            return error_stream(&e);
        },
        Ok(()) => {},
    }
    let res = parse_and_func_wrap_with(input, wrap_in_body);
    proof {
        // the input is parsed as it is, and `wrap_in_body` fails exactly
        // where it is handed no wrapped call, with the missing-scope message
        lemma_stream_into_itself(input);
        let ts = choose|ts: proc_macro2::TokenStream| #[trigger] converts_to(input, ts);
        assert(ts == input);
        assert forall|m: &mut syn::ImplItemMethod, w: Option<&mut WrappedFuncCall<'_>>, r: Result<(), syn::Error>|
            #[trigger] call_ensures(wrap_in_body, (m, w), r) implies (r is Ok <==> w is Some) && (r matches Err(e)
                ==> error_messages(e) == seq![missing_scope_message()]) by {}
        assert(never_fails_when_wrapped(wrap_in_body));
    }
    match res {
        Ok(item) => {
            let out = item_stream(&item);
            proof {
                if is_error_report(stream_trees(out)) {
                    lemma_error_report_start(stream_trees(out));
                }
            }
            out
        },
        Err(e) => {
            proof {
                if let Ok(item) = parsed_item(input) {
                    if item_kind(item) == ItemKind::Other {
                        lemma_message_report(e, unexpected_item_message());
                    } else {
                        lemma_message_report(e, missing_scope_message());
                    }
                }
            }
            error_stream(&e)
        },
    }
}

} // verus!
